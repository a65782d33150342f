//! The interaction controller: from window events to camera moves.
//!
//! The host feeds the controller one event at a time, in the order in which
//! the window system delivered them. The controller pans the camera while
//! the pointer drags, zooms it on the wheel, keeps the renderer's viewport in
//! step with the window, and tells the host what to do next: redraw, present
//! a frame, resize the surface, or stop. Once a close was requested the
//! controller is closed for good and no event moves anything.

use vstd::prelude::*;
use vstd::arithmetic::power2::{lemma2_to64, lemma_pow2_adds, pow2};
use crate::arith::{on_axes, total, yields, yields_on_axes, Operation, Vector2};
use crate::camera::{Camera, Viewport};
use crate::render::command::{GlCommand, COLOR_BUFFER_BIT};
use crate::render::{clear_color_command, viewport_command, Renderer};
use crate::scalar::{lemma_only_zeros_have_no_steps, Scalar, ZERO_BITS};

verus! {

/// The bit pattern of `7.0`.
pub const SEVEN_BITS: u32 = 0x40e0_0000;

/// The bit pattern of `8.0`.
pub const EIGHT_BITS: u32 = 0x4100_0000;

/// Whether a button or a key went down or came up.
#[derive(Clone, Copy, Debug, PartialEq, Eq, Hash, Structural)]
pub enum ButtonState {
    Pressed,
    Released,
}

/// The keys that the controller tells apart.
#[derive(Clone, Copy, Debug, PartialEq, Eq, Hash, Structural)]
pub enum Key {
    Escape,
    Other,
}

/// How far the wheel turned, in lines or in pixels, on both axes.
#[derive(Clone, Copy, Debug, PartialEq, Eq, Hash, Structural)]
pub enum ScrollDelta {
    Lines { x: Scalar, y: Scalar },
    Pixels { x: Scalar, y: Scalar },
}

/// Which way the wheel turned.
#[derive(Clone, Copy, Debug, PartialEq, Eq, Hash, Structural)]
pub enum Turn {
    /// By a number above nought: zoom in.
    Up,
    /// By a number below nought: zoom out.
    Down,
    /// By nought, or by no number at all: the zoom stays.
    Still,
}

/// What the window system reports.
#[derive(Clone, Copy, Debug, PartialEq, Eq, Hash, Structural)]
pub enum Event {
    /// The window wants a new frame.
    RedrawRequested,
    /// The window has a new size, in physical pixels.
    Resized { width: u32, height: u32 },
    /// The pointer is at a new position, in pixels.
    PointerMoved { position: Vector2 },
    /// A pointer button went down or came up.
    PointerButton { state: ButtonState },
    /// The wheel turned.
    Wheel { delta: ScrollDelta },
    /// The user asked to close the window.
    CloseRequested,
    /// A key went down or came up.
    Keyboard { key: Key, state: ButtonState },
    /// Anything else.
    Other,
}

/// Where the controller stands.
#[derive(Clone, Copy, Debug, PartialEq, Eq, Hash, Structural)]
pub enum Phase {
    /// No button is down.
    Idle,
    /// A button is down. `origin` is where the pointer was when it went
    /// down, `baseline` where the camera was.
    Dragging { origin: Vector2, baseline: Vector2 },
    /// A close was requested. Nothing leaves this phase.
    Closed,
}

/// The controller's state: the last known pointer position and the phase.
#[derive(Clone, Copy, Debug, PartialEq, Eq, Hash, Structural)]
pub struct Controller {
    pub pointer: Vector2,
    pub phase: Phase,
}

/// What the host is to do after an event.
#[derive(Clone, Copy, Debug, PartialEq, Eq, Hash, Structural)]
pub struct Response {
    /// Stop the event loop. When this is `false` the loop waits for the
    /// next event.
    pub exit: bool,
    /// Ask the window for a redraw. Requests made before the next frame
    /// count as one.
    pub redraw: bool,
    /// Execute the recorded commands, draw the scene and swap the buffers.
    pub present: bool,
    /// Resize the presentation surface to this size, which has both a
    /// width and a height.
    pub surface: Option<Viewport>,
}

impl ScrollDelta {
    /// The turn along the vertical axis.
    pub open spec fn spec_vertical(self) -> Scalar {
        match self {
            ScrollDelta::Lines { x, y } => y,
            ScrollDelta::Pixels { x, y } => y,
        }
    }

    /// The turn of the wheel along the vertical axis, whatever its unit.
    #[verifier::when_used_as_spec(spec_vertical)]
    pub fn vertical(self) -> (r: Scalar)
        ensures
            r == self.spec_vertical(),
    {
        match self {
            ScrollDelta::Lines { x: _, y } => y,
            ScrollDelta::Pixels { x: _, y } => y,
        }
    }
}

impl Event {
    /// A close request of the window, or the Escape key going down.
    pub open spec fn spec_requests_close(self) -> bool {
        self is CloseRequested || self == (Event::Keyboard {
            key: Key::Escape,
            state: ButtonState::Pressed,
        })
    }

    /// Whether the event asks the application to end: a close request of
    /// the window, or the Escape key going down.
    #[verifier::when_used_as_spec(spec_requests_close)]
    pub fn requests_close(self) -> (r: bool)
        ensures
            r == self.spec_requests_close(),
    {
        match self {
            Event::CloseRequested => true,
            Event::Keyboard { key: Key::Escape, state: ButtonState::Pressed } => true,
            _ => false,
        }
    }
}

impl Response {
    /// The response that asks nothing of the host.
    pub open spec fn quiet() -> Response {
        Response { exit: false, redraw: false, present: false, surface: None }
    }
}

/// Which way a turn of the wheel by `delta` goes: up where `delta` is
/// above nought, down where it is below, and neither where it is a zero or
/// a NaN.
pub open spec fn spec_turn(delta: Scalar) -> Turn {
    if delta.spec_is_zero() || delta.spec_is_nan() {
        Turn::Still
    } else if delta.spec_is_sign_positive() {
        Turn::Up
    } else {
        Turn::Down
    }
}

/// Which way a turn of the wheel by `delta` goes.
#[verifier::when_used_as_spec(spec_turn)]
pub fn turn(delta: Scalar) -> (way: Turn)
    ensures
        way == spec_turn(delta),
{
    if delta.is_zero() || delta.is_nan() {
        Turn::Still
    } else if delta.is_sign_positive() {
        Turn::Up
    } else {
        Turn::Down
    }
}

/// The way of a finite turn is the sign of its value.
pub proof fn law_turn_is_the_sign_of_the_value(delta: Scalar)
    requires
        delta.spec_is_finite(),
    ensures
        spec_turn(delta) is Up <==> delta.value() > 0,
        spec_turn(delta) is Down <==> delta.value() < 0,
        spec_turn(delta) is Still <==> delta.value() == 0,
{
    lemma_only_zeros_have_no_steps(delta);
}

/// The numerator and the denominator of the zoom rate: eight sevenths for
/// a turn up, seven eighths for any other.
pub open spec fn zoom_rate(way: Turn) -> (Scalar, Scalar) {
    if way is Up {
        (Scalar { bits: EIGHT_BITS }, Scalar { bits: SEVEN_BITS })
    } else {
        (Scalar { bits: SEVEN_BITS }, Scalar { bits: EIGHT_BITS })
    }
}

/// The two numbers of the zoom rates stand for seven and eight, counted in
/// steps of `2^-149` as every value of a scalar is.
pub proof fn law_zoom_rates_are_seven_and_eight()
    ensures
        (Scalar { bits: SEVEN_BITS }).spec_is_finite(),
        (Scalar { bits: EIGHT_BITS }).spec_is_finite(),
        (Scalar { bits: SEVEN_BITS }).value() == 7 * pow2(149),
        (Scalar { bits: EIGHT_BITS }).value() == 8 * pow2(149),
{
    let seven = Scalar { bits: SEVEN_BITS };
    let eight = Scalar { bits: EIGHT_BITS };
    assert(seven.exponent() == 129 && seven.fraction() == 0x60_0000);
    assert(eight.exponent() == 130 && eight.fraction() == 0);
    lemma2_to64();
    lemma_pow2_adds(21, 128);
    lemma_pow2_adds(23, 129);
    lemma_pow2_adds(3, 149);
    assert(seven.significand() == 7 * pow2(21));
    assert((7 * pow2(21)) * pow2(128) == 7 * (pow2(21) * pow2(128))) by (nonlinear_arith);
}

/// `zoomed` is what the unit may give for the scale after a turn of the
/// wheel by `delta`. A turn that goes neither up nor down leaves the scale
/// as it is. Any other gives each axis of `scale` times one factor, which
/// is the rate's numerator times the magnitude of the turn, divided by the
/// rate's denominator.
pub open spec fn zooms_to<U: Fn(Operation, Scalar, Scalar) -> Scalar>(
    unit: &U,
    scale: Vector2,
    delta: Scalar,
    zoomed: Vector2,
) -> bool {
    if spec_turn(delta) is Still {
        zoomed == scale
    } else {
        exists|product: Scalar, factor: Scalar|
            {
                &&& yields(
                    unit,
                    Operation::Mul,
                    zoom_rate(spec_turn(delta)).0,
                    delta.spec_abs(),
                    product,
                )
                &&& #[trigger] yields(
                    unit,
                    Operation::Div,
                    product,
                    zoom_rate(spec_turn(delta)).1,
                    factor,
                )
                &&& yields(unit, Operation::Mul, scale.x, factor, zoomed.x)
                &&& yields(unit, Operation::Mul, scale.y, factor, zoomed.y)
            }
    }
}

/// `position` is what the unit may give for the camera's position while the
/// pointer drags: the baseline plus the pointer's way from the origin,
/// divided by the scale so that the scene follows the pointer at every zoom.
pub open spec fn drags_to<U: Fn(Operation, Scalar, Scalar) -> Scalar>(
    unit: &U,
    baseline: Vector2,
    origin: Vector2,
    pointer: Vector2,
    scale: Vector2,
    position: Vector2,
) -> bool {
    exists|way: Vector2, offset: Vector2|
        {
            &&& yields_on_axes(unit, Operation::Sub, pointer, origin, way)
            &&& #[trigger] yields_on_axes(unit, Operation::Div, way, scale, offset)
            &&& yields_on_axes(unit, Operation::Add, baseline, offset, position)
        }
}

/// The scale after a turn of the wheel by `delta`.
///
/// A turn up zooms in by eight sevenths of its magnitude and a turn down
/// zooms out by seven eighths of it, so zooming out is the gentler of the
/// two. A turn by nought, or by no number, leaves the scale as it is: the
/// unit is not asked.
pub fn zoom<U: Fn(Operation, Scalar, Scalar) -> Scalar>(
    unit: &U,
    scale: Vector2,
    delta: Scalar,
) -> (zoomed: Vector2)
    requires
        total(unit),
    ensures
        zooms_to(unit, scale, delta, zoomed),
{
    let (numerator, denominator) = match turn(delta) {
        Turn::Still => {
            return scale;
        },
        Turn::Up => (Scalar::from_bits(EIGHT_BITS), Scalar::from_bits(SEVEN_BITS)),
        Turn::Down => (Scalar::from_bits(SEVEN_BITS), Scalar::from_bits(EIGHT_BITS)),
    };
    let product = unit(Operation::Mul, numerator, delta.abs());
    let factor = unit(Operation::Div, product, denominator);
    let x = unit(Operation::Mul, scale.x, factor);
    let y = unit(Operation::Mul, scale.y, factor);
    assert(yields(unit, Operation::Div, product, zoom_rate(spec_turn(delta)).1, factor));
    Vector2 { x, y }
}

/// The camera's position while the pointer drags.
pub fn drag<U: Fn(Operation, Scalar, Scalar) -> Scalar>(
    unit: &U,
    baseline: Vector2,
    origin: Vector2,
    pointer: Vector2,
    scale: Vector2,
) -> (position: Vector2)
    requires
        total(unit),
    ensures
        drags_to(unit, baseline, origin, pointer, scale, position),
{
    let way = on_axes(unit, Operation::Sub, pointer, origin);
    let offset = on_axes(unit, Operation::Div, way, scale);
    let position = on_axes(unit, Operation::Add, baseline, offset);
    position
}

impl Controller {
    /// The controller before any event: pointer at the origin, no button
    /// down.
    pub open spec fn initial() -> Controller {
        Controller {
            pointer: Vector2 { x: Scalar { bits: ZERO_BITS }, y: Scalar { bits: ZERO_BITS } },
            phase: Phase::Idle,
        }
    }

    /// The last known pointer position after an event that reached an open
    /// controller.
    pub open spec fn pointer_after(self, event: Event) -> Vector2 {
        match event {
            Event::PointerMoved { position } => position,
            _ => self.pointer,
        }
    }

    /// The phase after an event that reached an open controller. A button
    /// going down starts a drag from the last known pointer position and
    /// the camera's position, also in the middle of a drag.
    pub open spec fn phase_after(self, camera: Camera, event: Event) -> Phase {
        if event.spec_requests_close() {
            Phase::Closed
        } else {
            match event {
                Event::PointerButton { state: ButtonState::Pressed } => Phase::Dragging {
                    origin: self.pointer,
                    baseline: camera.position,
                },
                Event::PointerButton { state: ButtonState::Released } => Phase::Idle,
                _ => self.phase,
            }
        }
    }

    /// What an open controller asks of the host after an event. A resize
    /// to a size without width or height asks for no resize of the surface,
    /// which cannot be that small.
    pub open spec fn response_to(self, event: Event) -> Response {
        Response {
            exit: event.spec_requests_close(),
            redraw: event is Wheel || (event is PointerMoved && self.phase is Dragging),
            present: event is RedrawRequested,
            surface: match event {
                Event::Resized { width, height } => if width == 0 || height == 0 {
                    None
                } else {
                    Some(Viewport { width, height })
                },
                _ => None,
            },
        }
    }

    /// `moved` is what the unit may give for the camera after an event that
    /// reached an open controller. A pointer move during a drag sets the
    /// position, a turn of the wheel up or down the scale, and nothing
    /// else touches the camera.
    pub open spec fn moves_camera<U: Fn(Operation, Scalar, Scalar) -> Scalar>(
        self,
        unit: &U,
        camera: Camera,
        event: Event,
        moved: Camera,
    ) -> bool {
        match event {
            Event::PointerMoved { position } => match self.phase {
                Phase::Dragging { origin, baseline } => {
                    &&& drags_to(unit, baseline, origin, position, camera.scale, moved.position)
                    &&& moved.rotation == camera.rotation
                    &&& moved.scale == camera.scale
                },
                _ => moved == camera,
            },
            Event::Wheel { delta } => {
                &&& zooms_to(unit, camera.scale, delta.spec_vertical(), moved.scale)
                &&& moved.position == camera.position
                &&& moved.rotation == camera.rotation
            },
            _ => moved == camera,
        }
    }

    /// The controller before any event.
    pub fn new() -> (controller: Controller)
        ensures
            controller == Controller::initial(),
    {
        Controller {
            pointer: Vector2::new(Scalar::from_bits(ZERO_BITS), Scalar::from_bits(ZERO_BITS)),
            phase: Phase::Idle,
        }
    }

    /// Whether a close was requested.
    pub fn is_closed(&self) -> (r: bool)
        ensures
            r == (self.phase is Closed),
    {
        match self.phase {
            Phase::Closed => true,
            _ => false,
        }
    }

    /// Handles one event.
    ///
    /// `unit` does the arithmetic. See [`handles`] for what becomes of the
    /// controller and the renderer and for what is asked of the host.
    pub fn handle<U: Fn(Operation, Scalar, Scalar) -> Scalar>(
        &mut self,
        renderer: &mut Renderer,
        unit: &U,
        event: Event,
    ) -> (response: Response)
        requires
            total(unit),
        ensures
            handles(
                unit,
                *old(self),
                *old(renderer),
                event,
                *final(self),
                *final(renderer),
                response,
            ),
    {
        let mut response = Response { exit: false, redraw: false, present: false, surface: None };
        if self.is_closed() {
            response.exit = true;
            return response;
        }
        match event {
            Event::RedrawRequested => {
                renderer.clear();
                response.present = true;
            },
            Event::Resized { width, height } => {
                renderer.resize(width, height);
                if width != 0 && height != 0 {
                    response.surface = Some(Viewport::new(width, height));
                }
            },
            Event::PointerMoved { position } => {
                self.pointer = position;
                match self.phase {
                    Phase::Dragging { origin, baseline } => {
                        let scale = renderer.camera.scale;
                        renderer.camera.position = drag(unit, baseline, origin, position, scale);
                        response.redraw = true;
                    },
                    _ => {},
                }
            },
            Event::PointerButton { state } => {
                match state {
                    ButtonState::Pressed => {
                        self.phase = Phase::Dragging {
                            origin: self.pointer,
                            baseline: renderer.camera.position,
                        };
                    },
                    ButtonState::Released => {
                        self.phase = Phase::Idle;
                    },
                }
            },
            Event::Wheel { delta } => {
                let scale = renderer.camera.scale;
                renderer.camera.scale = zoom(unit, scale, delta.vertical());
                response.redraw = true;
            },
            _ => {},
        }
        if event.requests_close() {
            self.phase = Phase::Closed;
            response.exit = true;
        }
        response
    }
}

/// The viewport after an event that reached an open controller.
pub open spec fn viewport_after(viewport: Viewport, event: Event) -> Viewport {
    match event {
        Event::Resized { width, height } => Viewport { width, height },
        _ => viewport,
    }
}

/// The record of commands after an event that reached an open controller:
/// a resize records the new drawing rectangle, a frame the clear that
/// starts it.
pub open spec fn commands_after(commands: Seq<GlCommand>, event: Event) -> Seq<GlCommand> {
    match event {
        Event::Resized { width, height } => commands.push(viewport_command(width, height)),
        Event::RedrawRequested => commands.push(clear_color_command()).push(
            GlCommand::Clear { mask: COLOR_BUFFER_BIT },
        ),
        _ => commands,
    }
}

/// One step of the controller: on `event`, the controller `before` with the
/// renderer `scene` may become `after` with `scene_after`, and answer
/// `response`.
///
/// A closed controller stays as it is, leaves the renderer alone and asks
/// the host to stop. An open one follows the event. No event touches the
/// renderer's cache.
pub open spec fn handles<U: Fn(Operation, Scalar, Scalar) -> Scalar>(
    unit: &U,
    before: Controller,
    scene: Renderer,
    event: Event,
    after: Controller,
    scene_after: Renderer,
    response: Response,
) -> bool {
    &&& scene_after.cache == scene.cache
    &&& if before.phase is Closed {
        &&& after == before
        &&& scene_after.camera == scene.camera
        &&& scene_after.viewport == scene.viewport
        &&& scene_after.commands@ == scene.commands@
        &&& response == (Response { exit: true, ..Response::quiet() })
    } else {
        &&& after.pointer == before.pointer_after(event)
        &&& after.phase == before.phase_after(scene.camera, event)
        &&& before.moves_camera(unit, scene.camera, event, scene_after.camera)
        &&& scene_after.viewport == viewport_after(scene.viewport, event)
        &&& scene_after.commands@ == commands_after(scene.commands@, event)
        &&& response == before.response_to(event)
    }
}

/// A run of the controller: each event takes the controller and the
/// renderer from one state to the next, and nobody else touches either.
/// There is one state more than there are events.
pub open spec fn is_run<U: Fn(Operation, Scalar, Scalar) -> Scalar>(
    unit: &U,
    controllers: Seq<Controller>,
    scenes: Seq<Renderer>,
    events: Seq<Event>,
    responses: Seq<Response>,
) -> bool {
    &&& controllers.len() == events.len() + 1
    &&& scenes.len() == events.len() + 1
    &&& responses.len() == events.len()
    &&& forall|i: int|
        #![trigger events[i]]
        0 <= i < events.len() ==> handles(
            unit,
            controllers[i],
            scenes[i],
            events[i],
            controllers[i + 1],
            scenes[i + 1],
            responses[i],
        )
}

/// A close request ends the interaction, whatever the phase: the
/// controller is closed, the host is asked to stop and for nothing else,
/// and camera and viewport are as they were.
pub proof fn law_close_request_terminates<U: Fn(Operation, Scalar, Scalar) -> Scalar>(
    unit: &U,
    before: Controller,
    scene: Renderer,
    event: Event,
    after: Controller,
    scene_after: Renderer,
    response: Response,
)
    requires
        handles(unit, before, scene, event, after, scene_after, response),
        event.spec_requests_close(),
    ensures
        after.phase is Closed,
        response == (Response { exit: true, ..Response::quiet() }),
        scene_after.camera == scene.camera,
        scene_after.viewport == scene.viewport,
        scene_after.commands@ == scene.commands@,
{
}

/// The camera moves on a pointer move during a drag and on a turn of the
/// wheel, and on nothing else: not on a button going down or coming up, not
/// on a resize, a frame or a key.
pub proof fn law_camera_moves_on_drag_and_wheel_only<U: Fn(Operation, Scalar, Scalar) -> Scalar>(
    unit: &U,
    before: Controller,
    scene: Renderer,
    event: Event,
    after: Controller,
    scene_after: Renderer,
    response: Response,
)
    requires
        handles(unit, before, scene, event, after, scene_after, response),
        !(event is Wheel),
        !(event is PointerMoved && before.phase is Dragging),
    ensures
        scene_after.camera == scene.camera,
        !response.redraw,
{
}

/// A turn of the wheel that goes neither up nor down leaves the camera as
/// it is, and a redraw is asked for all the same.
pub proof fn law_still_turn_leaves_the_camera<U: Fn(Operation, Scalar, Scalar) -> Scalar>(
    unit: &U,
    before: Controller,
    scene: Renderer,
    delta: ScrollDelta,
    after: Controller,
    scene_after: Renderer,
    response: Response,
)
    requires
        handles(unit, before, scene, Event::Wheel { delta }, after, scene_after, response),
        !(before.phase is Closed),
        spec_turn(delta.spec_vertical()) is Still,
    ensures
        scene_after.camera == scene.camera,
        response == (Response { redraw: true, ..Response::quiet() }),
        after == before,
{
}

/// The states of a run from a closed controller on.
proof fn lemma_closed_stays_closed<U: Fn(Operation, Scalar, Scalar) -> Scalar>(
    unit: &U,
    controllers: Seq<Controller>,
    scenes: Seq<Renderer>,
    events: Seq<Event>,
    responses: Seq<Response>,
    from: int,
    to: int,
)
    requires
        is_run(unit, controllers, scenes, events, responses),
        0 <= from <= to <= events.len(),
        controllers[from].phase is Closed,
    ensures
        controllers[to] == controllers[from],
        scenes[to].camera == scenes[from].camera,
        scenes[to].viewport == scenes[from].viewport,
        scenes[to].cache == scenes[from].cache,
        scenes[to].commands@ == scenes[from].commands@,
    decreases to - from,
{
    if from < to {
        lemma_closed_stays_closed(unit, controllers, scenes, events, responses, from, to - 1);
        assert(handles(
            unit,
            controllers[to - 1],
            scenes[to - 1],
            events[to - 1],
            controllers[to],
            scenes[to],
            responses[to - 1],
        ));
    }
}

/// The controller is closed, and the renderer `scene` is as the renderer
/// `earlier` was: camera, viewport, cache and record of commands.
pub open spec fn rests(controller: Controller, scene: Renderer, earlier: Renderer) -> bool {
    &&& controller.phase is Closed
    &&& scene.camera == earlier.camera
    &&& scene.viewport == earlier.viewport
    &&& scene.cache == earlier.cache
    &&& scene.commands@ == earlier.commands@
}

/// Nothing moves after a close request.
///
/// Let a run hold a close request at `at`. In every later state the
/// controller is closed and the camera, the viewport, the cache and the
/// record of commands are what they were when the request came, and every
/// later response asks the host to stop and for nothing else.
pub proof fn law_nothing_moves_after_close<U: Fn(Operation, Scalar, Scalar) -> Scalar>(
    unit: &U,
    controllers: Seq<Controller>,
    scenes: Seq<Renderer>,
    events: Seq<Event>,
    responses: Seq<Response>,
    at: int,
)
    requires
        is_run(unit, controllers, scenes, events, responses),
        0 <= at < events.len(),
        events[at].spec_requests_close(),
    ensures
        forall|later: int|
            #![trigger controllers[later]]
            #![trigger scenes[later]]
            at < later <= events.len() ==> rests(controllers[later], scenes[later], scenes[at]),
        forall|later: int|
            #![trigger responses[later]]
            at < later < events.len() ==> responses[later] == (Response {
                exit: true,
                ..Response::quiet()
            }),
{
    assert(handles(
        unit,
        controllers[at],
        scenes[at],
        events[at],
        controllers[at + 1],
        scenes[at + 1],
        responses[at],
    ));
    assert forall|later: int|
        #![trigger controllers[later]]
        #![trigger scenes[later]]
        at < later <= events.len() implies rests(
        controllers[later],
        scenes[later],
        scenes[at],
    ) by {
        lemma_closed_stays_closed(unit, controllers, scenes, events, responses, at + 1, later);
    }
    assert forall|later: int|
        #![trigger responses[later]]
        at < later < events.len() implies responses[later] == (Response {
        exit: true,
        ..Response::quiet()
    }) by {
        lemma_closed_stays_closed(unit, controllers, scenes, events, responses, at + 1, later);
        assert(handles(
            unit,
            controllers[later],
            scenes[later],
            events[later],
            controllers[later + 1],
            scenes[later + 1],
            responses[later],
        ));
    }
}

} // verus!
