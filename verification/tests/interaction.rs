use yui::arith::{Operation, Vector2};
use yui::camera::{Camera, Viewport};
use yui::interaction::{
    drag, turn, zoom, ButtonState, Controller, Event, Key, Phase, Response, ScrollDelta, Turn,
    EIGHT_BITS, SEVEN_BITS,
};
use yui::render::{GlCache, GlCommand, Renderer};
use yui::scalar::Scalar;

fn s(value: f32) -> Scalar {
    Scalar::from_bits(value.to_bits())
}

fn f(scalar: Scalar) -> f32 {
    f32::from_bits(scalar.to_bits())
}

fn v(x: f32, y: f32) -> Vector2 {
    Vector2::new(s(x), s(y))
}

fn unit(op: Operation, a: Scalar, b: Scalar) -> Scalar {
    s(match op {
        Operation::Add => f(a) + f(b),
        Operation::Sub => f(a) - f(b),
        Operation::Mul => f(a) * f(b),
        Operation::Div => f(a) / f(b),
    })
}

fn renderer() -> Renderer {
    let mut renderer = Renderer::new(Viewport::new(600, 400)).unwrap();
    renderer.take_commands();
    renderer
}

fn quiet() -> Response {
    Response { exit: false, redraw: false, present: false, surface: None }
}

fn moved(x: f32, y: f32) -> Event {
    Event::PointerMoved { position: v(x, y) }
}

fn pressed() -> Event {
    Event::PointerButton { state: ButtonState::Pressed }
}

fn released() -> Event {
    Event::PointerButton { state: ButtonState::Released }
}

fn wheel(lines: f32) -> Event {
    Event::Wheel { delta: ScrollDelta::Lines { x: s(0.0), y: s(lines) } }
}

fn escape() -> Event {
    Event::Keyboard { key: Key::Escape, state: ButtonState::Pressed }
}

#[test]
fn rate_constants_are_seven_and_eight() {
    assert_eq!(SEVEN_BITS, 7.0f32.to_bits());
    assert_eq!(EIGHT_BITS, 8.0f32.to_bits());
}

#[test]
fn new_controller_is_idle_at_the_origin() {
    let c = Controller::new();
    assert_eq!(c.pointer, v(0.0, 0.0));
    assert_eq!(c.phase, Phase::Idle);
    assert!(!c.is_closed());
}

#[test]
fn wheel_up_zooms_in_by_eight_sevenths() {
    let mut r = renderer();
    let mut c = Controller::new();
    let response = c.handle(&mut r, &unit, wheel(1.0));
    assert_eq!(response, Response { redraw: true, ..quiet() });
    assert_eq!(r.camera.scale, v(8.0 / 7.0, 8.0 / 7.0));
    assert_eq!(r.camera.position, v(0.0, 0.0));
    assert_eq!(r.camera.rotation, s(0.0));
}

#[test]
fn wheel_down_zooms_out_by_seven_eighths() {
    let mut r = renderer();
    let mut c = Controller::new();
    let response = c.handle(&mut r, &unit, wheel(-1.0));
    assert_eq!(response, Response { redraw: true, ..quiet() });
    assert_eq!(r.camera.scale, v(7.0 / 8.0, 7.0 / 8.0));
    assert_eq!(r.camera.scale, v(0.875, 0.875));
}

#[test]
fn wheel_up_then_down_multiplies_both_rates() {
    let mut r = renderer();
    r.camera.scale = v(3.0, 5.0);
    let mut c = Controller::new();
    c.handle(&mut r, &unit, wheel(1.0));
    assert_eq!(r.camera.scale, v(3.0 * (8.0 / 7.0), 5.0 * (8.0 / 7.0)));
    c.handle(&mut r, &unit, wheel(-1.0));
    let expected = v(3.0 * (8.0 / 7.0) * (7.0 / 8.0), 5.0 * (8.0 / 7.0) * (7.0 / 8.0));
    assert_eq!(r.camera.scale, expected);
    let ratio = f(r.camera.scale.x) / 3.0;
    assert!((ratio - 1.0).abs() < 1.0e-6);
    assert!((ratio - 64.0 / 63.0).abs() > 1.0e-3);
}

#[test]
fn wheel_up_then_down_at_scale_one_comes_back_to_one() {
    let mut r = renderer();
    let mut c = Controller::new();
    c.handle(&mut r, &unit, wheel(1.0));
    assert_eq!(r.camera.scale, v(8.0 / 7.0, 8.0 / 7.0));
    c.handle(&mut r, &unit, wheel(-1.0));
    assert_eq!(r.camera.scale, v((8.0 / 7.0) * 0.875, (8.0 / 7.0) * 0.875));
    assert_eq!(r.camera.scale, v(1.0, 1.0));
}

#[test]
fn rates_are_not_each_other_s_mirror() {
    let up = zoom(&unit, v(1.0, 1.0), s(1.0));
    let down = zoom(&unit, v(1.0, 1.0), s(-1.0));
    assert_eq!(f(up.x), 8.0f32 / 7.0);
    assert_eq!(f(down.x), 7.0f32 / 8.0);
    assert!(f(up.x) - 1.0 > 1.0 - f(down.x));
}

#[test]
fn zoom_scales_with_the_size_of_the_turn() {
    let zoomed = zoom(&unit, v(2.0, 4.0), s(3.5));
    let factor = 8.0f32 * 3.5 / 7.0;
    assert_eq!(zoomed, v(2.0 * factor, 4.0 * factor));
    let zoomed = zoom(&unit, v(2.0, 4.0), s(-3.5));
    let factor = 7.0f32 * 3.5 / 8.0;
    assert_eq!(zoomed, v(2.0 * factor, 4.0 * factor));
}

#[test]
fn zoom_agrees_with_glam() {
    for my in [1.0f32, -1.0, 0.25, -0.25, 15.0, -120.0, f32::MIN_POSITIVE, -3.0e-45] {
        let mut scale = glam::vec2(1.5, 0.75);
        if my.is_sign_positive() {
            scale *= 8.0 * my.abs() / 7.0;
        } else {
            scale *= 7.0 * my.abs() / 8.0;
        }
        let zoomed = zoom(&unit, v(1.5, 0.75), s(my));
        assert_eq!((f(zoomed.x).to_bits(), f(zoomed.y).to_bits()), (scale.x.to_bits(), scale.y.to_bits()), "{my}");
    }
}

#[test]
fn wheel_that_did_not_turn_leaves_the_scale() {
    for still in [0.0f32, -0.0] {
        let mut r = renderer();
        let mut c = Controller::new();
        let response = c.handle(&mut r, &unit, wheel(still));
        assert_eq!(response, Response { redraw: true, ..quiet() });
        assert_eq!(r.camera, Camera::default());
        assert_eq!(r.camera.scale, v(1.0, 1.0));
        assert!(r.camera.has_valid_scale());
        assert_eq!(c, Controller::new());
    }
}

#[test]
fn wheel_turn_by_no_number_leaves_the_scale() {
    for still in [f32::NAN, -f32::NAN] {
        let mut r = renderer();
        r.camera.scale = v(3.0, 0.5);
        let mut c = Controller::new();
        let response = c.handle(&mut r, &unit, wheel(still));
        assert_eq!(response, Response { redraw: true, ..quiet() });
        assert_eq!(r.camera.scale, v(3.0, 0.5));
        assert_eq!(zoom(&unit, v(3.0, 0.5), s(still)), v(3.0, 0.5));
    }
}

#[test]
fn zoom_by_nought_does_not_ask_the_unit() {
    let bomb = |_: Operation, _: Scalar, _: Scalar| -> Scalar { panic!("the unit was asked") };
    assert_eq!(zoom(&bomb, v(2.0, 4.0), s(0.0)), v(2.0, 4.0));
    assert_eq!(zoom(&bomb, v(2.0, 4.0), s(-0.0)), v(2.0, 4.0));
    assert_eq!(zoom(&bomb, v(0.0, f32::INFINITY), s(0.0)), v(0.0, f32::INFINITY));
}

#[test]
fn turn_goes_by_the_sign_of_the_number() {
    assert_eq!(turn(s(1.0)), Turn::Up);
    assert_eq!(turn(s(f32::MIN_POSITIVE)), Turn::Up);
    assert_eq!(turn(s(1.0e-45)), Turn::Up);
    assert_eq!(turn(s(f32::INFINITY)), Turn::Up);
    assert_eq!(turn(s(-1.0)), Turn::Down);
    assert_eq!(turn(s(-1.0e-45)), Turn::Down);
    assert_eq!(turn(s(f32::NEG_INFINITY)), Turn::Down);
    assert_eq!(turn(s(0.0)), Turn::Still);
    assert_eq!(turn(s(-0.0)), Turn::Still);
    assert_eq!(turn(s(f32::NAN)), Turn::Still);
    assert_eq!(turn(s(-f32::NAN)), Turn::Still);
}

#[test]
fn turn_agrees_with_the_hardware_s_comparisons() {
    let mut seed: u32 = 0x1234_5678;
    for _ in 0..20_000 {
        seed = seed.wrapping_mul(1664525).wrapping_add(1013904223);
        let value = f32::from_bits(seed);
        let expected = if value > 0.0 {
            Turn::Up
        } else if value < 0.0 {
            Turn::Down
        } else {
            Turn::Still
        };
        assert_eq!(turn(s(value)), expected, "{value}");
    }
}

#[test]
fn wheel_in_pixels_counts_like_lines() {
    let mut r = renderer();
    let mut c = Controller::new();
    let delta = ScrollDelta::Pixels { x: s(40.0), y: s(-2.0) };
    assert_eq!(delta.vertical(), s(-2.0));
    assert_eq!(ScrollDelta::Lines { x: s(1.0), y: s(2.0) }.vertical(), s(2.0));
    c.handle(&mut r, &unit, Event::Wheel { delta });
    assert_eq!(r.camera.scale, v(7.0 * 2.0 / 8.0, 7.0 * 2.0 / 8.0));
}

#[test]
fn drag_moves_the_camera_by_the_pointer_s_way() {
    let mut r = renderer();
    let mut c = Controller::new();
    assert_eq!(c.handle(&mut r, &unit, moved(100.0, 100.0)), quiet());
    assert_eq!(c.handle(&mut r, &unit, pressed()), quiet());
    assert_eq!(c.phase, Phase::Dragging { origin: v(100.0, 100.0), baseline: v(0.0, 0.0) });
    let response = c.handle(&mut r, &unit, moved(150.0, 130.0));
    assert_eq!(response, Response { redraw: true, ..quiet() });
    assert_eq!(r.camera.position, v(50.0, 30.0));
    assert_eq!(r.camera.scale, v(1.0, 1.0));
    assert_eq!(c.pointer, v(150.0, 130.0));
}

#[test]
fn drag_at_scale_two_moves_the_camera_half_as_far() {
    let mut r = renderer();
    r.camera.scale = v(2.0, 2.0);
    let mut c = Controller::new();
    c.handle(&mut r, &unit, moved(100.0, 100.0));
    c.handle(&mut r, &unit, pressed());
    c.handle(&mut r, &unit, moved(150.0, 130.0));
    assert_eq!(r.camera.position, v(25.0, 15.0));
}

#[test]
fn drag_starts_from_the_camera_s_position() {
    let position = drag(&unit, v(10.0, -4.0), v(100.0, 100.0), v(90.0, 120.0), v(4.0, 0.5));
    assert_eq!(position, v(10.0 + (90.0 - 100.0) / 4.0, -4.0 + (120.0 - 100.0) / 0.5));
    assert_eq!(position, v(7.5, 36.0));
}

#[test]
fn drag_agrees_with_glam() {
    let camera_pos = glam::vec2(3.1, -8.6);
    let held = glam::vec2(412.3, 77.0);
    let mouse = glam::vec2(13.9, 300.2);
    let scale = glam::vec2(1.3, 0.7);
    let expected = camera_pos + (mouse - held) / scale;
    let position = drag(
        &unit,
        v(camera_pos.x, camera_pos.y),
        v(held.x, held.y),
        v(mouse.x, mouse.y),
        v(scale.x, scale.y),
    );
    assert_eq!((f(position.x), f(position.y)), (expected.x, expected.y));
}

#[test]
fn drag_follows_every_move_from_the_same_baseline() {
    let mut r = renderer();
    r.camera.position = v(5.0, 5.0);
    let mut c = Controller::new();
    c.handle(&mut r, &unit, moved(10.0, 10.0));
    c.handle(&mut r, &unit, pressed());
    c.handle(&mut r, &unit, moved(20.0, 10.0));
    assert_eq!(r.camera.position, v(15.0, 5.0));
    c.handle(&mut r, &unit, moved(10.0, 30.0));
    assert_eq!(r.camera.position, v(5.0, 25.0));
    c.handle(&mut r, &unit, moved(10.0, 10.0));
    assert_eq!(r.camera.position, v(5.0, 5.0));
}

#[test]
fn move_without_a_button_leaves_the_camera() {
    let mut r = renderer();
    let mut c = Controller::new();
    assert_eq!(c.handle(&mut r, &unit, moved(150.0, 130.0)), quiet());
    assert_eq!(r.camera, Camera::default());
    assert_eq!(c.pointer, v(150.0, 130.0));
    assert_eq!(c.phase, Phase::Idle);
}

#[test]
fn release_ends_the_drag_and_leaves_the_camera() {
    let mut r = renderer();
    let mut c = Controller::new();
    c.handle(&mut r, &unit, moved(100.0, 100.0));
    c.handle(&mut r, &unit, pressed());
    c.handle(&mut r, &unit, moved(150.0, 130.0));
    let camera = r.camera;
    assert_eq!(c.handle(&mut r, &unit, released()), quiet());
    assert_eq!(c.phase, Phase::Idle);
    assert_eq!(r.camera, camera);
    assert_eq!(c.handle(&mut r, &unit, moved(0.0, 0.0)), quiet());
    assert_eq!(r.camera, camera);
}

#[test]
fn press_during_a_drag_starts_the_drag_anew() {
    let mut r = renderer();
    let mut c = Controller::new();
    c.handle(&mut r, &unit, moved(100.0, 100.0));
    c.handle(&mut r, &unit, pressed());
    c.handle(&mut r, &unit, moved(150.0, 130.0));
    c.handle(&mut r, &unit, pressed());
    assert_eq!(c.phase, Phase::Dragging { origin: v(150.0, 130.0), baseline: v(50.0, 30.0) });
    c.handle(&mut r, &unit, moved(151.0, 131.0));
    assert_eq!(r.camera.position, v(51.0, 31.0));
}

#[test]
fn resize_keeps_renderer_and_surface_in_step() {
    let mut r = renderer();
    let mut c = Controller::new();
    let response = c.handle(&mut r, &unit, Event::Resized { width: 800, height: 600 });
    assert_eq!(response, Response { surface: Some(Viewport::new(800, 600)), ..quiet() });
    assert_eq!(r.viewport, Viewport::new(800, 600));
    assert_eq!(r.commands, vec![GlCommand::Viewport { x: 0, y: 0, width: 800, height: 600 }]);
    let response = c.handle(&mut r, &unit, Event::Resized { width: 800, height: 600 });
    assert_eq!(response.surface, Some(Viewport::new(800, 600)));
    assert_eq!(r.viewport, Viewport::new(800, 600));
    assert_eq!(r.commands.len(), 2);
}

#[test]
fn resize_to_no_area_keeps_the_viewport_in_step_and_leaves_the_surface() {
    for (width, height) in [(0u32, 600u32), (800, 0), (0, 0)] {
        let mut r = renderer();
        let mut c = Controller::new();
        let response = c.handle(&mut r, &unit, Event::Resized { width, height });
        assert_eq!(response, quiet());
        assert_eq!(r.viewport, Viewport::new(width, height));
        assert_eq!(
            r.commands,
            vec![GlCommand::Viewport { x: 0, y: 0, width: width as i32, height: height as i32 }]
        );
        assert_eq!(r.camera, Camera::default());
    }
}

#[test]
fn redraw_clears_and_asks_for_a_frame() {
    let mut r = renderer();
    let mut c = Controller::new();
    let response = c.handle(&mut r, &unit, Event::RedrawRequested);
    assert_eq!(response, Response { present: true, ..quiet() });
    assert_eq!(
        r.commands,
        vec![
            GlCommand::ClearColor { red: s(0.1), green: s(0.2), blue: s(0.3), alpha: s(1.0) },
            GlCommand::Clear { mask: glow::COLOR_BUFFER_BIT },
        ]
    );
    assert_eq!(r.camera, Camera::default());
}

#[test]
fn other_events_ask_for_nothing() {
    let mut r = renderer();
    let mut c = Controller::new();
    let events = [
        Event::Other,
        Event::Keyboard { key: Key::Other, state: ButtonState::Pressed },
        Event::Keyboard { key: Key::Other, state: ButtonState::Released },
        Event::Keyboard { key: Key::Escape, state: ButtonState::Released },
    ];
    for event in events {
        assert!(!event.requests_close());
        assert_eq!(c.handle(&mut r, &unit, event), quiet());
        assert_eq!(c, Controller::new());
        assert_eq!(r.camera, Camera::default());
        assert!(r.commands.is_empty());
    }
}

#[test]
fn escape_closes_with_the_button_up() {
    let mut r = renderer();
    let mut c = Controller::new();
    assert!(escape().requests_close());
    let response = c.handle(&mut r, &unit, escape());
    assert_eq!(response, Response { exit: true, ..quiet() });
    assert!(c.is_closed());
    assert_eq!(c.phase, Phase::Closed);
    assert_eq!(r.camera, Camera::default());
}

#[test]
fn escape_closes_with_the_button_down() {
    let mut r = renderer();
    let mut c = Controller::new();
    c.handle(&mut r, &unit, moved(100.0, 100.0));
    c.handle(&mut r, &unit, pressed());
    c.handle(&mut r, &unit, moved(150.0, 130.0));
    let camera = r.camera;
    let response = c.handle(&mut r, &unit, escape());
    assert_eq!(response, Response { exit: true, ..quiet() });
    assert!(c.is_closed());
    assert_eq!(r.camera, camera);
}

#[test]
fn close_request_closes_in_either_phase() {
    assert!(Event::CloseRequested.requests_close());
    for start in [Vec::new(), vec![pressed()]] {
        let mut r = renderer();
        let mut c = Controller::new();
        for event in start {
            c.handle(&mut r, &unit, event);
        }
        let response = c.handle(&mut r, &unit, Event::CloseRequested);
        assert_eq!(response, Response { exit: true, ..quiet() });
        assert!(c.is_closed());
        assert_eq!(r.camera, Camera::default());
    }
}

#[test]
fn nothing_moves_after_close() {
    let mut r = renderer();
    r.camera.position = v(1.0, 2.0);
    let mut c = Controller::new();
    c.handle(&mut r, &unit, moved(100.0, 100.0));
    c.handle(&mut r, &unit, pressed());
    c.handle(&mut r, &unit, Event::CloseRequested);
    let closed = c;
    let camera = r.camera;
    let events = [
        moved(150.0, 130.0),
        wheel(1.0),
        wheel(-1.0),
        pressed(),
        released(),
        Event::Resized { width: 1, height: 1 },
        Event::RedrawRequested,
        escape(),
        Event::CloseRequested,
        Event::Other,
    ];
    for event in events {
        let response = c.handle(&mut r, &unit, event);
        assert_eq!(response, Response { exit: true, ..quiet() });
        assert_eq!(c, closed);
        assert_eq!(r.camera, camera);
        assert_eq!(r.viewport, Viewport::new(600, 400));
        assert_eq!(r.cache, GlCache::default());
        assert!(r.commands.is_empty());
    }
}
