//! The renderer front end and what it is made of.

use vstd::prelude::*;
use crate::camera::{Camera, Viewport};
use crate::render::command::{
    signed, spec_signed, CLEAR_ALPHA_BITS, CLEAR_BLUE_BITS, CLEAR_GREEN_BITS, CLEAR_RED_BITS,
    COLOR_BUFFER_BIT, DEBUG_SOURCE_APPLICATION, FUNC_ADD, MULTISAMPLE, ONE_MINUS_SRC_ALPHA,
    SRC_ALPHA,
};
use crate::scalar::Scalar;

pub mod cache;
pub mod command;
pub mod error;

pub use crate::render::cache::GlCache;
pub use crate::render::command::{GlCommand, ProgramHandle};
pub use crate::render::error::{OpenglRendererError, ShaderCompileError};

verus! {

/// Blending mode.
#[derive(Clone, Copy, Debug, PartialEq, Eq, Hash, Structural)]
pub enum BlendMode {
    /// Normal blending mode: the source over the destination, by the
    /// source's alpha.
    Normal,
}

impl BlendMode {
    /// The blend equation of the mode.
    pub open spec fn spec_equation(self) -> u32 {
        match self {
            BlendMode::Normal => FUNC_ADD,
        }
    }

    /// The blend factors of the mode, source first.
    pub open spec fn spec_factors(self) -> (u32, u32) {
        match self {
            BlendMode::Normal => (SRC_ALPHA, ONE_MINUS_SRC_ALPHA),
        }
    }

    /// The equation by which the mode combines source and destination.
    #[verifier::when_used_as_spec(spec_equation)]
    pub fn equation(self) -> (mode: u32)
        ensures
            mode == self.spec_equation(),
    {
        match self {
            BlendMode::Normal => FUNC_ADD,
        }
    }

    /// The factors that the mode gives source and destination, in that
    /// order.
    #[verifier::when_used_as_spec(spec_factors)]
    pub fn factors(self) -> (factors: (u32, u32))
        ensures
            factors == self.spec_factors(),
    {
        match self {
            BlendMode::Normal => (SRC_ALPHA, ONE_MINUS_SRC_ALPHA),
        }
    }
}

/// The command that sets the drawing rectangle to the whole of a viewport
/// of the given size.
pub open spec fn viewport_command(width: u32, height: u32) -> GlCommand {
    GlCommand::Viewport { x: 0, y: 0, width: spec_signed(width), height: spec_signed(height) }
}

/// The command that sets the background colour.
pub open spec fn clear_color_command() -> GlCommand {
    GlCommand::ClearColor {
        red: Scalar { bits: CLEAR_RED_BITS },
        green: Scalar { bits: CLEAR_GREEN_BITS },
        blue: Scalar { bits: CLEAR_BLUE_BITS },
        alpha: Scalar { bits: CLEAR_ALPHA_BITS },
    }
}

/// The renderer's front end.
///
/// It holds the camera and the viewport, keeps the cache of requested GPU
/// state, and records the GPU commands that its operations call for. It
/// never touches the GPU: the host takes the recorded commands with
/// [`Renderer::take_commands`] and executes them in order.
pub struct Renderer {
    pub camera: Camera,
    pub viewport: Viewport,
    /// The state that was last requested of the GPU.
    pub cache: GlCache,
    /// The commands recorded and not yet taken, oldest first.
    pub commands: Vec<GlCommand>,
}

impl Renderer {
    /// A renderer for a viewport of the given size, with the default camera
    /// and an empty cache. It records the commands that turn multisampling
    /// on and set the drawing rectangle. It never fails.
    pub fn new(viewport: Viewport) -> (r: Result<Renderer, OpenglRendererError>)
        ensures
            r is Ok,
            r->Ok_0.camera == Camera::initial(),
            r->Ok_0.viewport == viewport,
            r->Ok_0.cache == GlCache::empty(),
            r->Ok_0.commands@ == seq![
                GlCommand::Enable { capability: MULTISAMPLE },
                viewport_command(viewport.width, viewport.height),
            ],
    {
        let mut commands: Vec<GlCommand> = Vec::new();
        commands.push(GlCommand::Enable { capability: MULTISAMPLE });
        commands.push(
            GlCommand::Viewport {
                x: 0,
                y: 0,
                width: signed(viewport.width),
                height: signed(viewport.height),
            },
        );
        Ok(Renderer { camera: Camera::default(), viewport, cache: GlCache::default(), commands })
    }

    /// Hands the recorded commands to the host, oldest first, and starts an
    /// empty record.
    pub fn take_commands(&mut self) -> (commands: Vec<GlCommand>)
        ensures
            commands@ == old(self).commands@,
            final(self).commands@ == Seq::<GlCommand>::empty(),
            final(self).camera == old(self).camera,
            final(self).viewport == old(self).viewport,
            final(self).cache == old(self).cache,
    {
        let mut commands: Vec<GlCommand> = Vec::new();
        std::mem::swap(&mut self.commands, &mut commands);
        commands
    }

    /// Takes a new viewport size and records the command that sets the
    /// drawing rectangle to it, whether or not the size is a new one.
    pub fn resize(&mut self, x: u32, y: u32)
        ensures
            final(self).viewport == (Viewport { width: x, height: y }),
            final(self).commands@ == old(self).commands@.push(viewport_command(x, y)),
            final(self).camera == old(self).camera,
            final(self).cache == old(self).cache,
    {
        self.viewport = Viewport::new(x, y);
        self.commands.push(GlCommand::Viewport { x: 0, y: 0, width: signed(x), height: signed(y) });
    }

    /// Records a clear of the colour buffer to the background colour. The
    /// colour is fixed, so the cache does not track it.
    pub fn clear(&mut self)
        ensures
            final(self).commands@ == old(self).commands@.push(clear_color_command()).push(
                GlCommand::Clear { mask: COLOR_BUFFER_BIT },
            ),
            final(self).camera == old(self).camera,
            final(self).viewport == old(self).viewport,
            final(self).cache == old(self).cache,
    {
        self.commands.push(
            GlCommand::ClearColor {
                red: Scalar::from_bits(CLEAR_RED_BITS),
                green: Scalar::from_bits(CLEAR_GREEN_BITS),
                blue: Scalar::from_bits(CLEAR_BLUE_BITS),
                alpha: Scalar::from_bits(CLEAR_ALPHA_BITS),
            },
        );
        self.commands.push(GlCommand::Clear { mask: COLOR_BUFFER_BIT });
    }

    /// Requests a shader program. The request passes through the cache like
    /// every other: the command that makes the program the active one is
    /// recorded when the program is another than the one requested last,
    /// and not otherwise.
    pub fn bind_shader(&mut self, program: ProgramHandle)
        ensures
            final(self).cache == old(self).cache.with_program(program),
            final(self).commands@ == (if old(self).cache.program_changes(program) {
                old(self).commands@.push(GlCommand::UseProgram { program: Some(program) })
            } else {
                old(self).commands@
            }),
            final(self).camera == old(self).camera,
            final(self).viewport == old(self).viewport,
    {
        if self.cache.update_program(program) {
            self.commands.push(GlCommand::UseProgram { program: Some(program) });
        }
    }

    /// Records the command that opens a debug group under the given label.
    /// Tools that trace the API nest the commands that follow under it. The
    /// host drops the command where the platform has no debug groups.
    pub fn push_debug_group(&mut self, name: &str)
        ensures
            final(self).commands@.len() == old(self).commands@.len() + 1,
            final(self).commands@.drop_last() == old(self).commands@,
            final(self).commands@.last().opens_group(name@),
            final(self).camera == old(self).camera,
            final(self).viewport == old(self).viewport,
            final(self).cache == old(self).cache,
    {
        self.commands.push(
            GlCommand::PushDebugGroup {
                source: DEBUG_SOURCE_APPLICATION,
                id: 0,
                message: name.to_owned(),
            },
        );
    }

    /// Records the command that closes the debug group opened last.
    pub fn pop_debug_group(&mut self)
        ensures
            final(self).commands@ == old(self).commands@.push(GlCommand::PopDebugGroup),
            final(self).camera == old(self).camera,
            final(self).viewport == old(self).viewport,
            final(self).cache == old(self).cache,
    {
        self.commands.push(GlCommand::PopDebugGroup);
    }

    /// Requests the renderer's own camera of the cache and says whether it
    /// changed. On `true` the caller owes the GPU a new view-projection
    /// matrix; no command is recorded for it here.
    pub fn update_camera(&mut self) -> (changed: bool)
        ensures
            changed == old(self).cache.camera_changes(old(self).camera),
            final(self).cache == old(self).cache.with_camera(old(self).camera),
            final(self).commands@ == old(self).commands@,
            final(self).camera == old(self).camera,
            final(self).viewport == old(self).viewport,
    {
        let camera = self.camera;
        self.cache.update_camera(&camera)
    }

    /// Requests a blend mode. When it is another than the one requested
    /// last, the commands that set its equation and its factors are
    /// recorded; when it is the same, nothing is.
    pub fn set_blend_mode(&mut self, blend_mode: BlendMode)
        ensures
            final(self).cache == old(self).cache.with_blend_mode(blend_mode),
            final(self).commands@ == (if old(self).cache.blend_mode_changes(blend_mode) {
                old(self).commands@.push(
                    GlCommand::BlendEquation { mode: blend_mode.spec_equation() },
                ).push(
                    GlCommand::BlendFunc {
                        source: blend_mode.spec_factors().0,
                        destination: blend_mode.spec_factors().1,
                    },
                )
            } else {
                old(self).commands@
            }),
            final(self).camera == old(self).camera,
            final(self).viewport == old(self).viewport,
    {
        if self.cache.update_blend_mode(blend_mode) {
            let (source, destination) = blend_mode.factors();
            self.commands.push(GlCommand::BlendEquation { mode: blend_mode.equation() });
            self.commands.push(GlCommand::BlendFunc { source, destination });
        }
    }
}

} // verus!
