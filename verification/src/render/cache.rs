//! The cache of the state that was last requested of the GPU.
//!
//! Setting GPU state is slow next to comparing two values, so each request
//! passes through the cache first, and only a request that changes something
//! reaches the GPU. A slot is empty until its first request; after that it
//! holds what was requested last.

use vstd::prelude::*;
use crate::camera::Camera;
use crate::render::command::ProgramHandle;
use crate::render::BlendMode;

verus! {

/// What was last requested of the GPU, slot by slot.
#[derive(Clone, Copy, Debug, PartialEq, Eq)]
pub struct GlCache {
    pub camera: Option<Camera>,
    pub blend_mode: Option<BlendMode>,
    pub program: Option<ProgramHandle>,
    pub albedo: Option<usize>,
}

impl GlCache {
    /// The cache before any request.
    pub open spec fn empty() -> GlCache {
        GlCache { camera: None, blend_mode: None, program: None, albedo: None }
    }

    /// Whether a request for `camera` changes the camera slot: the slot is
    /// empty, or position, rotation or scale is another number than the one
    /// held.
    pub open spec fn camera_changes(self, camera: Camera) -> bool {
        match self.camera {
            None => true,
            Some(held) => !held.spec_same_view(&camera),
        }
    }

    /// The camera that the slot holds after a request for `camera`: the
    /// requested one in an empty slot; else, part by part, the requested
    /// part where it is another number than the one held, and the part held
    /// where it is not.
    pub open spec fn camera_after(self, camera: Camera) -> Camera {
        match self.camera {
            None => camera,
            Some(held) => Camera {
                position: if held.position.spec_same_number(camera.position) {
                    held.position
                } else {
                    camera.position
                },
                rotation: if held.rotation.spec_same_number(camera.rotation) {
                    held.rotation
                } else {
                    camera.rotation
                },
                scale: if held.scale.spec_same_number(camera.scale) {
                    held.scale
                } else {
                    camera.scale
                },
            },
        }
    }

    /// The cache after a request for `camera`.
    pub open spec fn with_camera(self, camera: Camera) -> GlCache {
        GlCache { camera: Some(self.camera_after(camera)), ..self }
    }

    /// Whether a request for `blend_mode` changes the blend mode slot: the
    /// slot is empty or holds another mode.
    pub open spec fn blend_mode_changes(self, blend_mode: BlendMode) -> bool {
        self.blend_mode != Some(blend_mode)
    }

    /// Whether a request for `program` changes the program slot: the slot
    /// is empty or holds another program.
    pub open spec fn program_changes(self, program: ProgramHandle) -> bool {
        self.program != Some(program)
    }

    /// Whether a request for the texture unit `albedo` changes the texture
    /// slot: the slot is empty or holds another unit.
    pub open spec fn albedo_changes(self, albedo: usize) -> bool {
        self.albedo != Some(albedo)
    }

    /// The cache after a request for `blend_mode`.
    pub open spec fn with_blend_mode(self, blend_mode: BlendMode) -> GlCache {
        GlCache { blend_mode: Some(blend_mode), ..self }
    }

    /// The cache after a request for `program`.
    pub open spec fn with_program(self, program: ProgramHandle) -> GlCache {
        GlCache { program: Some(program), ..self }
    }

    /// The cache after a request for the texture unit `albedo`.
    pub open spec fn with_albedo(self, albedo: usize) -> GlCache {
        GlCache { albedo: Some(albedo), ..self }
    }

    /// Requests a camera, and says whether that changed the slot.
    ///
    /// An empty slot takes the camera whole. A full one takes each of
    /// position, rotation and scale that is another number than the one
    /// held.
    pub fn update_camera(&mut self, camera: &Camera) -> (changed: bool)
        ensures
            changed == old(self).camera_changes(*camera),
            *final(self) == old(self).with_camera(*camera),
    {
        match self.camera {
            Some(held) => {
                let mut next = held;
                let mut changed = false;
                if !held.position.same_number(camera.position) {
                    next.position = camera.position;
                    changed = true;
                }
                if !held.rotation.same_number(camera.rotation) {
                    next.rotation = camera.rotation;
                    changed = true;
                }
                if !held.scale.same_number(camera.scale) {
                    next.scale = camera.scale;
                    changed = true;
                }
                self.camera = Some(next);
                changed
            },
            None => {
                self.camera = Some(*camera);
                true
            },
        }
    }

    /// Requests a blend mode, and says whether it is another than the one
    /// held.
    pub fn update_blend_mode(&mut self, blend_mode: BlendMode) -> (changed: bool)
        ensures
            changed == old(self).blend_mode_changes(blend_mode),
            *final(self) == old(self).with_blend_mode(blend_mode),
    {
        let held = self.blend_mode;
        self.blend_mode = Some(blend_mode);
        match held {
            Some(held_mode) => held_mode != blend_mode,
            None => true,
        }
    }

    /// Requests a shader program, and says whether it is another than the
    /// one held.
    pub fn update_program(&mut self, program: ProgramHandle) -> (changed: bool)
        ensures
            changed == old(self).program_changes(program),
            *final(self) == old(self).with_program(program),
    {
        let held = self.program;
        self.program = Some(program);
        match held {
            Some(held_program) => held_program != program,
            None => true,
        }
    }

    /// Requests a texture unit, and says whether it is another than the one
    /// held.
    pub fn update_albedo(&mut self, albedo: usize) -> (changed: bool)
        ensures
            changed == old(self).albedo_changes(albedo),
            *final(self) == old(self).with_albedo(albedo),
    {
        let held = self.albedo;
        self.albedo = Some(albedo);
        match held {
            Some(held_unit) => held_unit != albedo,
            None => true,
        }
    }
}

/// The two cameras are other numbers in exactly one of position, rotation
/// and scale.
pub open spec fn differ_in_one_part(a: Camera, b: Camera) -> bool {
    let position = !a.position.spec_same_number(b.position);
    let rotation = !a.rotation.spec_same_number(b.rotation);
    let scale = !a.scale.spec_same_number(b.scale);
    ||| position && !rotation && !scale
    ||| !position && rotation && !scale
    ||| !position && !rotation && scale
}

/// A change of camera is reported once.
///
/// Let a cache in any state be asked for one camera and then for a second
/// that is another number in exactly one of position, rotation and scale,
/// and holds no NaN. The request for the second reports a change, and the
/// same request made again reports none.
///
/// A NaN is another number than itself, so a camera that holds one is
/// reported as changed on every request.
pub proof fn law_camera_change_reported_once(cache: GlCache, first: Camera, second: Camera)
    requires
        differ_in_one_part(first, second),
        !second.spec_has_nan(),
    ensures
        cache.with_camera(first).camera_changes(second),
        !cache.with_camera(first).with_camera(second).camera_changes(second),
{
}

/// A camera without a NaN, once requested, is held: the same request made
/// again reports no change and leaves the cache as it is.
pub proof fn law_camera_request_settles(cache: GlCache, camera: Camera)
    requires
        !camera.spec_has_nan(),
    ensures
        !cache.with_camera(camera).camera_changes(camera),
        cache.with_camera(camera).with_camera(camera) == cache.with_camera(camera),
{
}

/// A blend mode is reported once: the first request on a cache that holds
/// no blend mode reports a change, and the same request made again, on any
/// cache, reports none and leaves the cache as it is.
pub proof fn law_blend_mode_reported_once(cache: GlCache, blend_mode: BlendMode)
    ensures
        cache.blend_mode is None ==> cache.blend_mode_changes(blend_mode),
        !cache.with_blend_mode(blend_mode).blend_mode_changes(blend_mode),
        cache.with_blend_mode(blend_mode).with_blend_mode(blend_mode) == cache.with_blend_mode(
            blend_mode,
        ),
{
}

/// A shader program is reported once, as a blend mode is.
pub proof fn law_program_reported_once(cache: GlCache, program: ProgramHandle)
    ensures
        cache.program is None ==> cache.program_changes(program),
        !cache.with_program(program).program_changes(program),
        cache.with_program(program).with_program(program) == cache.with_program(program),
{
}

/// A texture unit is reported once, as a blend mode is.
pub proof fn law_albedo_reported_once(cache: GlCache, albedo: usize)
    ensures
        cache.albedo is None ==> cache.albedo_changes(albedo),
        !cache.with_albedo(albedo).albedo_changes(albedo),
        cache.with_albedo(albedo).with_albedo(albedo) == cache.with_albedo(albedo),
{
}

/// A request touches its own slot and no other.
pub proof fn law_slots_are_independent(
    cache: GlCache,
    camera: Camera,
    blend_mode: BlendMode,
    program: ProgramHandle,
    albedo: usize,
)
    ensures
        cache.with_camera(camera).blend_mode == cache.blend_mode,
        cache.with_camera(camera).program == cache.program,
        cache.with_camera(camera).albedo == cache.albedo,
        cache.with_blend_mode(blend_mode) == (GlCache { blend_mode: Some(blend_mode), ..cache }),
        cache.with_program(program) == (GlCache { program: Some(program), ..cache }),
        cache.with_albedo(albedo) == (GlCache { albedo: Some(albedo), ..cache }),
{
}

impl Default for GlCache {
    fn default() -> (cache: GlCache)
        ensures
            cache == GlCache::empty(),
    {
        GlCache { camera: None, blend_mode: None, program: None, albedo: None }
    }
}

} // verus!
