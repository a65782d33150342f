//! The GPU commands that the renderer records, and the handles and numbers
//! that they carry.
//!
//! A command names one call of the OpenGL API with its arguments as the API
//! takes them. The host executes recorded commands in order.

use vstd::prelude::*;
use crate::scalar::Scalar;

verus! {

/// The capability that turns multisampling on.
pub const MULTISAMPLE: u32 = 0x809D;

/// The bit that selects the colour buffer in a clear.
pub const COLOR_BUFFER_BIT: u32 = 0x0000_4000;

/// The blend equation that adds source and destination.
pub const FUNC_ADD: u32 = 0x8006;

/// The blend factor "source alpha".
pub const SRC_ALPHA: u32 = 0x0302;

/// The blend factor "one minus source alpha".
pub const ONE_MINUS_SRC_ALPHA: u32 = 0x0303;

/// The source of debug messages that the application itself wrote.
pub const DEBUG_SOURCE_APPLICATION: u32 = 0x824A;

/// Red of the background colour: the bit pattern of `0.1`.
pub const CLEAR_RED_BITS: u32 = 0x3dcc_cccd;

/// Green of the background colour: the bit pattern of `0.2`.
pub const CLEAR_GREEN_BITS: u32 = 0x3e4c_cccd;

/// Blue of the background colour: the bit pattern of `0.3`.
pub const CLEAR_BLUE_BITS: u32 = 0x3e99_999a;

/// Alpha of the background colour: the bit pattern of `1.0`.
pub const CLEAR_ALPHA_BITS: u32 = 0x3f80_0000;

/// The identity of a linked shader program: a number other than zero.
#[derive(Clone, Copy, Debug, PartialEq, Eq, Hash, Structural)]
pub struct ProgramHandle {
    id: u32,
}

impl ProgramHandle {
    /// No handle holds zero: zero is the API's word for "no program".
    #[verifier::type_invariant]
    spec fn is_named(self) -> bool {
        self.id != 0
    }

    /// The handle's number.
    pub closed spec fn spec_id(self) -> u32 {
        self.id
    }

    /// The handle that holds the given number.
    pub closed spec fn named(id: u32) -> ProgramHandle {
        ProgramHandle { id }
    }

    /// The handle with the given number, if the number is not zero.
    pub fn new(id: u32) -> (r: Option<ProgramHandle>)
        ensures
            id == 0 <==> r is None,
            id != 0 ==> r == Some(ProgramHandle::named(id)),
            r matches Some(handle) ==> handle.spec_id() == id,
    {
        if id == 0 {
            None
        } else {
            Some(ProgramHandle { id })
        }
    }

    /// The handle's number, which is never zero.
    #[verifier::when_used_as_spec(spec_id)]
    pub fn id(self) -> (id: u32)
        ensures
            id == self.spec_id(),
            id != 0,
    {
        proof {
            use_type_invariant(&self);
        }
        self.id
    }
}

/// A handle is its number: two handles are the same handle exactly when
/// they hold the same number, and the handle named by a number holds it.
pub proof fn law_handle_is_its_number(a: ProgramHandle, b: ProgramHandle, id: u32)
    ensures
        a.spec_id() == b.spec_id() <==> a == b,
        ProgramHandle::named(id).spec_id() == id,
        ProgramHandle::named(a.spec_id()) == a,
{
}

/// One call of the OpenGL API.
#[derive(Clone, Debug, PartialEq, Eq)]
pub enum GlCommand {
    /// Turn a capability on.
    Enable { capability: u32 },
    /// Set the rectangle that is drawn into.
    Viewport { x: i32, y: i32, width: i32, height: i32 },
    /// Set the colour that a clear fills with.
    ClearColor { red: Scalar, green: Scalar, blue: Scalar, alpha: Scalar },
    /// Clear the buffers that the mask selects.
    Clear { mask: u32 },
    /// Make a program the active one.
    UseProgram { program: Option<ProgramHandle> },
    /// Set the blend equation.
    BlendEquation { mode: u32 },
    /// Set the blend factors of source and destination.
    BlendFunc { source: u32, destination: u32 },
    /// Open a labelled group of commands, for tools that trace the API.
    PushDebugGroup { source: u32, id: u32, message: String },
    /// Close the group that was opened last.
    PopDebugGroup,
}

impl GlCommand {
    /// The command opens a debug group of the application under this label.
    pub open spec fn opens_group(self, label: Seq<char>) -> bool {
        self matches GlCommand::PushDebugGroup { source, id, message }
            && source == DEBUG_SOURCE_APPLICATION && id == 0 && message@ == label
    }
}

/// The number as the API's signed integers hold it: itself up to
/// `i32::MAX`, and `2^32` less above that.
pub open spec fn spec_signed(n: u32) -> i32 {
    if n <= i32::MAX {
        n as i32
    } else {
        (n - 0x1_0000_0000) as i32
    }
}

/// Reinterprets an unsigned number as the signed integer with the same 32
/// bits.
#[verifier::when_used_as_spec(spec_signed)]
pub fn signed(n: u32) -> (r: i32)
    ensures
        r == spec_signed(n),
{
    if n <= 0x7fff_ffff {
        n as i32
    } else {
        let low: u32 = n - 0x8000_0000;
        let r: i32 = low as i32 - 0x7fff_ffff - 1;
        r
    }
}

} // verus!
