//! What can go wrong while the renderer is set up.

use vstd::prelude::*;
use vstd::string::StringExecFns;
use vstd::std_specs::convert::FromSpecImpl;

verus! {

/// A shader that the GPU driver refused, with the driver's log.
#[derive(Clone, Debug, PartialEq, Eq)]
pub struct ShaderCompileError(pub String);

/// Why the OpenGL renderer could not be initialised.
#[derive(Clone, Debug, PartialEq, Eq)]
pub enum OpenglRendererError {
    /// A shader did not compile.
    ShaderCompile(ShaderCompileError),
    /// The driver reported an error, in its own words.
    Opengl(String),
}

impl ShaderCompileError {
    /// The text of [`ShaderCompileError::message`].
    pub open spec fn spec_message(&self) -> Seq<char> {
        "Could not compile shader: "@ + self.0@
    }

    /// The error as a sentence: a fixed opening, then the driver's log.
    pub fn message(&self) -> (text: String)
        ensures
            text@ == self.spec_message(),
    {
        String::from_str("Could not compile shader: ").concat(self.0.as_str())
    }
}

impl OpenglRendererError {
    /// The text that follows the opening of
    /// [`OpenglRendererError::message`]: the message of the shader error, or
    /// the driver's words.
    pub open spec fn detail(&self) -> Seq<char> {
        match self {
            OpenglRendererError::ShaderCompile(e) => e.spec_message(),
            OpenglRendererError::Opengl(text) => text@,
        }
    }

    /// The text of [`OpenglRendererError::message`].
    pub open spec fn spec_message(&self) -> Seq<char> {
        "Could not initialize OpenGL renderer: "@ + self.detail()
    }

    /// The error as a sentence: a fixed opening, then the cause.
    pub fn message(&self) -> (text: String)
        ensures
            text@ == self.spec_message(),
    {
        let opening = String::from_str("Could not initialize OpenGL renderer: ");
        match self {
            OpenglRendererError::ShaderCompile(e) => {
                let cause = e.message();
                opening.concat(cause.as_str())
            },
            OpenglRendererError::Opengl(text) => opening.concat(text.as_str()),
        }
    }
}

impl From<ShaderCompileError> for OpenglRendererError {
    fn from(e: ShaderCompileError) -> (r: OpenglRendererError) {
        OpenglRendererError::ShaderCompile(e)
    }
}

impl FromSpecImpl<ShaderCompileError> for OpenglRendererError {
    open spec fn obeys_from_spec() -> bool {
        true
    }

    open spec fn from_spec(e: ShaderCompileError) -> OpenglRendererError {
        OpenglRendererError::ShaderCompile(e)
    }
}

} // verus!
