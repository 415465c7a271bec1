use vstd::prelude::*;
use crate::error::LifecycleError;

verus! {

/// The source text of one shader stage.
#[derive(Clone, Debug)]
pub struct Shader {
    pub source: String,
}

/// A shader program: two sources before it is built, a linked program
/// object after, or disposed.
#[derive(Clone, Debug)]
pub enum ShaderProgram {
    PreBuild { fragment_shader: Shader, vertex_shader: Shader },
    Builded { program_id: u32 },
    Disposed,
}

impl ShaderProgram {
    /// A built program names a live program object.
    pub open spec fn wf(&self) -> bool {
        match self {
            ShaderProgram::Builded { program_id } => *program_id != 0,
            _ => true,
        }
    }

    /// The refusal that an operation asking for the source state meets.
    pub open spec fn prebuild_refusal(self) -> LifecycleError {
        match self {
            ShaderProgram::Disposed => LifecycleError::AlreadyDisposed,
            _ => LifecycleError::NotPreBuild,
        }
    }

    /// The refusal, if any, that recording a link as `program_id` meets.
    pub open spec fn build_refusal(self, program_id: u32, linked: bool) -> Option<LifecycleError> {
        if !(self is PreBuild) {
            Some(self.prebuild_refusal())
        } else if program_id == 0 {
            Some(LifecycleError::NullHandle)
        } else if !linked {
            Some(LifecycleError::LinkFailed)
        } else {
            None
        }
    }

    /// The state that recording a link as `program_id` leads to.
    pub open spec fn after_build(self, program_id: u32, linked: bool) -> ShaderProgram {
        if self.build_refusal(program_id, linked) is None {
            ShaderProgram::Builded { program_id }
        } else {
            self
        }
    }

    /// The refusal, if any, that disposal meets.
    pub open spec fn dispose_refusal(self) -> Option<LifecycleError> {
        if self is Disposed {
            Some(LifecycleError::AlreadyDisposed)
        } else {
            None
        }
    }

    /// A program in its source state with two empty sources.
    pub fn new() -> (r: ShaderProgram)
        ensures
            r matches ShaderProgram::PreBuild { fragment_shader, vertex_shader }
                && fragment_shader.source@.len() == 0 && vertex_shader.source@.len() == 0,
    {
        ShaderProgram::PreBuild {
            fragment_shader: Shader { source: String::new() },
            vertex_shader: Shader { source: String::new() },
        }
    }

    /// Sets the vertex stage's source text. Only a program in its source
    /// state takes one; any other is left unchanged.
    pub fn load_vertex_shader(&mut self, source: String) -> (r: Result<(), LifecycleError>)
        ensures
            match *old(self) {
                ShaderProgram::PreBuild { fragment_shader, .. } => r is Ok && (*final(self) matches
                    ShaderProgram::PreBuild { fragment_shader: f, vertex_shader: v }
                    && f == fragment_shader && v.source@ == source@),
                _ => r == Err::<(), LifecycleError>(old(self).prebuild_refusal()) && *final(self)
                    == *old(self),
            },
    {
        match self {
            ShaderProgram::PreBuild { vertex_shader, .. } => {
                vertex_shader.source = source;
                Ok(())
            },
            ShaderProgram::Disposed => Err(LifecycleError::AlreadyDisposed),
            _ => Err(LifecycleError::NotPreBuild),
        }
    }

    /// Sets the fragment stage's source text. Only a program in its source
    /// state takes one; any other is left unchanged.
    pub fn load_fragment_shader(&mut self, source: String) -> (r: Result<(), LifecycleError>)
        ensures
            match *old(self) {
                ShaderProgram::PreBuild { vertex_shader, .. } => r is Ok && (*final(self) matches
                    ShaderProgram::PreBuild { fragment_shader: f, vertex_shader: v }
                    && v == vertex_shader && f.source@ == source@),
                _ => r == Err::<(), LifecycleError>(old(self).prebuild_refusal()) && *final(self)
                    == *old(self),
            },
    {
        match self {
            ShaderProgram::PreBuild { fragment_shader, .. } => {
                fragment_shader.source = source;
                Ok(())
            },
            ShaderProgram::Disposed => Err(LifecycleError::AlreadyDisposed),
            _ => Err(LifecycleError::NotPreBuild),
        }
    }
}

} // verus!
