use vstd::prelude::*;

verus! {

/// Why the renderer could not be set up or its pipeline rebuilt.
#[derive(Clone, Copy, Debug, PartialEq, Eq, Structural)]
pub enum RenderError {
    /// The shader source could not be read.
    ShaderUnreadable,
    /// The device did not accept the shader or the pipeline built from it.
    PipelineRejected,
    /// There is no viewport whose pixel format the pipeline could target.
    NoViewport,
}

/// Why the event loop ended other than by a request to close.
#[derive(Clone, Copy, Debug, PartialEq, Eq, Structural)]
pub enum LoopError {
    /// The file watcher is gone, so changes of the shader would go unnoticed.
    WatcherDisconnected,
    /// The pipeline could not be rebuilt after the shader had changed.
    ReloadFailed(RenderError),
}

impl RenderError {
    /// The line that reports the error.
    pub open spec fn message_text(self) -> Seq<char> {
        match self {
            RenderError::ShaderUnreadable => "failed to read the shader source"@,
            RenderError::PipelineRejected => "failed to build the pipeline from the shader source"@,
            RenderError::NoViewport => "failed to get viewport"@,
        }
    }

    /// One line that reports the error to the user.
    pub fn message(&self) -> (line: String)
        ensures
            line@ == self.message_text(),
    {
        match self {
            RenderError::ShaderUnreadable => "failed to read the shader source".to_owned(),
            RenderError::PipelineRejected => "failed to build the pipeline from the shader source".to_owned(),
            RenderError::NoViewport => "failed to get viewport".to_owned(),
        }
    }
}

impl LoopError {
    /// The line that reports the error.
    pub open spec fn message_text(self) -> Seq<char> {
        match self {
            LoopError::WatcherDisconnected => "the shader file watcher is disconnected"@,
            LoopError::ReloadFailed(error) => error.message_text(),
        }
    }

    /// One line that reports the error to the user.
    pub fn message(&self) -> (line: String)
        ensures
            line@ == self.message_text(),
    {
        match self {
            LoopError::WatcherDisconnected => "the shader file watcher is disconnected".to_owned(),
            LoopError::ReloadFailed(error) => error.message(),
        }
    }
}

} // verus!
