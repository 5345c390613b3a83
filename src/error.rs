use vstd::prelude::*;

verus! {

/// A status code reported by the native engine; zero means success.
pub type ResultCode = i32;

/// Everything that can go wrong when driving the native engine.
#[derive(Debug, Clone, Copy, PartialEq, Eq, Structural)]
pub enum VoicevoxError {
    /// The native initialization reported a non-zero status.
    EngineInitError(ResultCode),
    /// The native model load reported a non-zero status.
    ModelLoadError(ResultCode),
    /// The native audio-query operation reported a non-zero status.
    QueryError(ResultCode),
    /// The query text returned by the engine did not match the schema.
    QueryDecodeError,
    /// A query value could not be turned into its textual form.
    QueryEncodeError,
    /// The native synthesis (or text-to-speech) reported a non-zero status.
    SynthesisError(ResultCode),
    /// Text handed to the engine holds an embedded NUL byte.
    InvalidText,
    /// The dictionary path holds an embedded NUL byte.
    InvalidPath,
    /// A handle is already live in this process.
    AlreadyInitialized,
    /// The handle was used after it had been finalized.
    UseAfterFinalize,
}

/// A native operation whose status code is mapped to an error.
#[derive(Debug, Clone, Copy, PartialEq, Eq, Structural)]
pub enum Operation {
    Initialize,
    LoadModel,
    AudioQuery,
    Synthesis,
}

/// The error that a non-zero status `code` of `op` is reported as.
pub open spec fn failure_of(op: Operation, code: ResultCode) -> VoicevoxError {
    match op {
        Operation::Initialize => VoicevoxError::EngineInitError(code),
        Operation::LoadModel => VoicevoxError::ModelLoadError(code),
        Operation::AudioQuery => VoicevoxError::QueryError(code),
        Operation::Synthesis => VoicevoxError::SynthesisError(code),
    }
}

/// Maps the status code of a native operation to a result: zero is success,
/// any other code is passed up unchanged inside the error for that operation.
pub fn check_status(op: Operation, code: ResultCode) -> (r: Result<(), VoicevoxError>)
    ensures
        code == 0 ==> r == Ok::<(), VoicevoxError>(()),
        code != 0 ==> r == Err::<(), VoicevoxError>(failure_of(op, code)),
{
    if code == 0 {
        Ok(())
    } else {
        match op {
            Operation::Initialize => Err(VoicevoxError::EngineInitError(code)),
            Operation::LoadModel => Err(VoicevoxError::ModelLoadError(code)),
            Operation::AudioQuery => Err(VoicevoxError::QueryError(code)),
            Operation::Synthesis => Err(VoicevoxError::SynthesisError(code)),
        }
    }
}

} // verus!
