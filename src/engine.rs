use vstd::prelude::*;
use vstd::utf8::encode_utf8;

use crate::cstr::{has_interior_nul, nul_terminated_of, to_nul_terminated};
use crate::error::{check_status, Operation, ResultCode, VoicevoxError};
use crate::options::{InitializeOptions, NativeInitializeOptions};

verus! {

/// The process-wide record of whether a handle to the native engine is live.
/// The engine is a singleton: a second handle is refused while one is live.
pub struct EngineSlot {
    live: bool,
}

impl View for EngineSlot {
    type V = bool;

    /// Whether a handle is live.
    closed spec fn view(&self) -> bool {
        self.live
    }
}

/// A handle to the native engine. It is live from its construction until it is
/// finalized, and every operation on it first checks that it is still live.
pub struct VoicevoxCore {
    finalized: bool,
}

impl View for VoicevoxCore {
    type V = bool;

    /// Whether the handle is live.
    closed spec fn view(&self) -> bool {
        !self.finalized
    }
}

impl EngineSlot {
    /// A slot with no live handle.
    pub fn new() -> (r: EngineSlot)
        ensures
            !r@,
    {
        EngineSlot { live: false }
    }

    /// Whether a handle is live.
    pub fn is_live(&self) -> (r: bool)
        ensures
            r == self@,
    {
        self.live
    }

    /// The first half of construction: refuses a second live handle with
    /// `AlreadyInitialized`, then translates the options for the native call.
    pub fn begin_initialize(&self, options: &InitializeOptions) -> (r: Result<
        NativeInitializeOptions,
        VoicevoxError,
    >)
        ensures
            self@ ==> r == Err::<NativeInitializeOptions, VoicevoxError>(
                VoicevoxError::AlreadyInitialized,
            ),
            !self@ && has_interior_nul(encode_utf8(options.open_jtalk_dict_dir@)) ==> r == Err::<
                NativeInitializeOptions,
                VoicevoxError,
            >(VoicevoxError::InvalidPath),
            r is Ok <==> !self@ && !has_interior_nul(encode_utf8(options.open_jtalk_dict_dir@)),
            r matches Ok(n) ==> options.translates(&n),
    {
        if self.live {
            Err(VoicevoxError::AlreadyInitialized)
        } else {
            options.to_native()
        }
    }

    /// The second half of construction, given the status of the native
    /// initialization: on zero the slot becomes live and a live handle is
    /// returned; any other code is `EngineInitError` and the slot stays free.
    pub fn finish_initialize(&mut self, status: ResultCode) -> (r: Result<
        VoicevoxCore,
        VoicevoxError,
    >)
        requires
            !old(self)@,
        ensures
            status == 0 ==> final(self)@ && (r matches Ok(h) && h@),
            status != 0 ==> !final(self)@ && r == Err::<VoicevoxCore, VoicevoxError>(
                VoicevoxError::EngineInitError(status),
            ),
    {
        match check_status(Operation::Initialize, status) {
            Ok(()) => {
                self.live = true;
                Ok(VoicevoxCore { finalized: false })
            },
            Err(e) => Err(e),
        }
    }
}

impl VoicevoxCore {
    /// Whether the handle is still live.
    pub fn is_live(&self) -> (r: bool)
        ensures
            r == self@,
    {
        !self.finalized
    }

    /// Succeeds exactly when the handle is live; otherwise `UseAfterFinalize`.
    pub fn ensure_live(&self) -> (r: Result<(), VoicevoxError>)
        ensures
            self@ ==> r == Ok::<(), VoicevoxError>(()),
            !self@ ==> r == Err::<(), VoicevoxError>(VoicevoxError::UseAfterFinalize),
    {
        if self.finalized {
            Err(VoicevoxError::UseAfterFinalize)
        } else {
            Ok(())
        }
    }

    /// Prepares text for the native audio-query or text-to-speech call: the
    /// handle must be live, and the text becomes a NUL-terminated buffer, or
    /// `InvalidText` when it holds a NUL of its own.
    pub fn text_for_engine(&self, text: &str) -> (r: Result<Vec<u8>, VoicevoxError>)
        ensures
            !self@ ==> r == Err::<Vec<u8>, VoicevoxError>(VoicevoxError::UseAfterFinalize),
            self@ && has_interior_nul(encode_utf8(text@)) ==> r == Err::<Vec<u8>, VoicevoxError>(
                VoicevoxError::InvalidText,
            ),
            r is Ok <==> self@ && !has_interior_nul(encode_utf8(text@)),
            r matches Ok(b) ==> b@ == nul_terminated_of(encode_utf8(text@)),
    {
        if self.finalized {
            return Err(VoicevoxError::UseAfterFinalize);
        }
        match to_nul_terminated(text) {
            Some(b) => Ok(b),
            None => Err(VoicevoxError::InvalidText),
        }
    }

    /// Prepares the textual form of a query for the native synthesis call: the
    /// handle must be live, and the text becomes a NUL-terminated buffer, or
    /// `QueryEncodeError` when it holds a NUL of its own.
    pub fn query_for_engine(&self, query_json: &str) -> (r: Result<Vec<u8>, VoicevoxError>)
        ensures
            !self@ ==> r == Err::<Vec<u8>, VoicevoxError>(VoicevoxError::UseAfterFinalize),
            self@ && has_interior_nul(encode_utf8(query_json@)) ==> r == Err::<
                Vec<u8>,
                VoicevoxError,
            >(VoicevoxError::QueryEncodeError),
            r is Ok <==> self@ && !has_interior_nul(encode_utf8(query_json@)),
            r matches Ok(b) ==> b@ == nul_terminated_of(encode_utf8(query_json@)),
    {
        if self.finalized {
            return Err(VoicevoxError::UseAfterFinalize);
        }
        match to_nul_terminated(query_json) {
            Some(b) => Ok(b),
            None => Err(VoicevoxError::QueryEncodeError),
        }
    }

    /// The outcome of a native model load with status `status`.
    pub fn load_model_result(status: ResultCode) -> (r: Result<(), VoicevoxError>)
        ensures
            status == 0 ==> r == Ok::<(), VoicevoxError>(()),
            status != 0 ==> r == Err::<(), VoicevoxError>(VoicevoxError::ModelLoadError(status)),
    {
        check_status(Operation::LoadModel, status)
    }

    /// The outcome of a native audio query with status `status`; on success the
    /// returned text is then decoded.
    pub fn audio_query_result(status: ResultCode) -> (r: Result<(), VoicevoxError>)
        ensures
            status == 0 ==> r == Ok::<(), VoicevoxError>(()),
            status != 0 ==> r == Err::<(), VoicevoxError>(VoicevoxError::QueryError(status)),
    {
        check_status(Operation::AudioQuery, status)
    }

    /// The outcome of a native synthesis or text-to-speech call with status
    /// `status`, given the waveform bytes copied out of the engine's buffer.
    pub fn synthesis_result(status: ResultCode, wav: Vec<u8>) -> (r: Result<
        Vec<u8>,
        VoicevoxError,
    >)
        ensures
            status == 0 ==> r == Ok::<Vec<u8>, VoicevoxError>(wav),
            status != 0 ==> r == Err::<Vec<u8>, VoicevoxError>(
                VoicevoxError::SynthesisError(status),
            ),
    {
        match check_status(Operation::Synthesis, status) {
            Ok(()) => Ok(wav),
            Err(e) => Err(e),
        }
    }

    /// Ends the handle's life. Returns whether the native engine must now be
    /// finalized, which is so exactly when the handle was live; the slot is
    /// then freed. A second call changes nothing and returns false.
    pub fn finalize(&mut self, slot: &mut EngineSlot) -> (r: bool)
        ensures
            r == old(self)@,
            !final(self)@,
            old(self)@ ==> !final(slot)@,
            !old(self)@ ==> final(slot)@ == old(slot)@,
    {
        if self.finalized {
            false
        } else {
            self.finalized = true;
            slot.live = false;
            true
        }
    }
}

} // verus!
