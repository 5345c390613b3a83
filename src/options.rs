use vstd::prelude::*;
use vstd::utf8::encode_utf8;

use crate::cstr::{has_interior_nul, nul_terminated_of, to_nul_terminated};
use crate::error::VoicevoxError;

verus! {

/// Which hardware the engine should run its models on.
#[derive(Debug, Clone, Copy, PartialEq, Eq, Structural)]
pub enum AccelerationMode {
    Auto,
    Cpu,
    Gpu,
}

impl AccelerationMode {
    /// The native encoding of the mode.
    pub open spec fn spec_code(self) -> i32 {
        match self {
            AccelerationMode::Auto => 0,
            AccelerationMode::Cpu => 1,
            AccelerationMode::Gpu => 2,
        }
    }

    /// The mode that a native code stands for; an unknown code means `Auto`.
    pub open spec fn spec_from_code(code: i32) -> AccelerationMode {
        if code == 1 {
            AccelerationMode::Cpu
        } else if code == 2 {
            AccelerationMode::Gpu
        } else {
            AccelerationMode::Auto
        }
    }

    /// Returns the code that the native engine uses for this mode.
    pub fn code(&self) -> (r: i32)
        ensures
            r == self.spec_code(),
    {
        match self {
            AccelerationMode::Auto => 0,
            AccelerationMode::Cpu => 1,
            AccelerationMode::Gpu => 2,
        }
    }

    /// Reads a native mode code; codes the engine does not define read as `Auto`.
    pub fn from_code(code: i32) -> (r: AccelerationMode)
        ensures
            r == Self::spec_from_code(code),
    {
        if code == 1 {
            AccelerationMode::Cpu
        } else if code == 2 {
            AccelerationMode::Gpu
        } else {
            AccelerationMode::Auto
        }
    }
}

/// Reading back the code of a mode gives the same mode.
pub proof fn lemma_code_round_trip(mode: AccelerationMode)
    ensures
        AccelerationMode::spec_from_code(mode.spec_code()) == mode,
{
}

/// How the engine is to be initialized.
#[derive(Debug)]
pub struct InitializeOptions {
    pub acceleration_mode: AccelerationMode,
    pub cpu_num_threads: u16,
    pub load_all_models: bool,
    pub open_jtalk_dict_dir: String,
}

/// The options in the layout that the native initialization takes: the mode as
/// its code and the dictionary path as the bytes of a NUL-terminated C string.
#[derive(Debug)]
pub struct NativeInitializeOptions {
    pub acceleration_mode: i32,
    pub cpu_num_threads: u16,
    pub load_all_models: bool,
    pub open_jtalk_dict_dir: Vec<u8>,
}

impl InitializeOptions {
    /// Whether `n` is these options in the native layout.
    pub open spec fn translates(&self, n: &NativeInitializeOptions) -> bool {
        &&& n.acceleration_mode == self.acceleration_mode.spec_code()
        &&& n.cpu_num_threads == self.cpu_num_threads
        &&& n.load_all_models == self.load_all_models
        &&& n.open_jtalk_dict_dir@ == nul_terminated_of(encode_utf8(self.open_jtalk_dict_dir@))
    }

    /// Builds the default options from the native engine's own defaults: the
    /// mode code, thread count and preload flag are copied, and the dictionary
    /// path is empty, to be supplied by the caller.
    pub fn from_native_defaults(
        acceleration_mode: i32,
        cpu_num_threads: u16,
        load_all_models: bool,
    ) -> (r: InitializeOptions)
        ensures
            r.acceleration_mode == AccelerationMode::spec_from_code(acceleration_mode),
            r.cpu_num_threads == cpu_num_threads,
            r.load_all_models == load_all_models,
            r.open_jtalk_dict_dir@ == Seq::<char>::empty(),
    {
        InitializeOptions {
            acceleration_mode: AccelerationMode::from_code(acceleration_mode),
            cpu_num_threads,
            load_all_models,
            open_jtalk_dict_dir: String::new(),
        }
    }

    /// Translates the options into the native layout. Fails with `InvalidPath`
    /// exactly when the dictionary path holds a NUL byte.
    pub fn to_native(&self) -> (r: Result<NativeInitializeOptions, VoicevoxError>)
        ensures
            has_interior_nul(encode_utf8(self.open_jtalk_dict_dir@))
                <==> r == Err::<NativeInitializeOptions, VoicevoxError>(
                VoicevoxError::InvalidPath,
            ),
            r is Ok <==> !has_interior_nul(encode_utf8(self.open_jtalk_dict_dir@)),
            r matches Ok(n) ==> self.translates(&n),
    {
        match to_nul_terminated(self.open_jtalk_dict_dir.as_str()) {
            None => Err(VoicevoxError::InvalidPath),
            Some(path) => Ok(
                NativeInitializeOptions {
                    acceleration_mode: self.acceleration_mode.code(),
                    cpu_num_threads: self.cpu_num_threads,
                    load_all_models: self.load_all_models,
                    open_jtalk_dict_dir: path,
                },
            ),
        }
    }
}

} // verus!
