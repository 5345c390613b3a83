use vvcapi::cstr::{contains_nul, to_nul_terminated};
use vvcapi::engine::{EngineSlot, VoicevoxCore};
use vvcapi::error::{check_status, Operation, VoicevoxError};
use vvcapi::options::{AccelerationMode, InitializeOptions};

fn options_with_dir(dir: &str) -> InitializeOptions {
    InitializeOptions {
        open_jtalk_dict_dir: dir.to_string(),
        ..InitializeOptions::from_native_defaults(0, 0, false)
    }
}

fn live_handle(slot: &mut EngineSlot) -> VoicevoxCore {
    slot.begin_initialize(&options_with_dir("./dict")).unwrap();
    slot.finish_initialize(0).unwrap()
}

#[test]
fn acceleration_mode_codes() {
    assert_eq!(AccelerationMode::Auto.code(), 0);
    assert_eq!(AccelerationMode::Cpu.code(), 1);
    assert_eq!(AccelerationMode::Gpu.code(), 2);
    assert_eq!(AccelerationMode::from_code(0), AccelerationMode::Auto);
    assert_eq!(AccelerationMode::from_code(1), AccelerationMode::Cpu);
    assert_eq!(AccelerationMode::from_code(2), AccelerationMode::Gpu);
    assert_eq!(AccelerationMode::from_code(7), AccelerationMode::Auto);
    assert_eq!(AccelerationMode::from_code(-1), AccelerationMode::Auto);
    for m in [AccelerationMode::Auto, AccelerationMode::Cpu, AccelerationMode::Gpu] {
        assert_eq!(AccelerationMode::from_code(m.code()), m);
    }
}

#[test]
fn defaults_copy_native_fields_and_leave_path_empty() {
    let o = InitializeOptions::from_native_defaults(1, 4, true);
    assert_eq!(o.acceleration_mode, AccelerationMode::Cpu);
    assert_eq!(o.cpu_num_threads, 4);
    assert!(o.load_all_models);
    assert_eq!(o.open_jtalk_dict_dir, "");
}

#[test]
fn nul_terminated_appends_one_nul() {
    assert_eq!(to_nul_terminated("abc"), Some(vec![b'a', b'b', b'c', 0]));
    assert_eq!(to_nul_terminated(""), Some(vec![0]));
    assert_eq!(
        to_nul_terminated("こ"),
        Some(vec![0xE3, 0x81, 0x93, 0])
    );
    assert_eq!(to_nul_terminated("a\0b"), None);
    assert_eq!(to_nul_terminated("\0"), None);
    assert!(contains_nul(&vec![1, 0, 2]));
    assert!(!contains_nul(&vec![1, 2, 3]));
    assert!(!contains_nul(&vec![]));
}

#[test]
fn to_native_translates_options() {
    let o = InitializeOptions {
        acceleration_mode: AccelerationMode::Gpu,
        cpu_num_threads: 8,
        load_all_models: true,
        open_jtalk_dict_dir: "./d".to_string(),
    };
    let n = o.to_native().unwrap();
    assert_eq!(n.acceleration_mode, 2);
    assert_eq!(n.cpu_num_threads, 8);
    assert!(n.load_all_models);
    assert_eq!(n.open_jtalk_dict_dir, vec![b'.', b'/', b'd', 0]);
}

#[test]
fn to_native_rejects_path_with_nul() {
    let o = options_with_dir("./dic\0t");
    assert_eq!(o.to_native().unwrap_err(), VoicevoxError::InvalidPath);
}

#[test]
fn status_codes_map_to_operation_errors() {
    assert_eq!(check_status(Operation::Initialize, 0), Ok(()));
    assert_eq!(check_status(Operation::Synthesis, 0), Ok(()));
    assert_eq!(
        check_status(Operation::Initialize, 5),
        Err(VoicevoxError::EngineInitError(5))
    );
    assert_eq!(
        check_status(Operation::LoadModel, 3),
        Err(VoicevoxError::ModelLoadError(3))
    );
    assert_eq!(
        check_status(Operation::AudioQuery, -2),
        Err(VoicevoxError::QueryError(-2))
    );
    assert_eq!(
        check_status(Operation::Synthesis, 11),
        Err(VoicevoxError::SynthesisError(11))
    );
}

#[test]
fn construction_succeeds_on_zero_status() {
    let mut slot = EngineSlot::new();
    assert!(!slot.is_live());
    let core = live_handle(&mut slot);
    assert!(slot.is_live());
    assert!(core.is_live());
    assert_eq!(core.ensure_live(), Ok(()));
}

#[test]
fn nonexistent_dictionary_gives_engine_init_error() {
    let mut slot = EngineSlot::new();
    let n = slot
        .begin_initialize(&options_with_dir("./no/such/dictionary"))
        .unwrap();
    assert_eq!(*n.open_jtalk_dict_dir.last().unwrap(), 0);
    let r = slot.finish_initialize(1);
    assert_eq!(r.err(), Some(VoicevoxError::EngineInitError(1)));
    assert!(!slot.is_live());
}

#[test]
fn construction_rejects_path_with_nul() {
    let slot = EngineSlot::new();
    let r = slot.begin_initialize(&options_with_dir("a\0b"));
    assert_eq!(r.err(), Some(VoicevoxError::InvalidPath));
}

#[test]
fn second_live_handle_is_refused() {
    let mut slot = EngineSlot::new();
    let mut core = live_handle(&mut slot);
    let r = slot.begin_initialize(&options_with_dir("./dict"));
    assert_eq!(r.err(), Some(VoicevoxError::AlreadyInitialized));
    assert!(core.finalize(&mut slot));
    assert!(slot.begin_initialize(&options_with_dir("./dict")).is_ok());
}

#[test]
fn text_for_engine_rejects_embedded_nul() {
    let mut slot = EngineSlot::new();
    let core = live_handle(&mut slot);
    assert_eq!(
        core.text_for_engine("こんにちは\0").unwrap_err(),
        VoicevoxError::InvalidText
    );
    let b = core.text_for_engine("hi").unwrap();
    assert_eq!(b, vec![b'h', b'i', 0]);
}

#[test]
fn query_for_engine_rejects_embedded_nul() {
    let mut slot = EngineSlot::new();
    let core = live_handle(&mut slot);
    assert_eq!(
        core.query_for_engine("{\"kana\":\"\0\"}").unwrap_err(),
        VoicevoxError::QueryEncodeError
    );
    assert_eq!(core.query_for_engine("{}").unwrap(), vec![b'{', b'}', 0]);
}

#[test]
fn operation_results_follow_status() {
    assert_eq!(VoicevoxCore::load_model_result(0), Ok(()));
    assert_eq!(
        VoicevoxCore::load_model_result(4),
        Err(VoicevoxError::ModelLoadError(4))
    );
    assert_eq!(VoicevoxCore::audio_query_result(0), Ok(()));
    assert_eq!(
        VoicevoxCore::audio_query_result(9),
        Err(VoicevoxError::QueryError(9))
    );
    let wav = vec![b'R', b'I', b'F', b'F'];
    assert_eq!(VoicevoxCore::synthesis_result(0, wav.clone()), Ok(wav.clone()));
    assert_eq!(
        VoicevoxCore::synthesis_result(2, wav),
        Err(VoicevoxError::SynthesisError(2))
    );
}

#[test]
fn finalized_handle_refuses_every_operation() {
    let mut slot = EngineSlot::new();
    let mut core = live_handle(&mut slot);
    assert!(core.finalize(&mut slot));
    assert!(!core.is_live());
    assert!(!slot.is_live());
    assert_eq!(core.ensure_live(), Err(VoicevoxError::UseAfterFinalize));
    assert_eq!(
        core.text_for_engine("hi").unwrap_err(),
        VoicevoxError::UseAfterFinalize
    );
    assert_eq!(
        core.query_for_engine("{}").unwrap_err(),
        VoicevoxError::UseAfterFinalize
    );
    assert!(!core.finalize(&mut slot));
}
