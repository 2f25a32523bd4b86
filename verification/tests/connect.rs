use battlement_flatbuffers::connect::{
    motion_preference, validate_input, wire_motion_preference, ConnectInput, ConnectRequest,
};
use battlement_flatbuffers::host_settings::HostSettingsTable;
use battlement_flatbuffers::{ConnectView, ReducedMotionPreference};

const IDENT: &str = "BCON";

fn framed() -> Vec<u8> {
    let mut bytes = vec![12, 0, 0, 0, 8, 0, 0, 0];
    bytes.extend_from_slice(IDENT.as_bytes());
    bytes.extend_from_slice(&[0, 0, 0, 0]);
    bytes
}

fn host_settings() -> HostSettingsTable {
    HostSettingsTable {
        platform: 0,
        display: 0,
        display_modes: vec![],
        resolutions: vec![],
        applied_display: None,
        window_bounds: None,
        display_preview: None,
        frame_pacing: 0,
        frame_rates: vec![],
        applied_frame_rate: -1,
        vsync_available: false,
        applied_vsync: false,
        keyboard_connected: true,
        controller_count: 0,
        diagnostics: 0,
        diagnostics_configured: false,
        capture_exceptions: false,
        performance_reporting: false,
        diagnostics_error: None,
        observation_error: None,
        last_result: None,
    }
}

fn request() -> ConnectRequest {
    ConnectRequest {
        host_settings: host_settings(),
        platform: "OSXPlayer".to_string(),
        unity_version: "6000.0.1f1".to_string(),
        screen_width: 1920,
        screen_height: 1080,
        focused: true,
        paused: false,
        reduced_motion_preference: 1,
        custom_command_types: vec!["alpha".to_string(), "beta".to_string()],
        modules: vec!["zeta".to_string(), "audio".to_string()],
        persistent_data_path: Some("/data".to_string()),
        streaming_assets_path: None,
    }
}

fn read_error(bytes: &[u8], decoded: Result<ConnectRequest, String>) -> String {
    match ConnectView::read(bytes, IDENT, decoded) {
        Ok(_) => panic!("read accepted"),
        Err(e) => e.message().to_string(),
    }
}

#[test]
fn reads_a_valid_request() {
    let view = ConnectView::read(&framed(), IDENT, Ok(request())).unwrap();
    assert_eq!(view.platform(), "OSXPlayer");
    assert_eq!(view.unity_version(), "6000.0.1f1");
    assert_eq!(view.screen_width(), 1920);
    assert_eq!(view.screen_height(), 1080);
    assert!(view.focused());
    assert!(!view.paused());
    assert_eq!(view.reduced_motion_preference(), ReducedMotionPreference::Reduce);
    assert_eq!(view.custom_command_type_count(), 2);
    assert_eq!(view.custom_command_type(1), Some("beta"));
    assert_eq!(view.custom_command_type(2), None);
    assert_eq!(view.custom_command_types()[0], "alpha");
    assert_eq!(view.module_count(), 2);
    assert_eq!(view.module(0), Some("zeta"));
    assert_eq!(view.modules().len(), 2);
    assert_eq!(view.persistent_data_path(), Some("/data"));
    assert_eq!(view.streaming_assets_path(), None);
    assert!(view.host_settings().to_owned().keyboard_connected);
}

#[test]
fn refuses_framing_before_decoding() {
    let mut bytes = framed();
    bytes.push(0);
    assert_eq!(
        read_error(&bytes, Ok(request())),
        "connect request size prefix does not match its finished range"
    );
    let mut wrong = framed();
    wrong[8] = b'X';
    assert_eq!(read_error(&wrong, Ok(request())), "connect request has the wrong file identifier");
}

#[test]
fn reports_the_verifier_failure() {
    assert_eq!(
        read_error(&framed(), Err("range out of bounds".to_string())),
        "invalid connect FlatBuffer: range out of bounds"
    );
}

#[test]
fn refuses_semantic_failures() {
    let mut unsorted = request();
    unsorted.custom_command_types = vec!["beta".to_string(), "alpha".to_string()];
    assert_eq!(
        read_error(&framed(), Ok(unsorted)),
        "custom command types must be nonempty, sorted, and unique"
    );
    let mut duplicate = request();
    duplicate.modules = vec!["audio".to_string(), "audio".to_string()];
    assert_eq!(read_error(&framed(), Ok(duplicate)), "modules must be nonempty and unique");
    let mut empty = request();
    empty.platform = String::new();
    assert_eq!(
        read_error(&framed(), Ok(empty)),
        "connect platform and Unity version must be nonempty"
    );
    let mut zero = request();
    zero.screen_height = 0;
    assert_eq!(read_error(&framed(), Ok(zero)), "connect screen dimensions must be nonzero");
    let mut motion = request();
    motion.reduced_motion_preference = 3;
    assert_eq!(
        read_error(&framed(), Ok(motion)),
        "connect request has an unknown reduced-motion value"
    );
    let mut host = request();
    host.host_settings.platform = 9;
    assert_eq!(read_error(&framed(), Ok(host)), "unknown host platform");
}

#[test]
fn preference_ordinals_round_trip() {
    for preference in [
        ReducedMotionPreference::Unavailable,
        ReducedMotionPreference::Reduce,
        ReducedMotionPreference::NoPreference,
    ] {
        let code = wire_motion_preference(preference);
        assert_eq!(code, preference.ordinal());
        assert_eq!(motion_preference(code).unwrap(), preference);
    }
    assert_eq!(ReducedMotionPreference::NoPreference.ordinal(), 2);
    assert!(motion_preference(3).is_err());
}

#[test]
fn validates_direct_input() {
    let types = ["alpha", "beta"];
    let modules = ["m"];
    let input = ConnectInput {
        host_settings: None,
        platform: "WebGLPlayer",
        unity_version: "6000.0.1f1",
        screen_width: 800,
        screen_height: 600,
        focused: false,
        paused: true,
        reduced_motion_preference: ReducedMotionPreference::Unavailable,
        custom_command_types: &types,
        modules: &modules,
        persistent_data_path: None,
        streaming_assets_path: None,
    };
    assert!(validate_input(&input).is_ok());
    let unsorted = ["b", "a"];
    let bad = ConnectInput { custom_command_types: &unsorted, ..input };
    assert_eq!(
        validate_input(&bad).unwrap_err().message(),
        "custom command types must be nonempty, sorted, and unique"
    );
}
