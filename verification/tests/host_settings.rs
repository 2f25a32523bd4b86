use battlement_flatbuffers::host_settings::{
    decode, validate, validate_resolution, DisplayConfigurationTable, DisplayMode,
    DisplayPreviewTable, DisplayResolution, HostPlatform, HostSettingsResultTable,
    HostSettingsTable, SettingAvailability,
};
use battlement_flatbuffers::HostSettingsView;

fn resolution(width: u32, height: u32) -> DisplayResolution {
    DisplayResolution { width, height, refresh_numerator: 60, refresh_denominator: 1 }
}

fn table() -> HostSettingsTable {
    HostSettingsTable {
        platform: 2,
        display: 1,
        display_modes: vec![0, 2],
        resolutions: vec![resolution(1280, 720), resolution(1920, 1080)],
        applied_display: Some(DisplayConfigurationTable { mode: 2, resolution: resolution(1920, 1080) }),
        window_bounds: None,
        display_preview: None,
        frame_pacing: 1,
        frame_rates: vec![30, 60],
        applied_frame_rate: 60,
        vsync_available: true,
        applied_vsync: true,
        keyboard_connected: true,
        controller_count: 1,
        diagnostics: 0,
        diagnostics_configured: false,
        capture_exceptions: false,
        performance_reporting: false,
        diagnostics_error: None,
        observation_error: Some("late".to_string()),
        last_result: None,
    }
}

fn error(t: HostSettingsTable) -> String {
    match HostSettingsView::new(t) {
        Ok(_) => panic!("accepted"),
        Err(e) => e.message().to_string(),
    }
}

#[test]
fn decodes_an_observation() {
    let view = HostSettingsView::new(table()).unwrap();
    let owned = view.to_owned();
    assert_eq!(owned.platform, HostPlatform::Windows);
    assert_eq!(owned.display, SettingAvailability::Available);
    assert_eq!(owned.display_modes, vec![DisplayMode::Windowed, DisplayMode::Fullscreen]);
    assert_eq!(owned.applied_display.unwrap().mode, DisplayMode::Fullscreen);
    assert_eq!(owned.frame_rates, vec![30, 60]);
    assert_eq!(owned.observation_error.as_deref(), Some("late"));
    assert!(validate(&owned).is_ok());
    assert!(decode(&table()).is_ok());
}

#[test]
fn refuses_unknown_ordinals() {
    let mut t = table();
    t.platform = 5;
    assert_eq!(error(t), "unknown host platform");
    let mut t = table();
    t.display = 3;
    assert_eq!(error(t), "unknown capability availability");
    let mut t = table();
    t.display_modes = vec![0, 3];
    assert_eq!(error(t), "unknown display mode");
    let mut t = table();
    t.display_preview = Some(DisplayPreviewTable { request_id: [1; 16], state: 3, remaining_seconds: 5 });
    assert_eq!(error(t), "unknown display preview state");
}

#[test]
fn refuses_nil_request_identities() {
    let mut t = table();
    t.display_preview = Some(DisplayPreviewTable { request_id: [0; 16], state: 1, remaining_seconds: 5 });
    assert_eq!(error(t), "display preview ID must be nonzero");
    let mut t = table();
    t.last_result = Some(HostSettingsResultTable { request_id: [0; 16], error: None });
    assert_eq!(error(t), "host settings request ID must be nonzero");
}

#[test]
fn refuses_oversized_choices() {
    let mut t = table();
    t.display_modes = vec![0, 1, 2, 0];
    assert_eq!(error(t), "too many display modes");
    let mut t = table();
    t.frame_rates = vec![30; 257];
    assert_eq!(error(t), "host settings choices exceed limits");
}

#[test]
fn checks_resolutions() {
    assert!(validate_resolution(&resolution(1, 1)).is_ok());
    assert_eq!(validate_resolution(&resolution(0, 1)).unwrap_err().message(), "invalid display dimensions");
    let bad = DisplayResolution { refresh_denominator: 0, ..resolution(2, 2) };
    assert_eq!(validate_resolution(&bad).unwrap_err().message(), "invalid display refresh ratio");
    let mut t = table();
    t.resolutions = vec![resolution(1, 1), resolution(0, 5)];
    assert_eq!(error(t), "invalid display dimensions");
}
