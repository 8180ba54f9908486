use audio_select::data::{AppConfig, AudioDeviceConfig, AudioDeviceState, AudioDeviceType};
use audio_select::pulsewrapper::{
    ConnectEvent, ConnectStep, ContextState, IterateResult, ListResult, PulseWrapper,
};
use audio_select::session::{AppState, FacadeRequest};

fn record(name: &str, label: &str, hidden: bool) -> AudioDeviceConfig {
    AudioDeviceConfig { name: name.to_string(), label: label.to_string(), hidden }
}

fn pair(name: &str, description: &str) -> (String, String) {
    (name.to_string(), description.to_string())
}

fn connected_wrapper() -> PulseWrapper {
    let mut wrapper = PulseWrapper::new();
    wrapper.connect(ConnectEvent::Iterated(IterateResult::Success(0), ContextState::Connecting));
    wrapper.connect(ConnectEvent::Iterated(IterateResult::Success(1), ContextState::Ready));
    wrapper
}

fn failed_wrapper() -> PulseWrapper {
    let mut wrapper = PulseWrapper::new();
    let first = wrapper.connect(ConnectEvent::Iterated(IterateResult::Success(0), ContextState::Connecting));
    assert_eq!(first, ConnectStep::Pump);
    let second = wrapper.connect(ConnectEvent::Iterated(IterateResult::Success(1), ContextState::Failed));
    assert_eq!(second, ConnectStep::Failed);
    wrapper
}

fn config() -> AppConfig {
    AppConfig {
        use_dark_theme: false,
        sources: vec![record("mic", "Mic", false), record("old", "Old headset", true)],
        sinks: vec![record("hdmi", "TV", true)],
    }
}

fn ready_state() -> AppState {
    AppState::new(
        &config(),
        connected_wrapper(),
        pair("mic", "spk"),
        &vec![pair("usb", "USB Mic"), pair("mic", "Built-in Mic")],
        &vec![pair("spk", "Speakers"), pair("hdmi", "HDMI Output")],
    )
}

fn failed_state() -> AppState {
    AppState::new(
        &config(),
        failed_wrapper(),
        pair("mic", "spk"),
        &vec![pair("mic", "Built-in Mic")],
        &vec![pair("spk", "Speakers")],
    )
}

/// name, label, hidden, connected
fn rows(registry: &Vec<AudioDeviceState>) -> Vec<(String, String, bool, bool)> {
    registry
        .iter()
        .map(|device| (device.name.clone(), device.label.clone(), device.hidden, device.connected))
        .collect()
}

fn row(name: &str, label: &str, hidden: bool, connected: bool) -> (String, String, bool, bool) {
    (name.to_string(), label.to_string(), hidden, connected)
}

fn records(config: &Vec<AudioDeviceConfig>) -> Vec<(String, String, bool)> {
    config.iter().map(|r| (r.name.clone(), r.label.clone(), r.hidden)).collect()
}

#[test]
fn new_session_over_a_connection_is_ready() {
    let state = ready_state();
    assert!(state.ready);
    assert_eq!(state.not_ready_string, "");
    assert_eq!(state.default_source, "mic");
    assert_eq!(state.default_sink, "spk");
    assert!(!state.use_dark_theme);
    assert!(state.close_on_leave);
    assert!(state.pulsewrapper.connected());
    assert_eq!(
        rows(&state.sources),
        vec![
            row("mic", "Mic", false, true),
            row("old", "Old headset", true, false),
            row("usb", "USB Mic", false, true),
        ]
    );
    assert_eq!(
        rows(&state.sinks),
        vec![row("hdmi", "TV", true, true), row("spk", "Speakers", false, true)]
    );
    assert!(state.sources.iter().all(|d| d.device_type == AudioDeviceType::SOURCE));
    assert!(state.sinks.iter().all(|d| d.device_type == AudioDeviceType::SINK));
}

#[test]
fn failed_connection_gives_a_session_that_is_not_ready() {
    let mut state = failed_state();
    assert!(!state.ready);
    assert_eq!(state.not_ready_string, "Failed to connect to PulseAudio");
    assert!(!state.not_ready_string.is_empty());
    assert!(state.sources.is_empty());
    assert!(state.sinks.is_empty());
    assert_eq!(state.default_source, "");
    assert_eq!(state.default_sink, "");
    assert!(!state.use_dark_theme);
    assert!(!state.pulsewrapper.connected());

    assert!(state.select_default(AudioDeviceType::SOURCE, &"mic".to_string()).is_none());
    assert!(state.select_default(AudioDeviceType::SINK, &"spk".to_string()).is_none());
    assert_eq!(state.default_source, "");
    assert_eq!(state.default_sink, "");
    assert!(state.save_config().is_none());
    assert!(!state.ready);
    assert!(state.sources.is_empty());
    assert!(state.sinks.is_empty());
}

#[test]
fn selecting_the_current_default_does_nothing() {
    let mut state = ready_state();
    assert!(state.select_default(AudioDeviceType::SOURCE, &"mic".to_string()).is_none());
    assert!(state.select_default(AudioDeviceType::SINK, &"spk".to_string()).is_none());
    assert_eq!(state.default_source, "mic");
    assert_eq!(state.default_sink, "spk");
    assert!(state.ready);
}

#[test]
fn selecting_another_source_switches_the_default() {
    let mut state = ready_state();
    match state.select_default(AudioDeviceType::SOURCE, &"usb".to_string()) {
        Some(FacadeRequest::SetDefaultSource(name)) => assert_eq!(name, "usb"),
        other => panic!("unexpected request {:?}", other),
    }
    assert_eq!(state.default_source, "usb");
    assert_eq!(state.default_sink, "spk");
    assert!(state.select_default(AudioDeviceType::SOURCE, &"usb".to_string()).is_none());
}

#[test]
fn selecting_another_sink_switches_the_default() {
    let mut state = ready_state();
    match state.select_default(AudioDeviceType::SINK, &"hdmi".to_string()) {
        Some(FacadeRequest::SetDefaultSink(name)) => assert_eq!(name, "hdmi"),
        other => panic!("unexpected request {:?}", other),
    }
    assert_eq!(state.default_sink, "hdmi");
    assert_eq!(state.default_source, "mic");
}

#[test]
fn defaults_are_kept_per_kind() {
    let mut state = ready_state();
    // "spk" is the default sink, not the default source
    match state.select_default(AudioDeviceType::SOURCE, &"spk".to_string()) {
        Some(FacadeRequest::SetDefaultSource(name)) => assert_eq!(name, "spk"),
        other => panic!("unexpected request {:?}", other),
    }
    assert_eq!(state.default_source, "spk");
    assert_eq!(state.default_sink, "spk");
}

#[test]
fn save_config_remembers_the_registry_in_its_order() {
    let mut state = ready_state();
    state.sources[2].label = "Desk microphone".to_string();
    state.sinks[1].hidden = true;
    state.use_dark_theme = true;
    let saved = state.save_config().expect("a ready session saves");
    assert!(saved.use_dark_theme);
    assert_eq!(
        records(&saved.sources),
        vec![
            ("mic".to_string(), "Mic".to_string(), false),
            ("old".to_string(), "Old headset".to_string(), true),
            ("usb".to_string(), "Desk microphone".to_string(), false),
        ]
    );
    assert_eq!(
        records(&saved.sinks),
        vec![
            ("hdmi".to_string(), "TV".to_string(), true),
            ("spk".to_string(), "Speakers".to_string(), true),
        ]
    );
    // the session is as it was
    assert_eq!(state.sources.len(), 3);
    assert_eq!(state.sources[2].label, "Desk microphone");
    assert!(state.sources[2].connected);
}

#[test]
fn restart_async_disables_the_session() {
    let mut state = ready_state();
    state.restart_async();
    assert!(!state.ready);
    assert_eq!(state.not_ready_string, "Restarting PulseAudio");
    assert_eq!(state.sources.len(), 3);
    assert_eq!(state.default_source, "mic");
    assert!(state.pulsewrapper.connected());
    assert!(state.select_default(AudioDeviceType::SOURCE, &"usb".to_string()).is_none());
    assert_eq!(state.default_source, "mic");
    assert!(state.save_config().is_none());
}

#[test]
fn restart_disconnects_and_the_next_session_forgets_unsaved_edits() {
    let mut state = ready_state();
    state.sources[0].label = "Edited".to_string();
    state.sources[0].hidden = true;
    assert!(state.restart());
    assert!(!state.ready);
    assert_eq!(state.not_ready_string, "Restarting PulseAudio");
    assert!(!state.pulsewrapper.connected());
    assert!(!state.restart());

    state = ready_state();
    assert!(state.ready);
    assert_eq!(state.sources[0].label, "Mic");
    assert!(!state.sources[0].hidden);
}

#[test]
fn restart_of_a_failed_session_has_nothing_to_close() {
    let mut state = failed_state();
    assert!(!state.restart());
    assert!(!state.ready);
    assert_eq!(state.not_ready_string, "Restarting PulseAudio");
}

#[test]
fn session_from_the_queries_of_the_channel() {
    let wrapper = connected_wrapper();
    let defaults = wrapper.get_defaults(Some(pair("A", "S")));
    let sources = wrapper.get_sources(&vec![
        ListResult::Item("A".to_string(), "Built-in Mic".to_string()),
        ListResult::Item("B".to_string(), "USB Mic".to_string()),
        ListResult::End,
    ]);
    let sinks = wrapper.get_sinks(&vec![ListResult::Error]);
    let config = AppConfig {
        use_dark_theme: true,
        sources: vec![record("A", "Mic", false)],
        sinks: Vec::new(),
    };
    let state = AppState::new(&config, wrapper, defaults, &sources, &sinks);
    assert!(state.ready);
    assert!(state.use_dark_theme);
    assert_eq!(
        rows(&state.sources),
        vec![row("A", "Mic", false, true), row("B", "USB Mic", false, true)]
    );
    assert!(state.sinks.is_empty());
    assert_eq!(state.default_source, "A");
    assert_eq!(state.default_sink, "S");
}

#[test]
fn default_config_is_dark_and_empty() {
    let config = AppConfig::default();
    assert!(config.use_dark_theme);
    assert!(config.sources.is_empty());
    assert!(config.sinks.is_empty());
}

#[test]
fn device_converts_to_its_record() {
    let device = AudioDeviceState {
        label: "Desk".to_string(),
        name: "alsa_input.usb".to_string(),
        device_type: AudioDeviceType::SOURCE,
        connected: true,
        hidden: true,
    };
    let record = device.convert_to_config();
    assert_eq!(record.name, "alsa_input.usb");
    assert_eq!(record.label, "Desk");
    assert!(record.hidden);
}

#[test]
fn device_is_shown_when_connected_and_not_hidden() {
    let mut device = AudioDeviceState {
        label: "Desk".to_string(),
        name: "usb".to_string(),
        device_type: AudioDeviceType::SINK,
        connected: true,
        hidden: false,
    };
    assert!(device.is_shown());
    device.hidden = true;
    assert!(!device.is_shown());
    device.hidden = false;
    device.connected = false;
    assert!(!device.is_shown());
    device.hidden = true;
    assert!(!device.is_shown());
}

#[test]
fn shell_reads_registry_defaults_and_reason() {
    let state = ready_state();
    assert_eq!(state.registry(AudioDeviceType::SOURCE).len(), 3);
    assert_eq!(state.registry(AudioDeviceType::SINK).len(), 2);
    assert_eq!(state.registry(AudioDeviceType::SINK)[0].name, "hdmi");
    assert_eq!(state.defaults(), (&"mic".to_string(), &"spk".to_string()));
    assert_eq!(state.not_ready_reason(), "");
    let failed = failed_state();
    assert!(failed.registry(AudioDeviceType::SOURCE).is_empty());
    assert!(failed.registry(AudioDeviceType::SINK).is_empty());
    assert_eq!(failed.defaults(), (&String::new(), &String::new()));
    assert_eq!(failed.not_ready_reason(), "Failed to connect to PulseAudio");
}
