//! The session state that a desktop shell shows and drives.
//!
//! A session is built from the remembered configuration and from what the
//! control channel has learnt of the audio server. It is rebuilt as a whole
//! at every start and after every restart of the server, never patched.
//! While it is not ready its commands do nothing.

use crate::data::{
    saved_records, AppConfig, AudioDeviceConfig, AudioDeviceState, AudioDeviceType, ConfigView,
    DeviceView,
};
use crate::pulsewrapper::PulseWrapper;
use crate::reconcile::{merge, reconcile};
use vstd::prelude::*;

verus! {

/// The reason shown while no connection to the audio server could be had.
pub open spec fn connect_failed_reason() -> Seq<char> {
    "Failed to connect to PulseAudio"@
}

/// The reason shown while the audio server restarts.
pub open spec fn restarting_reason() -> Seq<char> {
    "Restarting PulseAudio"@
}

/// What the shell has to ask of the audio server after a command.
#[derive(Clone, Debug)]
pub enum FacadeRequest {
    /// Make the recording device of this name the default.
    SetDefaultSource(String),
    /// Make the playback device of this name the default.
    SetDefaultSink(String),
}

impl View for FacadeRequest {
    type V = (AudioDeviceType, Seq<char>);

    open spec fn view(&self) -> (AudioDeviceType, Seq<char>) {
        match self {
            FacadeRequest::SetDefaultSource(name) => (AudioDeviceType::SOURCE, name@),
            FacadeRequest::SetDefaultSink(name) => (AudioDeviceType::SINK, name@),
        }
    }
}

/// The session: the registry of each kind, the default devices, and whether
/// the commands are enabled.
#[derive(Clone, Debug)]
pub struct AppState {
    /// The registries are filled and the commands are enabled.
    pub ready: bool,
    /// Why the session is not ready; shown in place of the devices.
    pub not_ready_string: String,
    pub sources: Vec<AudioDeviceState>,
    pub sinks: Vec<AudioDeviceState>,
    pub default_source: String,
    pub default_sink: String,
    pub pulsewrapper: PulseWrapper,
    pub use_dark_theme: bool,
    pub close_on_leave: bool,
}

/// A session as plain values.
pub ghost struct SessionView {
    pub ready: bool,
    pub not_ready_string: Seq<char>,
    pub sources: Seq<DeviceView>,
    pub sinks: Seq<DeviceView>,
    pub default_source: Seq<char>,
    pub default_sink: Seq<char>,
    pub connected: bool,
    pub use_dark_theme: bool,
    pub close_on_leave: bool,
}

impl View for AppState {
    type V = SessionView;

    open spec fn view(&self) -> SessionView {
        SessionView {
            ready: self.ready,
            not_ready_string: self.not_ready_string@,
            sources: self.sources.deep_view(),
            sinks: self.sinks.deep_view(),
            default_source: self.default_source@,
            default_sink: self.default_sink@,
            connected: self.pulsewrapper.is_connected(),
            use_dark_theme: self.use_dark_theme,
            close_on_leave: self.close_on_leave,
        }
    }
}

/// The session after a connection attempt that failed: not ready, with the
/// reason, without devices and without defaults.
pub open spec fn failed_session(config: ConfigView) -> SessionView {
    SessionView {
        ready: false,
        not_ready_string: connect_failed_reason(),
        sources: Seq::empty(),
        sinks: Seq::empty(),
        default_source: Seq::empty(),
        default_sink: Seq::empty(),
        connected: false,
        use_dark_theme: config.use_dark_theme,
        close_on_leave: true,
    }
}

/// The session over an established connection: ready, with the registry of
/// each kind reconciled from the configuration and the server's lists, and
/// with the server's defaults.
pub open spec fn ready_session(
    config: ConfigView,
    defaults: (Seq<char>, Seq<char>),
    live_sources: Seq<(Seq<char>, Seq<char>)>,
    live_sinks: Seq<(Seq<char>, Seq<char>)>,
) -> SessionView {
    SessionView {
        ready: true,
        not_ready_string: Seq::empty(),
        sources: reconcile(AudioDeviceType::SOURCE, config.sources, live_sources),
        sinks: reconcile(AudioDeviceType::SINK, config.sinks, live_sinks),
        default_source: defaults.0,
        default_sink: defaults.1,
        connected: true,
        use_dark_theme: config.use_dark_theme,
        close_on_leave: true,
    }
}

/// The default device of a kind.
pub open spec fn current_default(session: SessionView, kind: AudioDeviceType) -> Seq<char> {
    match kind {
        AudioDeviceType::SOURCE => session.default_source,
        AudioDeviceType::SINK => session.default_sink,
    }
}

/// The session with another default device of a kind, and nothing else
/// changed.
pub open spec fn with_default(
    session: SessionView,
    kind: AudioDeviceType,
    name: Seq<char>,
) -> SessionView {
    match kind {
        AudioDeviceType::SOURCE => SessionView { default_source: name, ..session },
        AudioDeviceType::SINK => SessionView { default_sink: name, ..session },
    }
}

/// Whether selecting `name` changes anything: the session is ready and the
/// name is not the default of its kind already.
pub open spec fn switches_default(
    session: SessionView,
    kind: AudioDeviceType,
    name: Seq<char>,
) -> bool {
    session.ready && current_default(session, kind) != name
}

/// The configuration that remembers a session: its theme and, per kind,
/// name, label and visibility of each device in the registry's order.
pub open spec fn saved_config(session: SessionView) -> ConfigView {
    ConfigView {
        use_dark_theme: session.use_dark_theme,
        sources: saved_records(session.sources),
        sinks: saved_records(session.sinks),
    }
}

/// The session while the audio server restarts: not ready, with the reason,
/// and otherwise as it was.
pub open spec fn restarting(session: SessionView) -> SessionView {
    SessionView { ready: false, not_ready_string: restarting_reason(), ..session }
}

/// Both reasons that a session gives for not being ready say something.
pub proof fn lemma_reasons_not_empty()
    ensures
        connect_failed_reason().len() > 0,
        restarting_reason().len() > 0,
{
    reveal_strlit("Failed to connect to PulseAudio");
    reveal_strlit("Restarting PulseAudio");
}

/// The records that remember a registry.
fn convert_registry(registry: &Vec<AudioDeviceState>) -> (records: Vec<AudioDeviceConfig>)
    ensures
        records.deep_view() == saved_records(registry.deep_view()),
{
    let mut records: Vec<AudioDeviceConfig> = Vec::new();
    assert(records.deep_view() =~= saved_records(registry.deep_view().take(0)));
    let mut i: usize = 0;
    while i < registry.len()
        invariant
            i <= registry.len(),
            records.deep_view() == saved_records(registry.deep_view().take(i as int)),
        decreases registry.len() - i,
    {
        let ghost before = records.deep_view();
        let record = registry[i].convert_to_config();
        records.push(record);
        assert(records.deep_view() =~= before.push(record@));
        assert(records.deep_view() =~= saved_records(registry.deep_view().take(i + 1)));
        i += 1;
    }
    assert(registry.deep_view().take(registry.len() as int) =~= registry.deep_view());
    records
}

impl AppState {
    /// Builds the session from the remembered configuration and from what
    /// the control channel has learnt: whether it is connected and, if so,
    /// the server's default devices and its lists of recording and playback
    /// devices. Over a channel that is not connected the session is not
    /// ready and holds no device, whatever else is handed in.
    pub fn new(
        config: &AppConfig,
        pulsewrapper: PulseWrapper,
        defaults: (String, String),
        pa_sources: &Vec<(String, String)>,
        pa_sinks: &Vec<(String, String)>,
    ) -> (state: AppState)
        ensures
            state@ == if pulsewrapper.is_connected() {
                ready_session(
                    config@,
                    defaults.deep_view(),
                    pa_sources.deep_view(),
                    pa_sinks.deep_view(),
                )
            } else {
                failed_session(config@)
            },
            state.ready == pulsewrapper.is_connected(),
            !state.ready ==> state.not_ready_string@.len() > 0,
    {
        if !pulsewrapper.connected() {
            let state = AppState {
                ready: false,
                not_ready_string: String::from_str("Failed to connect to PulseAudio"),
                sources: Vec::new(),
                sinks: Vec::new(),
                default_source: String::new(),
                default_sink: String::new(),
                pulsewrapper,
                use_dark_theme: config.use_dark_theme,
                close_on_leave: true,
            };
            proof {
                lemma_reasons_not_empty();
                assert(state.sources.deep_view() =~= Seq::empty());
                assert(state.sinks.deep_view() =~= Seq::empty());
            }
            return state;
        }
        let sources = merge(AudioDeviceType::SOURCE, &config.sources, pa_sources);
        let sinks = merge(AudioDeviceType::SINK, &config.sinks, pa_sinks);
        AppState {
            ready: true,
            not_ready_string: String::new(),
            sources,
            sinks,
            default_source: defaults.0,
            default_sink: defaults.1,
            pulsewrapper,
            use_dark_theme: config.use_dark_theme,
            close_on_leave: true,
        }
    }

    /// The registry of a kind, in its order.
    pub fn registry(&self, kind: AudioDeviceType) -> (registry: &Vec<AudioDeviceState>)
        ensures
            registry == match kind {
                AudioDeviceType::SOURCE => &self.sources,
                AudioDeviceType::SINK => &self.sinks,
            },
    {
        match kind {
            AudioDeviceType::SOURCE => &self.sources,
            AudioDeviceType::SINK => &self.sinks,
        }
    }

    /// The names of the default recording and the default playback device.
    pub fn defaults(&self) -> (defaults: (&String, &String))
        ensures
            defaults.0 == &self.default_source,
            defaults.1 == &self.default_sink,
    {
        (&self.default_source, &self.default_sink)
    }

    /// Why the session is not ready; empty while it is ready after a start.
    pub fn not_ready_reason(&self) -> (reason: &String)
        ensures
            reason == &self.not_ready_string,
    {
        &self.not_ready_string
    }

    /// Selects the default device of a kind. Where the session is ready and
    /// `name` is not the default already, the default becomes `name` and the
    /// request to send to the server is returned. Otherwise nothing changes
    /// and there is nothing to send.
    pub fn select_default(&mut self, kind: AudioDeviceType, name: &String) -> (request: Option<
        FacadeRequest,
    >)
        ensures
            switches_default(old(self)@, kind, name@) ==> final(self)@ == with_default(
                old(self)@,
                kind,
                name@,
            ) && request is Some && request.unwrap()@ == (kind, name@),
            !switches_default(old(self)@, kind, name@) ==> final(self)@ == old(self)@
                && request is None,
    {
        if !self.ready {
            return None;
        }
        match kind {
            AudioDeviceType::SOURCE => {
                if self.default_source == *name {
                    None
                } else {
                    self.default_source = name.clone();
                    Some(FacadeRequest::SetDefaultSource(name.clone()))
                }
            },
            AudioDeviceType::SINK => {
                if self.default_sink == *name {
                    None
                } else {
                    self.default_sink = name.clone();
                    Some(FacadeRequest::SetDefaultSink(name.clone()))
                }
            },
        }
    }

    /// The configuration to persist: of a ready session the theme and the
    /// records of both registries in their order, of a session that is not
    /// ready nothing. The session itself stays as it is.
    pub fn save_config(&self) -> (saved: Option<AppConfig>)
        ensures
            self.ready ==> saved is Some && saved.unwrap()@ == saved_config(self@),
            !self.ready ==> saved is None,
    {
        if !self.ready {
            return None;
        }
        Some(
            AppConfig {
                use_dark_theme: self.use_dark_theme,
                sources: convert_registry(&self.sources),
                sinks: convert_registry(&self.sinks),
            },
        )
    }

    /// Announces a restart of the audio server: the session is not ready
    /// from now on and says why. The restart itself is left to be run later.
    pub fn restart_async(&mut self)
        ensures
            final(self)@ == restarting(old(self)@),
    {
        self.ready = false;
        self.not_ready_string = String::from_str("Restarting PulseAudio");
    }

    /// Starts the restart of the audio server: the session is not ready, the
    /// channel is not connected any more, and the result says whether there
    /// is a connection to close. The session that follows is built anew,
    /// from nothing that this one holds.
    pub fn restart(&mut self) -> (close: bool)
        ensures
            close == old(self)@.connected,
            final(self)@ == (SessionView { connected: false, ..restarting(old(self)@) }),
    {
        self.restart_async();
        self.pulsewrapper.disconnect()
    }
}

} // verus!
