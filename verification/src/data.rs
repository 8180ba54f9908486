//! Devices, persisted records and their mathematical views.

use vstd::prelude::*;

verus! {

/// Whether a device records sound (`SOURCE`) or plays it (`SINK`).
#[allow(non_camel_case_types)]
#[derive(Clone, Copy, Debug, PartialEq, Eq, Structural)]
pub enum AudioDeviceType {
    SOURCE,
    SINK,
}

/// What is remembered of one device across restarts.
#[derive(Clone, Debug)]
pub struct AudioDeviceConfig {
    pub name: String,
    pub label: String,
    pub hidden: bool,
}

/// The durable state: the theme and, per kind, the remembered devices in
/// their configured order.
#[derive(Clone, Debug)]
pub struct AppConfig {
    pub use_dark_theme: bool,
    pub sources: Vec<AudioDeviceConfig>,
    pub sinks: Vec<AudioDeviceConfig>,
}

/// One device of the registry.
#[derive(Clone, Debug)]
pub struct AudioDeviceState {
    pub label: String,
    pub name: String,
    pub device_type: AudioDeviceType,
    /// The audio server currently reports the device.
    pub connected: bool,
    /// The user chose not to be offered the device.
    pub hidden: bool,
}

/// A remembered device as plain values.
pub ghost struct RecordView {
    pub name: Seq<char>,
    pub label: Seq<char>,
    pub hidden: bool,
}

/// The durable state as plain values.
pub ghost struct ConfigView {
    pub use_dark_theme: bool,
    pub sources: Seq<RecordView>,
    pub sinks: Seq<RecordView>,
}

/// A registry device as plain values.
pub ghost struct DeviceView {
    pub label: Seq<char>,
    pub name: Seq<char>,
    pub device_type: AudioDeviceType,
    pub connected: bool,
    pub hidden: bool,
}

impl View for AudioDeviceConfig {
    type V = RecordView;

    open spec fn view(&self) -> RecordView {
        RecordView { name: self.name@, label: self.label@, hidden: self.hidden }
    }
}

impl DeepView for AudioDeviceConfig {
    type V = RecordView;

    open spec fn deep_view(&self) -> RecordView {
        self@
    }
}

impl View for AppConfig {
    type V = ConfigView;

    open spec fn view(&self) -> ConfigView {
        ConfigView {
            use_dark_theme: self.use_dark_theme,
            sources: self.sources.deep_view(),
            sinks: self.sinks.deep_view(),
        }
    }
}

impl View for AudioDeviceState {
    type V = DeviceView;

    open spec fn view(&self) -> DeviceView {
        DeviceView {
            label: self.label@,
            name: self.name@,
            device_type: self.device_type,
            connected: self.connected,
            hidden: self.hidden,
        }
    }
}

impl DeepView for AudioDeviceState {
    type V = DeviceView;

    open spec fn deep_view(&self) -> DeviceView {
        self@
    }
}

/// The record that remembers a device: its name, label and visibility.
pub open spec fn record_of(device: DeviceView) -> RecordView {
    RecordView { name: device.name, label: device.label, hidden: device.hidden }
}

/// The records that remember the devices of a registry, in its order.
pub open spec fn saved_records(registry: Seq<DeviceView>) -> Seq<RecordView> {
    registry.map_values(|device: DeviceView| record_of(device))
}

impl AudioDeviceState {
    /// The record under which this device is persisted.
    pub fn convert_to_config(&self) -> (record: AudioDeviceConfig)
        ensures
            record@ == record_of(self@),
    {
        AudioDeviceConfig {
            name: self.name.clone(),
            label: self.label.clone(),
            hidden: self.hidden,
        }
    }

    /// Whether the device is offered for selection: it is connected and the
    /// user has not hidden it.
    pub fn is_shown(&self) -> (shown: bool)
        ensures
            shown == (self.connected && !self.hidden),
    {
        self.connected && !self.hidden
    }
}

impl Default for AppConfig {
    /// The configuration of a first start: dark theme, no remembered device.
    fn default() -> (config: AppConfig)
        ensures
            config@ == (ConfigView {
                use_dark_theme: true,
                sources: Seq::<RecordView>::empty(),
                sinks: Seq::<RecordView>::empty(),
            }),
    {
        let config = AppConfig { use_dark_theme: true, sources: Vec::new(), sinks: Vec::new() };
        assert(config.sources.deep_view() =~= Seq::<RecordView>::empty());
        assert(config.sinks.deep_view() =~= Seq::<RecordView>::empty());
        config
    }
}

} // verus!
