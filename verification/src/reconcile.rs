//! Reconciliation: one registry out of the remembered devices and the
//! devices that the audio server reports.
//!
//! The remembered devices come first, in their configured order, each with
//! its label and visibility as remembered and marked connected if the server
//! lists it. The devices that were never seen before follow, in the order of
//! the server's list, labelled with the server's description.

use crate::data::{
    record_of, saved_records, AudioDeviceConfig, AudioDeviceState, AudioDeviceType, DeviceView,
    RecordView,
};
use crate::lookup::{
    lemma_lookup_at, lemma_lookup_hit, lemma_lookup_miss, lemma_lookup_of, lemma_unclaimed_all,
    lemma_unclaimed_distinct, lemma_unclaimed_lookup, lemma_unclaimed_next,
    lemma_unclaimed_nothing, lookup, lookup_of, unclaimed, DeviceLookup,
};
use vstd::prelude::*;

verus! {

/// The names of the remembered devices, in their order.
pub open spec fn record_names(config: Seq<RecordView>) -> Seq<Seq<char>> {
    config.map_values(|record: RecordView| record.name)
}

/// The names of a registry's devices, in their order.
pub open spec fn device_names(registry: Seq<DeviceView>) -> Seq<Seq<char>> {
    registry.map_values(|device: DeviceView| device.name)
}

/// The device that stands for the `i`-th remembered record. It is connected
/// if the server lists its name and no earlier record has claimed that name.
pub open spec fn configured_device(
    kind: AudioDeviceType,
    config: Seq<RecordView>,
    live: Seq<(Seq<char>, Seq<char>)>,
    i: int,
) -> DeviceView {
    DeviceView {
        label: config[i].label,
        name: config[i].name,
        device_type: kind,
        connected: lookup(live, config[i].name) is Some && !record_names(config).take(i).contains(
            config[i].name,
        ),
        hidden: config[i].hidden,
    }
}

/// The devices of the remembered records, in configured order.
pub open spec fn configured(
    kind: AudioDeviceType,
    config: Seq<RecordView>,
    live: Seq<(Seq<char>, Seq<char>)>,
) -> Seq<DeviceView> {
    Seq::new(config.len(), |i: int| configured_device(kind, config, live, i))
}

/// The device that a server entry becomes when it is seen for the first time.
pub open spec fn discovered_device(kind: AudioDeviceType, entry: (Seq<char>, Seq<char>)) -> DeviceView {
    DeviceView { label: entry.1, name: entry.0, device_type: kind, connected: true, hidden: false }
}

/// The first-time devices of some lookup entries, in their order.
pub open spec fn discovered_devices(
    kind: AudioDeviceType,
    entries: Seq<(Seq<char>, Seq<char>)>,
) -> Seq<DeviceView> {
    entries.map_values(|entry: (Seq<char>, Seq<char>)| discovered_device(kind, entry))
}

/// The devices that the server lists and no record remembers.
pub open spec fn discovered(
    kind: AudioDeviceType,
    config: Seq<RecordView>,
    live: Seq<(Seq<char>, Seq<char>)>,
) -> Seq<DeviceView> {
    discovered_devices(kind, unclaimed(lookup_of(live), record_names(config)))
}

/// The registry of one kind: the remembered devices, then the new ones.
pub open spec fn reconcile(
    kind: AudioDeviceType,
    config: Seq<RecordView>,
    live: Seq<(Seq<char>, Seq<char>)>,
) -> Seq<DeviceView> {
    configured(kind, config, live) + discovered(kind, config, live)
}

/// Builds the registry of one kind from the remembered records and a
/// snapshot of the server's `(name, description)` list.
pub fn merge(
    kind: AudioDeviceType,
    config: &Vec<AudioDeviceConfig>,
    live: &Vec<(String, String)>,
) -> (registry: Vec<AudioDeviceState>)
    ensures
        registry.deep_view() == reconcile(kind, config.deep_view(), live.deep_view()),
{
    let ghost records = config.deep_view();
    let ghost snapshot = live.deep_view();
    let ghost names = record_names(records);
    let mut lookup = DeviceLookup::from_snapshot(live);
    let mut registry: Vec<AudioDeviceState> = Vec::new();
    proof {
        lemma_unclaimed_nothing(lookup_of(snapshot));
        assert(names.take(0) =~= Seq::<Seq<char>>::empty());
        assert(registry.deep_view() =~= configured(kind, records, snapshot).take(0));
    }
    let mut i: usize = 0;
    while i < config.len()
        invariant
            i <= config.len(),
            records == config.deep_view(),
            snapshot == live.deep_view(),
            names == record_names(records),
            lookup.wf(),
            lookup@ == unclaimed(lookup_of(snapshot), names.take(i as int)),
            registry.deep_view() == configured(kind, records, snapshot).take(i as int),
        decreases config.len() - i,
    {
        let record = &config[i];
        proof {
            assert(records[i as int].name == record.name@);
            lemma_unclaimed_lookup(lookup_of(snapshot), names.take(i as int), record.name@);
            lemma_lookup_of(snapshot, record.name@);
            lemma_unclaimed_next(lookup_of(snapshot), names.take(i as int), record.name@);
            assert(names.take(i as int).push(record.name@) =~= names.take(i + 1));
        }
        let connected = lookup.remove(&record.name).is_some();
        let ghost before = registry.deep_view();
        let device = AudioDeviceState {
            name: record.name.clone(),
            label: record.label.clone(),
            device_type: kind,
            connected,
            hidden: record.hidden,
        };
        assert(device@ == configured_device(kind, records, snapshot, i as int));
        registry.push(device);
        assert(registry.deep_view() =~= before.push(device@));
        assert(registry.deep_view() =~= configured(kind, records, snapshot).take(i + 1));
        i += 1;
    }
    let rest = lookup.into_entries();
    let ghost first = configured(kind, records, snapshot);
    let ghost remaining = rest.deep_view();
    proof {
        assert(names.take(config.len() as int) =~= names);
        assert(first.take(config.len() as int) =~= first);
        assert(registry.deep_view() =~= first + discovered_devices(kind, remaining.take(0)));
    }
    let mut j: usize = 0;
    while j < rest.len()
        invariant
            j <= rest.len(),
            remaining == rest.deep_view(),
            registry.deep_view() == first + discovered_devices(kind, remaining.take(j as int)),
        decreases rest.len() - j,
    {
        let ghost before = registry.deep_view();
        let device = AudioDeviceState {
            name: rest[j].0.clone(),
            label: rest[j].1.clone(),
            device_type: kind,
            connected: true,
            hidden: false,
        };
        assert(device@ == discovered_device(kind, remaining[j as int]));
        registry.push(device);
        assert(registry.deep_view() =~= before.push(device@));
        assert(registry.deep_view() =~= first + discovered_devices(
            kind,
            remaining.take(j + 1),
        ));
        j += 1;
    }
    proof {
        assert(remaining.take(rest.len() as int) =~= remaining);
    }
    registry
}

/// The registry is a function of the values of its inputs: whenever the
/// remembered records hold the same values and the snapshots hold the same
/// values, reconciling gives the same devices in the same order.
pub proof fn lemma_reconcile_repeatable(
    kind: AudioDeviceType,
    config: Vec<AudioDeviceConfig>,
    live: Vec<(String, String)>,
    config_again: Vec<AudioDeviceConfig>,
    live_again: Vec<(String, String)>,
)
    requires
        config.deep_view() == config_again.deep_view(),
        live.deep_view() == live_again.deep_view(),
    ensures
        reconcile(kind, config.deep_view(), live.deep_view()) == reconcile(
            kind,
            config_again.deep_view(),
            live_again.deep_view(),
        ),
{
}

/// The remembered devices stand at the front of the registry in their
/// configured order, whatever the server lists: of two records, the device
/// of the earlier one comes before the device of the later one, and each
/// keeps its name, label and visibility.
pub proof fn lemma_configured_order(
    kind: AudioDeviceType,
    config: Seq<RecordView>,
    live: Seq<(Seq<char>, Seq<char>)>,
    i: int,
    j: int,
)
    requires
        0 <= i < j < config.len(),
    ensures
        j < reconcile(kind, config, live).len(),
        reconcile(kind, config, live)[i] == configured_device(kind, config, live, i),
        reconcile(kind, config, live)[j] == configured_device(kind, config, live, j),
        reconcile(kind, config, live)[i].name == config[i].name,
        reconcile(kind, config, live)[j].name == config[j].name,
{
}

/// If no two remembered records share a name, no two devices of the
/// registry do.
pub proof fn lemma_no_duplicate_names(
    kind: AudioDeviceType,
    config: Seq<RecordView>,
    live: Seq<(Seq<char>, Seq<char>)>,
)
    requires
        record_names(config).no_duplicates(),
    ensures
        device_names(reconcile(kind, config, live)).no_duplicates(),
{
    let names = record_names(config);
    let registry = reconcile(kind, config, live);
    let rest = unclaimed(lookup_of(live), names);
    let n = config.len() as int;
    lemma_lookup_of(live, Seq::empty());
    lemma_unclaimed_distinct(lookup_of(live), names);
    assert forall|a: int, b: int|
        0 <= a < registry.len() && 0 <= b < registry.len() && a != b implies device_names(
        registry,
    )[a] != device_names(registry)[b] by {
        let (lo, hi) = if a < b {
            (a, b)
        } else {
            (b, a)
        };
        if hi < n {
            assert(names[lo] == registry[lo].name);
            assert(names[hi] == registry[hi].name);
        } else if lo >= n {
            assert(registry[lo].name == rest[lo - n].0);
            assert(registry[hi].name == rest[hi - n].0);
        } else {
            let name = rest[hi - n].0;
            assert(registry[hi].name == name);
            lemma_lookup_at(rest, hi - n);
            lemma_unclaimed_lookup(lookup_of(live), names, name);
            assert(names[lo] == registry[lo].name);
        }
    }
}

/// A remembered device that the server does not list is still in the
/// registry, at its configured place, marked as not connected and with its
/// label and visibility as remembered.
pub proof fn lemma_disconnected_remembered(
    kind: AudioDeviceType,
    config: Seq<RecordView>,
    live: Seq<(Seq<char>, Seq<char>)>,
    i: int,
)
    requires
        0 <= i < config.len(),
        forall|j: int| 0 <= j < live.len() ==> (#[trigger] live[j]).0 != config[i].name,
    ensures
        i < reconcile(kind, config, live).len(),
        reconcile(kind, config, live)[i].name == config[i].name,
        reconcile(kind, config, live)[i].label == config[i].label,
        reconcile(kind, config, live)[i].hidden == config[i].hidden,
        reconcile(kind, config, live)[i].device_type == kind,
        !reconcile(kind, config, live)[i].connected,
{
    lemma_lookup_miss(live, config[i].name);
}

/// A device that the server lists and no record remembers is in the
/// registry behind all remembered devices, connected, not hidden and
/// labelled with the description that the server lists for it.
pub proof fn lemma_new_device_discovered(
    kind: AudioDeviceType,
    config: Seq<RecordView>,
    live: Seq<(Seq<char>, Seq<char>)>,
    j: int,
)
    requires
        0 <= j < live.len(),
        forall|i: int| 0 <= i < config.len() ==> (#[trigger] config[i]).name != live[j].0,
    ensures
        lookup(live, live[j].0) is Some,
        exists|k: int|
            config.len() <= k < reconcile(kind, config, live).len() && #[trigger] reconcile(
                kind,
                config,
                live,
            )[k] == discovered_device(kind, (live[j].0, lookup(live, live[j].0).unwrap())),
{
    let name = live[j].0;
    let names = record_names(config);
    let rest = unclaimed(lookup_of(live), names);
    let registry = reconcile(kind, config, live);
    lemma_lookup_miss(live, name);
    assert(lookup(live, name) is Some) by {
        assert(live[j].0 == name);
    }
    assert(!names.contains(name)) by {
        if names.contains(name) {
            let i = choose|i: int| 0 <= i < names.len() && names[i] == name;
            assert(config[i].name == name);
        }
    }
    lemma_lookup_of(live, name);
    lemma_unclaimed_lookup(lookup_of(live), names, name);
    lemma_lookup_hit(rest, name);
    let at = choose|at: int|
        0 <= at < rest.len() && #[trigger] rest[at] == (name, lookup(rest, name).unwrap())
            && forall|later: int| at < later < rest.len() ==> (#[trigger] rest[later]).0 != name;
    let k = config.len() + at;
    assert(registry[k] == discovered_device(kind, rest[at]));
}

/// Every device of the registry is remembered or listed by the server: the
/// devices behind the remembered ones are connected, not hidden, and carry
/// a name that the server lists and no record remembers.
pub proof fn lemma_registry_sound(
    kind: AudioDeviceType,
    config: Seq<RecordView>,
    live: Seq<(Seq<char>, Seq<char>)>,
    k: int,
)
    requires
        config.len() <= k < reconcile(kind, config, live).len(),
    ensures
        reconcile(kind, config, live)[k] == discovered_device(
            kind,
            (
                reconcile(kind, config, live)[k].name,
                lookup(live, reconcile(kind, config, live)[k].name).unwrap(),
            ),
        ),
        lookup(live, reconcile(kind, config, live)[k].name) is Some,
        !record_names(config).contains(reconcile(kind, config, live)[k].name),
{
    let names = record_names(config);
    let rest = unclaimed(lookup_of(live), names);
    let at = k - config.len();
    let name = rest[at].0;
    lemma_lookup_of(live, name);
    lemma_unclaimed_distinct(lookup_of(live), names);
    lemma_lookup_at(rest, at);
    lemma_unclaimed_lookup(lookup_of(live), names, name);
}

/// If no two remembered records share a name, every device that the server
/// lists is in the registry exactly once, and is marked connected there.
pub proof fn lemma_live_device_once(
    kind: AudioDeviceType,
    config: Seq<RecordView>,
    live: Seq<(Seq<char>, Seq<char>)>,
    j: int,
)
    requires
        record_names(config).no_duplicates(),
        0 <= j < live.len(),
    ensures
        exists|k: int|
            0 <= k < reconcile(kind, config, live).len() && (#[trigger] reconcile(
                kind,
                config,
                live,
            )[k]).name == live[j].0 && reconcile(kind, config, live)[k].connected && forall|
                other: int,
            |
                0 <= other < reconcile(kind, config, live).len() && other != k ==> (
                #[trigger] reconcile(kind, config, live)[other]).name != live[j].0,
{
    let name = live[j].0;
    let names = record_names(config);
    let registry = reconcile(kind, config, live);
    lemma_no_duplicate_names(kind, config, live);
    lemma_lookup_miss(live, name);
    assert(lookup(live, name) is Some) by {
        assert(live[j].0 == name);
    }
    let k = if names.contains(name) {
        let i = choose|i: int| 0 <= i < names.len() && names[i] == name;
        assert(!names.take(i).contains(name)) by {
            if names.take(i).contains(name) {
                let earlier = choose|earlier: int|
                    0 <= earlier < names.take(i).len() && names.take(i)[earlier] == name;
                assert(names[earlier] == names[i]);
            }
        }
        assert(registry[i] == configured_device(kind, config, live, i));
        i
    } else {
        assert forall|i: int| 0 <= i < config.len() implies (#[trigger] config[i]).name
            != name by {
            assert(names[i] == config[i].name);
        }
        lemma_new_device_discovered(kind, config, live, j);
        choose|k: int|
            config.len() <= k < registry.len() && #[trigger] registry[k] == discovered_device(
                kind,
                (name, lookup(live, name).unwrap()),
            )
    };
    assert(registry[k].name == name && registry[k].connected);
    assert forall|other: int| 0 <= other < registry.len() && other != k implies (
    #[trigger] registry[other]).name != name by {
        assert(device_names(registry)[other] == registry[other].name);
        assert(device_names(registry)[k] == registry[k].name);
    }
}

/// Saving and reconciling again changes nothing: if no two remembered
/// records share a name, the records that remember a registry give, with
/// the same list of the server, that registry again.
pub proof fn lemma_reconcile_stable(
    kind: AudioDeviceType,
    config: Seq<RecordView>,
    live: Seq<(Seq<char>, Seq<char>)>,
)
    requires
        record_names(config).no_duplicates(),
    ensures
        reconcile(kind, saved_records(reconcile(kind, config, live)), live) == reconcile(
            kind,
            config,
            live,
        ),
{
    let names = record_names(config);
    let registry = reconcile(kind, config, live);
    let saved = saved_records(registry);
    let saved_names = record_names(saved);
    let entries = lookup_of(live);
    let rest = unclaimed(entries, names);
    let n = config.len() as int;
    lemma_no_duplicate_names(kind, config, live);
    lemma_lookup_of(live, Seq::empty());
    assert(saved_names =~= device_names(registry));
    assert forall|i: int| 0 <= i < entries.len() implies saved_names.contains(
        (#[trigger] entries[i]).0,
    ) by {
        let name = entries[i].0;
        lemma_lookup_at(entries, i);
        lemma_unclaimed_lookup(entries, names, name);
        if names.contains(name) {
            let at = choose|at: int| 0 <= at < names.len() && names[at] == name;
            assert(saved_names[at] == registry[at].name);
        } else {
            lemma_lookup_hit(rest, name);
            let at = choose|at: int|
                0 <= at < rest.len() && #[trigger] rest[at] == (name, lookup(rest, name).unwrap())
                    && forall|later: int|
                    at < later < rest.len() ==> (#[trigger] rest[later]).0 != name;
            assert(saved_names[n + at] == registry[n + at].name);
        }
    }
    lemma_unclaimed_all(entries, saved_names);
    let again = configured(kind, saved, live);
    assert forall|k: int| 0 <= k < registry.len() implies again[k] == registry[k] by {
        let name = registry[k].name;
        assert(saved[k] == record_of(registry[k]));
        assert(!saved_names.take(k).contains(name)) by {
            if saved_names.take(k).contains(name) {
                let earlier = choose|earlier: int|
                    0 <= earlier < saved_names.take(k).len() && saved_names.take(k)[earlier]
                        == name;
                assert(saved_names[earlier] == saved_names[k]);
            }
        }
        if k < n {
            assert(names[k] == name);
            assert(!names.take(k).contains(name)) by {
                if names.take(k).contains(name) {
                    let earlier = choose|earlier: int|
                        0 <= earlier < names.take(k).len() && names.take(k)[earlier] == name;
                    assert(names[earlier] == names[k]);
                }
            }
        } else {
            lemma_registry_sound(kind, config, live, k);
        }
    }
    assert(again =~= registry);
    assert(reconcile(kind, saved, live) =~= registry);
}

} // verus!
