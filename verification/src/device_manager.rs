//! The cache of audio devices found on this machine and their operational
//! states. Enumerating the devices is the caller's part; the manager takes
//! each scan, keeps the devices it found, and says which devices appeared
//! and which went away, and which state changes to announce.

use vstd::prelude::*;
use std::time::{Duration, Instant};
use crate::api_models::{clone_opt, opt_view};
use crate::device::{
    AttachmentState, DeviceConfig, DeviceDirection, DeviceEvent, DeviceInfo, DeviceManagerConfig,
    DeviceState, SampleFormat,
};
use crate::keyed::{
    has_key, keyed_map, keys_distinct, lemma_keyed_at, lemma_keyed_empty, lemma_keyed_push,
    lemma_keyed_len, lemma_keyed_remove, lemma_keyed_update,
};
use crate::text::{push_str, str_equal};
use crate::time::{duration_as_nanos, instant_elapsed, instant_now};

verus! {

/// The contents of a [`DeviceInfo`].
pub struct DeviceRecord {
    pub id: Seq<char>,
    pub name: Seq<char>,
    pub display_name: Option<Seq<char>>,
    pub direction: DeviceDirection,
    pub host: Seq<char>,
    pub is_default: bool,
    pub is_virtual: bool,
    pub attachment_state: AttachmentState,
    pub configs: Seq<DeviceConfig>,
    pub last_seen: Instant,
}

impl View for DeviceInfo {
    type V = DeviceRecord;

    open spec fn view(&self) -> DeviceRecord {
        DeviceRecord {
            id: self.id@,
            name: self.name@,
            display_name: opt_view(self.display_name),
            direction: self.direction,
            host: self.host@,
            is_default: self.is_default,
            is_virtual: self.is_virtual,
            attachment_state: self.attachment_state,
            configs: self.configs@,
            last_seen: self.last_seen,
        }
    }
}

fn copy_configs(v: &Vec<DeviceConfig>) -> (r: Vec<DeviceConfig>)
    ensures
        r@ == v@,
{
    let mut out: Vec<DeviceConfig> = Vec::new();
    let mut i: usize = 0;
    while i < v.len()
        invariant
            i <= v@.len(),
            out@ == v@.take(i as int),
        decreases v.len() - i,
    {
        out.push(v[i]);
        proof {
            assert(out@ =~= v@.take(i + 1));
        }
        i = i + 1;
    }
    assert(v@.take(v@.len() as int) =~= v@);
    out
}

impl Clone for DeviceInfo {
    fn clone(&self) -> (r: Self)
        ensures
            r@ == self@,
    {
        DeviceInfo {
            id: self.id.clone(),
            name: self.name.clone(),
            display_name: clone_opt(&self.display_name),
            direction: self.direction,
            host: self.host.clone(),
            is_default: self.is_default,
            is_virtual: self.is_virtual,
            attachment_state: self.attachment_state,
            configs: copy_configs(&self.configs),
            last_seen: self.last_seen.clone(),
        }
    }
}

/// What an event says.
pub enum EventRecord {
    Added(DeviceRecord),
    Removed { id: Seq<char>, name: Seq<char> },
    StateChanged { id: Seq<char>, old_state: DeviceState, new_state: DeviceState },
    ConfigChanged { id: Seq<char> },
}

impl View for DeviceEvent {
    type V = EventRecord;

    open spec fn view(&self) -> EventRecord {
        match self {
            DeviceEvent::Added(d) => EventRecord::Added(d@),
            DeviceEvent::Removed { id, name } => EventRecord::Removed { id: id@, name: name@ },
            DeviceEvent::StateChanged { id, old_state, new_state } => EventRecord::StateChanged {
                id: id@,
                old_state: *old_state,
                new_state: *new_state,
            },
            DeviceEvent::ConfigChanged { id } => EventRecord::ConfigChanged { id: id@ },
        }
    }
}

/// The records of a list of events.
pub open spec fn event_records(v: Seq<DeviceEvent>) -> Seq<EventRecord> {
    v.map_values(|e: DeviceEvent| e@)
}

/// The identifier of a device as found: `host:direction:name`, so that the
/// same device seen through two audio hosts has two identifiers.
pub open spec fn scanned_id(host: Seq<char>, direction: DeviceDirection, name: Seq<char>) -> Seq<char> {
    host + ":"@ + direction.spec_name() + ":"@ + name
}

/// A device as found by a scan: known by host, direction and name, the
/// default device of its direction where its name is the default's, not
/// virtual, not attached (nothing is connected automatically), seen now.
pub fn scanned_device(
    name: String,
    direction: DeviceDirection,
    default_name: Option<&str>,
    host: &str,
    configs: Vec<DeviceConfig>,
    now: Instant,
) -> (r: DeviceInfo)
    ensures
        r@ == (DeviceRecord {
            id: scanned_id(host@, direction, name@),
            name: name@,
            display_name: None,
            direction,
            host: host@,
            is_default: match default_name {
                Some(d) => d@ == name@,
                None => false,
            },
            is_virtual: false,
            attachment_state: AttachmentState::Available,
            configs: configs@,
            last_seen: now,
        }),
{
    let mut id = String::new();
    push_str(&mut id, host);
    push_str(&mut id, ":");
    let dir = direction.to_string();
    push_str(&mut id, dir.as_str());
    push_str(&mut id, ":");
    push_str(&mut id, name.as_str());
    let is_default = match default_name {
        Some(d) => str_equal(d, name.as_str()),
        None => false,
    };
    DeviceInfo {
        id,
        name,
        display_name: None,
        direction,
        host: String::from_str(host),
        is_default,
        is_virtual: false,
        attachment_state: AttachmentState::Available,
        configs,
        last_seen: now,
    }
}

/// A configuration from one range that the audio backend reports: its
/// channel count both as minimum and maximum, its sample rates, and its
/// buffer sizes (64 to 4096 where the backend does not know them).
pub fn config_from_range(
    channels: u16,
    min_sample_rate: u32,
    max_sample_rate: u32,
    buffer_sizes: Option<(u32, u32)>,
    sample_format: SampleFormat,
) -> (r: DeviceConfig)
    ensures
        r.channels_min == channels && r.channels_max == channels,
        r.sample_rate_min == min_sample_rate && r.sample_rate_max == max_sample_rate,
        buffer_sizes matches Some((lo, hi)) ==> r.buffer_size_min == lo && r.buffer_size_max == hi,
        buffer_sizes is None ==> r.buffer_size_min == 64 && r.buffer_size_max == 4096,
        r.sample_format == sample_format,
{
    let (buffer_size_min, buffer_size_max) = match buffer_sizes {
        Some((lo, hi)) => (lo, hi),
        None => (64, 4096),
    };
    DeviceConfig {
        channels_min: channels,
        channels_max: channels,
        sample_rate_min: min_sample_rate,
        sample_rate_max: max_sample_rate,
        buffer_size_min,
        buffer_size_max,
        sample_format,
    }
}

/// The key of a device record: its identifier.
pub open spec fn record_key() -> spec_fn(DeviceRecord) -> Seq<char> {
    |d: DeviceRecord| d.id
}

/// The key of a state entry: its device.
pub open spec fn state_key() -> spec_fn((Seq<char>, DeviceState)) -> Seq<char> {
    |p: (Seq<char>, DeviceState)| p.0
}

/// The records of a list of devices.
pub open spec fn records(v: Seq<DeviceInfo>) -> Seq<DeviceRecord> {
    v.map_values(|d: DeviceInfo| d@)
}

spec fn state_entries(v: Seq<(String, DeviceState)>) -> Seq<(Seq<char>, DeviceState)> {
    v.map_values(|p: (String, DeviceState)| (p.0@, p.1))
}

/// The devices of a scan by identifier; a later find of an identifier
/// replaces an earlier one.
pub open spec fn scan_map(found: Seq<DeviceRecord>) -> Map<Seq<char>, DeviceRecord>
    decreases found.len(),
{
    if found.len() == 0 {
        Map::empty()
    } else {
        scan_map(found.drop_last()).insert(found.last().id, found.last())
    }
}

/// The events for the devices of a scan that were not known before, in
/// the order found, each device once.
pub open spec fn added_events(known: Map<Seq<char>, DeviceRecord>, found: Seq<DeviceRecord>) -> Seq<
    EventRecord,
>
    decreases found.len(),
{
    if found.len() == 0 {
        Seq::empty()
    } else {
        let before = added_events(known, found.drop_last());
        let d = found.last();
        if known.contains_key(d.id) || scan_map(found.drop_last()).contains_key(d.id) {
            before
        } else {
            before.push(EventRecord::Added(d))
        }
    }
}

/// The states after a scan: a fresh idle state for each device that was
/// not known before, disconnected for each known device no longer found,
/// unchanged otherwise.
pub open spec fn states_after_scan(
    states: Map<Seq<char>, DeviceState>,
    known: Map<Seq<char>, DeviceRecord>,
    found: Map<Seq<char>, DeviceRecord>,
) -> Map<Seq<char>, DeviceState> {
    Map::new(
        |k: Seq<char>| states.contains_key(k) || (found.contains_key(k) && !known.contains_key(k)),
        |k: Seq<char>|
            if found.contains_key(k) && !known.contains_key(k) {
                DeviceState::Idle
            } else if known.contains_key(k) && !found.contains_key(k) {
                DeviceState::Disconnected
            } else {
                states[k]
            },
    )
}

/// The states while a scan is taken in: a fresh idle state for each found
/// device that was not known before.
pub open spec fn states_after_adding(
    states: Map<Seq<char>, DeviceState>,
    known: Map<Seq<char>, DeviceRecord>,
    found: Map<Seq<char>, DeviceRecord>,
) -> Map<Seq<char>, DeviceState> {
    Map::new(
        |k: Seq<char>| states.contains_key(k) || (found.contains_key(k) && !known.contains_key(k)),
        |k: Seq<char>|
            if found.contains_key(k) && !known.contains_key(k) {
                DeviceState::Idle
            } else {
                states[k]
            },
    )
}

/// The states with those of some devices marked disconnected.
pub open spec fn states_after_removing(states: Map<Seq<char>, DeviceState>, gone: Set<Seq<char>>) -> Map<
    Seq<char>,
    DeviceState,
> {
    Map::new(
        |k: Seq<char>| states.contains_key(k),
        |k: Seq<char>|
            if gone.contains(k) {
                DeviceState::Disconnected
            } else {
                states[k]
            },
    )
}

/// The identifiers in a list of (identifier, name) pairs.
pub open spec fn gone_ids(v: Seq<(String, String)>) -> Set<Seq<char>> {
    Set::new(|k: Seq<char>| exists|a: int| 0 <= a < v.len() && #[trigger] v[a].0@ == k)
}

/// Whether a list of events announces, once each, exactly the known
/// devices that a scan did not find, under their known names.
pub open spec fn removal_events(
    s: Seq<EventRecord>,
    known: Map<Seq<char>, DeviceRecord>,
    found: Map<Seq<char>, DeviceRecord>,
) -> bool {
    &&& forall|a: int|
        0 <= a < s.len() ==> (#[trigger] s[a] matches EventRecord::Removed { id, name } && known.contains_key(id)
            && !found.contains_key(id) && name == known[id].name)
    &&& forall|a: int, b: int|
        0 <= a < b < s.len() ==> (#[trigger] s[a])->Removed_id != (#[trigger] s[b])->Removed_id
    &&& forall|k: Seq<char>|
        known.contains_key(k) && !found.contains_key(k) ==> exists|a: int|
            0 <= a < s.len() && (#[trigger] s[a])->Removed_id == k
}

/// A scan's map holds exactly the identifiers found.
pub proof fn lemma_scan_map_keys(found: Seq<DeviceRecord>)
    ensures
        forall|k: Seq<char>|
            #[trigger] scan_map(found).contains_key(k) <==> exists|b: int| 0 <= b < found.len() && found[b].id == k,
    decreases found.len(),
{
    if found.len() > 0 {
        lemma_scan_map_keys(found.drop_last());
        assert forall|k: Seq<char>|
            #[trigger] scan_map(found).contains_key(k) <==> exists|b: int| 0 <= b < found.len() && found[b].id == k by {
            if scan_map(found.drop_last()).contains_key(k) {
                let b = choose|b: int| 0 <= b < found.drop_last().len() && found.drop_last()[b].id == k;
                assert(found[b].id == k);
            }
            if exists|b: int| 0 <= b < found.len() && found[b].id == k {
                let b = choose|b: int| 0 <= b < found.len() && found[b].id == k;
                if b < found.len() - 1 {
                    assert(found.drop_last()[b].id == k);
                }
            }
        }
    }
}

/// Which devices a listing shows.
pub enum DeviceSelection {
    /// Every device.
    Every,
    /// The devices of one direction.
    Direction(DeviceDirection),
}

/// Whether a selection shows a device.
pub open spec fn selects(s: DeviceSelection, d: DeviceRecord) -> bool {
    match s {
        DeviceSelection::Every => true,
        DeviceSelection::Direction(dir) => d.direction == dir,
    }
}

/// Whether a list holds, once each, exactly the devices of `m` that a
/// selection shows.
pub open spec fn lists_selected(r: Seq<DeviceInfo>, m: Map<Seq<char>, DeviceRecord>, s: DeviceSelection) -> bool {
    &&& keys_distinct(records(r), record_key())
    &&& forall|j: int|
        0 <= j < r.len() ==> m.contains_key((#[trigger] r[j])@.id) && m[r[j]@.id] == r[j]@ && selects(
            s,
            r[j]@,
        )
    &&& forall|k: Seq<char>|
        m.contains_key(k) && selects(s, #[trigger] m[k]) ==> exists|j: int|
            0 <= j < r.len() && (#[trigger] r[j])@.id == k
}

/// The cache of devices found on this machine and their states.
pub struct DeviceManager {
    config: DeviceManagerConfig,
    devices: Vec<DeviceInfo>,
    states: Vec<(String, DeviceState)>,
    last_refresh: Instant,
}

impl DeviceManager {
    /// Devices by identifier.
    pub closed spec fn device_map(&self) -> Map<Seq<char>, DeviceRecord> {
        keyed_map(records(self.devices@), record_key())
    }

    /// Device states by identifier.
    pub closed spec fn state_map(&self) -> Map<Seq<char>, DeviceState> {
        keyed_map(state_entries(self.states@), state_key()).map_values(|p: (Seq<char>, DeviceState)| p.1)
    }

    /// When the cache was last refreshed.
    pub closed spec fn last_refresh_spec(&self) -> Instant {
        self.last_refresh
    }

    /// Whether each device and each state is held once.
    pub closed spec fn wf(&self) -> bool {
        &&& keys_distinct(records(self.devices@), record_key())
        &&& keys_distinct(state_entries(self.states@), state_key())
    }

    /// A manager with no devices yet; refreshed now.
    pub fn new(config: DeviceManagerConfig) -> (r: Self)
        ensures
            r.wf(),
            r.device_map() == Map::<Seq<char>, DeviceRecord>::empty(),
            r.state_map() == Map::<Seq<char>, DeviceState>::empty(),
    {
        let r = DeviceManager { config, devices: Vec::new(), states: Vec::new(), last_refresh: instant_now() };
        proof {
            assert(records(r.devices@) =~= Seq::empty());
            assert(state_entries(r.states@) =~= Seq::empty());
            lemma_keyed_empty(record_key());
            lemma_keyed_empty(state_key());
            assert(r.state_map() =~= Map::<Seq<char>, DeviceState>::empty());
        }
        r
    }

    /// A manager with the default configuration and no devices yet.
    pub fn with_defaults() -> (r: Self)
        ensures
            r.wf(),
            r.device_map() == Map::<Seq<char>, DeviceRecord>::empty(),
            r.state_map() == Map::<Seq<char>, DeviceState>::empty(),
    {
        Self::new(DeviceManagerConfig::default())
    }

    /// The manager's configuration.
    pub closed spec fn config_spec(&self) -> DeviceManagerConfig {
        self.config
    }

    /// Whether the manager refreshes on creation.
    pub fn auto_refresh(&self) -> (r: bool)
        ensures
            r == self.config_spec().auto_refresh,
    {
        self.config.auto_refresh
    }

    fn find_device(&self, id: &str) -> (r: Option<usize>)
        requires
            self.wf(),
        ensures
            r matches Some(i) ==> i < self.devices@.len() && self.devices@[i as int]@.id == id@
                && self.device_map().contains_key(id@) && self.device_map()[id@] == self.devices@[i as int]@,
            r is None ==> !self.device_map().contains_key(id@),
    {
        let mut i: usize = 0;
        while i < self.devices.len()
            invariant
                self.wf(),
                i <= self.devices@.len(),
                forall|j: int| 0 <= j < i ==> #[trigger] self.devices@[j]@.id != id@,
            decreases self.devices.len() - i,
        {
            if str_equal(self.devices[i].id.as_str(), id) {
                proof {
                    lemma_keyed_at(records(self.devices@), record_key(), i as int);
                }
                return Some(i);
            }
            i = i + 1;
        }
        proof {
            let vs = records(self.devices@);
            if has_key(vs, record_key(), id@) {
                let j = choose|j: int| 0 <= j < vs.len() && #[trigger] record_key()(vs[j]) == id@;
                assert(self.devices@[j]@.id == id@);
            }
        }
        None
    }

    fn find_state(&self, id: &str) -> (r: Option<usize>)
        requires
            self.wf(),
        ensures
            r matches Some(i) ==> i < self.states@.len() && self.states@[i as int].0@ == id@
                && self.state_map().contains_key(id@) && self.state_map()[id@] == self.states@[i as int].1,
            r is None ==> !self.state_map().contains_key(id@),
    {
        let mut i: usize = 0;
        while i < self.states.len()
            invariant
                self.wf(),
                i <= self.states@.len(),
                forall|j: int| 0 <= j < i ==> #[trigger] self.states@[j].0@ != id@,
            decreases self.states.len() - i,
        {
            if str_equal(self.states[i].0.as_str(), id) {
                proof {
                    lemma_keyed_at(state_entries(self.states@), state_key(), i as int);
                }
                return Some(i);
            }
            i = i + 1;
        }
        proof {
            let vs = state_entries(self.states@);
            if has_key(vs, state_key(), id@) {
                let j = choose|j: int| 0 <= j < vs.len() && #[trigger] state_key()(vs[j]) == id@;
                assert(self.states@[j].0@ == id@);
            }
        }
        None
    }

    /// Sets the state of a device, adding the device's state if it has none.
    fn put_state(&mut self, id: &str, state: DeviceState)
        requires
            old(self).wf(),
        ensures
            final(self).wf(),
            final(self).state_map() == old(self).state_map().insert(id@, state),
            final(self).device_map() == old(self).device_map(),
            final(self).devices@ == old(self).devices@,
    {
        let ghost before = state_entries(self.states@);
        let ghost e = (id@, state);
        match self.find_state(id) {
            Some(i) => {
                proof {
                    lemma_keyed_update(before, state_key(), i as int, e);
                }
                self.states.set(i, (String::from_str(id), state));
                proof {
                    assert(state_entries(self.states@) =~= before.update(i as int, e));
                    let km = keyed_map(before, state_key());
                    assert(km.insert(e.0, e).map_values(|p: (Seq<char>, DeviceState)| p.1)
                        =~= old(self).state_map().insert(e.0, e.1));
                }
            },
            None => {
                proof {
                    lemma_keyed_push(before, state_key(), e);
                }
                self.states.push((String::from_str(id), state));
                proof {
                    assert(state_entries(self.states@) =~= before.push(e));
                    let km = keyed_map(before, state_key());
                    assert(km.insert(e.0, e).map_values(|p: (Seq<char>, DeviceState)| p.1)
                        =~= old(self).state_map().insert(e.0, e.1));
                }
            },
        }
    }

    /// Caches a device found by a scan; for a device not known before, its
    /// state starts idle and it is announced as added.
    fn update_device(&mut self, info: DeviceInfo) -> (r: Option<DeviceEvent>)
        requires
            old(self).wf(),
        ensures
            final(self).wf(),
            final(self).device_map() == old(self).device_map().insert(info@.id, info@),
            old(self).device_map().contains_key(info@.id) ==> r is None && final(self).state_map()
                == old(self).state_map(),
            !old(self).device_map().contains_key(info@.id) ==> (r matches Some(e) && e@ == EventRecord::Added(
                info@,
            )) && final(self).state_map() == old(self).state_map().insert(info@.id, DeviceState::Idle),
    {
        let ghost iv = info@;
        match self.find_device(info.id.as_str()) {
            Some(i) => {
                let ghost before = records(self.devices@);
                proof {
                    lemma_keyed_update(before, record_key(), i as int, iv);
                }
                self.devices.set(i, info);
                proof {
                    assert(records(self.devices@) =~= before.update(i as int, iv));
                }
                None
            },
            None => {
                self.put_state(info.id.as_str(), DeviceState::Idle);
                let event = DeviceEvent::Added(info.clone());
                let ghost before = records(self.devices@);
                proof {
                    lemma_keyed_push(before, record_key(), iv);
                }
                self.devices.push(info);
                proof {
                    assert(records(self.devices@) =~= before.push(iv));
                }
                Some(event)
            },
        }
    }

    /// Takes the devices a scan found (at `now`): keeps exactly those (a
    /// later find of an identifier replacing an earlier one), starts an
    /// idle state for each new device, marks each device no longer found
    /// disconnected, and returns the events to announce: the new devices in
    /// the order found, then the devices that went away.
    pub fn apply_scan(&mut self, found: Vec<DeviceInfo>, now: Instant) -> (r: Vec<DeviceEvent>)
        requires
            old(self).wf(),
        ensures
            final(self).wf(),
            final(self).last_refresh_spec() == now,
            final(self).device_map() == scan_map(records(found@)),
            final(self).state_map() == states_after_scan(
                old(self).state_map(),
                old(self).device_map(),
                scan_map(records(found@)),
            ),
            exists|k: int|
                0 <= k <= r@.len() && event_records(r@).take(k) == added_events(
                    old(self).device_map(),
                    records(found@),
                ) && removal_events(event_records(r@).skip(k), old(self).device_map(), scan_map(records(found@))),
    {
        let ghost known = self.device_map();
        let ghost known_states = self.state_map();
        let ghost fr = records(found@);
        let mut events: Vec<DeviceEvent> = Vec::new();
        let mut i: usize = 0;
        while i < found.len()
            invariant
                self.wf(),
                fr == records(found@),
                i <= found@.len(),
                self.device_map() == known.union_prefer_right(scan_map(fr.take(i as int))),
                self.state_map() == states_after_adding(known_states, known, scan_map(fr.take(i as int))),
                event_records(events@) == added_events(known, fr.take(i as int)),
            decreases found.len() - i,
        {
            let info = found[i].clone();
            let ghost before_events = event_records(events@);
            let ghost mid = self.device_map();
            let ev = self.update_device(info);
            proof {
                let t = fr.take(i + 1);
                assert(t.drop_last() =~= fr.take(i as int));
                assert(t.last() == fr[i as int]);
                assert(self.device_map() =~= known.union_prefer_right(scan_map(t)));
                assert(self.state_map() =~= states_after_adding(known_states, known, scan_map(t)));
            }
            match ev {
                Some(e) => {
                    events.push(e);
                    proof {
                        assert(event_records(events@) =~= before_events.push(EventRecord::Added(fr[i as int])));
                    }
                },
                None => {
                    assert(event_records(events@) =~= before_events);
                },
            }
            i = i + 1;
        }
        proof {
            assert(fr.take(fr.len() as int) =~= fr);
        }
        let ghost added_count = events@.len();
        let ghost scanned = scan_map(fr);
        let ghost after_add_states = self.state_map();
        let ghost m_all = self.device_map();
        proof {
            lemma_scan_map_keys(fr);
            assert(after_add_states == states_after_adding(known_states, known, scanned));
            assert(m_all == known.union_prefer_right(scanned));
        }
        let gone = self.devices_not_found(&found);
        let ghost goneset = Set::new(|k: Seq<char>| known.contains_key(k) && !scanned.contains_key(k));
        proof {
            assert forall|k: Seq<char>| #[trigger] scanned.contains_key(k) <==> found_id(found@, k) by {
                if found_id(found@, k) {
                    let b = choose|b: int| 0 <= b < found@.len() && #[trigger] found@[b]@.id == k;
                    assert(fr[b].id == k);
                }
                if scanned.contains_key(k) {
                    let b = choose|b: int| 0 <= b < fr.len() && fr[b].id == k;
                    assert(found@[b]@.id == k);
                }
            }
            assert(gone_ids(gone@) =~= goneset) by {
                assert forall|k: Seq<char>| goneset.contains(k) implies gone_ids(gone@).contains(k) by {
                    assert(m_all.contains_key(k));
                    let x = choose|x: int| 0 <= x < gone@.len() && (#[trigger] gone@[x]).0@ == k;
                }
                assert forall|k: Seq<char>| gone_ids(gone@).contains(k) implies goneset.contains(k) by {
                    let x = choose|x: int| 0 <= x < gone@.len() && #[trigger] gone@[x].0@ == k;
                    assert(m_all.contains_key(gone@[x].0@));
                }
            }
        }
        let removed = self.remove_gone(&gone);
        proof {
            assert forall|x: int| 0 <= x < gone@.len() implies known.contains_key((#[trigger] gone@[x]).0@)
                && !scanned.contains_key(gone@[x].0@) && gone@[x].1@ == known[gone@[x].0@].name by {
                assert(m_all.contains_key(gone@[x].0@));
                assert(!found_id(found@, gone@[x].0@));
            }
            assert(m_all.remove_keys(goneset) =~= scanned);
            assert(states_after_removing(after_add_states, goneset) =~= states_after_scan(known_states, known, scanned));
        }
        let ghost added = event_records(events@);
        let ghost rem = event_records(removed@);
        let mut events = events;
        let mut removed = removed;
        events.append(&mut removed);
        proof {
            let er = event_records(events@);
            let k0 = added_count as int;
            assert(er.take(k0) =~= added);
            let rest = er.skip(k0);
            assert(rest =~= rem);
            assert forall|x: int, y: int| 0 <= x < y < rest.len() implies (#[trigger] rest[x])->Removed_id
                != (#[trigger] rest[y])->Removed_id by {
                assert(rest[x] == rem[x]);
                assert(rest[y] == rem[y]);
            }
            assert forall|k: Seq<char>| known.contains_key(k) && !scanned.contains_key(k) implies exists|x: int|
                0 <= x < rest.len() && (#[trigger] rest[x])->Removed_id == k by {
                assert(goneset.contains(k));
                assert(gone_ids(gone@).contains(k));
                let x = choose|x: int| 0 <= x < gone@.len() && #[trigger] gone@[x].0@ == k;
                assert(rest[x] == rem[x]);
            }
            assert forall|x: int| 0 <= x < rest.len() implies (#[trigger] rest[x] matches EventRecord::Removed { id, name }
                && known.contains_key(id) && !scanned.contains_key(id) && name == known[id].name) by {
                assert(rest[x] == rem[x]);
                assert(known.contains_key(gone@[x].0@));
            }
            assert(removal_events(rest, known, scanned));
        }
        self.last_refresh = now;
        events
    }
}


/// Whether a scan found a device with an identifier.
pub open spec fn found_id(found: Seq<DeviceInfo>, id: Seq<char>) -> bool {
    exists|b: int| 0 <= b < found.len() && #[trigger] found[b]@.id == id
}

fn found_contains(found: &Vec<DeviceInfo>, id: &str) -> (r: bool)
    ensures
        r == found_id(found@, id@),
{
    let mut f: usize = 0;
    while f < found.len()
        invariant
            f <= found@.len(),
            forall|b: int| 0 <= b < f ==> #[trigger] found@[b]@.id != id@,
        decreases found.len() - f,
    {
        if str_equal(found[f].id.as_str(), id) {
            assert(found@[f as int]@.id == id@);
            return true;
        }
        f = f + 1;
    }
    false
}

impl DeviceManager {
    /// The cached devices that a scan did not find, once each, with their
    /// names.
    #[verifier::rlimit(40)]
    fn devices_not_found(&self, found: &Vec<DeviceInfo>) -> (r: Vec<(String, String)>)
        requires
            self.wf(),
        ensures
            forall|a: int|
                0 <= a < r@.len() ==> self.device_map().contains_key((#[trigger] r@[a]).0@) && !found_id(
                    found@,
                    r@[a].0@,
                ) && r@[a].1@ == self.device_map()[r@[a].0@].name,
            forall|a: int, b: int| 0 <= a < b < r@.len() ==> r@[a].0@ != r@[b].0@,
            forall|k: Seq<char>|
                self.device_map().contains_key(k) && !found_id(found@, k) ==> exists|a: int|
                    0 <= a < r@.len() && (#[trigger] r@[a]).0@ == k,
    {
        let ghost vs = records(self.devices@);
        let mut gone: Vec<(String, String)> = Vec::new();
        let mut j: usize = 0;
        while j < self.devices.len()
            invariant
                self.wf(),
                vs == records(self.devices@),
                j <= self.devices@.len(),
                forall|a: int|
                    0 <= a < gone@.len() ==> self.device_map().contains_key((#[trigger] gone@[a]).0@) && !found_id(
                        found@,
                        gone@[a].0@,
                    ) && gone@[a].1@ == self.device_map()[gone@[a].0@].name,
                forall|a: int| 0 <= a < gone@.len() ==> exists|k: int| 0 <= k < j && #[trigger] self.devices@[k]@.id == (#[trigger] gone@[a]).0@,
                forall|a: int, b: int| 0 <= a < b < gone@.len() ==> gone@[a].0@ != gone@[b].0@,
                forall|k: int|
                    0 <= k < j && !found_id(found@, #[trigger] self.devices@[k]@.id) ==> exists|a: int|
                        0 <= a < gone@.len() && (#[trigger] gone@[a]).0@ == self.devices@[k]@.id,
            decreases self.devices.len() - j,
        {
            let still = found_contains(found, self.devices[j].id.as_str());
            if !still {
                let ghost before = gone@;
                proof {
                    lemma_keyed_at(vs, record_key(), j as int);
                }
                gone.push((self.devices[j].id.clone(), self.devices[j].name.clone()));
                proof {
                    assert forall|a: int, b: int| 0 <= a < b < gone@.len() implies gone@[a].0@ != gone@[b].0@ by {
                        if b == gone@.len() - 1 {
                            assert(gone@[a] == before[a]);
                            let k = choose|k: int| 0 <= k < j && #[trigger] self.devices@[k]@.id == (#[trigger] before[a]).0@;
                            if gone@[a].0@ == gone@[b].0@ {
                                assert(record_key()(vs[k]) == record_key()(vs[j as int]));
                            }
                        } else {
                            assert(gone@[a] == before[a]);
                            assert(gone@[b] == before[b]);
                        }
                    }
                    assert forall|k: int|
                        0 <= k < j + 1 && !found_id(found@, #[trigger] self.devices@[k]@.id) implies exists|a: int|
                        0 <= a < gone@.len() && (#[trigger] gone@[a]).0@ == self.devices@[k]@.id by {
                        if k == j {
                            assert(gone@[gone@.len() - 1].0@ == self.devices@[k]@.id);
                        } else {
                            let a = choose|a: int| 0 <= a < before.len() && (#[trigger] before[a]).0@ == self.devices@[k]@.id;
                            assert(gone@[a] == before[a]);
                        }
                    }
                    assert forall|a: int| 0 <= a < gone@.len() implies exists|k: int| 0 <= k < j + 1
                        && #[trigger] self.devices@[k]@.id == (#[trigger] gone@[a]).0@ by {
                        if a == gone@.len() - 1 {
                            assert(self.devices@[j as int]@.id == gone@[a].0@);
                        } else {
                            assert(gone@[a] == before[a]);
                            let k = choose|k: int| 0 <= k < j && #[trigger] self.devices@[k]@.id == (#[trigger] before[a]).0@;
                            assert(self.devices@[k]@.id == gone@[a].0@);
                        }
                    }
                    assert forall|a: int|
                        0 <= a < gone@.len() implies self.device_map().contains_key((#[trigger] gone@[a]).0@) && !found_id(
                        found@,
                        gone@[a].0@,
                    ) && gone@[a].1@ == self.device_map()[gone@[a].0@].name by {
                        if a < gone@.len() - 1 {
                            assert(gone@[a] == before[a]);
                        }
                    }
                }
            }
            j = j + 1;
        }
        proof {
            assert forall|k: Seq<char>|
                self.device_map().contains_key(k) && !found_id(found@, k) implies exists|a: int|
                0 <= a < gone@.len() && (#[trigger] gone@[a]).0@ == k by {
                let x = choose|x: int| 0 <= x < vs.len() && #[trigger] record_key()(vs[x]) == k;
                assert(self.devices@[x]@.id == k);
            }
        }
        gone
    }

    /// Drops the given devices from the cache, marks those with a state
    /// disconnected, and returns their removal events, in order.
    fn remove_gone(&mut self, gone: &Vec<(String, String)>) -> (r: Vec<DeviceEvent>)
        requires
            old(self).wf(),
        ensures
            final(self).wf(),
            final(self).device_map() == old(self).device_map().remove_keys(gone_ids(gone@)),
            final(self).state_map() == states_after_removing(old(self).state_map(), gone_ids(gone@)),
            r@.len() == gone@.len(),
            forall|a: int| 0 <= a < r@.len() ==> #[trigger] r@[a]@ == (EventRecord::Removed {
                id: gone@[a].0@,
                name: gone@[a].1@,
            }),
    {
        let mut events: Vec<DeviceEvent> = Vec::new();
        let mut a: usize = 0;
        proof {
            assert(gone_ids(gone@.take(0)) =~= Set::<Seq<char>>::empty());
            assert(old(self).device_map().remove_keys(Set::<Seq<char>>::empty()) =~= old(self).device_map());
            assert(states_after_removing(old(self).state_map(), Set::<Seq<char>>::empty()) =~= old(self).state_map());
        }
        while a < gone.len()
            invariant
                self.wf(),
                a <= gone@.len(),
                self.device_map() == old(self).device_map().remove_keys(gone_ids(gone@.take(a as int))),
                self.state_map() == states_after_removing(old(self).state_map(), gone_ids(gone@.take(a as int))),
                events@.len() == a,
                forall|b: int| 0 <= b < a ==> #[trigger] events@[b]@ == (EventRecord::Removed {
                    id: gone@[b].0@,
                    name: gone@[b].1@,
                }),
            decreases gone.len() - a,
        {
            let id = gone[a].0.as_str();
            let ghost g = gone@.take(a as int);
            let ghost g2 = gone@.take(a + 1);
            proof {
                assert(gone_ids(g2) =~= gone_ids(g).insert(id@)) by {
                    assert forall|k: Seq<char>| gone_ids(g2).contains(k) implies gone_ids(g).insert(id@).contains(k) by {
                        let x = choose|x: int| 0 <= x < g2.len() && #[trigger] g2[x].0@ == k;
                        if x < a {
                            assert(g[x].0@ == k);
                        }
                    }
                    assert forall|k: Seq<char>| gone_ids(g).insert(id@).contains(k) implies gone_ids(g2).contains(k) by {
                        if k == id@ {
                            assert(g2[a as int].0@ == k);
                        } else {
                            let x = choose|x: int| 0 <= x < g.len() && #[trigger] g[x].0@ == k;
                            assert(g2[x].0@ == k);
                        }
                    }
                }
            }
            let ghost m0 = self.device_map();
            let ghost s0 = self.state_map();
            if let Some(i) = self.find_device(id) {
                let ghost before = records(self.devices@);
                proof {
                    lemma_keyed_remove(before, record_key(), i as int);
                }
                self.devices.remove(i);
                proof {
                    assert(records(self.devices@) =~= before.remove(i as int));
                }
            } else {
                assert(m0.remove(id@) =~= m0);
            }
            if self.find_state(id).is_some() {
                self.put_state(id, DeviceState::Disconnected);
                proof {
                    assert(self.state_map() =~= states_after_removing(old(self).state_map(), gone_ids(g2)));
                }
            } else {
                proof {
                    assert(self.state_map() =~= states_after_removing(old(self).state_map(), gone_ids(g2)));
                }
            }
            proof {
                assert(self.device_map() =~= old(self).device_map().remove_keys(gone_ids(g2)));
            }
            let ghost before_events = events@;
            events.push(DeviceEvent::Removed { id: gone[a].0.clone(), name: gone[a].1.clone() });
            proof {
                assert forall|b: int| 0 <= b < a + 1 implies #[trigger] events@[b]@ == (EventRecord::Removed {
                    id: gone@[b].0@,
                    name: gone@[b].1@,
                }) by {
                    if b < a {
                        assert(events@[b] == before_events[b]);
                    }
                }
            }
            a = a + 1;
        }
        proof {
            assert(gone@.take(gone@.len() as int) =~= gone@);
        }
        events
    }
}

impl DeviceManager {
    /// The cached devices that a selection shows.
    fn selected(&self, sel: DeviceSelection) -> (r: Vec<DeviceInfo>)
        requires
            self.wf(),
        ensures
            lists_selected(r@, self.device_map(), sel),
    {
        let ghost vs = records(self.devices@);
        let mut out: Vec<DeviceInfo> = Vec::new();
        let ghost mut src: Seq<int> = Seq::empty();
        let mut i: usize = 0;
        while i < self.devices.len()
            invariant
                self.wf(),
                vs == records(self.devices@),
                i <= self.devices@.len(),
                src.len() == out@.len(),
                forall|j: int|
                    0 <= j < out@.len() ==> 0 <= #[trigger] src[j] < i && out@[j]@ == self.devices@[src[j]]@
                        && selects(sel, out@[j]@),
                forall|a: int, b: int| 0 <= a < b < src.len() ==> src[a] < src[b],
                forall|k: int|
                    0 <= k < i && selects(sel, #[trigger] self.devices@[k]@) ==> exists|j: int|
                        0 <= j < src.len() && src[j] == k,
            decreases self.devices.len() - i,
        {
            let take = match sel {
                DeviceSelection::Every => true,
                DeviceSelection::Direction(d) => self.devices[i].direction == d,
            };
            if take {
                let c = self.devices[i].clone();
                let ghost old_out = out@;
                let ghost old_src = src;
                out.push(c);
                proof {
                    src = src.push(i as int);
                    assert forall|j: int| 0 <= j < out@.len() implies 0 <= #[trigger] src[j] < i + 1
                        && out@[j]@ == self.devices@[src[j]]@ && selects(sel, out@[j]@) by {
                        if j < old_out.len() {
                            assert(out@[j] == old_out[j]);
                            assert(src[j] == old_src[j]);
                        }
                    }
                    assert forall|k: int|
                        0 <= k < i + 1 && selects(sel, #[trigger] self.devices@[k]@) implies exists|j: int|
                        0 <= j < src.len() && src[j] == k by {
                        if k == i {
                            assert(src[src.len() - 1] == k);
                        } else {
                            let j = choose|j: int| 0 <= j < old_src.len() && old_src[j] == k;
                            assert(src[j] == old_src[j]);
                        }
                    }
                }
            }
            i = i + 1;
        }
        proof {
            let m = self.device_map();
            assert forall|j: int| 0 <= j < out@.len() implies m.contains_key((#[trigger] out@[j])@.id)
                && m[out@[j]@.id] == out@[j]@ && selects(sel, out@[j]@) by {
                lemma_keyed_at(vs, record_key(), src[j]);
            }
            assert forall|k: Seq<char>| m.contains_key(k) && selects(sel, #[trigger] m[k]) implies exists|j: int|
                0 <= j < out@.len() && (#[trigger] out@[j])@.id == k by {
                let a = choose|a: int| 0 <= a < vs.len() && #[trigger] record_key()(vs[a]) == k;
                lemma_keyed_at(vs, record_key(), a);
                let j = choose|j: int| 0 <= j < src.len() && src[j] == a;
                assert(out@[j]@.id == k);
            }
            let ov = records(out@);
            assert forall|a: int, b: int|
                0 <= a < ov.len() && 0 <= b < ov.len() && #[trigger] record_key()(ov[a])
                    == #[trigger] record_key()(ov[b]) implies a == b by {
                assert(record_key()(vs[src[a]]) == record_key()(vs[src[b]]));
                if a < b {
                    assert(src[a] < src[b]);
                } else if b < a {
                    assert(src[b] < src[a]);
                }
            }
        }
        out
    }

    /// All cached devices.
    pub fn devices(&self) -> (r: Vec<DeviceInfo>)
        requires
            self.wf(),
        ensures
            lists_selected(r@, self.device_map(), DeviceSelection::Every),
    {
        self.selected(DeviceSelection::Every)
    }

    /// The cached devices of a direction.
    pub fn devices_by_direction(&self, direction: DeviceDirection) -> (r: Vec<DeviceInfo>)
        requires
            self.wf(),
        ensures
            lists_selected(r@, self.device_map(), DeviceSelection::Direction(direction)),
    {
        self.selected(DeviceSelection::Direction(direction))
    }

    /// The cached input devices.
    pub fn input_devices(&self) -> (r: Vec<DeviceInfo>)
        requires
            self.wf(),
        ensures
            lists_selected(r@, self.device_map(), DeviceSelection::Direction(DeviceDirection::Input)),
    {
        self.devices_by_direction(DeviceDirection::Input)
    }

    /// The cached output devices.
    pub fn output_devices(&self) -> (r: Vec<DeviceInfo>)
        requires
            self.wf(),
        ensures
            lists_selected(r@, self.device_map(), DeviceSelection::Direction(DeviceDirection::Output)),
    {
        self.devices_by_direction(DeviceDirection::Output)
    }

    /// A cached device by identifier.
    pub fn get_device(&self, id: &str) -> (r: Option<DeviceInfo>)
        requires
            self.wf(),
        ensures
            self.device_map().contains_key(id@) ==> (r matches Some(d) && d@ == self.device_map()[id@]),
            !self.device_map().contains_key(id@) ==> r is None,
    {
        match self.find_device(id) {
            Some(i) => Some(self.devices[i].clone()),
            None => None,
        }
    }

    /// The default device of a direction, if one is cached.
    fn default_of(&self, direction: DeviceDirection) -> (r: Option<DeviceInfo>)
        requires
            self.wf(),
        ensures
            r is Some <==> exists|k: Seq<char>|
                self.device_map().contains_key(k) && (#[trigger] self.device_map()[k]).direction == direction
                    && self.device_map()[k].is_default,
            r matches Some(d) ==> self.device_map().contains_key(d@.id) && self.device_map()[d@.id] == d@
                && d@.direction == direction && d@.is_default,
    {
        let ghost vs = records(self.devices@);
        let mut i: usize = 0;
        while i < self.devices.len()
            invariant
                self.wf(),
                vs == records(self.devices@),
                i <= self.devices@.len(),
                forall|j: int| 0 <= j < i ==> !((#[trigger] self.devices@[j])@.direction == direction && self.devices@[j]@.is_default),
            decreases self.devices.len() - i,
        {
            if self.devices[i].direction == direction && self.devices[i].is_default {
                proof {
                    lemma_keyed_at(vs, record_key(), i as int);
                }
                return Some(self.devices[i].clone());
            }
            i = i + 1;
        }
        proof {
            assert forall|k: Seq<char>| self.device_map().contains_key(k) implies !((#[trigger] self.device_map()[k]).direction == direction
                && self.device_map()[k].is_default) by {
                let x = choose|x: int| 0 <= x < vs.len() && #[trigger] record_key()(vs[x]) == k;
                lemma_keyed_at(vs, record_key(), x);
                assert(self.devices@[x]@ == vs[x]);
            }
        }
        None
    }

    /// The default input device, if one is cached.
    pub fn default_input(&self) -> (r: Option<DeviceInfo>)
        requires
            self.wf(),
        ensures
            r is Some <==> exists|k: Seq<char>|
                self.device_map().contains_key(k) && (#[trigger] self.device_map()[k]).direction == DeviceDirection::Input
                    && self.device_map()[k].is_default,
            r matches Some(d) ==> self.device_map().contains_key(d@.id) && self.device_map()[d@.id] == d@
                && d@.direction == DeviceDirection::Input && d@.is_default,
    {
        self.default_of(DeviceDirection::Input)
    }

    /// The default output device, if one is cached.
    pub fn default_output(&self) -> (r: Option<DeviceInfo>)
        requires
            self.wf(),
        ensures
            r is Some <==> exists|k: Seq<char>|
                self.device_map().contains_key(k) && (#[trigger] self.device_map()[k]).direction == DeviceDirection::Output
                    && self.device_map()[k].is_default,
            r matches Some(d) ==> self.device_map().contains_key(d@.id) && self.device_map()[d@.id] == d@
                && d@.direction == DeviceDirection::Output && d@.is_default,
    {
        self.default_of(DeviceDirection::Output)
    }

    /// The state of a device, if it has one.
    pub fn device_state(&self, id: &str) -> (r: Option<DeviceState>)
        requires
            self.wf(),
        ensures
            self.state_map().contains_key(id@) ==> r == Some(self.state_map()[id@]),
            !self.state_map().contains_key(id@) ==> r is None,
    {
        match self.find_state(id) {
            Some(i) => Some(self.states[i].1),
            None => None,
        }
    }

    /// Sets the state of a device that has one; returns the event to
    /// announce where the state changed.
    pub fn set_device_state(&mut self, id: &str, new_state: DeviceState) -> (r: Option<DeviceEvent>)
        requires
            old(self).wf(),
        ensures
            final(self).wf(),
            final(self).device_map() == old(self).device_map(),
            old(self).state_map().contains_key(id@) && old(self).state_map()[id@] != new_state ==> final(self).state_map() == old(self).state_map().insert(id@, new_state) && (r matches Some(e) && e@
                == (EventRecord::StateChanged { id: id@, old_state: old(self).state_map()[id@], new_state })),
            !(old(self).state_map().contains_key(id@) && old(self).state_map()[id@] != new_state) ==> r is None
                && final(self).state_map() == old(self).state_map(),
    {
        match self.find_state(id) {
            Some(i) => {
                let old_state = self.states[i].1;
                if old_state != new_state {
                    self.put_state(id, new_state);
                    Some(DeviceEvent::StateChanged { id: String::from_str(id), old_state, new_state })
                } else {
                    None
                }
            },
            None => None,
        }
    }

    /// Moves a device from one state to another, where it is in the
    /// first; returns the event to announce where it moved.
    pub fn transition_device_state(&mut self, id: &str, expected: DeviceState, new: DeviceState) -> (r: Option<
        DeviceEvent,
    >)
        requires
            old(self).wf(),
        ensures
            final(self).wf(),
            final(self).device_map() == old(self).device_map(),
            old(self).state_map().contains_key(id@) && old(self).state_map()[id@] == expected ==> final(self).state_map() == old(self).state_map().insert(id@, new) && (r matches Some(e) && e@
                == (EventRecord::StateChanged { id: id@, old_state: expected, new_state: new })),
            !(old(self).state_map().contains_key(id@) && old(self).state_map()[id@] == expected) ==> r is None
                && final(self).state_map() == old(self).state_map(),
    {
        match self.find_state(id) {
            Some(i) => {
                if self.states[i].1 == expected {
                    self.put_state(id, new);
                    Some(DeviceEvent::StateChanged { id: String::from_str(id), old_state: expected, new_state: new })
                } else {
                    None
                }
            },
            None => None,
        }
    }

    /// Time since the last scan was taken in.
    pub fn time_since_refresh(&self) -> (r: Duration) {
        instant_elapsed(&self.last_refresh)
    }

    /// Whether the cache is older than its time to live, by nanoseconds.
    pub fn is_stale_after(elapsed_nanos: u128, ttl_nanos: u128) -> (r: bool)
        ensures
            r == (elapsed_nanos > ttl_nanos),
    {
        elapsed_nanos > ttl_nanos
    }

    /// Whether the cache is older than its time to live.
    pub fn is_cache_stale(&self) -> (r: bool) {
        let elapsed = duration_as_nanos(self.time_since_refresh());
        let ttl = duration_as_nanos(self.config.cache_ttl);
        Self::is_stale_after(elapsed, ttl)
    }

    /// Number of cached devices.
    pub fn device_count(&self) -> (r: usize)
        requires
            self.wf(),
        ensures
            r == self.device_map().dom().len(),
    {
        proof {
            lemma_keyed_len(records(self.devices@), record_key());
        }
        self.devices.len()
    }
}

impl Default for DeviceManager {
    fn default() -> (r: Self)
        ensures
            r.wf(),
            r.device_map() == Map::<Seq<char>, DeviceRecord>::empty(),
            r.state_map() == Map::<Seq<char>, DeviceState>::empty(),
    {
        Self::with_defaults()
    }
}

/// Taking in the same scan again announces nothing and changes nothing:
/// no device is new and none went away.
pub proof fn law_rescan_is_quiet(
    found: Seq<DeviceRecord>,
    states: Map<Seq<char>, DeviceState>,
    events: Seq<EventRecord>,
)
    requires
        removal_events(events, scan_map(found), scan_map(found)),
    ensures
        added_events(scan_map(found), found) == Seq::<EventRecord>::empty(),
        events.len() == 0,
        states_after_scan(states, scan_map(found), scan_map(found)) == states,
{
    lemma_scan_map_keys(found);
    assert forall|b: int| 0 <= b < found.len() implies scan_map(found).contains_key(#[trigger] found[b].id) by {
        assert(exists|c: int| 0 <= c < found.len() && found[c].id == found[b].id);
    }
    lemma_added_none_when_known(scan_map(found), found);
    if events.len() > 0 {
        let e = events[0];
        assert(e is Removed);
        assert(scan_map(found).contains_key(e->Removed_id));
    }
    assert(states_after_scan(states, scan_map(found), scan_map(found)) =~= states);
}

/// No device of a scan is new to a cache that already holds every device
/// it found.
pub proof fn lemma_added_none_when_known(known: Map<Seq<char>, DeviceRecord>, found: Seq<DeviceRecord>)
    requires
        forall|b: int| 0 <= b < found.len() ==> known.contains_key(#[trigger] found[b].id),
    ensures
        added_events(known, found) == Seq::<EventRecord>::empty(),
    decreases found.len(),
{
    if found.len() > 0 {
        assert forall|b: int| 0 <= b < found.drop_last().len() implies known.contains_key(
            #[trigger] found.drop_last()[b].id,
        ) by {
            assert(found.drop_last()[b] == found[b]);
        }
        lemma_added_none_when_known(known, found.drop_last());
        assert(known.contains_key(found[found.len() - 1].id));
    }
}
} // verus!
