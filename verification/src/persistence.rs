//! Persisted configuration records: devices, channel labels, virtual
//! devices and node settings.

use vstd::prelude::*;
use std::collections::HashMap;
use crate::api_models::{opt_view, RouteView};
use crate::keyed::{has_key, keyed_map, keys_distinct, lemma_keyed_at, lemma_keyed_empty, lemma_keyed_push, lemma_keyed_update};
use crate::text::str_equal;

verus! {

broadcast use vstd::std_specs::hash::group_hash_axioms;

/// A device that the user attached, to restore on startup.
#[derive(Debug, Clone)]
pub struct PersistedDevice {
    /// Device ID.
    pub id: String,
    /// User-defined display name (alias).
    pub display_name: Option<String>,
    /// Whether the device is attached.
    pub attached: bool,
}

/// The longest label, in characters.
pub const MAX_LABEL_LENGTH: usize = 31;

/// User-defined labels for a device's channels.
#[derive(Debug, Clone)]
pub struct ChannelLabels {
    /// Device ID.
    pub device_id: String,
    /// Labels by channel number.
    pub labels: HashMap<u16, String>,
}

impl ChannelLabels {
    /// The longest label, in characters.
    pub const MAX_LABEL_LENGTH: usize = 31;

    /// The labels, by channel, as text.
    pub open spec fn label_map(&self) -> Map<u16, Seq<char>> {
        self.labels@.map_values(|s: String| s@)
    }

    /// Creates an empty label set for a device.
    pub fn new(device_id: String) -> (r: Self)
        ensures
            r.device_id@ == device_id@,
            r.label_map() == Map::<u16, Seq<char>>::empty(),
    {
        let r = ChannelLabels { device_id, labels: HashMap::new() };
        assert(r.label_map() =~= Map::<u16, Seq<char>>::empty());
        r
    }

    /// Sets a channel's label; an empty label removes it. Labels longer
    /// than [`MAX_LABEL_LENGTH`] characters are refused (returns false, nothing
    /// changes).
    pub fn set_label(&mut self, channel: u16, label: String) -> (r: bool)
        ensures
            r == (label@.len() <= MAX_LABEL_LENGTH),
            !r ==> final(self).label_map() == old(self).label_map(),
            r && label@.len() == 0 ==> final(self).label_map() == old(self).label_map().remove(channel),
            r && label@.len() > 0 ==> final(self).label_map() == old(self).label_map().insert(channel, label@),
            final(self).device_id == old(self).device_id,
    {
        if label.as_str().unicode_len() > MAX_LABEL_LENGTH {
            return false;
        }
        if label.as_str().is_empty() {
            self.labels.remove(&channel);
            assert(self.label_map() =~= old(self).label_map().remove(channel));
        } else {
            self.labels.insert(channel, label);
            assert(self.label_map() =~= old(self).label_map().insert(channel, label@));
        }
        true
    }

    /// Gets a channel's label.
    pub fn get_label(&self, channel: u16) -> (r: Option<&String>)
        ensures
            r is Some == self.label_map().contains_key(channel),
            r matches Some(s) ==> s@ == self.label_map()[channel],
    {
        self.labels.get(&channel)
    }

    /// All labels, by channel.
    pub fn all_labels(&self) -> (r: &HashMap<u16, String>)
        ensures
            r@ == self.labels@,
    {
        &self.labels
    }
}


/// Default sample rate of a virtual device.
pub fn default_sample_rate() -> (r: u32)
    ensures
        r == 48000,
{
    48000
}

/// Default buffer size of a virtual device.
pub fn default_buffer_size() -> (r: u32)
    ensures
        r == 256,
{
    256
}

/// Default version of a persisted configuration.
pub fn default_version() -> (r: u32)
    ensures
        r == 1,
{
    1
}

/// Whether a virtual device may run at `rate`: 44.1, 48 or 96 kHz.
pub open spec fn supported_virtual_rate(rate: u32) -> bool {
    rate == 44100 || rate == 48000 || rate == 96000
}

/// A virtual device configuration.
#[derive(Debug)]
pub struct VirtualDeviceConfig {
    /// Device name.
    pub name: String,
    /// Number of input channels.
    pub input_channels: u16,
    /// Number of output channels.
    pub output_channels: u16,
    /// Sample rate in Hz.
    pub sample_rate: u32,
    /// Buffer size in samples.
    pub buffer_size: u32,
}

impl Clone for VirtualDeviceConfig {
    fn clone(&self) -> (r: Self)
        ensures
            r.name@ == self.name@,
            r.input_channels == self.input_channels,
            r.output_channels == self.output_channels,
            r.sample_rate == self.sample_rate,
            r.buffer_size == self.buffer_size,
    {
        VirtualDeviceConfig {
            name: self.name.clone(),
            input_channels: self.input_channels,
            output_channels: self.output_channels,
            sample_rate: self.sample_rate,
            buffer_size: self.buffer_size,
        }
    }
}

impl VirtualDeviceConfig {
    /// Whether the configuration can be created: a supported sample rate,
    /// at least one channel, and at most 256 channels each way.
    pub open spec fn spec_is_valid(&self) -> bool {
        &&& supported_virtual_rate(self.sample_rate)
        &&& (self.input_channels > 0 || self.output_channels > 0)
        &&& self.input_channels <= 256
        &&& self.output_channels <= 256
    }

    /// Validates the configuration.
    pub fn is_valid(&self) -> (r: bool)
        ensures
            r == self.spec_is_valid(),
    {
        (self.sample_rate == 44100 || self.sample_rate == 48000 || self.sample_rate == 96000)
            && (self.input_channels > 0 || self.output_channels > 0)
            && self.input_channels <= 256
            && self.output_channels <= 256
    }
}

/// Node settings.
#[derive(Debug, Clone)]
pub struct PersistedNode {
    /// Node name.
    pub name: String,
    /// HTTP API port.
    pub api_port: u16,
    /// VBAN port.
    pub vban_port: u16,
}


/// A route to restore on startup. The volume is held as the bits of its
/// 32-bit float value.
#[derive(Debug)]
pub struct PersistedRoute {
    /// Source node.
    pub source_node: String,
    /// Source device.
    pub source_device: String,
    /// Source channel (1-based).
    pub source_channel: u16,
    /// Destination node.
    pub destination_node: String,
    /// Destination device.
    pub destination_device: String,
    /// Destination channel (1-based).
    pub destination_channel: u16,
    /// Bits of the volume (0.0 to 1.0+).
    pub volume_bits: u32,
    /// Mute state.
    pub muted: bool,
}

impl View for PersistedRoute {
    type V = RouteView;

    open spec fn view(&self) -> RouteView {
        RouteView {
            source_node: self.source_node@,
            source_device: self.source_device@,
            source_channel: self.source_channel,
            destination_node: self.destination_node@,
            destination_device: self.destination_device@,
            destination_channel: self.destination_channel,
            volume_bits: self.volume_bits,
            muted: self.muted,
        }
    }
}

/// Whether a route runs between the given endpoints.
pub open spec fn route_between(
    r: RouteView,
    source_node: Seq<char>,
    source_device: Seq<char>,
    source_channel: u16,
    dest_node: Seq<char>,
    dest_device: Seq<char>,
    dest_channel: u16,
) -> bool {
    r.source_node == source_node && r.source_device == source_device && r.source_channel
        == source_channel && r.destination_node == dest_node && r.destination_device == dest_device
        && r.destination_channel == dest_channel
}

/// The records of a list of routes.
pub open spec fn route_records(v: Seq<PersistedRoute>) -> Seq<RouteView> {
    v.map_values(|r: PersistedRoute| r@)
}

/// The record of a device to restore: identifier, display name, attached.
pub open spec fn device_record(d: PersistedDevice) -> (Seq<char>, Option<Seq<char>>, bool) {
    (d.id@, opt_view(d.display_name), d.attached)
}

/// The records of a list of devices.
pub open spec fn device_records(v: Seq<PersistedDevice>) -> Seq<(Seq<char>, Option<Seq<char>>, bool)> {
    v.map_values(|d: PersistedDevice| device_record(d))
}

/// The attached records of a list, in order.
pub open spec fn attached_records(v: Seq<(Seq<char>, Option<Seq<char>>, bool)>) -> Seq<(Seq<char>, Option<Seq<char>>, bool)>
    decreases v.len(),
{
    if v.len() == 0 {
        Seq::empty()
    } else if v.last().2 {
        attached_records(v.drop_last()).push(v.last())
    } else {
        attached_records(v.drop_last())
    }
}

/// A copy of a device record.
fn copy_device(d: &PersistedDevice) -> (r: PersistedDevice)
    ensures
        device_record(r) == device_record(*d),
{
    let display_name = match &d.display_name {
        Some(n) => Some(n.clone()),
        None => None,
    };
    PersistedDevice { id: d.id.clone(), display_name, attached: d.attached }
}

/// Whether position `i` holds the first record of a device.
pub open spec fn is_first_device(v: Seq<PersistedDevice>, id: Seq<char>, i: int) -> bool {
    0 <= i < v.len() && v[i].id@ == id && forall|j: int| 0 <= j < i ==> #[trigger] v[j].id@ != id
}

/// Whether a list holds a record of a device.
pub open spec fn lists_device(v: Seq<PersistedDevice>, id: Seq<char>) -> bool {
    exists|i: int| 0 <= i < v.len() && #[trigger] v[i].id@ == id
}

/// The identifiers of the attached devices of a list, in order.
pub open spec fn attached_ids(v: Seq<(Seq<char>, Option<Seq<char>>, bool)>) -> Seq<Seq<char>>
    decreases v.len(),
{
    if v.len() == 0 {
        Seq::empty()
    } else if v.last().2 {
        attached_ids(v.drop_last()).push(v.last().0)
    } else {
        attached_ids(v.drop_last())
    }
}

/// The name and settings of a virtual device configuration.
pub open spec fn virtual_record(c: VirtualDeviceConfig) -> (Seq<char>, u16, u16, u32, u32) {
    (c.name@, c.input_channels, c.output_channels, c.sample_rate, c.buffer_size)
}

/// The records of a list of virtual device configurations.
pub open spec fn virtual_records(v: Seq<VirtualDeviceConfig>) -> Seq<(Seq<char>, u16, u16, u32, u32)> {
    v.map_values(|c: VirtualDeviceConfig| virtual_record(c))
}

/// The key of a label set: its device.
pub open spec fn labels_key() -> spec_fn((Seq<char>, Map<u16, Seq<char>>)) -> Seq<char> {
    |p: (Seq<char>, Map<u16, Seq<char>>)| p.0
}

/// The records of a list of label sets.
pub open spec fn label_records(v: Seq<ChannelLabels>) -> Seq<(Seq<char>, Map<u16, Seq<char>>)> {
    v.map_values(|l: ChannelLabels| (l.device_id@, l.label_map()))
}

/// The key of a setting: its name.
pub open spec fn setting_key() -> spec_fn((Seq<char>, Seq<char>)) -> Seq<char> {
    |p: (Seq<char>, Seq<char>)| p.0
}

/// The records of a list of settings.
pub open spec fn setting_records(v: Seq<(String, String)>) -> Seq<(Seq<char>, Seq<char>)> {
    v.map_values(|p: (String, String)| (p.0@, p.1@))
}

/// Everything that is restored on startup.
#[derive(Debug)]
pub struct PersistedConfig {
    /// Version of the configuration's layout.
    pub version: u32,
    /// Node settings.
    pub node: Option<PersistedNode>,
    /// Routes.
    pub routes: Vec<PersistedRoute>,
    /// Devices the user attached.
    pub attached_devices: Vec<PersistedDevice>,
    /// Channel labels, one set per device.
    pub channel_labels: Vec<ChannelLabels>,
    /// Virtual devices.
    pub virtual_devices: Vec<VirtualDeviceConfig>,
    /// Custom settings, one value per name.
    pub settings: Vec<(String, String)>,
}

impl PersistedConfig {
    /// Whether label sets and settings are each held once per key.
    pub open spec fn wf(&self) -> bool {
        &&& keys_distinct(label_records(self.channel_labels@), labels_key())
        &&& keys_distinct(setting_records(self.settings@), setting_key())
    }

    /// Labels by device.
    pub open spec fn label_map(&self) -> Map<Seq<char>, Map<u16, Seq<char>>> {
        keyed_map(label_records(self.channel_labels@), labels_key()).map_values(
            |p: (Seq<char>, Map<u16, Seq<char>>)| p.1,
        )
    }

    /// Settings by name.
    pub open spec fn setting_map(&self) -> Map<Seq<char>, Seq<char>> {
        keyed_map(setting_records(self.settings@), setting_key()).map_values(
            |p: (Seq<char>, Seq<char>)| p.1,
        )
    }

    /// An empty configuration of the current layout version.
    pub fn new() -> (r: Self)
        ensures
            r.wf(),
            r.version == 1,
            r.node is None,
            r.routes@.len() == 0,
            r.attached_devices@.len() == 0,
            r.channel_labels@.len() == 0,
            r.virtual_devices@.len() == 0,
            r.settings@.len() == 0,
    {
        let r = PersistedConfig {
            version: 1,
            node: None,
            routes: Vec::new(),
            attached_devices: Vec::new(),
            channel_labels: Vec::new(),
            virtual_devices: Vec::new(),
            settings: Vec::new(),
        };
        proof {
            assert(label_records(r.channel_labels@) =~= Seq::empty());
            assert(setting_records(r.settings@) =~= Seq::empty());
            lemma_keyed_empty(labels_key());
            lemma_keyed_empty(setting_key());
        }
        r
    }

    /// An empty configuration for a node with the given name and ports.
    pub fn with_node(name: String, api_port: u16, vban_port: u16) -> (r: Self)
        ensures
            r.wf(),
            r.version == 1,
            r.node matches Some(n) && n.name@ == name@ && n.api_port == api_port && n.vban_port
                == vban_port,
            r.routes@.len() == 0,
            r.attached_devices@.len() == 0,
            r.channel_labels@.len() == 0,
            r.virtual_devices@.len() == 0,
            r.settings@.len() == 0,
    {
        let mut r = Self::new();
        r.node = Some(PersistedNode { name, api_port, vban_port });
        r
    }

    /// Position of the first record of a device.
    fn find_device(&self, id: &str) -> (r: Option<usize>)
        ensures
            r matches Some(i) ==> is_first_device(self.attached_devices@, id@, i as int),
            r is None ==> !lists_device(self.attached_devices@, id@),
    {
        let mut i: usize = 0;
        while i < self.attached_devices.len()
            invariant
                i <= self.attached_devices@.len(),
                forall|j: int| 0 <= j < i ==> #[trigger] self.attached_devices@[j].id@ != id@,
            decreases self.attached_devices.len() - i,
        {
            if str_equal(self.attached_devices[i].id.as_str(), id) {
                return Some(i);
            }
            i = i + 1;
        }
        None
    }

    /// Records a device as attached (the first record with its identifier,
    /// or a new one), under a new display name where one is given.
    pub fn attach_device(&mut self, id: String, display_name: Option<String>)
        ensures
            lists_device(old(self).attached_devices@, id@) ==> exists|i: int|
                is_first_device(old(self).attached_devices@, id@, i) && device_records(
                    final(self).attached_devices@,
                ) == device_records(old(self).attached_devices@).update(
                    i,
                    (id@, if display_name is Some {
                        opt_view(display_name)
                    } else {
                        opt_view(old(self).attached_devices@[i].display_name)
                    }, true),
                ),
            !lists_device(old(self).attached_devices@, id@) ==> device_records(final(self).attached_devices@)
                == device_records(old(self).attached_devices@).push((id@, opt_view(display_name), true)),
            final(self).routes@ == old(self).routes@,
            final(self).channel_labels@ == old(self).channel_labels@,
            final(self).virtual_devices@ == old(self).virtual_devices@,
            final(self).settings@ == old(self).settings@,
            final(self).node == old(self).node,
            final(self).version == old(self).version,
    {
        match self.find_device(id.as_str()) {
            Some(i) => {
                let ghost before = self.attached_devices@;
                let mut d = self.attached_devices.remove(i);
                d.attached = true;
                if display_name.is_some() {
                    d.display_name = display_name;
                }
                self.attached_devices.insert(i, d);
                proof {
                    assert(device_records(self.attached_devices@) =~= device_records(before).update(
                        i as int,
                        device_record(self.attached_devices@[i as int]),
                    ));
                }
            },
            None => {
                let ghost before = self.attached_devices@;
                let d = PersistedDevice { id, display_name, attached: true };
                self.attached_devices.push(d);
                proof {
                    assert(device_records(self.attached_devices@) =~= device_records(before).push(
                        device_record(self.attached_devices@[before.len() as int]),
                    ));
                }
            },
        }
    }

    /// Records a device as detached (its first record, if any).
    pub fn detach_device(&mut self, id: &str)
        ensures
            lists_device(old(self).attached_devices@, id@) ==> exists|i: int|
                is_first_device(old(self).attached_devices@, id@, i) && device_records(
                    final(self).attached_devices@,
                ) == device_records(old(self).attached_devices@).update(
                    i,
                    (id@, opt_view(old(self).attached_devices@[i].display_name), false),
                ),
            !lists_device(old(self).attached_devices@, id@) ==> device_records(final(self).attached_devices@)
                == device_records(old(self).attached_devices@),
            final(self).routes@ == old(self).routes@,
            final(self).channel_labels@ == old(self).channel_labels@,
            final(self).virtual_devices@ == old(self).virtual_devices@,
            final(self).settings@ == old(self).settings@,
            final(self).node == old(self).node,
            final(self).version == old(self).version,
    {
        if let Some(i) = self.find_device(id) {
            let ghost before = self.attached_devices@;
            let mut d = self.attached_devices.remove(i);
            d.attached = false;
            self.attached_devices.insert(i, d);
            proof {
                assert(device_records(self.attached_devices@) =~= device_records(before).update(
                    i as int,
                    device_record(self.attached_devices@[i as int]),
                ));
            }
        }
    }

    /// The attached device records, in order.
    pub fn attached_devices(&self) -> (r: Vec<PersistedDevice>)
        ensures
            device_records(r@) == attached_records(device_records(self.attached_devices@)),
    {
        let ghost recs = device_records(self.attached_devices@);
        let mut out: Vec<PersistedDevice> = Vec::new();
        let mut i: usize = 0;
        while i < self.attached_devices.len()
            invariant
                recs == device_records(self.attached_devices@),
                i <= self.attached_devices@.len(),
                device_records(out@) == attached_records(recs.take(i as int)),
            decreases self.attached_devices.len() - i,
        {
            let ghost before = out@;
            if self.attached_devices[i].attached {
                out.push(copy_device(&self.attached_devices[i]));
            }
            proof {
                assert(recs.take(i + 1).drop_last() =~= recs.take(i as int));
                assert(recs.take(i + 1).last() == recs[i as int]);
                if recs[i as int].2 {
                    assert(device_records(out@) =~= device_records(before).push(recs[i as int]));
                }
            }
            i = i + 1;
        }
        assert(recs.take(recs.len() as int) =~= recs);
        out
    }

    /// The identifiers of the attached devices, in order.
    pub fn attached_device_ids(&self) -> (r: Vec<&str>)
        ensures
            r@.map_values(|s: &str| s@) == attached_ids(device_records(self.attached_devices@)),
    {
        let ghost recs = device_records(self.attached_devices@);
        let mut out: Vec<&str> = Vec::new();
        let mut i: usize = 0;
        while i < self.attached_devices.len()
            invariant
                recs == device_records(self.attached_devices@),
                i <= self.attached_devices@.len(),
                out@.map_values(|s: &str| s@) == attached_ids(recs.take(i as int)),
            decreases self.attached_devices.len() - i,
        {
            let ghost before = out@;
            if self.attached_devices[i].attached {
                out.push(self.attached_devices[i].id.as_str());
            }
            proof {
                assert(recs.take(i + 1).drop_last() =~= recs.take(i as int));
                assert(recs.take(i + 1).last() == recs[i as int]);
                if recs[i as int].2 {
                    assert(out@.map_values(|s: &str| s@) =~= before.map_values(|s: &str| s@).push(recs[i as int].0));
                }
            }
            i = i + 1;
        }
        assert(recs.take(recs.len() as int) =~= recs);
        out
    }

    /// Position of a device's label set.
    fn find_labels(&self, device_id: &str) -> (r: Option<usize>)
        requires
            self.wf(),
        ensures
            r matches Some(i) ==> i < self.channel_labels@.len() && self.channel_labels@[i as int].device_id@
                == device_id@ && self.label_map().contains_key(device_id@) && self.label_map()[device_id@]
                == self.channel_labels@[i as int].label_map(),
            r is None ==> !self.label_map().contains_key(device_id@),
    {
        let mut i: usize = 0;
        while i < self.channel_labels.len()
            invariant
                self.wf(),
                i <= self.channel_labels@.len(),
                forall|j: int| 0 <= j < i ==> #[trigger] self.channel_labels@[j].device_id@ != device_id@,
            decreases self.channel_labels.len() - i,
        {
            if str_equal(self.channel_labels[i].device_id.as_str(), device_id) {
                proof {
                    lemma_keyed_at(label_records(self.channel_labels@), labels_key(), i as int);
                }
                return Some(i);
            }
            i = i + 1;
        }
        proof {
            let vs = label_records(self.channel_labels@);
            if has_key(vs, labels_key(), device_id@) {
                let j = choose|j: int| 0 <= j < vs.len() && #[trigger] labels_key()(vs[j]) == device_id@;
                assert(self.channel_labels@[j].device_id@ == device_id@);
            }
        }
        None
    }

    /// Sets a channel label of a device (an empty label removes it). Labels
    /// longer than 31 characters are refused: false, and nothing changes but that
    /// the device has a (possibly empty) label set.
    pub fn set_channel_label(&mut self, device_id: &str, channel: u16, label: String) -> (r: bool)
        requires
            old(self).wf(),
        ensures
            final(self).wf(),
            r == (label@.len() <= MAX_LABEL_LENGTH),
            final(self).label_map().contains_key(device_id@),
            final(self).label_map()[device_id@] == if r {
                if label@.len() == 0 {
                    labels_or_empty(old(self).label_map(), device_id@).remove(channel)
                } else {
                    labels_or_empty(old(self).label_map(), device_id@).insert(channel, label@)
                }
            } else {
                labels_or_empty(old(self).label_map(), device_id@)
            },
            forall|other: Seq<char>|
                other != device_id@ ==> (#[trigger] final(self).label_map().contains_key(other) == old(
                    self,
                ).label_map().contains_key(other) && (old(self).label_map().contains_key(other)
                    ==> final(self).label_map()[other] == old(self).label_map()[other])),
            final(self).routes@ == old(self).routes@,
            final(self).attached_devices@ == old(self).attached_devices@,
            final(self).virtual_devices@ == old(self).virtual_devices@,
            final(self).settings@ == old(self).settings@,
    {
        let i = match self.find_labels(device_id) {
            Some(i) => i,
            None => {
                let entry = ChannelLabels::new(String::from_str(device_id));
                let ghost ev = (entry.device_id@, entry.label_map());
                proof {
                    lemma_keyed_push(label_records(self.channel_labels@), labels_key(), ev);
                }
                let ghost before = self.channel_labels@;
                self.channel_labels.push(entry);
                proof {
                    assert(label_records(self.channel_labels@) =~= label_records(before).push(ev));
                }
                self.channel_labels.len() - 1
            },
        };
        let ghost mid = self.label_map();
        let ghost recs = label_records(self.channel_labels@);
        let mut entry = self.channel_labels.remove(i);
        let ok = entry.set_label(channel, label);
        let ghost ev = (entry.device_id@, entry.label_map());
        self.channel_labels.insert(i, entry);
        proof {
            assert(label_records(self.channel_labels@) =~= recs.update(i as int, ev));
            lemma_keyed_update(recs, labels_key(), i as int, ev);
            let km = keyed_map(recs, labels_key());
            assert(km.insert(ev.0, ev).map_values(|p: (Seq<char>, Map<u16, Seq<char>>)| p.1)
                =~= mid.insert(ev.0, ev.1));
            assert(labels_or_empty(old(self).label_map(), device_id@) =~= mid[device_id@]);
        }
        ok
    }

    /// The label set of a device, if it has one.
    pub fn get_channel_labels(&self, device_id: &str) -> (r: Option<&ChannelLabels>)
        requires
            self.wf(),
        ensures
            r is Some == self.label_map().contains_key(device_id@),
            r matches Some(l) ==> l.device_id@ == device_id@ && l.label_map() == self.label_map()[device_id@],
    {
        match self.find_labels(device_id) {
            Some(i) => Some(&self.channel_labels[i]),
            None => None,
        }
    }

    /// Adds a virtual device configuration, where it is valid.
    pub fn add_virtual_device(&mut self, config: VirtualDeviceConfig)
        ensures
            config.spec_is_valid() ==> virtual_records(final(self).virtual_devices@) == virtual_records(
                old(self).virtual_devices@,
            ).push(virtual_record(config)),
            !config.spec_is_valid() ==> final(self).virtual_devices@ == old(self).virtual_devices@,
            final(self).routes@ == old(self).routes@,
            final(self).attached_devices@ == old(self).attached_devices@,
            final(self).channel_labels@ == old(self).channel_labels@,
            final(self).settings@ == old(self).settings@,
    {
        if config.is_valid() {
            let ghost before = self.virtual_devices@;
            let ghost rec = virtual_record(config);
            self.virtual_devices.push(config);
            proof {
                assert(virtual_records(self.virtual_devices@) =~= virtual_records(before).push(rec));
            }
        }
    }

    /// Removes every virtual device configuration with a name; returns
    /// whether any was removed.
    pub fn remove_virtual_device(&mut self, name: &str) -> (r: bool)
        ensures
            virtual_records(final(self).virtual_devices@) == virtual_records(old(self).virtual_devices@).filter(
                |c: (Seq<char>, u16, u16, u32, u32)| c.0 != name@,
            ),
            r == (final(self).virtual_devices@.len() != old(self).virtual_devices@.len()),
            final(self).routes@ == old(self).routes@,
            final(self).attached_devices@ == old(self).attached_devices@,
            final(self).channel_labels@ == old(self).channel_labels@,
            final(self).settings@ == old(self).settings@,
    {
        let ghost recs = virtual_records(self.virtual_devices@);
        let ghost keep = |c: (Seq<char>, u16, u16, u32, u32)| c.0 != name@;
        let mut kept: Vec<VirtualDeviceConfig> = Vec::new();
        let n = self.virtual_devices.len();
        let mut i: usize = 0;
        while i < n
            invariant
                n == self.virtual_devices@.len(),
                recs == virtual_records(self.virtual_devices@),
                keep == (|c: (Seq<char>, u16, u16, u32, u32)| c.0 != name@),
                i <= n,
                virtual_records(kept@) == recs.take(i as int).filter(keep),
            decreases n - i,
        {
            let ghost before = kept@;
            proof {
                reveal(Seq::filter);
                assert(recs.take(i + 1).drop_last() =~= recs.take(i as int));
                assert(recs.take(i + 1).last() == recs[i as int]);
            }
            if !str_equal(self.virtual_devices[i].name.as_str(), name) {
                let c = self.virtual_devices[i].clone();
                kept.push(c);
                proof {
                    assert(keep(recs[i as int]));
                    assert(virtual_records(kept@) =~= virtual_records(before).push(recs[i as int]));
                }
            } else {
                proof {
                    assert(!keep(recs[i as int]));
                    assert(virtual_records(kept@) =~= virtual_records(before));
                }
            }
            i = i + 1;
        }
        assert(recs.take(n as int) =~= recs);
        let changed = kept.len() != n;
        proof {
            assert(kept@.len() == virtual_records(kept@).len());
        }
        self.virtual_devices = kept;
        changed
    }

    /// Adds a route.
    pub fn add_route(&mut self, route: PersistedRoute)
        ensures
            final(self).routes@ == old(self).routes@.push(route),
            final(self).attached_devices@ == old(self).attached_devices@,
            final(self).channel_labels@ == old(self).channel_labels@,
            final(self).virtual_devices@ == old(self).virtual_devices@,
            final(self).settings@ == old(self).settings@,
    {
        self.routes.push(route);
    }

    /// Removes every route between the given endpoints; returns whether any
    /// was removed.
    pub fn remove_route(
        &mut self,
        source_node: &str,
        source_device: &str,
        source_channel: u16,
        dest_node: &str,
        dest_device: &str,
        dest_channel: u16,
    ) -> (r: bool)
        ensures
            route_records(final(self).routes@) == route_records(old(self).routes@).filter(
                |rv: RouteView|
                    !route_between(
                        rv,
                        source_node@,
                        source_device@,
                        source_channel,
                        dest_node@,
                        dest_device@,
                        dest_channel,
                    ),
            ),
            r == (final(self).routes@.len() != old(self).routes@.len()),
            final(self).attached_devices@ == old(self).attached_devices@,
            final(self).channel_labels@ == old(self).channel_labels@,
            final(self).virtual_devices@ == old(self).virtual_devices@,
            final(self).settings@ == old(self).settings@,
    {
        let ghost recs = route_records(self.routes@);
        let ghost keep = |rv: RouteView|
            !route_between(rv, source_node@, source_device@, source_channel, dest_node@, dest_device@, dest_channel);
        let mut kept: Vec<PersistedRoute> = Vec::new();
        let n = self.routes.len();
        let mut i: usize = 0;
        while i < n
            invariant
                n == self.routes@.len(),
                recs == route_records(self.routes@),
                keep == (|rv: RouteView|
                    !route_between(rv, source_node@, source_device@, source_channel, dest_node@, dest_device@, dest_channel)),
                i <= n,
                route_records(kept@) == recs.take(i as int).filter(keep),
            decreases n - i,
        {
            let ghost before = kept@;
            let r = &self.routes[i];
            let matches_all = str_equal(r.source_node.as_str(), source_node) && str_equal(
                r.source_device.as_str(),
                source_device,
            ) && r.source_channel == source_channel && str_equal(r.destination_node.as_str(), dest_node)
                && str_equal(r.destination_device.as_str(), dest_device) && r.destination_channel
                == dest_channel;
            if !matches_all {
                let c = PersistedRoute {
                    source_node: r.source_node.clone(),
                    source_device: r.source_device.clone(),
                    source_channel: r.source_channel,
                    destination_node: r.destination_node.clone(),
                    destination_device: r.destination_device.clone(),
                    destination_channel: r.destination_channel,
                    volume_bits: r.volume_bits,
                    muted: r.muted,
                };
                kept.push(c);
                proof {
                    reveal(Seq::filter);
                    assert(recs.take(i + 1).drop_last() =~= recs.take(i as int));
                    assert(recs.take(i + 1).last() == recs[i as int]);
                    assert(keep(recs[i as int]));
                    assert(route_records(kept@) =~= route_records(before).push(recs[i as int]));
                }
            } else {
                proof {
                    reveal(Seq::filter);
                    assert(recs.take(i + 1).drop_last() =~= recs.take(i as int));
                    assert(recs.take(i + 1).last() == recs[i as int]);
                    assert(!keep(recs[i as int]));
                    assert(route_records(kept@) =~= route_records(before));
                }
            }
            i = i + 1;
        }
        assert(recs.take(n as int) =~= recs);
        let changed = kept.len() != n;
        proof {
            assert(kept@.len() == route_records(kept@).len());
        }
        self.routes = kept;
        changed
    }

    /// Position of a setting.
    fn find_setting(&self, key: &str) -> (r: Option<usize>)
        requires
            self.wf(),
        ensures
            r matches Some(i) ==> i < self.settings@.len() && self.settings@[i as int].0@ == key@
                && self.setting_map().contains_key(key@) && self.setting_map()[key@]
                == self.settings@[i as int].1@,
            r is None ==> !self.setting_map().contains_key(key@),
    {
        let mut i: usize = 0;
        while i < self.settings.len()
            invariant
                self.wf(),
                i <= self.settings@.len(),
                forall|j: int| 0 <= j < i ==> #[trigger] self.settings@[j].0@ != key@,
            decreases self.settings.len() - i,
        {
            if str_equal(self.settings[i].0.as_str(), key) {
                proof {
                    lemma_keyed_at(setting_records(self.settings@), setting_key(), i as int);
                }
                return Some(i);
            }
            i = i + 1;
        }
        proof {
            let vs = setting_records(self.settings@);
            if has_key(vs, setting_key(), key@) {
                let j = choose|j: int| 0 <= j < vs.len() && #[trigger] setting_key()(vs[j]) == key@;
                assert(self.settings@[j].0@ == key@);
            }
        }
        None
    }

    /// Sets a custom setting, replacing any value it had.
    pub fn set_setting(&mut self, key: String, value: String)
        requires
            old(self).wf(),
        ensures
            final(self).wf(),
            final(self).setting_map() == old(self).setting_map().insert(key@, value@),
            final(self).routes@ == old(self).routes@,
            final(self).attached_devices@ == old(self).attached_devices@,
            final(self).channel_labels@ == old(self).channel_labels@,
            final(self).virtual_devices@ == old(self).virtual_devices@,
    {
        let ghost kv = (key@, value@);
        let ghost recs = setting_records(self.settings@);
        match self.find_setting(key.as_str()) {
            Some(i) => {
                proof {
                    lemma_keyed_update(recs, setting_key(), i as int, kv);
                }
                self.settings.set(i, (key, value));
                proof {
                    assert(setting_records(self.settings@) =~= recs.update(i as int, kv));
                    let km = keyed_map(recs, setting_key());
                    assert(km.insert(kv.0, kv).map_values(|p: (Seq<char>, Seq<char>)| p.1)
                        =~= old(self).setting_map().insert(kv.0, kv.1));
                }
            },
            None => {
                proof {
                    lemma_keyed_push(recs, setting_key(), kv);
                }
                self.settings.push((key, value));
                proof {
                    assert(setting_records(self.settings@) =~= recs.push(kv));
                    let km = keyed_map(recs, setting_key());
                    assert(km.insert(kv.0, kv).map_values(|p: (Seq<char>, Seq<char>)| p.1)
                        =~= old(self).setting_map().insert(kv.0, kv.1));
                }
            },
        }
    }

    /// A custom setting.
    pub fn get_setting(&self, key: &str) -> (r: Option<&String>)
        requires
            self.wf(),
        ensures
            r is Some == self.setting_map().contains_key(key@),
            r matches Some(v) ==> v@ == self.setting_map()[key@],
    {
        match self.find_setting(key) {
            Some(i) => Some(&self.settings[i].1),
            None => None,
        }
    }
}

/// The labels of a device in a label table (none where it has no entry).
pub open spec fn labels_or_empty(m: Map<Seq<char>, Map<u16, Seq<char>>>, device: Seq<char>) -> Map<
    u16,
    Seq<char>,
> {
    if m.contains_key(device) {
        m[device]
    } else {
        Map::empty()
    }
}

impl Default for PersistedConfig {
    fn default() -> (r: Self)
        ensures
            r.wf(),
            r.version == 1,
            r.node is None,
            r.routes@.len() == 0,
            r.attached_devices@.len() == 0,
            r.channel_labels@.len() == 0,
            r.virtual_devices@.len() == 0,
            r.settings@.len() == 0,
    {
        Self::new()
    }
}

} // verus!
