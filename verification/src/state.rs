//! The control plane's state: the local node, known remote nodes, local
//! devices with their channel labels, and routes. Devices follow a
//! user-controlled attachment lifecycle; virtual devices can be created,
//! changed and deleted; routes are stored under an identifier derived from
//! their endpoints.

use vstd::prelude::*;
use crate::api_models::{
    device_type_for, opt_view, type_for_channels, ChannelInfo,
    DeviceInfo, DeviceInfoView, DeviceStatus, DeviceType, NodeInfo, NodeInfoView,
    RouteDefinition, RouteView, channel_count_of,
};
use crate::keyed::{
    has_key, keyed_map, keys_distinct, lemma_keyed_at, lemma_keyed_empty, lemma_keyed_push,
    lemma_keyed_remove, lemma_keyed_update,
};
use crate::persistence::{ChannelLabels, MAX_LABEL_LENGTH};
use crate::text::{has_prefix, push_decimal, push_str, starts_with, str_equal};
use crate::connection::{endpoint_text, ConnectionId, ConnectionIdView};
use crate::route_controller::{
    carry_out, command_views, route_error_message, route_plan, CommandView, ControllerCommand, RouteController,
    RouteError,
};

verus! {

broadcast use vstd::std_specs::hash::group_hash_axioms;

/// A stored route and the identifier it is stored under.
struct RouteEntry {
    id: String,
    route: RouteDefinition,
}

/// The key of a node record: its identifier.
pub open spec fn node_key() -> spec_fn(NodeInfoView) -> Seq<char> {
    |n: NodeInfoView| n.id
}

/// The key of a device record: its identifier.
pub open spec fn device_key() -> spec_fn(DeviceInfoView) -> Seq<char> {
    |d: DeviceInfoView| d.id
}

/// The key of a label set: the device it belongs to.
pub open spec fn label_key() -> spec_fn((Seq<char>, Map<u16, Seq<char>>)) -> Seq<char> {
    |p: (Seq<char>, Map<u16, Seq<char>>)| p.0
}

/// The key of a stored route: its identifier.
pub open spec fn route_key() -> spec_fn((Seq<char>, RouteView)) -> Seq<char> {
    |p: (Seq<char>, RouteView)| p.0
}

/// The records of a list of nodes.
pub open spec fn node_views(v: Seq<NodeInfo>) -> Seq<NodeInfoView> {
    v.map_values(|n: NodeInfo| n@)
}

/// The records of a list of devices.
pub open spec fn device_views(v: Seq<DeviceInfo>) -> Seq<DeviceInfoView> {
    v.map_values(|d: DeviceInfo| d@)
}

spec fn label_views(v: Seq<ChannelLabels>) -> Seq<(Seq<char>, Map<u16, Seq<char>>)> {
    v.map_values(|l: ChannelLabels| (l.device_id@, l.label_map()))
}

spec fn route_views(v: Seq<RouteEntry>) -> Seq<(Seq<char>, RouteView)> {
    v.map_values(|e: RouteEntry| (e.id@, e.route@))
}

/// The labels of a device's channels in a label table (none where the table
/// has no entry for it).
pub open spec fn labels_of(table: Map<Seq<char>, Map<u16, Seq<char>>>, device: Seq<char>) -> Map<
    u16,
    Seq<char>,
> {
    if table.contains_key(device) {
        table[device]
    } else {
        Map::empty()
    }
}

/// A channel's label in a label map, if it has one.
pub open spec fn label_at(m: Map<u16, Seq<char>>, channel: u16) -> Option<Seq<char>> {
    if m.contains_key(channel) {
        Some(m[channel])
    } else {
        None
    }
}

/// Whether a reference is the word `local` with each letter small or
/// capital.
pub open spec fn local_in_any_case(s: Seq<char>) -> bool {
    s.len() == 5 && forall|i: int| 0 <= i < 5 ==> #[trigger] s[i] == "local"@[i] || s[i] == "LOCAL"@[i]
}

/// The part of `r` before its first `@` (all of it where it has none).
pub open spec fn before_at(r: Seq<char>) -> Seq<char> {
    if r.contains('@') {
        r.subrange(0, r.index_of_first('@')->0 as int)
    } else {
        r
    }
}

/// Whether a remote node answers to a reference by name, by an identifier
/// that begins with it, or, for a reference of the form `name@address`, by
/// the name before the `@`.
pub open spec fn node_answers_to(n: NodeInfoView, r: Seq<char>) -> bool {
    n.name == r || has_prefix(n.id, r) || (r.contains('@') && n.name == before_at(r))
}

/// The record of an optional node.
pub open spec fn node_opt_view(o: Option<NodeInfo>) -> Option<NodeInfoView> {
    match o {
        Some(n) => Some(n@),
        None => None,
    }
}

/// Whether `r` is what looking up a remote node by reference may give: the
/// node with that identifier; else, where some node answers to the
/// reference, one such node; else nothing.
pub open spec fn resolves(m: Map<Seq<char>, NodeInfoView>, node_ref: Seq<char>, r: Option<NodeInfoView>) -> bool {
    if m.contains_key(node_ref) {
        r == Some(m[node_ref])
    } else {
        &&& (r is Some <==> exists|k: Seq<char>| m.contains_key(k) && node_answers_to(#[trigger] m[k], node_ref))
        &&& (r matches Some(n) ==> exists|k: Seq<char>| m.contains_key(k) && #[trigger] m[k] == n && node_answers_to(n, node_ref))
    }
}

/// Text of a message that names an identifier after a prefix.
fn message(prefix: &str, id: &str) -> (r: String)
    ensures
        r@ == prefix@ + id@,
{
    let mut s = String::new();
    push_str(&mut s, prefix);
    push_str(&mut s, id);
    s
}

/// The system's host name, where it can be read.
///
/// Calls `hostname::get` and converts the name lossily to UTF-8. Nothing is
/// stated of the result: it is whatever the operating system reports.
#[verifier::external_body]
fn system_hostname() -> (r: Option<String>) {
    match hostname::get() {
        Ok(h) => Some(h.to_string_lossy().into_owned()),
        Err(_) => None,
    }
}

/// Whether a character is a lowercase hexadecimal digit.
pub open spec fn is_lower_hex(c: char) -> bool {
    ('0' <= c <= '9') || ('a' <= c <= 'f')
}

/// The form of a virtual device's identifier: `virtual_` and 32 lowercase
/// hexadecimal digits.
pub open spec fn virtual_id_form(id: Seq<char>) -> bool {
    &&& id.len() == 40
    &&& has_prefix(id, "virtual_"@)
    &&& forall|i: int| 8 <= i < 40 ==> is_lower_hex(#[trigger] id[i])
}

/// A fresh random identifier: a version 4 UUID in its simple form.
///
/// Calls `uuid::Uuid::new_v4` and formats it with `simple()`, which the
/// crate documents as 32 lowercase hexadecimal digits without hyphens. The
/// digits themselves are random.
#[verifier::external_body]
pub(crate) fn random_uuid_simple() -> (r: String)
    ensures
        r@.len() == 32,
        forall|i: int| 0 <= i < r@.len() ==> is_lower_hex(#[trigger] r@[i]),
{
    uuid::Uuid::new_v4().simple().to_string()
}

/// Commands to the stream service, sent as devices are attached and
/// detached.
#[derive(Debug)]
pub enum DeviceCommand {
    /// Start the streams of a device (for metering).
    StartStreams { device_id: String, device_type: DeviceType },
    /// Stop the streams of a device.
    StopStreams { device_id: String },
}

impl DeviceCommand {
    /// The command sent once a device is attached: start its streams.
    pub fn after_attach(device: &DeviceInfo) -> (r: Self)
        ensures
            r matches DeviceCommand::StartStreams { device_id, device_type } && device_id@ == device@.id
                && device_type == device.device_type,
    {
        DeviceCommand::StartStreams { device_id: device.id.clone(), device_type: device.device_type }
    }

    /// The command sent once a device is detached: stop its streams.
    pub fn after_detach(device: &DeviceInfo) -> (r: Self)
        ensures
            r matches DeviceCommand::StopStreams { device_id } && device_id@ == device@.id,
    {
        DeviceCommand::StopStreams { device_id: device.id.clone() }
    }
}

/// Shared state of the control plane.
pub struct AppState {
    local_node: NodeInfo,
    remote_nodes: Vec<NodeInfo>,
    devices: Vec<DeviceInfo>,
    channel_labels: Vec<ChannelLabels>,
    routes: Vec<RouteEntry>,
}

impl AppState {
    /// The local node.
    pub closed spec fn local(&self) -> NodeInfoView {
        self.local_node@
    }

    /// Known remote nodes by identifier.
    pub closed spec fn remote_map(&self) -> Map<Seq<char>, NodeInfoView> {
        keyed_map(node_views(self.remote_nodes@), node_key())
    }

    /// Local devices by identifier.
    pub closed spec fn device_map(&self) -> Map<Seq<char>, DeviceInfoView> {
        keyed_map(device_views(self.devices@), device_key())
    }

    /// Channel labels by device identifier.
    pub closed spec fn label_table(&self) -> Map<Seq<char>, Map<u16, Seq<char>>> {
        keyed_map(label_views(self.channel_labels@), label_key()).map_values(
            |p: (Seq<char>, Map<u16, Seq<char>>)| p.1,
        )
    }

    /// Routes by identifier.
    pub closed spec fn route_map(&self) -> Map<Seq<char>, RouteView> {
        keyed_map(route_views(self.routes@), route_key()).map_values(|p: (Seq<char>, RouteView)| p.1)
    }

    /// Whether no registry holds a key twice.
    pub closed spec fn wf(&self) -> bool {
        &&& keys_distinct(node_views(self.remote_nodes@), node_key())
        &&& keys_distinct(device_views(self.devices@), device_key())
        &&& keys_distinct(label_views(self.channel_labels@), label_key())
        &&& keys_distinct(route_views(self.routes@), route_key())
        &&& forall|i: int|
            0 <= i < self.routes@.len() ==> (#[trigger] self.routes@[i]).id@ == route_text(
                self.routes@[i].route@,
            )
    }

    /// Creates the state of a node with the given name and ports on the host
    /// of the given name: its identifier is `name@host`, it has no
    /// addresses yet and is online; nothing else is known.
    pub fn with_hostname(node_name: &str, hostname: &str, api_port: u16, vban_port: u16) -> (r: Self)
        ensures
            r.wf(),
            r.local() == (NodeInfoView {
                id: node_name@ + "@"@ + hostname@,
                name: node_name@,
                addresses: Seq::empty(),
                api_port,
                vban_port,
                online: true,
            }),
            r.remote_map() == Map::<Seq<char>, NodeInfoView>::empty(),
            r.device_map() == Map::<Seq<char>, DeviceInfoView>::empty(),
            r.label_table() == Map::<Seq<char>, Map<u16, Seq<char>>>::empty(),
            r.route_map() == Map::<Seq<char>, RouteView>::empty(),
    {
        let mut id = String::new();
        push_str(&mut id, node_name);
        push_str(&mut id, "@");
        push_str(&mut id, hostname);
        let addresses: Vec<String> = Vec::new();
        let local_node = NodeInfo {
            id,
            name: String::from_str(node_name),
            addresses,
            api_port,
            vban_port,
            online: true,
        };
        let r = AppState {
            local_node,
            remote_nodes: Vec::new(),
            devices: Vec::new(),
            channel_labels: Vec::new(),
            routes: Vec::new(),
        };
        proof {
            assert(node_views(r.remote_nodes@) =~= Seq::empty());
            assert(device_views(r.devices@) =~= Seq::empty());
            assert(label_views(r.channel_labels@) =~= Seq::empty());
            assert(route_views(r.routes@) =~= Seq::empty());
            assert(r.local_node@.addresses =~= Seq::<Seq<char>>::empty());
            lemma_keyed_empty(node_key());
            lemma_keyed_empty(device_key());
            lemma_keyed_empty(label_key());
            lemma_keyed_empty(route_key());
            assert(r.label_table() =~= Map::<Seq<char>, Map<u16, Seq<char>>>::empty());
            assert(r.route_map() =~= Map::<Seq<char>, RouteView>::empty());
        }
        r
    }

    /// Creates the state of a node with the given name and ports on this
    /// host (`unknown` where the host's name cannot be read).
    pub fn new(node_name: &str, api_port: u16, vban_port: u16) -> (r: Self)
        ensures
            r.wf(),
            r.local().name == node_name@,
            r.local().addresses == Seq::<Seq<char>>::empty(),
            r.local().api_port == api_port,
            r.local().vban_port == vban_port,
            r.local().online,
            exists|host: Seq<char>| r.local().id == node_name@ + "@"@ + host,
            r.remote_map() == Map::<Seq<char>, NodeInfoView>::empty(),
            r.device_map() == Map::<Seq<char>, DeviceInfoView>::empty(),
            r.label_table() == Map::<Seq<char>, Map<u16, Seq<char>>>::empty(),
            r.route_map() == Map::<Seq<char>, RouteView>::empty(),
    {
        let host = match system_hostname() {
            Some(h) => h,
            None => String::from_str("unknown"),
        };
        let r = Self::with_hostname(node_name, host.as_str(), api_port, vban_port);
        assert(r.local().id == node_name@ + "@"@ + host@);
        r
    }

    /// A copy of the local node.
    pub fn local_node(&self) -> (r: NodeInfo)
        ensures
            r@ == self.local(),
    {
        self.local_node.clone()
    }

    /// Sets the local node's addresses.
    pub fn set_addresses(&mut self, addresses: Vec<String>)
        requires
            old(self).wf(),
        ensures
            final(self).wf(),
            final(self).local() == (NodeInfoView {
                addresses: addresses@.map_values(|s: String| s@),
                ..old(self).local()
            }),
            final(self).remote_map() == old(self).remote_map(),
            final(self).device_map() == old(self).device_map(),
            final(self).label_table() == old(self).label_table(),
            final(self).route_map() == old(self).route_map(),
    {
        self.local_node.addresses = addresses;
    }

    /// Position of a remote node by identifier.
    fn find_remote(&self, id: &str) -> (r: Option<usize>)
        requires
            self.wf(),
        ensures
            r matches Some(i) ==> i < self.remote_nodes@.len() && self.remote_nodes@[i as int]@.id
                == id@,
            r is None ==> !self.remote_map().contains_key(id@),
    {
        let mut i: usize = 0;
        while i < self.remote_nodes.len()
            invariant
                i <= self.remote_nodes@.len(),
                forall|j: int| 0 <= j < i ==> #[trigger] self.remote_nodes@[j]@.id != id@,
            decreases self.remote_nodes.len() - i,
        {
            if str_equal(self.remote_nodes[i].id.as_str(), id) {
                return Some(i);
            }
            i = i + 1;
        }
        proof {
            if has_key(node_views(self.remote_nodes@), node_key(), id@) {
                let j = choose|j: int|
                    0 <= j < node_views(self.remote_nodes@).len() && #[trigger] node_key()(
                        node_views(self.remote_nodes@)[j],
                    ) == id@;
                assert(self.remote_nodes@[j]@.id == id@);
            }
        }
        None
    }

    /// All known nodes: the local node first, then the remote nodes.
    pub fn all_nodes(&self) -> (r: Vec<NodeInfo>)
        requires
            self.wf(),
        ensures
            r@.len() >= 1,
            r@[0]@ == self.local(),
            keys_distinct(node_views(r@).skip(1), node_key()),
            keyed_map(node_views(r@).skip(1), node_key()) == self.remote_map(),
    {
        let mut out: Vec<NodeInfo> = Vec::new();
        out.push(self.local_node.clone());
        let mut i: usize = 0;
        while i < self.remote_nodes.len()
            invariant
                i <= self.remote_nodes@.len(),
                out@.len() == i + 1,
                out@[0]@ == self.local(),
                forall|j: int| 0 <= j < i ==> #[trigger] out@[j + 1]@ == self.remote_nodes@[j]@,
            decreases self.remote_nodes.len() - i,
        {
            out.push(self.remote_nodes[i].clone());
            i = i + 1;
        }
        assert(node_views(out@).skip(1) =~= node_views(self.remote_nodes@));
        out
    }

    /// A node by identifier: the local node, or a remote one.
    pub fn get_node(&self, id: &str) -> (r: Option<NodeInfo>)
        requires
            self.wf(),
        ensures
            self.local().id == id@ ==> (r matches Some(n) && n@ == self.local()),
            self.local().id != id@ && self.remote_map().contains_key(id@) ==> (r matches Some(n)
                && n@ == self.remote_map()[id@]),
            self.local().id != id@ && !self.remote_map().contains_key(id@) ==> r is None,
    {
        if str_equal(self.local_node.id.as_str(), id) {
            return Some(self.local_node.clone());
        }
        match self.find_remote(id) {
            Some(i) => {
                proof {
                    lemma_keyed_at(node_views(self.remote_nodes@), node_key(), i as int);
                }
                Some(self.remote_nodes[i].clone())
            },
            None => None,
        }
    }

    /// A remote node by reference: the node with that identifier, or else
    /// one that answers to it by name, by identifier prefix or, for
    /// `name@address`, by the name before the `@`.
    pub fn get_remote_node(&self, node_ref: &str) -> (r: Option<NodeInfo>)
        requires
            self.wf(),
        ensures
            resolves(self.remote_map(), node_ref@, node_opt_view(r)),
    {
        if let Some(i) = self.find_remote(node_ref) {
            proof {
                lemma_keyed_at(node_views(self.remote_nodes@), node_key(), i as int);
            }
            return Some(self.remote_nodes[i].clone());
        }
        assert(!self.remote_map().contains_key(node_ref@));
        let has_at = crate::text::contains_char(node_ref, '@');
        let prefix = name_before_at(node_ref);
        let mut i: usize = 0;
        while i < self.remote_nodes.len()
            invariant
                self.wf(),
                !self.remote_map().contains_key(node_ref@),
                i <= self.remote_nodes@.len(),
                has_at == node_ref@.contains('@'),
                has_at ==> prefix@ == before_at(node_ref@),
                forall|j: int|
                    0 <= j < i ==> !node_answers_to(#[trigger] self.remote_nodes@[j]@, node_ref@),
            decreases self.remote_nodes.len() - i,
        {
            let n = &self.remote_nodes[i];
            let by_name = str_equal(n.name.as_str(), node_ref);
            let by_prefix = starts_with(n.id.as_str(), node_ref);
            let by_at = has_at && str_equal(n.name.as_str(), prefix);
            if by_name || by_prefix || by_at {
                proof {
                    lemma_keyed_at(node_views(self.remote_nodes@), node_key(), i as int);
                }
                return Some(n.clone());
            }
            i = i + 1;
        }
        proof {
            assert forall|k: Seq<char>| self.remote_map().contains_key(k) implies !node_answers_to(
                #[trigger] self.remote_map()[k],
                node_ref@,
            ) by {
                let vs = node_views(self.remote_nodes@);
                let j = choose|j: int| 0 <= j < vs.len() && #[trigger] node_key()(vs[j]) == k;
                lemma_keyed_at(vs, node_key(), j);
            }
        }
        None
    }

    /// Adds a remote node, or replaces the one with the same identifier.
    pub fn upsert_remote_node(&mut self, node: NodeInfo)
        requires
            old(self).wf(),
        ensures
            final(self).wf(),
            final(self).remote_map() == old(self).remote_map().insert(node@.id, node@),
            final(self).local() == old(self).local(),
            final(self).device_map() == old(self).device_map(),
            final(self).label_table() == old(self).label_table(),
            final(self).route_map() == old(self).route_map(),
    {
        let ghost nv = node@;
        match self.find_remote(node.id.as_str()) {
            Some(i) => {
                proof {
                    lemma_keyed_update(node_views(self.remote_nodes@), node_key(), i as int, nv);
                }
                self.remote_nodes.set(i, node);
                assert(node_views(self.remote_nodes@) =~= node_views(old(self).remote_nodes@).update(
                    i as int,
                    nv,
                ));
            },
            None => {
                proof {
                    lemma_keyed_push(node_views(self.remote_nodes@), node_key(), nv);
                }
                self.remote_nodes.push(node);
                assert(node_views(self.remote_nodes@) =~= node_views(old(self).remote_nodes@).push(
                    nv,
                ));
            },
        }
    }

    /// Removes a remote node by identifier, giving it back.
    pub fn remove_remote_node(&mut self, id: &str) -> (r: Option<NodeInfo>)
        requires
            old(self).wf(),
        ensures
            final(self).wf(),
            old(self).remote_map().contains_key(id@) ==> (r matches Some(n) && n@ == old(self).remote_map()[id@]),
            !old(self).remote_map().contains_key(id@) ==> r is None,
            final(self).remote_map() == old(self).remote_map().remove(id@),
            final(self).local() == old(self).local(),
            final(self).device_map() == old(self).device_map(),
            final(self).label_table() == old(self).label_table(),
            final(self).route_map() == old(self).route_map(),
    {
        match self.find_remote(id) {
            Some(i) => {
                proof {
                    lemma_keyed_at(node_views(self.remote_nodes@), node_key(), i as int);
                    lemma_keyed_remove(node_views(self.remote_nodes@), node_key(), i as int);
                }
                let n = self.remote_nodes.remove(i);
                assert(node_views(self.remote_nodes@) =~= node_views(old(self).remote_nodes@).remove(
                    i as int,
                ));
                Some(n)
            },
            None => {
                assert(old(self).remote_map().remove(id@) =~= old(self).remote_map());
                None
            },
        }
    }
}


/// Why attaching a device is refused, if it is.
pub open spec fn attach_refusal(m: Map<Seq<char>, DeviceInfoView>, id: Seq<char>) -> Option<Seq<char>> {
    if !m.contains_key(id) {
        Some("Device not found: "@ + id)
    } else if m[id].status == DeviceStatus::Attached || m[id].status == DeviceStatus::Active {
        Some("Device already attached: "@ + id)
    } else if m[id].status == DeviceStatus::Error {
        Some("Device in error state: "@ + id)
    } else {
        None
    }
}

/// A device once attached, under a new display name where one is given.
pub open spec fn attached_device(d: DeviceInfoView, display_name: Option<Seq<char>>) -> DeviceInfoView {
    DeviceInfoView {
        status: DeviceStatus::Attached,
        display_name: if display_name is Some {
            display_name
        } else {
            d.display_name
        },
        ..d
    }
}

/// Why detaching a device is refused, if it is.
pub open spec fn detach_refusal(m: Map<Seq<char>, DeviceInfoView>, id: Seq<char>) -> Option<Seq<char>> {
    if !m.contains_key(id) {
        Some("Device not found: "@ + id)
    } else if m[id].status == DeviceStatus::Available || m[id].status == DeviceStatus::Detached {
        Some("Device not attached: "@ + id)
    } else if m[id].status == DeviceStatus::Error {
        Some("Device in error state: "@ + id)
    } else {
        None
    }
}

/// A device with its display name changed as an update asks: kept where
/// none is given, cleared by an empty one, else replaced.
pub open spec fn renamed_device(d: DeviceInfoView, display_name: Option<Seq<char>>) -> DeviceInfoView {
    match display_name {
        None => d,
        Some(n) => DeviceInfoView {
            display_name: if n.len() == 0 {
                None
            } else {
                Some(n)
            },
            ..d
        },
    }
}

/// Why changing or deleting a virtual device is refused, if it is.
pub open spec fn virtual_refusal(m: Map<Seq<char>, DeviceInfoView>, id: Seq<char>) -> Option<
    Seq<char>,
> {
    if !m.contains_key(id) {
        Some("Device not found: "@ + id)
    } else if !m[id].is_virtual {
        Some("Device is not a virtual device: "@ + id)
    } else {
        None
    }
}

/// A new virtual device: named as given, with the type its channels imply,
/// available and on the `Virtual` backend.
pub open spec fn new_virtual_device(
    id: Seq<char>,
    name: Seq<char>,
    input_channels: u16,
    output_channels: u16,
    sample_rate: u32,
    buffer_size: u32,
) -> DeviceInfoView {
    DeviceInfoView {
        id,
        name,
        display_name: Some(name),
        device_type: type_for_channels(input_channels, output_channels),
        input_channels,
        output_channels,
        sample_rate,
        buffer_size,
        is_virtual: true,
        status: DeviceStatus::Available,
        backend: Some("Virtual"@),
    }
}

/// A virtual device with the given settings changed; its type follows its
/// channels.
pub open spec fn changed_virtual_device(
    d: DeviceInfoView,
    name: Option<Seq<char>>,
    input_channels: Option<u16>,
    output_channels: Option<u16>,
    sample_rate: Option<u32>,
    buffer_size: Option<u32>,
) -> DeviceInfoView {
    let ic = match input_channels {
        Some(c) => c,
        None => d.input_channels,
    };
    let oc = match output_channels {
        Some(c) => c,
        None => d.output_channels,
    };
    DeviceInfoView {
        name: match name {
            Some(n) => n,
            None => d.name,
        },
        display_name: match name {
            Some(n) => Some(n),
            None => d.display_name,
        },
        input_channels: ic,
        output_channels: oc,
        sample_rate: match sample_rate {
            Some(r) => r,
            None => d.sample_rate,
        },
        buffer_size: match buffer_size {
            Some(b) => b,
            None => d.buffer_size,
        },
        device_type: type_for_channels(ic, oc),
        ..d
    }
}

/// Updating a virtual device sets exactly the settings given: a new name is
/// both its name and what is displayed, channel counts, rate and buffer size
/// are replaced where given, its type follows its channels, and everything
/// else stays.
pub proof fn law_virtual_device_update_sets_what_is_given(
    d: DeviceInfoView,
    name: Option<Seq<char>>,
    input_channels: Option<u16>,
    output_channels: Option<u16>,
    sample_rate: Option<u32>,
    buffer_size: Option<u32>,
)
    ensures
        ({
            let u = changed_virtual_device(d, name, input_channels, output_channels, sample_rate, buffer_size);
            &&& name matches Some(n) ==> u.name == n && u.display_name == Some(n)
            &&& name is None ==> u.name == d.name && u.display_name == d.display_name
            &&& input_channels matches Some(c) ==> u.input_channels == c
            &&& input_channels is None ==> u.input_channels == d.input_channels
            &&& output_channels matches Some(c) ==> u.output_channels == c
            &&& output_channels is None ==> u.output_channels == d.output_channels
            &&& sample_rate matches Some(r) ==> u.sample_rate == r
            &&& sample_rate is None ==> u.sample_rate == d.sample_rate
            &&& buffer_size matches Some(b) ==> u.buffer_size == b
            &&& buffer_size is None ==> u.buffer_size == d.buffer_size
            &&& u.device_type == type_for_channels(u.input_channels, u.output_channels)
            &&& u.id == d.id && u.is_virtual == d.is_virtual && u.status == d.status && u.backend == d.backend
        }),
{
}

/// Renaming a new virtual device gives the device that creating it under
/// the new name would have given: it is displayed under the new name.
pub proof fn law_rename_new_virtual_device(
    id: Seq<char>,
    old_name: Seq<char>,
    new_name: Seq<char>,
    input_channels: u16,
    output_channels: u16,
    sample_rate: u32,
    buffer_size: u32,
)
    ensures
        changed_virtual_device(
            new_virtual_device(id, old_name, input_channels, output_channels, sample_rate, buffer_size),
            Some(new_name),
            None,
            None,
            None,
            None,
        ) == new_virtual_device(id, new_name, input_channels, output_channels, sample_rate, buffer_size),
{
}

/// The message of a refused label.
pub open spec fn label_too_long() -> Seq<char> {
    "Label too long (max 31 characters)"@
}

/// Whether a label fits: at most 31 characters.
pub open spec fn label_fits(label: Seq<char>) -> bool {
    label.len() <= MAX_LABEL_LENGTH
}

/// A label map after setting one label: an empty label removes it.
pub open spec fn with_label(m: Map<u16, Seq<char>>, channel: u16, label: Seq<char>) -> Map<
    u16,
    Seq<char>,
> {
    if label.len() == 0 {
        m.remove(channel)
    } else {
        m.insert(channel, label)
    }
}

/// A label map after setting labels in turn.
pub open spec fn with_labels(m: Map<u16, Seq<char>>, s: Seq<(u16, Seq<char>)>) -> Map<
    u16,
    Seq<char>,
>
    decreases s.len(),
{
    if s.len() == 0 {
        m
    } else {
        with_label(with_labels(m, s.drop_last()), s.last().0, s.last().1)
    }
}

/// Whether a list describes channels `1..=count` with their labels in `m`.
pub open spec fn lists_channels(r: Seq<ChannelInfo>, count: u16, m: Map<u16, Seq<char>>) -> bool {
    &&& r.len() == count
    &&& forall|j: int|
        0 <= j < r.len() ==> (#[trigger] r[j]).number == j + 1 && opt_view(r[j].label)
            == label_at(m, (j + 1) as u16)
}

/// Which devices a listing shows.
enum DeviceFilter {
    Every,
    OfType(DeviceType),
    Virtual,
}

spec fn filter_selects(f: DeviceFilter, d: DeviceInfoView) -> bool {
    match f {
        DeviceFilter::Every => true,
        DeviceFilter::OfType(t) => d.device_type == t,
        DeviceFilter::Virtual => d.is_virtual,
    }
}

/// Whether a list holds, once each, exactly the devices of `m` that
/// `wanted` selects.
pub open spec fn lists_devices(
    r: Seq<DeviceInfo>,
    m: Map<Seq<char>, DeviceInfoView>,
    wanted: spec_fn(DeviceInfoView) -> bool,
) -> bool {
    &&& keys_distinct(device_views(r), device_key())
    &&& forall|j: int|
        0 <= j < r.len() ==> m.contains_key((#[trigger] r[j])@.id) && m[r[j]@.id] == r[j]@
            && wanted(r[j]@)
    &&& forall|k: Seq<char>|
        m.contains_key(k) && wanted(#[trigger] m[k]) ==> exists|j: int|
            0 <= j < r.len() && (#[trigger] r[j])@.id == k
}

impl AppState {
    /// Position of a device by identifier.
    fn find_device(&self, id: &str) -> (r: Option<usize>)
        requires
            self.wf(),
        ensures
            r matches Some(i) ==> i < self.devices@.len() && self.devices@[i as int]@.id == id@
                && self.device_map().contains_key(id@) && self.device_map()[id@]
                == self.devices@[i as int]@,
            r is None ==> !self.device_map().contains_key(id@),
    {
        let mut i: usize = 0;
        while i < self.devices.len()
            invariant
                self.wf(),
                i <= self.devices@.len(),
                forall|j: int| 0 <= j < i ==> #[trigger] self.devices@[j]@.id != id@,
            decreases self.devices.len() - i,
        {
            if str_equal(self.devices[i].id.as_str(), id) {
                proof {
                    lemma_keyed_at(device_views(self.devices@), device_key(), i as int);
                }
                return Some(i);
            }
            i = i + 1;
        }
        proof {
            if has_key(device_views(self.devices@), device_key(), id@) {
                let j = choose|j: int|
                    0 <= j < device_views(self.devices@).len() && #[trigger] device_key()(
                        device_views(self.devices@)[j],
                    ) == id@;
                assert(self.devices@[j]@.id == id@);
            }
        }
        None
    }

    /// The devices that a filter selects, in registration order.
    fn filtered_devices(&self, f: DeviceFilter) -> (r: Vec<DeviceInfo>)
        requires
            self.wf(),
        ensures
            lists_devices(r@, self.device_map(), |d: DeviceInfoView| filter_selects(f, d)),
    {
        let ghost vs = device_views(self.devices@);
        let mut out: Vec<DeviceInfo> = Vec::new();
        let ghost mut src: Seq<int> = Seq::empty();
        let mut i: usize = 0;
        while i < self.devices.len()
            invariant
                self.wf(),
                vs == device_views(self.devices@),
                i <= self.devices@.len(),
                src.len() == out@.len(),
                forall|j: int|
                    0 <= j < out@.len() ==> 0 <= #[trigger] src[j] < i && out@[j]@ == self.devices@[src[j]]@
                        && filter_selects(f, out@[j]@),
                forall|a: int, b: int| 0 <= a < b < src.len() ==> src[a] < src[b],
                forall|k: int|
                    0 <= k < i && filter_selects(f, #[trigger] self.devices@[k]@) ==> exists|j: int|
                        0 <= j < src.len() && src[j] == k,
            decreases self.devices.len() - i,
        {
            let d = &self.devices[i];
            let take = match f {
                DeviceFilter::Every => true,
                DeviceFilter::OfType(t) => d.device_type == t,
                DeviceFilter::Virtual => d.is_virtual,
            };
            if take {
                let c = d.clone();
                let ghost old_out = out@;
                out.push(c);
                let ghost old_src = src;
                proof {
                    src = src.push(i as int);
                    assert(out@[out@.len() - 1]@ == self.devices@[i as int]@);
                    assert(filter_selects(f, self.devices@[i as int]@));
                    assert forall|j: int| 0 <= j < out@.len() implies 0 <= #[trigger] src[j] < i + 1
                        && out@[j]@ == self.devices@[src[j]]@ && filter_selects(f, out@[j]@) by {
                        if j < old_out.len() {
                            assert(out@[j] == old_out[j]);
                            assert(src[j] == old_src[j]);
                            assert(0 <= old_src[j] < i);
                        }
                    }
                    assert forall|k: int|
                        0 <= k < i + 1 && filter_selects(f, #[trigger] self.devices@[k]@) implies exists|j: int|
                        0 <= j < src.len() && src[j] == k by {
                        if k == i {
                            assert(src[src.len() - 1] == k);
                        } else {
                            assert(filter_selects(f, self.devices@[k]@));
                            let j = choose|j: int| 0 <= j < old_src.len() && old_src[j] == k;
                            assert(src[j] == old_src[j]);
                        }
                    }
                }
            }
            i = i + 1;
        }
        proof {
            let m = self.device_map();
            assert forall|j: int| 0 <= j < out@.len() implies m.contains_key((#[trigger] out@[j])@.id)
                && m[out@[j]@.id] == out@[j]@ && filter_selects(f, out@[j]@) by {
                lemma_keyed_at(vs, device_key(), src[j]);
            }
            assert forall|k: Seq<char>| m.contains_key(k) && filter_selects(f, #[trigger] m[k]) implies exists|j: int|
                0 <= j < out@.len() && (#[trigger] out@[j])@.id == k by {
                let a = choose|a: int| 0 <= a < vs.len() && #[trigger] device_key()(vs[a]) == k;
                lemma_keyed_at(vs, device_key(), a);
                let j = choose|j: int| 0 <= j < src.len() && src[j] == a;
                assert(out@[j]@.id == k);
            }
            let ov = device_views(out@);
            assert forall|a: int, b: int|
                0 <= a < ov.len() && 0 <= b < ov.len() && #[trigger] device_key()(ov[a])
                    == #[trigger] device_key()(ov[b]) implies a == b by {
                assert(device_key()(vs[src[a]]) == device_key()(vs[src[b]]));
                if a < b {
                    assert(src[a] < src[b]);
                } else if b < a {
                    assert(src[b] < src[a]);
                }
            }
        }
        out
    }

    /// All local devices.
    pub fn all_devices(&self) -> (r: Vec<DeviceInfo>)
        requires
            self.wf(),
        ensures
            lists_devices(r@, self.device_map(), |d: DeviceInfoView| true),
    {
        let r = self.filtered_devices(DeviceFilter::Every);
        assert(lists_devices(r@, self.device_map(), |d: DeviceInfoView| true)) by {
            assert(forall|d: DeviceInfoView|
                filter_selects(DeviceFilter::Every, d) == (|d: DeviceInfoView| true)(d));
        }
        r
    }

    /// The local devices of a type.
    pub fn devices_by_type(&self, device_type: DeviceType) -> (r: Vec<DeviceInfo>)
        requires
            self.wf(),
        ensures
            lists_devices(r@, self.device_map(), |d: DeviceInfoView| d.device_type == device_type),
    {
        let r = self.filtered_devices(DeviceFilter::OfType(device_type));
        assert(lists_devices(r@, self.device_map(), |d: DeviceInfoView| d.device_type == device_type)) by {
            assert(forall|d: DeviceInfoView|
                filter_selects(DeviceFilter::OfType(device_type), d) == (|d: DeviceInfoView| d.device_type == device_type)(d));
        }
        r
    }

    /// The virtual devices.
    pub fn list_virtual_devices(&self) -> (r: Vec<DeviceInfo>)
        requires
            self.wf(),
        ensures
            lists_devices(r@, self.device_map(), |d: DeviceInfoView| d.is_virtual),
    {
        let r = self.filtered_devices(DeviceFilter::Virtual);
        assert(lists_devices(r@, self.device_map(), |d: DeviceInfoView| d.is_virtual)) by {
            assert(forall|d: DeviceInfoView|
                filter_selects(DeviceFilter::Virtual, d) == (|d: DeviceInfoView| d.is_virtual)(d));
        }
        r
    }

    /// A device by identifier.
    pub fn get_device(&self, id: &str) -> (r: Option<DeviceInfo>)
        requires
            self.wf(),
        ensures
            self.device_map().contains_key(id@) ==> (r matches Some(d) && d@ == self.device_map()[id@]),
            !self.device_map().contains_key(id@) ==> r is None,
    {
        match self.find_device(id) {
            Some(i) => Some(self.devices[i].clone()),
            None => None,
        }
    }

    /// Replaces the device at a position by one with the same identifier.
    fn replace_device(&mut self, i: usize, d: DeviceInfo)
        requires
            old(self).wf(),
            i < old(self).devices@.len(),
            d@.id == old(self).devices@[i as int]@.id,
        ensures
            final(self).wf(),
            final(self).device_map() == old(self).device_map().insert(d@.id, d@),
            final(self).local() == old(self).local(),
            final(self).remote_map() == old(self).remote_map(),
            final(self).label_table() == old(self).label_table(),
            final(self).route_map() == old(self).route_map(),
    {
        let ghost dv = d@;
        proof {
            lemma_keyed_update(device_views(self.devices@), device_key(), i as int, dv);
        }
        self.devices.set(i, d);
        assert(device_views(self.devices@) =~= device_views(old(self).devices@).update(i as int, dv));
    }

    /// Adds a device, or replaces the one with the same identifier.
    pub fn register_device(&mut self, device: DeviceInfo)
        requires
            old(self).wf(),
        ensures
            final(self).wf(),
            final(self).device_map() == old(self).device_map().insert(device@.id, device@),
            final(self).local() == old(self).local(),
            final(self).remote_map() == old(self).remote_map(),
            final(self).label_table() == old(self).label_table(),
            final(self).route_map() == old(self).route_map(),
    {
        let ghost dv = device@;
        match self.find_device(device.id.as_str()) {
            Some(i) => {
                self.replace_device(i, device);
            },
            None => {
                proof {
                    lemma_keyed_push(device_views(self.devices@), device_key(), dv);
                }
                self.devices.push(device);
                assert(device_views(self.devices@) =~= device_views(old(self).devices@).push(dv));
            },
        }
    }

    /// Removes a device by identifier, giving it back.
    pub fn unregister_device(&mut self, id: &str) -> (r: Option<DeviceInfo>)
        requires
            old(self).wf(),
        ensures
            final(self).wf(),
            old(self).device_map().contains_key(id@) ==> (r matches Some(d) && d@ == old(self).device_map()[id@]),
            !old(self).device_map().contains_key(id@) ==> r is None,
            final(self).device_map() == old(self).device_map().remove(id@),
            final(self).local() == old(self).local(),
            final(self).remote_map() == old(self).remote_map(),
            final(self).label_table() == old(self).label_table(),
            final(self).route_map() == old(self).route_map(),
    {
        match self.find_device(id) {
            Some(i) => {
                proof {
                    lemma_keyed_remove(device_views(self.devices@), device_key(), i as int);
                }
                let d = self.devices.remove(i);
                assert(device_views(self.devices@) =~= device_views(old(self).devices@).remove(
                    i as int,
                ));
                Some(d)
            },
            None => {
                assert(old(self).device_map().remove(id@) =~= old(self).device_map());
                None
            },
        }
    }

    /// Attaches a device for routing, under a new display name where one is
    /// given. Refused for an unknown device, one already attached or active,
    /// and one in error; then nothing changes.
    pub fn attach_device(&mut self, id: &str, display_name: Option<String>) -> (r: Result<
        DeviceInfo,
        String,
    >)
        requires
            old(self).wf(),
        ensures
            final(self).wf(),
            attach_refusal(old(self).device_map(), id@) matches Some(m) ==> (r matches Err(e) && e@
                == m) && final(self).device_map() == old(self).device_map(),
            attach_refusal(old(self).device_map(), id@) is None ==> (r matches Ok(d) && d@
                == attached_device(old(self).device_map()[id@], opt_view(display_name))
                && final(self).device_map() == old(self).device_map().insert(id@, d@)),
            final(self).local() == old(self).local(),
            final(self).remote_map() == old(self).remote_map(),
            final(self).label_table() == old(self).label_table(),
            final(self).route_map() == old(self).route_map(),
    {
        let i = match self.find_device(id) {
            Some(i) => i,
            None => {
                return Err(message("Device not found: ", id));
            },
        };
        match self.devices[i].status {
            DeviceStatus::Attached | DeviceStatus::Active => {
                return Err(message("Device already attached: ", id));
            },
            DeviceStatus::Error => {
                return Err(message("Device in error state: ", id));
            },
            _ => {},
        }
        let mut d = self.devices[i].clone();
        d.status = DeviceStatus::Attached;
        if display_name.is_some() {
            d.display_name = display_name;
        }
        let out = d.clone();
        self.replace_device(i, d);
        Ok(out)
    }

    /// Detaches a device from routing. Refused for an unknown device, one
    /// not attached, and one in error; then nothing changes.
    pub fn detach_device(&mut self, id: &str) -> (r: Result<DeviceInfo, String>)
        requires
            old(self).wf(),
        ensures
            final(self).wf(),
            detach_refusal(old(self).device_map(), id@) matches Some(m) ==> (r matches Err(e) && e@
                == m) && final(self).device_map() == old(self).device_map(),
            detach_refusal(old(self).device_map(), id@) is None ==> (r matches Ok(d) && d@
                == (DeviceInfoView { status: DeviceStatus::Detached, ..old(self).device_map()[id@] })
                && final(self).device_map() == old(self).device_map().insert(id@, d@)),
            final(self).local() == old(self).local(),
            final(self).remote_map() == old(self).remote_map(),
            final(self).label_table() == old(self).label_table(),
            final(self).route_map() == old(self).route_map(),
    {
        let i = match self.find_device(id) {
            Some(i) => i,
            None => {
                return Err(message("Device not found: ", id));
            },
        };
        match self.devices[i].status {
            DeviceStatus::Available | DeviceStatus::Detached => {
                return Err(message("Device not attached: ", id));
            },
            DeviceStatus::Error => {
                return Err(message("Device in error state: ", id));
            },
            _ => {},
        }
        let mut d = self.devices[i].clone();
        d.status = DeviceStatus::Detached;
        let out = d.clone();
        self.replace_device(i, d);
        Ok(out)
    }

    /// Changes a device's display name: kept where none is given, cleared
    /// by an empty one. Refused for an unknown device.
    pub fn update_device(&mut self, id: &str, display_name: Option<String>) -> (r: Result<
        DeviceInfo,
        String,
    >)
        requires
            old(self).wf(),
        ensures
            final(self).wf(),
            !old(self).device_map().contains_key(id@) ==> (r matches Err(e) && e@ == "Device not found: "@
                + id@) && final(self).device_map() == old(self).device_map(),
            old(self).device_map().contains_key(id@) ==> (r matches Ok(d) && d@ == renamed_device(
                old(self).device_map()[id@],
                opt_view(display_name),
            ) && final(self).device_map() == old(self).device_map().insert(id@, d@)),
            final(self).local() == old(self).local(),
            final(self).remote_map() == old(self).remote_map(),
            final(self).label_table() == old(self).label_table(),
            final(self).route_map() == old(self).route_map(),
    {
        let i = match self.find_device(id) {
            Some(i) => i,
            None => {
                return Err(message("Device not found: ", id));
            },
        };
        let mut d = self.devices[i].clone();
        if let Some(name) = display_name {
            if name.as_str().unicode_len() == 0 {
                d.display_name = None;
            } else {
                d.display_name = Some(name);
            }
        }
        let out = d.clone();
        self.replace_device(i, d);
        Ok(out)
    }

    /// Creates a virtual device under the given identifier (replacing any
    /// device that has it).
    pub fn create_virtual_device_with_id(
        &mut self,
        id: String,
        name: String,
        input_channels: u16,
        output_channels: u16,
        sample_rate: u32,
        buffer_size: u32,
    ) -> (r: DeviceInfo)
        requires
            old(self).wf(),
        ensures
            final(self).wf(),
            r@ == new_virtual_device(id@, name@, input_channels, output_channels, sample_rate, buffer_size),
            final(self).device_map() == old(self).device_map().insert(id@, r@),
            final(self).local() == old(self).local(),
            final(self).remote_map() == old(self).remote_map(),
            final(self).label_table() == old(self).label_table(),
            final(self).route_map() == old(self).route_map(),
    {
        let device_type = device_type_for(input_channels, output_channels);
        let display = name.clone();
        let device = DeviceInfo {
            id,
            name,
            display_name: Some(display),
            device_type,
            input_channels,
            output_channels,
            sample_rate,
            buffer_size,
            is_virtual: true,
            status: DeviceStatus::Available,
            backend: Some(String::from_str("Virtual")),
        };
        let out = device.clone();
        self.register_device(device);
        out
    }

    /// Creates a virtual device under a fresh identifier: `virtual_`
    /// followed by the 32 hexadecimal digits of a random UUID.
    pub fn create_virtual_device(
        &mut self,
        name: String,
        input_channels: u16,
        output_channels: u16,
        sample_rate: u32,
        buffer_size: u32,
    ) -> (r: Result<DeviceInfo, String>)
        requires
            old(self).wf(),
        ensures
            final(self).wf(),
            r matches Ok(d) && d@ == new_virtual_device(d@.id, name@, input_channels, output_channels, sample_rate, buffer_size)
                && virtual_id_form(d@.id) && final(self).device_map() == old(self).device_map().insert(d@.id, d@),
            final(self).local() == old(self).local(),
            final(self).remote_map() == old(self).remote_map(),
            final(self).label_table() == old(self).label_table(),
            final(self).route_map() == old(self).route_map(),
    {
        let hex = random_uuid_simple();
        let mut id = String::new();
        push_str(&mut id, "virtual_");
        push_str(&mut id, hex.as_str());
        proof {
            reveal_strlit("virtual_");
            assert(id@.subrange(0, 8) =~= "virtual_"@);
            assert forall|i: int| 8 <= i < 40 implies is_lower_hex(#[trigger] id@[i]) by {
                assert(id@[i] == hex@[i - 8]);
            }
        }
        let d = self.create_virtual_device_with_id(id, name, input_channels, output_channels, sample_rate, buffer_size);
        Ok(d)
    }

    /// Changes a virtual device's settings (those given); its type follows
    /// its channels. Refused for an unknown device and a device that is not
    /// virtual.
    pub fn update_virtual_device(
        &mut self,
        id: &str,
        name: Option<String>,
        input_channels: Option<u16>,
        output_channels: Option<u16>,
        sample_rate: Option<u32>,
        buffer_size: Option<u32>,
    ) -> (r: Result<DeviceInfo, String>)
        requires
            old(self).wf(),
        ensures
            final(self).wf(),
            virtual_refusal(old(self).device_map(), id@) matches Some(m) ==> (r matches Err(e) && e@
                == m) && final(self).device_map() == old(self).device_map(),
            virtual_refusal(old(self).device_map(), id@) is None ==> (r matches Ok(d) && d@
                == changed_virtual_device(
                old(self).device_map()[id@],
                opt_view(name),
                input_channels,
                output_channels,
                sample_rate,
                buffer_size,
            ) && final(self).device_map() == old(self).device_map().insert(id@, d@)),
            final(self).local() == old(self).local(),
            final(self).remote_map() == old(self).remote_map(),
            final(self).label_table() == old(self).label_table(),
            final(self).route_map() == old(self).route_map(),
    {
        let i = match self.find_device(id) {
            Some(i) => i,
            None => {
                return Err(message("Device not found: ", id));
            },
        };
        if !self.devices[i].is_virtual {
            return Err(message("Device is not a virtual device: ", id));
        }
        let mut d = self.devices[i].clone();
        if let Some(n) = name {
            d.name = n.clone();
            d.display_name = Some(n);
        }
        if let Some(ic) = input_channels {
            d.input_channels = ic;
        }
        if let Some(oc) = output_channels {
            d.output_channels = oc;
        }
        if let Some(sr) = sample_rate {
            d.sample_rate = sr;
        }
        if let Some(bs) = buffer_size {
            d.buffer_size = bs;
        }
        d.device_type = device_type_for(d.input_channels, d.output_channels);
        let out = d.clone();
        self.replace_device(i, d);
        Ok(out)
    }

    /// Deletes a virtual device, giving it back. Refused for an unknown
    /// device and a device that is not virtual.
    pub fn delete_virtual_device(&mut self, id: &str) -> (r: Result<DeviceInfo, String>)
        requires
            old(self).wf(),
        ensures
            final(self).wf(),
            virtual_refusal(old(self).device_map(), id@) matches Some(m) ==> (r matches Err(e) && e@
                == m) && final(self).device_map() == old(self).device_map(),
            virtual_refusal(old(self).device_map(), id@) is None ==> (r matches Ok(d) && d@
                == old(self).device_map()[id@] && final(self).device_map() == old(self).device_map().remove(id@)),
            final(self).local() == old(self).local(),
            final(self).remote_map() == old(self).remote_map(),
            final(self).label_table() == old(self).label_table(),
            final(self).route_map() == old(self).route_map(),
    {
        let i = match self.find_device(id) {
            Some(i) => i,
            None => {
                return Err(message("Device not found: ", id));
            },
        };
        if !self.devices[i].is_virtual {
            return Err(message("Device is not a virtual device: ", id));
        }
        match self.unregister_device(id) {
            Some(d) => Ok(d),
            None => Err(message("Device not found: ", id)),
        }
    }
}


/// The channel numbers and texts of a list of labels.
pub open spec fn label_pairs(v: Seq<(u16, String)>) -> Seq<(u16, Seq<char>)> {
    v.map_values(|p: (u16, String)| (p.0, p.1@))
}

impl AppState {
    /// Position of a device's label set.
    fn find_labels(&self, id: &str) -> (r: Option<usize>)
        requires
            self.wf(),
        ensures
            r matches Some(i) ==> i < self.channel_labels@.len() && self.channel_labels@[i as int].device_id@
                == id@ && self.label_table().contains_key(id@) && self.label_table()[id@]
                == self.channel_labels@[i as int].label_map(),
            r is None ==> !self.label_table().contains_key(id@),
    {
        let mut i: usize = 0;
        while i < self.channel_labels.len()
            invariant
                self.wf(),
                i <= self.channel_labels@.len(),
                forall|j: int| 0 <= j < i ==> #[trigger] self.channel_labels@[j].device_id@ != id@,
            decreases self.channel_labels.len() - i,
        {
            if str_equal(self.channel_labels[i].device_id.as_str(), id) {
                proof {
                    lemma_keyed_at(label_views(self.channel_labels@), label_key(), i as int);
                }
                return Some(i);
            }
            i = i + 1;
        }
        proof {
            let vs = label_views(self.channel_labels@);
            if has_key(vs, label_key(), id@) {
                let j = choose|j: int| 0 <= j < vs.len() && #[trigger] label_key()(vs[j]) == id@;
                assert(self.channel_labels@[j].device_id@ == id@);
            }
        }
        None
    }

    /// Position of a device's label set, made empty where there is none.
    fn labels_entry(&mut self, id: &str) -> (i: usize)
        requires
            old(self).wf(),
        ensures
            final(self).wf(),
            i < final(self).channel_labels@.len(),
            final(self).channel_labels@[i as int].device_id@ == id@,
            final(self).channel_labels@[i as int].label_map() == labels_of(old(self).label_table(), id@),
            final(self).label_table() == (if old(self).label_table().contains_key(id@) {
                old(self).label_table()
            } else {
                old(self).label_table().insert(id@, Map::empty())
            }),
            forall|x: Seq<char>| labels_of(final(self).label_table(), x) == labels_of(old(self).label_table(), x),
            final(self).local() == old(self).local(),
            final(self).remote_map() == old(self).remote_map(),
            final(self).device_map() == old(self).device_map(),
            final(self).route_map() == old(self).route_map(),
    {
        match self.find_labels(id) {
            Some(i) => i,
            None => {
                let entry = ChannelLabels::new(String::from_str(id));
                let ghost ev = (entry.device_id@, entry.label_map());
                proof {
                    lemma_keyed_push(label_views(self.channel_labels@), label_key(), ev);
                }
                self.channel_labels.push(entry);
                let i = self.channel_labels.len() - 1;
                proof {
                    assert(label_views(self.channel_labels@) =~= label_views(old(self).channel_labels@).push(ev));
                    let km = keyed_map(label_views(old(self).channel_labels@), label_key());
                    assert(km.insert(id@, ev).map_values(|p: (Seq<char>, Map<u16, Seq<char>>)| p.1)
                        =~= old(self).label_table().insert(id@, Map::empty()));
                    assert forall|x: Seq<char>| labels_of(self.label_table(), x) == labels_of(old(self).label_table(), x) by {
                        if x == id@ {
                            assert(labels_of(self.label_table(), x) =~= labels_of(old(self).label_table(), x));
                        }
                    }
                }
                i
            },
        }
    }

    /// Sets one label in the label set at a position.
    fn set_label_at(&mut self, i: usize, channel: u16, label: String)
        requires
            old(self).wf(),
            i < old(self).channel_labels@.len(),
            label_fits(label@),
        ensures
            final(self).wf(),
            final(self).channel_labels@.len() == old(self).channel_labels@.len(),
            final(self).channel_labels@[i as int].device_id@ == old(self).channel_labels@[i as int].device_id@,
            final(self).channel_labels@[i as int].label_map() == with_label(
                old(self).channel_labels@[i as int].label_map(),
                channel,
                label@,
            ),
            final(self).label_table() == old(self).label_table().insert(
                old(self).channel_labels@[i as int].device_id@,
                with_label(old(self).channel_labels@[i as int].label_map(), channel, label@),
            ),
            final(self).local() == old(self).local(),
            final(self).remote_map() == old(self).remote_map(),
            final(self).device_map() == old(self).device_map(),
            final(self).route_map() == old(self).route_map(),
    {
        let ghost before = label_views(self.channel_labels@);
        let mut entry = self.channel_labels.remove(i);
        let ok = entry.set_label(channel, label);
        let ghost ev = (entry.device_id@, entry.label_map());
        self.channel_labels.insert(i, entry);
        proof {
            assert(label_views(self.channel_labels@) =~= before.update(i as int, ev));
            lemma_keyed_update(before, label_key(), i as int, ev);
            let km = keyed_map(before, label_key());
            assert(km.insert(ev.0, ev).map_values(|p: (Seq<char>, Map<u16, Seq<char>>)| p.1)
                =~= old(self).label_table().insert(ev.0, ev.1));
            assert(ev.1 =~= with_label(old(self).channel_labels@[i as int].label_map(), channel, label@));
        }
    }

    /// The channels `1..=count` of a device with their labels.
    fn channel_list(&self, device_id: &str, count: u16) -> (r: Vec<ChannelInfo>)
        requires
            self.wf(),
        ensures
            lists_channels(r@, count, labels_of(self.label_table(), device_id@)),
    {
        let entry = self.find_labels(device_id);
        let mut out: Vec<ChannelInfo> = Vec::new();
        let mut n: u16 = 0;
        while n < count
            invariant
                self.wf(),
                n <= count,
                entry matches Some(i) ==> i < self.channel_labels@.len() && labels_of(self.label_table(), device_id@)
                    == self.channel_labels@[i as int].label_map(),
                entry is None ==> labels_of(self.label_table(), device_id@) == Map::<u16, Seq<char>>::empty(),
                out@.len() == n,
                forall|j: int|
                    0 <= j < out@.len() ==> (#[trigger] out@[j]).number == j + 1 && opt_view(out@[j].label)
                        == label_at(labels_of(self.label_table(), device_id@), (j + 1) as u16),
            decreases count - n,
        {
            let ch = n + 1;
            let label = match entry {
                Some(i) => match self.channel_labels[i].get_label(ch) {
                    Some(l) => Some(l.clone()),
                    None => None,
                },
                None => None,
            };
            out.push(ChannelInfo { number: ch, label });
            n = ch;
        }
        out
    }

    /// The channels of a device with their labels: as many as the larger of
    /// its input and output counts. None for an unknown device.
    pub fn get_device_channels(&self, device_id: &str) -> (r: Option<Vec<ChannelInfo>>)
        requires
            self.wf(),
        ensures
            !self.device_map().contains_key(device_id@) ==> r is None,
            self.device_map().contains_key(device_id@) ==> (r matches Some(v) && lists_channels(
                v@,
                channel_count_of(self.device_map()[device_id@]),
                labels_of(self.label_table(), device_id@),
            )),
    {
        let i = match self.find_device(device_id) {
            Some(i) => i,
            None => {
                return None;
            },
        };
        let d = &self.devices[i];
        let count = if d.input_channels >= d.output_channels {
            d.input_channels
        } else {
            d.output_channels
        };
        Some(self.channel_list(device_id, count))
    }

    /// Sets a channel's label (an empty label removes it). Refused for an
    /// unknown device and for a label longer than 31 characters; then nothing
    /// changes.
    pub fn set_channel_label(&mut self, device_id: &str, channel: u16, label: String) -> (r: Result<
        ChannelInfo,
        String,
    >)
        requires
            old(self).wf(),
        ensures
            final(self).wf(),
            !old(self).device_map().contains_key(device_id@) ==> (r matches Err(e) && e@
                == "Device not found: "@ + device_id@) && final(self).label_table() == old(self).label_table(),
            old(self).device_map().contains_key(device_id@) && !label_fits(label@) ==> (r matches Err(e)
                && e@ == label_too_long()) && final(self).label_table() == old(self).label_table(),
            old(self).device_map().contains_key(device_id@) && label_fits(label@) ==> (r matches Ok(c)
                && c.number == channel && opt_view(c.label) == (if label@.len() == 0 {
                None::<Seq<char>>
            } else {
                Some(label@)
            })),
            old(self).device_map().contains_key(device_id@) && label_fits(label@) ==> labels_of(
                final(self).label_table(),
                device_id@,
            ) == with_label(labels_of(old(self).label_table(), device_id@), channel, label@),
            forall|x: Seq<char>|
                x != device_id@ ==> #[trigger] labels_of(final(self).label_table(), x) == labels_of(
                    old(self).label_table(),
                    x,
                ),
            final(self).local() == old(self).local(),
            final(self).remote_map() == old(self).remote_map(),
            final(self).device_map() == old(self).device_map(),
            final(self).route_map() == old(self).route_map(),
    {
        if self.find_device(device_id).is_none() {
            return Err(message("Device not found: ", device_id));
        }
        if label.as_str().unicode_len() > MAX_LABEL_LENGTH {
            return Err(String::from_str("Label too long (max 31 characters)"));
        }
        let i = self.labels_entry(device_id);
        let ghost mid = self.label_table();
        let empty = label.as_str().unicode_len() == 0;
        let reported = if empty {
            None
        } else {
            Some(label.clone())
        };
        self.set_label_at(i, channel, label);
        proof {
            assert forall|x: Seq<char>| x != device_id@ implies #[trigger] labels_of(self.label_table(), x)
                == labels_of(old(self).label_table(), x) by {
                assert(labels_of(mid, x) == labels_of(old(self).label_table(), x));
            }
        }
        Ok(ChannelInfo { number: channel, label: reported })
    }

    /// Sets several labels in turn (an empty label removes one) and lists
    /// the device's channels with their labels. Refused for an unknown
    /// device and where any label is longer than 31 characters; then nothing
    /// changes.
    pub fn set_channel_labels(&mut self, device_id: &str, labels: Vec<(u16, String)>) -> (r: Result<
        Vec<ChannelInfo>,
        String,
    >)
        requires
            old(self).wf(),
        ensures
            final(self).wf(),
            !old(self).device_map().contains_key(device_id@) ==> (r matches Err(e) && e@
                == "Device not found: "@ + device_id@) && final(self).label_table() == old(self).label_table(),
            old(self).device_map().contains_key(device_id@) && (exists|j: int|
                0 <= j < labels@.len() && !label_fits(#[trigger] label_pairs(labels@)[j].1))
                ==> (r matches Err(e) && e@ == label_too_long()) && final(self).label_table() == old(self).label_table(),
            old(self).device_map().contains_key(device_id@) && (forall|j: int|
                0 <= j < labels@.len() ==> label_fits(#[trigger] label_pairs(labels@)[j].1)) ==> labels_of(
                final(self).label_table(),
                device_id@,
            ) == with_labels(labels_of(old(self).label_table(), device_id@), label_pairs(labels@))
                && (r matches Ok(v) && lists_channels(
                v@,
                channel_count_of(old(self).device_map()[device_id@]),
                labels_of(final(self).label_table(), device_id@),
            )),
            forall|x: Seq<char>|
                x != device_id@ ==> #[trigger] labels_of(final(self).label_table(), x) == labels_of(
                    old(self).label_table(),
                    x,
                ),
            final(self).local() == old(self).local(),
            final(self).remote_map() == old(self).remote_map(),
            final(self).device_map() == old(self).device_map(),
            final(self).route_map() == old(self).route_map(),
    {
        let di = match self.find_device(device_id) {
            Some(i) => i,
            None => {
                return Err(message("Device not found: ", device_id));
            },
        };
        let count = if self.devices[di].input_channels >= self.devices[di].output_channels {
            self.devices[di].input_channels
        } else {
            self.devices[di].output_channels
        };
        let ghost pairs = label_pairs(labels@);
        let mut j: usize = 0;
        while j < labels.len()
            invariant
                *self == *old(self),
                self.wf(),
                old(self).device_map().contains_key(device_id@),
                j <= labels@.len(),
                pairs == label_pairs(labels@),
                forall|k: int| 0 <= k < j ==> label_fits(#[trigger] pairs[k].1),
            decreases labels.len() - j,
        {
            if labels[j].1.as_str().unicode_len() > MAX_LABEL_LENGTH {
                assert(!label_fits(pairs[j as int].1));
                return Err(String::from_str("Label too long (max 31 characters)"));
            }
            j = j + 1;
        }
        let i = self.labels_entry(device_id);
        let ghost start = labels_of(old(self).label_table(), device_id@);
        let ghost mid = self.label_table();
        let mut j: usize = 0;
        while j < labels.len()
            invariant
                self.wf(),
                j <= labels@.len(),
                pairs == label_pairs(labels@),
                forall|k: int| 0 <= k < labels@.len() ==> label_fits(#[trigger] pairs[k].1),
                i < self.channel_labels@.len(),
                self.channel_labels@[i as int].device_id@ == device_id@,
                self.channel_labels@[i as int].label_map() == with_labels(start, pairs.take(j as int)),
                self.label_table() == mid.insert(device_id@, with_labels(start, pairs.take(j as int))),
                self.local() == old(self).local(),
                self.remote_map() == old(self).remote_map(),
                self.device_map() == old(self).device_map(),
                self.route_map() == old(self).route_map(),
            decreases labels.len() - j,
        {
            let ch = labels[j].0;
            let text = labels[j].1.clone();
            proof {
                assert(pairs[j as int].1 == text@);
            }
            self.set_label_at(i, ch, text);
            proof {
                assert(pairs.take(j + 1).drop_last() =~= pairs.take(j as int));
                assert(pairs.take(j + 1).last() == pairs[j as int]);
            }
            j = j + 1;
        }
        proof {
            assert(pairs.take(labels@.len() as int) =~= pairs);
            assert(mid.contains_key(device_id@));
            assert forall|x: Seq<char>| x != device_id@ implies #[trigger] labels_of(self.label_table(), x)
                == labels_of(old(self).label_table(), x) by {
                assert(labels_of(mid, x) == labels_of(old(self).label_table(), x));
            }
        }
        let list = self.channel_list(device_id, count);
        Ok(list)
    }
}


/// The identifier of a route: `{source}->{destination}`, each endpoint as
/// `node:device:channel`.
pub open spec fn route_text(r: RouteView) -> Seq<char> {
    endpoint_text(r.source_node, r.source_device, r.source_channel) + "->"@ + endpoint_text(
        r.destination_node,
        r.destination_device,
        r.destination_channel,
    )
}

/// Whether a node reference names the node itself: `local` in any letter
/// case, its identifier, or its name.
pub open spec fn names_local(local: NodeInfoView, node_ref: Seq<char>) -> bool {
    local_in_any_case(node_ref) || node_ref == local.id || node_ref == local.name
}

/// Whether a route endpoint's node is this node as routes name it: exactly
/// `LOCAL`, its identifier, or its name.
pub open spec fn endpoint_is_local(local: NodeInfoView, node: Seq<char>) -> bool {
    node == "LOCAL"@ || node == local.id || node == local.name
}

/// Whether a route crosses node boundaries.
pub open spec fn crosses_nodes(local: NodeInfoView, r: RouteView) -> bool {
    !endpoint_is_local(local, r.source_node) || !endpoint_is_local(local, r.destination_node)
}

/// What a stored route asks of other nodes.
#[derive(Debug)]
pub enum CrossNodeAction {
    /// Nothing: the route is local.
    Local,
    /// Subscribe to the audio of the remote source node.
    Subscribe(NodeInfo),
    /// Forward the route to the remote destination node.
    Forward(NodeInfo),
    /// The remote source node is unknown.
    SourceUnknown,
    /// The remote destination node is unknown.
    DestinationUnknown,
    /// Nothing: both ends name this node after all.
    Nothing,
}

impl AppState {
    /// The identifier of a route.
    pub fn route_id(route: &RouteDefinition) -> (r: String)
        ensures
            r@ == route_text(route@),
    {
        let mut s = String::new();
        push_str(&mut s, route.source_node.as_str());
        push_str(&mut s, ":");
        push_str(&mut s, route.source_device.as_str());
        push_str(&mut s, ":");
        push_decimal(&mut s, route.source_channel as u64);
        push_str(&mut s, "->");
        push_str(&mut s, route.destination_node.as_str());
        push_str(&mut s, ":");
        push_str(&mut s, route.destination_device.as_str());
        push_str(&mut s, ":");
        push_decimal(&mut s, route.destination_channel as u64);
        proof {
            assert(s@ =~= route_text(route@));
        }
        s
    }

    /// Whether a node reference names this node: `local` in any letter
    /// case, its identifier, or its name.
    pub fn is_local_node(&self, node_id: &str) -> (r: bool)
        ensures
            r == names_local(self.local(), node_id@),
    {
        is_local_word(node_id) || str_equal(node_id, self.local_node.id.as_str()) || str_equal(
            node_id,
            self.local_node.name.as_str(),
        )
    }

    /// Whether a route crosses node boundaries: one of its ends is not
    /// `LOCAL`, this node's identifier or its name.
    pub fn is_cross_node_route(&self, route: &RouteDefinition) -> (r: bool)
        ensures
            r == crosses_nodes(self.local(), route@),
    {
        let id = self.local_node.id.as_str();
        let name = self.local_node.name.as_str();
        let source_local = str_equal(route.source_node.as_str(), "LOCAL") || str_equal(
            route.source_node.as_str(),
            id,
        ) || str_equal(route.source_node.as_str(), name);
        let dest_local = str_equal(route.destination_node.as_str(), "LOCAL") || str_equal(
            route.destination_node.as_str(),
            id,
        ) || str_equal(route.destination_node.as_str(), name);
        !source_local || !dest_local
    }

    /// Position of a route by identifier.
    fn find_route(&self, id: &str) -> (r: Option<usize>)
        requires
            self.wf(),
        ensures
            r matches Some(i) ==> i < self.routes@.len() && self.routes@[i as int].id@ == id@
                && self.route_map().contains_key(id@) && self.route_map()[id@]
                == self.routes@[i as int].route@,
            r is None ==> !self.route_map().contains_key(id@),
    {
        let mut i: usize = 0;
        while i < self.routes.len()
            invariant
                self.wf(),
                i <= self.routes@.len(),
                forall|j: int| 0 <= j < i ==> #[trigger] self.routes@[j].id@ != id@,
            decreases self.routes.len() - i,
        {
            if str_equal(self.routes[i].id.as_str(), id) {
                proof {
                    lemma_keyed_at(route_views(self.routes@), route_key(), i as int);
                }
                return Some(i);
            }
            i = i + 1;
        }
        proof {
            let vs = route_views(self.routes@);
            if has_key(vs, route_key(), id@) {
                let j = choose|j: int| 0 <= j < vs.len() && #[trigger] route_key()(vs[j]) == id@;
                assert(self.routes@[j].id@ == id@);
            }
        }
        None
    }

    /// All routes, once each.
    pub fn all_routes(&self) -> (r: Vec<RouteDefinition>)
        requires
            self.wf(),
        ensures
            forall|a: int, b: int|
                0 <= a < r@.len() && 0 <= b < r@.len() && route_text((#[trigger] r@[a])@) == route_text(
                    (#[trigger] r@[b])@,
                ) ==> a == b,
            forall|j: int|
                0 <= j < r@.len() ==> self.route_map().contains_key(route_text((#[trigger] r@[j])@))
                    && self.route_map()[route_text(r@[j]@)] == r@[j]@,
            forall|k: Seq<char>|
                #[trigger] self.route_map().contains_key(k) ==> exists|j: int|
                    0 <= j < r@.len() && route_text((#[trigger] r@[j])@) == k,
    {
        let ghost vs = route_views(self.routes@);
        let mut out: Vec<RouteDefinition> = Vec::new();
        let mut i: usize = 0;
        while i < self.routes.len()
            invariant
                self.wf(),
                vs == route_views(self.routes@),
                i <= self.routes@.len(),
                out@.len() == i,
                forall|j: int| 0 <= j < i ==> (#[trigger] out@[j])@ == self.routes@[j].route@,
            decreases self.routes.len() - i,
        {
            out.push(self.routes[i].route.clone());
            i = i + 1;
        }
        proof {
            assert forall|a: int, b: int|
                0 <= a < out@.len() && 0 <= b < out@.len() && route_text((#[trigger] out@[a])@) == route_text(
                    (#[trigger] out@[b])@,
                ) implies a == b by {
                assert(self.routes@[a].id@ == route_text(self.routes@[a].route@));
                assert(self.routes@[b].id@ == route_text(self.routes@[b].route@));
                assert(route_key()(vs[a]) == route_key()(vs[b]));
            }
            assert forall|j: int| 0 <= j < out@.len() implies self.route_map().contains_key(
                route_text((#[trigger] out@[j])@),
            ) && self.route_map()[route_text(out@[j]@)] == out@[j]@ by {
                assert(self.routes@[j].id@ == route_text(self.routes@[j].route@));
                lemma_keyed_at(vs, route_key(), j);
            }
            assert forall|k: Seq<char>| #[trigger] self.route_map().contains_key(k) implies exists|j: int|
                0 <= j < out@.len() && route_text((#[trigger] out@[j])@) == k by {
                let a = choose|a: int| 0 <= a < vs.len() && #[trigger] route_key()(vs[a]) == k;
                assert(self.routes@[a].id@ == route_text(self.routes@[a].route@));
                assert(route_text(out@[a]@) == k);
            }
        }
        out
    }

    /// A route by identifier.
    pub fn get_route(&self, id: &str) -> (r: Option<RouteDefinition>)
        requires
            self.wf(),
        ensures
            self.route_map().contains_key(id@) ==> (r matches Some(d) && d@ == self.route_map()[id@]),
            !self.route_map().contains_key(id@) ==> r is None,
    {
        match self.find_route(id) {
            Some(i) => Some(self.routes[i].route.clone()),
            None => None,
        }
    }

    /// Replaces the route at a position, keeping its identifier.
    fn replace_route(&mut self, i: usize, route: RouteDefinition)
        requires
            old(self).wf(),
            i < old(self).routes@.len(),
            route_text(route@) == route_text(old(self).routes@[i as int].route@),
        ensures
            final(self).wf(),
            final(self).route_map() == old(self).route_map().insert(old(self).routes@[i as int].id@, route@),
            final(self).local() == old(self).local(),
            final(self).remote_map() == old(self).remote_map(),
            final(self).device_map() == old(self).device_map(),
            final(self).label_table() == old(self).label_table(),
    {
        let ghost before = route_views(self.routes@);
        let id = self.routes[i].id.clone();
        let ghost ev = (id@, route@);
        proof {
            lemma_keyed_update(before, route_key(), i as int, ev);
        }
        self.routes.set(i, RouteEntry { id, route });
        proof {
            assert(route_views(self.routes@) =~= before.update(i as int, ev));
            assert forall|j: int| 0 <= j < self.routes@.len() implies (#[trigger] self.routes@[j]).id@
                == route_text(self.routes@[j].route@) by {
                if j != i {
                    assert(self.routes@[j] == old(self).routes@[j]);
                }
            }
            let km = keyed_map(before, route_key());
            assert(km.insert(ev.0, ev).map_values(|p: (Seq<char>, RouteView)| p.1)
                =~= old(self).route_map().insert(ev.0, ev.1));
        }
    }

    /// Stores a route under its identifier (replacing any route stored
    /// there) and gives the identifier back.
    pub fn upsert_route(&mut self, route: RouteDefinition) -> (r: Result<String, String>)
        requires
            old(self).wf(),
        ensures
            final(self).wf(),
            r matches Ok(id) && id@ == route_text(route@),
            final(self).route_map() == old(self).route_map().insert(route_text(route@), route@),
            final(self).local() == old(self).local(),
            final(self).remote_map() == old(self).remote_map(),
            final(self).device_map() == old(self).device_map(),
            final(self).label_table() == old(self).label_table(),
    {
        let id = Self::route_id(&route);
        match self.find_route(id.as_str()) {
            Some(i) => {
                self.replace_route(i, route);
            },
            None => {
                let ghost before = route_views(self.routes@);
                let ghost ev = (id@, route@);
                proof {
                    lemma_keyed_push(before, route_key(), ev);
                }
                self.routes.push(RouteEntry { id: id.clone(), route });
                proof {
                    assert(route_views(self.routes@) =~= before.push(ev));
                    assert forall|j: int| 0 <= j < self.routes@.len() implies (#[trigger] self.routes@[j]).id@
                        == route_text(self.routes@[j].route@) by {
                        if j < old(self).routes@.len() {
                            assert(self.routes@[j] == old(self).routes@[j]);
                        }
                    }
                    let km = keyed_map(before, route_key());
                    assert(km.insert(ev.0, ev).map_values(|p: (Seq<char>, RouteView)| p.1)
                        =~= old(self).route_map().insert(ev.0, ev.1));
                }
            },
        }
        Ok(id)
    }

    /// Removes a route by identifier, giving it back.
    pub fn remove_route(&mut self, id: &str) -> (r: Result<Option<RouteDefinition>, String>)
        requires
            old(self).wf(),
        ensures
            final(self).wf(),
            old(self).route_map().contains_key(id@) ==> (r matches Ok(Some(d)) && d@ == old(self).route_map()[id@]),
            !old(self).route_map().contains_key(id@) ==> r matches Ok(None),
            final(self).route_map() == old(self).route_map().remove(id@),
            final(self).local() == old(self).local(),
            final(self).remote_map() == old(self).remote_map(),
            final(self).device_map() == old(self).device_map(),
            final(self).label_table() == old(self).label_table(),
    {
        match self.find_route(id) {
            Some(i) => {
                let ghost before = route_views(self.routes@);
                proof {
                    lemma_keyed_remove(before, route_key(), i as int);
                }
                let e = self.routes.remove(i);
                proof {
                    assert(route_views(self.routes@) =~= before.remove(i as int));
                    assert forall|j: int| 0 <= j < self.routes@.len() implies (#[trigger] self.routes@[j]).id@
                        == route_text(self.routes@[j].route@) by {
                        if j < i {
                            assert(self.routes@[j] == old(self).routes@[j]);
                        } else {
                            assert(self.routes@[j] == old(self).routes@[j + 1]);
                        }
                    }
                    let km = keyed_map(before, route_key());
                    assert(km.remove(id@).map_values(|p: (Seq<char>, RouteView)| p.1)
                        =~= old(self).route_map().remove(id@));
                }
                Ok(Some(e.route))
            },
            None => {
                assert(old(self).route_map().remove(id@) =~= old(self).route_map());
                Ok(None)
            },
        }
    }

    /// Sets a route's volume (the bits of its float value). Refused for an
    /// unknown route.
    pub fn set_route_volume(&mut self, id: &str, volume_bits: u32) -> (r: Result<(), String>)
        requires
            old(self).wf(),
        ensures
            final(self).wf(),
            !old(self).route_map().contains_key(id@) ==> (r matches Err(e) && e@ == "Route not found: "@ + id@)
                && final(self).route_map() == old(self).route_map(),
            old(self).route_map().contains_key(id@) ==> r is Ok && final(self).route_map() == old(self).route_map().insert(
                id@,
                RouteView { volume_bits, ..old(self).route_map()[id@] },
            ),
            final(self).local() == old(self).local(),
            final(self).remote_map() == old(self).remote_map(),
            final(self).device_map() == old(self).device_map(),
            final(self).label_table() == old(self).label_table(),
    {
        match self.find_route(id) {
            Some(i) => {
                let mut route = self.routes[i].route.clone();
                route.volume_bits = volume_bits;
                self.replace_route(i, route);
                Ok(())
            },
            None => Err(message("Route not found: ", id)),
        }
    }

    /// Sets a route's mute state. Refused for an unknown route.
    pub fn set_route_muted(&mut self, id: &str, muted: bool) -> (r: Result<(), String>)
        requires
            old(self).wf(),
        ensures
            final(self).wf(),
            !old(self).route_map().contains_key(id@) ==> (r matches Err(e) && e@ == "Route not found: "@ + id@)
                && final(self).route_map() == old(self).route_map(),
            old(self).route_map().contains_key(id@) ==> r is Ok && final(self).route_map() == old(self).route_map().insert(
                id@,
                RouteView { muted, ..old(self).route_map()[id@] },
            ),
            final(self).local() == old(self).local(),
            final(self).remote_map() == old(self).remote_map(),
            final(self).device_map() == old(self).device_map(),
            final(self).label_table() == old(self).label_table(),
    {
        match self.find_route(id) {
            Some(i) => {
                let mut route = self.routes[i].route.clone();
                route.muted = muted;
                self.replace_route(i, route);
                Ok(())
            },
            None => Err(message("Route not found: ", id)),
        }
    }

    /// What a route asks of other nodes once stored: nothing for a local
    /// route; else, where its source is remote, a subscription to the
    /// source node; else, where its destination is remote, forwarding to
    /// the destination node; a remote node is looked up by reference.
    pub fn cross_node_action(&self, route: &RouteDefinition) -> (r: CrossNodeAction)
        requires
            self.wf(),
        ensures
            !crosses_nodes(self.local(), route@) ==> r is Local,
            crosses_nodes(self.local(), route@) && !names_local(self.local(), route@.source_node) ==> match r {
                CrossNodeAction::Subscribe(n) => resolves(self.remote_map(), route@.source_node, Some(n@)),
                CrossNodeAction::SourceUnknown => resolves(self.remote_map(), route@.source_node, None),
                _ => false,
            },
            crosses_nodes(self.local(), route@) && names_local(self.local(), route@.source_node)
                && !names_local(self.local(), route@.destination_node) ==> match r {
                CrossNodeAction::Forward(n) => resolves(self.remote_map(), route@.destination_node, Some(n@)),
                CrossNodeAction::DestinationUnknown => resolves(self.remote_map(), route@.destination_node, None),
                _ => false,
            },
            crosses_nodes(self.local(), route@) && names_local(self.local(), route@.source_node)
                && names_local(self.local(), route@.destination_node) ==> r is Nothing,
    {
        if !self.is_cross_node_route(route) {
            return CrossNodeAction::Local;
        }
        if !self.is_local_node(route.source_node.as_str()) {
            match self.get_remote_node(route.source_node.as_str()) {
                Some(n) => CrossNodeAction::Subscribe(n),
                None => CrossNodeAction::SourceUnknown,
            }
        } else if !self.is_local_node(route.destination_node.as_str()) {
            match self.get_remote_node(route.destination_node.as_str()) {
                Some(n) => CrossNodeAction::Forward(n),
                None => CrossNodeAction::DestinationUnknown,
            }
        } else {
            CrossNodeAction::Nothing
        }
    }
}

/// Whether a reference is the word `local` in any letter case.
fn is_local_word(s: &str) -> (r: bool)
    ensures
        r == local_in_any_case(s@),
{
    proof {
        reveal_strlit("local");
        reveal_strlit("LOCAL");
    }
    let small = "local";
    let capital = "LOCAL";
    let n = s.unicode_len();
    if n != 5 {
        return false;
    }
    let mut i: usize = 0;
    while i < 5
        invariant
            n == s@.len(),
            n == 5,
            small@ == "local"@,
            capital@ == "LOCAL"@,
            small@.len() == 5,
            capital@.len() == 5,
            i <= 5,
            forall|j: int| 0 <= j < i ==> #[trigger] s@[j] == "local"@[j] || s@[j] == "LOCAL"@[j],
        decreases 5 - i,
    {
        let c = s.get_char(i);
        if c != small.get_char(i) && c != capital.get_char(i) {
            return false;
        }
        i = i + 1;
    }
    true
}

impl Default for AppState {
    /// The state of a node named `AudioMatrix` with the API on port 8080 and
    /// VBAN on port 6980.
    fn default() -> (r: Self)
        ensures
            r.wf(),
            r.local().name == "AudioMatrix"@,
            r.local().api_port == 8080,
            r.local().vban_port == 6980,
            r.local().online,
            r.local().addresses == Seq::<Seq<char>>::empty(),
            r.remote_map() == Map::<Seq<char>, NodeInfoView>::empty(),
            r.device_map() == Map::<Seq<char>, DeviceInfoView>::empty(),
            r.label_table() == Map::<Seq<char>, Map<u16, Seq<char>>>::empty(),
            r.route_map() == Map::<Seq<char>, RouteView>::empty(),
    {
        Self::new("AudioMatrix", 8080, 6980)
    }
}

/// The part of a reference before its first `@` (all of it where it has
/// none).
fn name_before_at(r: &str) -> (p: &str)
    ensures
        p@ == before_at(r@),
{
    let n = r.unicode_len();
    let mut i: usize = 0;
    while i < n
        invariant
            n == r@.len(),
            i <= n,
            forall|j: int| 0 <= j < i ==> r@[j] != '@',
        decreases n - i,
    {
        if r.get_char(i) == '@' {
            proof {
                let f = r@.index_of_first('@');
                r@.index_of_first_ensures('@');
                assert(r@.contains('@'));
            }
            return r.substring_char(0, i);
        }
        i = i + 1;
    }
    proof {
        assert(!r@.contains('@'));
    }
    r
}


/// Attaching a device and then detaching it leaves it detached, under the
/// display name the attach gave it (or kept), with nothing else changed;
/// while attached, attaching it again is refused.
pub proof fn law_attach_then_detach(
    m: Map<Seq<char>, DeviceInfoView>,
    id: Seq<char>,
    display_name: Option<Seq<char>>,
)
    requires
        attach_refusal(m, id) is None,
    ensures
        ({
            let m2 = m.insert(id, attached_device(m[id], display_name));
            &&& attach_refusal(m2, id) == Some("Device already attached: "@ + id)
            &&& detach_refusal(m2, id) is None
            &&& (DeviceInfoView { status: DeviceStatus::Detached, ..m2[id] }) == (DeviceInfoView {
                status: DeviceStatus::Detached,
                display_name: if display_name is Some {
                    display_name
                } else {
                    m[id].display_name
                },
                ..m[id]
            })
        }),
{
}

/// A detached device can be attached again.
pub proof fn law_detached_device_can_be_reattached(m: Map<Seq<char>, DeviceInfoView>, id: Seq<char>)
    requires
        detach_refusal(m, id) is None,
    ensures
        attach_refusal(m.insert(id, DeviceInfoView { status: DeviceStatus::Detached, ..m[id] }), id) is None,
{
}

/// A stored route is read back under its identifier.
pub proof fn law_upsert_route_then_get(routes: Map<Seq<char>, RouteView>, route: RouteView)
    ensures
        routes.insert(route_text(route), route).contains_key(route_text(route)),
        routes.insert(route_text(route), route)[route_text(route)] == route,
{
}

/// Storing a new route and removing it by its identifier gives back the
/// routes as they were.
pub proof fn law_upsert_then_remove_route(routes: Map<Seq<char>, RouteView>, route: RouteView)
    requires
        !routes.contains_key(route_text(route)),
    ensures
        routes.insert(route_text(route), route).remove(route_text(route)) == routes,
{
    assert(routes.insert(route_text(route), route).remove(route_text(route)) =~= routes);
}

/// Creating a virtual device under a fresh identifier and deleting it
/// gives back the devices as they were; the new device can be deleted.
pub proof fn law_create_then_delete_virtual_device(
    m: Map<Seq<char>, DeviceInfoView>,
    id: Seq<char>,
    name: Seq<char>,
    input_channels: u16,
    output_channels: u16,
    sample_rate: u32,
    buffer_size: u32,
)
    requires
        !m.contains_key(id),
    ensures
        ({
            let d = new_virtual_device(id, name, input_channels, output_channels, sample_rate, buffer_size);
            &&& virtual_refusal(m.insert(id, d), id) is None
            &&& m.insert(id, d).remove(id) == m
        }),
{
    let d = new_virtual_device(id, name, input_channels, output_channels, sample_rate, buffer_size);
    assert(m.insert(id, d).remove(id) =~= m);
}

/// A label set is read back; an empty label reads back as none; other
/// channels keep theirs.
pub proof fn law_label_set_then_read(m: Map<u16, Seq<char>>, channel: u16, label: Seq<char>, other: u16)
    requires
        other != channel,
    ensures
        label_at(with_label(m, channel, label), channel) == (if label.len() == 0 {
            None
        } else {
            Some(label)
        }),
        label_at(with_label(m, channel, label), other) == label_at(m, other),
{
}

/// A device's type always agrees with its channels: a virtual device
/// created or changed has the type its channel counts imply.
pub proof fn law_virtual_device_type_follows_channels(
    d: DeviceInfoView,
    name: Option<Seq<char>>,
    input_channels: Option<u16>,
    output_channels: Option<u16>,
    sample_rate: Option<u32>,
    buffer_size: Option<u32>,
)
    ensures
        ({
            let c = changed_virtual_device(d, name, input_channels, output_channels, sample_rate, buffer_size);
            c.device_type == type_for_channels(c.input_channels, c.output_channels)
        }),
{
}
/// The connection that a route carries out.
pub open spec fn route_connection(r: RouteView) -> ConnectionIdView {
    ConnectionIdView {
        source_node: r.source_node,
        source_device: r.source_device,
        source_channel: r.source_channel,
        destination_node: r.destination_node,
        destination_device: r.destination_device,
        destination_channel: r.destination_channel,
    }
}

/// Whether both ends of a route name a channel (channels are 1-based).
pub open spec fn channels_named(r: RouteView) -> bool {
    r.source_channel > 0 && r.destination_channel > 0
}

/// Whether a message is that of some route error.
pub open spec fn is_route_error_message(m: Seq<char>) -> bool {
    exists|e: RouteError| m == #[trigger] route_error_message(e)
}

/// The connection of a route.
fn connection_of(route: &RouteDefinition) -> (r: ConnectionId)
    requires
        channels_named(route@),
    ensures
        r@ == route_connection(route@),
{
    ConnectionId::new(
        route.source_node.as_str(),
        route.source_device.as_str(),
        route.source_channel,
        route.destination_node.as_str(),
        route.destination_device.as_str(),
        route.destination_channel,
    )
}

/// The message of a route error.
fn route_error_text(e: RouteError) -> (r: String)
    ensures
        is_route_error_message(r@),
{
    let r = e.to_string();
    assert(r@ == route_error_message(e));
    r
}

/// The commands that carry out `route` on the audio processor, which has
/// its connection already or not.
pub fn route_commands(route: &RouteDefinition, has_route: bool) -> (r: Vec<ControllerCommand>)
    requires
        channels_named(route@),
    ensures
        command_views(r@) == route_plan(route_connection(route@), route@.volume_bits, route@.muted, has_route),
{
    let mut r: Vec<ControllerCommand> = Vec::new();
    if !has_route {
        r.push(ControllerCommand::Add(connection_of(route)));
    }
    r.push(ControllerCommand::SetGain(connection_of(route), route.volume_bits));
    r.push(ControllerCommand::SetMuted(connection_of(route), route.muted));
    proof {
        let c = route_connection(route@);
        assert(command_views(r@) =~= route_plan(c, route@.volume_bits, route@.muted, has_route));
    }
    r
}

/// The one command that takes `route` off the audio processor.
pub fn remove_commands(route: &RouteDefinition) -> (r: Vec<ControllerCommand>)
    requires
        channels_named(route@),
    ensures
        command_views(r@) == seq![CommandView::Remove(route_connection(route@))],
{
    let mut r: Vec<ControllerCommand> = Vec::new();
    r.push(ControllerCommand::Remove(connection_of(route)));
    assert(command_views(r@) =~= seq![CommandView::Remove(route_connection(route@))]);
    r
}

/// The one command that sets the gain of `route` on the audio processor.
pub fn gain_commands(route: &RouteDefinition, volume_bits: u32) -> (r: Vec<ControllerCommand>)
    requires
        channels_named(route@),
    ensures
        command_views(r@) == seq![CommandView::SetGain(route_connection(route@), volume_bits)],
{
    let mut r: Vec<ControllerCommand> = Vec::new();
    r.push(ControllerCommand::SetGain(connection_of(route), volume_bits));
    assert(command_views(r@) =~= seq![CommandView::SetGain(route_connection(route@), volume_bits)]);
    r
}

/// The one command that sets the mute state of `route` on the audio
/// processor.
pub fn mute_commands(route: &RouteDefinition, muted: bool) -> (r: Vec<ControllerCommand>)
    requires
        channels_named(route@),
    ensures
        command_views(r@) == seq![CommandView::SetMuted(route_connection(route@), muted)],
{
    let mut r: Vec<ControllerCommand> = Vec::new();
    r.push(ControllerCommand::SetMuted(connection_of(route), muted));
    assert(command_views(r@) =~= seq![CommandView::SetMuted(route_connection(route@), muted)]);
    r
}

impl AppState {
    /// Creates or replaces a route as [`AppState::upsert_route`] does, after
    /// carrying it out on the audio processor where both its ends are on
    /// this node: the route is added there if it is not, then its gain and
    /// mute state are set. The first refusal of the processor is returned,
    /// and then the routes are left as they were. A route to or from
    /// another node is not handed to the processor.
    pub fn upsert_route_with<C: RouteController>(&mut self, controller: &C, route: RouteDefinition) -> (r: Result<
        String,
        String,
    >)
        requires
            old(self).wf(),
            channels_named(route@),
        ensures
            final(self).wf(),
            r matches Ok(id) ==> id@ == route_text(route@) && final(self).route_map() == old(self).route_map().insert(
                route_text(route@),
                route@,
            ),
            r matches Err(m) ==> is_route_error_message(m@),
            r is Err ==> !crosses_nodes(old(self).local(), route@),
            r is Err ==> final(self).route_map() == old(self).route_map(),
            crosses_nodes(old(self).local(), route@) ==> r is Ok,
            final(self).local() == old(self).local(),
            final(self).remote_map() == old(self).remote_map(),
            final(self).device_map() == old(self).device_map(),
            final(self).label_table() == old(self).label_table(),
    {
        if !self.is_cross_node_route(&route) {
            let has_route = controller.has_route(&connection_of(&route));
            let commands = route_commands(&route, has_route);
            if let (_, Some(e)) = carry_out(controller, &commands) {
                return Err(route_error_text(e));
            }
        }
        self.upsert_route(route)
    }

    /// Removes a route as [`AppState::remove_route`] does, and its
    /// connection from the audio processor, whose answer is not waited on.
    pub fn remove_route_with<C: RouteController>(&mut self, controller: &C, id: &str) -> (r: Result<
        Option<RouteDefinition>,
        String,
    >)
        requires
            old(self).wf(),
            old(self).route_map().contains_key(id@) ==> channels_named(old(self).route_map()[id@]),
        ensures
            final(self).wf(),
            old(self).route_map().contains_key(id@) ==> (r matches Ok(Some(d)) && d@ == old(self).route_map()[id@]),
            !old(self).route_map().contains_key(id@) ==> r matches Ok(None),
            final(self).route_map() == old(self).route_map().remove(id@),
            final(self).local() == old(self).local(),
            final(self).remote_map() == old(self).remote_map(),
            final(self).device_map() == old(self).device_map(),
            final(self).label_table() == old(self).label_table(),
    {
        let removed = self.remove_route(id);
        if let Ok(Some(d)) = &removed {
            let _ = carry_out(controller, &remove_commands(d));
        }
        removed
    }

    /// Sets the volume of a route as [`AppState::set_route_volume`] does,
    /// after setting the gain of its connection on the audio processor; a
    /// refusal there is returned and leaves the route as it was.
    pub fn set_route_volume_with<C: RouteController>(&mut self, controller: &C, id: &str, volume_bits: u32) -> (r: Result<
        (),
        String,
    >)
        requires
            old(self).wf(),
            old(self).route_map().contains_key(id@) ==> channels_named(old(self).route_map()[id@]),
        ensures
            final(self).wf(),
            !old(self).route_map().contains_key(id@) ==> (r matches Err(e) && e@ == "Route not found: "@ + id@),
            old(self).route_map().contains_key(id@) && r is Ok ==> final(self).route_map() == old(self).route_map().insert(
                id@,
                RouteView { volume_bits, ..old(self).route_map()[id@] },
            ),
            old(self).route_map().contains_key(id@) && r is Err ==> (r matches Err(m) && is_route_error_message(m@)),
            r is Err ==> final(self).route_map() == old(self).route_map(),
            final(self).local() == old(self).local(),
            final(self).remote_map() == old(self).remote_map(),
            final(self).device_map() == old(self).device_map(),
            final(self).label_table() == old(self).label_table(),
    {
        if let Some(d) = self.get_route(id) {
            if let (_, Some(e)) = carry_out(controller, &gain_commands(&d, volume_bits)) {
                return Err(route_error_text(e));
            }
        }
        self.set_route_volume(id, volume_bits)
    }

    /// Sets the mute state of a route as [`AppState::set_route_muted`] does,
    /// after setting it for its connection on the audio processor; a refusal
    /// there is returned and leaves the route as it was.
    pub fn set_route_muted_with<C: RouteController>(&mut self, controller: &C, id: &str, muted: bool) -> (r: Result<
        (),
        String,
    >)
        requires
            old(self).wf(),
            old(self).route_map().contains_key(id@) ==> channels_named(old(self).route_map()[id@]),
        ensures
            final(self).wf(),
            !old(self).route_map().contains_key(id@) ==> (r matches Err(e) && e@ == "Route not found: "@ + id@),
            old(self).route_map().contains_key(id@) && r is Ok ==> final(self).route_map() == old(self).route_map().insert(
                id@,
                RouteView { muted, ..old(self).route_map()[id@] },
            ),
            old(self).route_map().contains_key(id@) && r is Err ==> (r matches Err(m) && is_route_error_message(m@)),
            r is Err ==> final(self).route_map() == old(self).route_map(),
            final(self).local() == old(self).local(),
            final(self).remote_map() == old(self).remote_map(),
            final(self).device_map() == old(self).device_map(),
            final(self).label_table() == old(self).label_table(),
    {
        if let Some(d) = self.get_route(id) {
            if let (_, Some(e)) = carry_out(controller, &mute_commands(&d, muted)) {
                return Err(route_error_text(e));
            }
        }
        self.set_route_muted(id, muted)
    }
}

} // verus!
