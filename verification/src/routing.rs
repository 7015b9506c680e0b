//! Audio routing matrix: routes from source endpoints to destination
//! endpoints, grouped by destination.

use vstd::prelude::*;
use std::sync::Arc;
use crate::buffer::{RingBuffer, is_capacity_for};
use crate::connection::{endpoint_text, local_node};
use crate::error::{Error, ErrorView};
use crate::keyed::{entries_total, lemma_entries_total_prefix, lemma_entries_total_remove, lemma_entries_total_update, has_key, keyed_map, keys_distinct, lemma_keyed_at, lemma_keyed_empty, lemma_keyed_push, lemma_keyed_remove, lemma_keyed_update};
use crate::mixer::VolumeControl;
use crate::routing_table::share;
use crate::text::{push_decimal, push_str, str_equal};

verus! {

/// Unique identifier for a routing endpoint.
#[derive(Debug, PartialEq, Eq, Hash)]
pub struct EndpointId {
    /// Node identifier (hostname or IP).
    pub node: String,
    /// Device name.
    pub device: String,
    /// Channel number (1-based).
    pub channel: u16,
}

/// An endpoint as a value: node, device and channel.
pub type EndpointView = (Seq<char>, Seq<char>, u16);

impl View for EndpointId {
    type V = EndpointView;

    open spec fn view(&self) -> EndpointView {
        (self.node@, self.device@, self.channel)
    }
}

impl Clone for EndpointId {
    fn clone(&self) -> (r: Self)
        ensures
            r@ == self@,
    {
        EndpointId { node: self.node.clone(), device: self.device.clone(), channel: self.channel }
    }
}

impl EndpointId {
    /// Whether two identifiers name the same endpoint.
    pub fn same_as(&self, other: &EndpointId) -> (r: bool)
        ensures
            r == (self@ == other@),
    {
        self.channel == other.channel && str_equal(self.node.as_str(), other.node.as_str()) && str_equal(
            self.device.as_str(),
            other.device.as_str(),
        )
    }

    /// Creates a new endpoint identifier.
    pub fn new(node: &str, device: &str, channel: u16) -> (r: Self)
        ensures
            r.node@ == node@,
            r.device@ == device@,
            r.channel == channel,
    {
        EndpointId { node: String::from_str(node), device: String::from_str(device), channel }
    }

    /// Creates an endpoint for the local node.
    pub fn local(device: &str, channel: u16) -> (r: Self)
        ensures
            r.node@ == local_node(),
            r.device@ == device@,
            r.channel == channel,
    {
        Self::new("LOCAL", device, channel)
    }

    /// The endpoint's textual form: `{node}:{device}:{channel}`.
    pub fn to_string(&self) -> (r: String)
        ensures
            r@ == endpoint_text(self.node@, self.device@, self.channel),
    {
        let mut s = String::new();
        push_str(&mut s, self.node.as_str());
        push_str(&mut s, ":");
        push_str(&mut s, self.device.as_str());
        push_str(&mut s, ":");
        push_decimal(&mut s, self.channel as u64);
        s
    }
}


/// The text that names a route: `{source} -> {destination}`.
pub open spec fn route_text(source: EndpointView, destination: EndpointView) -> Seq<char> {
    endpoint_text(source.0, source.1, source.2) + " -> "@ + endpoint_text(destination.0, destination.1, destination.2)
}

/// `s` with every occurrence of `x` taken out, the rest in order.
pub open spec fn without(s: Seq<EndpointView>, x: EndpointView) -> Seq<EndpointView>
    decreases s.len(),
{
    if s.len() == 0 {
        Seq::empty()
    } else if s.last() == x {
        without(s.drop_last(), x)
    } else {
        without(s.drop_last(), x).push(s.last())
    }
}

/// Taking out `x` shortens a sequence exactly when `x` occurs in it.
pub proof fn lemma_without_len(s: Seq<EndpointView>, x: EndpointView)
    ensures
        without(s, x).len() <= s.len(),
        without(s, x).len() == s.len() <==> !s.contains(x),
    decreases s.len(),
{
    if s.len() > 0 {
        lemma_without_len(s.drop_last(), x);
        if s.drop_last().contains(x) {
            let k = choose|k: int| 0 <= k < s.drop_last().len() && s.drop_last()[k] == x;
            assert(s[k] == x);
        }
        if s.contains(x) && s.last() != x {
            let k = choose|k: int| 0 <= k < s.len() && s[k] == x;
            assert(s.drop_last()[k] == x);
        }
        if s.last() == x {
            assert(s[s.len() - 1] == x);
        }
    }
}

/// Taking out an element that does not occur changes nothing.
pub proof fn lemma_without_absent(s: Seq<EndpointView>, x: EndpointView)
    requires
        !s.contains(x),
    ensures
        without(s, x) == s,
    decreases s.len(),
{
    if s.len() > 0 {
        if s.drop_last().contains(x) {
            let k = choose|k: int| 0 <= k < s.drop_last().len() && s.drop_last()[k] == x;
            assert(s[k] == x);
        }
        lemma_without_absent(s.drop_last(), x);
        assert(s[s.len() - 1] != x);
        assert(s.drop_last().push(s.last()) =~= s);
    }
}

/// The text that names a route between two endpoints.
fn route_string(source: &EndpointId, destination: &EndpointId) -> (r: String)
    ensures
        r@ == route_text(source@, destination@),
{
    let mut r = source.to_string();
    push_str(&mut r, " -> ");
    let d = destination.to_string();
    push_str(&mut r, d.as_str());
    r
}

/// A single route from source to destination.
pub struct Route {
    /// Source endpoint.
    pub source: EndpointId,
    /// Destination endpoint.
    pub destination: EndpointId,
    /// Volume control for this route.
    pub volume: VolumeControl,
    buffer: Arc<RingBuffer>,
}

impl View for Route {
    /// The route's source and destination.
    type V = (EndpointView, EndpointView);

    closed spec fn view(&self) -> (EndpointView, EndpointView) {
        (self.source@, self.destination@)
    }
}

impl Route {
    /// The route's buffer.
    pub closed spec fn buffer_spec(&self) -> RingBuffer {
        *self.buffer
    }

    /// Creates a route with an empty buffer of `buffer_size` samples,
    /// rounded up to a power of two.
    pub fn new(source: EndpointId, destination: EndpointId, buffer_size: usize) -> (r: Self)
        requires
            buffer_size <= usize::MAX / 2 + 1,
        ensures
            r@ == (source@, destination@),
            r.buffer_spec().wf(),
            r.buffer_spec()@ == Seq::<u32>::empty(),
            is_capacity_for(r.buffer_spec().cap_log2(), buffer_size as nat),
    {
        Route { source, destination, volume: VolumeControl::new(), buffer: Arc::new(RingBuffer::new(buffer_size)) }
    }

    /// The route's buffer.
    pub fn buffer(&self) -> (r: &RingBuffer)
        ensures
            *r == self.buffer_spec(),
    {
        &*self.buffer
    }
}

/// The routes feeding one destination, as values: the destination and its
/// sources in the order their routes were added.
pub type DestinationView = (EndpointView, Seq<EndpointView>);

/// The key of a destination's entry.
pub open spec fn destination_key() -> spec_fn(DestinationView) -> EndpointView {
    |e: DestinationView| e.0
}

/// The main routing matrix.
pub struct RoutingMatrix {
    routes: Vec<(EndpointId, Vec<Arc<Route>>)>,
}

/// The value of one destination's entry.
pub open spec fn entry_view(e: (EndpointId, Vec<Arc<Route>>)) -> DestinationView {
    (e.0@, e.1@.map_values(|r: Arc<Route>| r@.0))
}

impl View for RoutingMatrix {
    type V = Map<EndpointView, Seq<EndpointView>>;

    /// For each destination with routes, the sources of its routes in the
    /// order they were added.
    closed spec fn view(&self) -> Map<EndpointView, Seq<EndpointView>> {
        keyed_map(self.table(), destination_key()).map_values(|e: DestinationView| e.1)
    }
}

impl RoutingMatrix {
    /// The entries, one per destination, in the order destinations first
    /// got a route.
    pub closed spec fn table(&self) -> Seq<DestinationView> {
        self.routes@.map_values(|e: (EndpointId, Vec<Arc<Route>>)| entry_view(e))
    }

    /// The number of routes.
    pub closed spec fn total(&self) -> nat {
        entries_total(self.table())
    }

    /// No destination twice, none without routes, every route filed under
    /// its own destination, and a route count that fits a `usize`.
    pub closed spec fn wf(&self) -> bool {
        &&& keys_distinct(self.table(), destination_key())
        &&& forall|i: int| 0 <= i < self.routes@.len() ==> (#[trigger] self.routes@[i]).1@.len() > 0
        &&& forall|i: int, j: int|
            0 <= i < self.routes@.len() && 0 <= j < self.routes@[i].1@.len() ==> (#[trigger] self.routes@[i].1@[j])@.1
                == self.routes@[i].0@
        &&& entries_total(self.table()) <= usize::MAX
    }

    /// Creates an empty matrix.
    pub fn new() -> (r: Self)
        ensures
            r.wf(),
            r@ == Map::<EndpointView, Seq<EndpointView>>::empty(),
            r.total() == 0,
    {
        let r = RoutingMatrix { routes: Vec::new() };
        proof {
            assert(r.table() =~= Seq::<DestinationView>::empty());
            lemma_keyed_empty(destination_key());
            assert(r@ =~= Map::<EndpointView, Seq<EndpointView>>::empty());
        }
        r
    }

    fn find(&self, destination: &EndpointId) -> (r: Option<usize>)
        requires
            self.wf(),
        ensures
            r is None ==> !has_key(self.table(), destination_key(), destination@),
            r matches Some(i) ==> i < self.routes@.len() && self.routes@[i as int].0@ == destination@,
    {
        let mut i: usize = 0;
        while i < self.routes.len()
            invariant
                i <= self.routes@.len(),
                forall|j: int| 0 <= j < i ==> (#[trigger] self.routes@[j]).0@ != destination@,
            decreases self.routes.len() - i,
        {
            if self.routes[i].0.same_as(destination) {
                return Some(i);
            }
            i = i + 1;
        }
        proof {
            if has_key(self.table(), destination_key(), destination@) {
                let j = choose|j: int| 0 <= j < self.table().len() && #[trigger] destination_key()(self.table()[j]) == destination@;
                assert(self.table()[j] == entry_view(self.routes@[j]));
            }
        }
        None
    }

    /// The sources of the routes into `destination`, oldest first; empty
    /// where it has none.
    pub open spec fn sources_to(&self, destination: EndpointView) -> Seq<EndpointView> {
        if self@.contains_key(destination) {
            self@[destination]
        } else {
            Seq::empty()
        }
    }

    /// Adds a route with a buffer of `buffer_size` samples (rounded up to a
    /// power of two). A route between the same endpoints may be added more
    /// than once.
    pub fn add_route(&mut self, source: EndpointId, destination: EndpointId, buffer_size: usize)
        requires
            old(self).wf(),
            buffer_size <= usize::MAX / 2 + 1,
            old(self).total() < usize::MAX,
        ensures
            final(self).wf(),
            final(self)@ == old(self)@.insert(destination@, old(self).sources_to(destination@).push(source@)),
            final(self).total() == old(self).total() + 1,
    {
        let ghost t0 = self.table();
        let ghost s = source@;
        let ghost d = destination@;
        let route = Arc::new(Route::new(source, destination.clone(), buffer_size));
        match self.find(&destination) {
            Some(i) => {
                let ghost old_entry = self.routes@[i as int];
                let mut entry = self.routes.remove(i);
                entry.1.push(route);
                self.routes.insert(i, entry);
                proof {
                    let ev = (d, t0[i as int].1.push(s));
                    assert(entry_view(self.routes@[i as int]) == ev) by {
                        assert(self.routes@[i as int].1@.map_values(|r: Arc<Route>| r@.0) =~= old_entry.1@.map_values(
                            |r: Arc<Route>| r@.0,
                        ).push(s));
                    }
                    assert(self.table() =~= t0.update(i as int, ev));
                    lemma_keyed_update(t0, destination_key(), i as int, ev);
                    lemma_keyed_at(t0, destination_key(), i as int);
                    lemma_entries_total_update(t0, i as int, ev);
                    assert(self@ =~= old(self)@.insert(d, old(self).sources_to(d).push(s)));
                }
            },
            None => {
                let mut list: Vec<Arc<Route>> = Vec::new();
                list.push(route);
                self.routes.push((destination, list));
                proof {
                    let ev = (d, seq![s]);
                    assert(entry_view(self.routes@[self.routes@.len() - 1]) == ev) by {
                        assert(self.routes@[self.routes@.len() - 1].1@.map_values(|r: Arc<Route>| r@.0) =~= seq![s]);
                    }
                    assert(self.table() =~= t0.push(ev));
                    lemma_keyed_push(t0, destination_key(), ev);
                    assert(t0.push(ev).drop_last() =~= t0);
                    assert(old(self).sources_to(d) == Seq::<EndpointView>::empty());
                    assert(seq![s] =~= Seq::<EndpointView>::empty().push(s));
                    assert(self@ =~= old(self)@.insert(d, old(self).sources_to(d).push(s)));
                }
            },
        }
    }

    /// Removes every route from `source` into `destination`; the
    /// destination goes when its last route does. Fails, changing nothing,
    /// where there is no such route.
    pub fn remove_route(&mut self, source: &EndpointId, destination: &EndpointId) -> (r: Result<(), Error>)
        requires
            old(self).wf(),
        ensures
            final(self).wf(),
            r is Ok <==> old(self).sources_to(destination@).contains(source@),
            r is Ok ==> ({
                let rest = without(old(self).sources_to(destination@), source@);
                &&& final(self)@ == if rest.len() == 0 {
                    old(self)@.remove(destination@)
                } else {
                    old(self)@.insert(destination@, rest)
                }
                &&& final(self).total() + old(self).sources_to(destination@).len() == old(self).total() + rest.len()
            }),
            r matches Err(e) ==> e@ == ErrorView::RouteNotFound(route_text(source@, destination@)) && final(self)@
                == old(self)@ && final(self).total() == old(self).total(),
    {
        let ghost t0 = self.table();
        let ghost s = source@;
        let ghost d = destination@;
        match self.find(destination) {
            None => {
                proof {
                    assert(!old(self)@.contains_key(d));
                    assert(old(self).sources_to(d) =~= Seq::<EndpointView>::empty());
                }
                Err(Error::RouteNotFound(route_string(source, destination)))
            },
            Some(i) => {
                proof {
                    lemma_keyed_at(t0, destination_key(), i as int);
                    assert(old(self).sources_to(d) == t0[i as int].1);
                }
                let ghost srcs = t0[i as int].1;
                let entry = self.routes.remove(i);
                let ghost rest0 = self.routes@;
                assert(entry.1@.map_values(|r: Arc<Route>| r@.0) == srcs);
                let mut kept: Vec<Arc<Route>> = Vec::new();
                let mut j: usize = 0;
                while j < entry.1.len()
                    invariant
                        j <= entry.1@.len(),
                        s == source@,
                        entry.1@.map_values(|r: Arc<Route>| r@.0) == srcs,
                        kept@.map_values(|r: Arc<Route>| r@.0) == without(srcs.take(j as int), s),
                        forall|k: int| 0 <= k < kept@.len() ==> (#[trigger] kept@[k])@.1 == d,
                        forall|k: int| 0 <= k < entry.1@.len() ==> (#[trigger] entry.1@[k])@.1 == d,
                    decreases entry.1.len() - j,
                {
                    let ghost before = kept@;
                    assert(srcs.take(j + 1).drop_last() =~= srcs.take(j as int));
                    assert(srcs.take(j + 1).last() == entry.1@[j as int]@.0);
                    let ghost x = entry.1@[j as int]@.0;
                    assert(x == entry.1@[j as int].source@);
                    if !entry.1[j].source.same_as(source) {
                        kept.push(share(&entry.1[j]));
                        assert(kept@.map_values(|r: Arc<Route>| r@.0) =~= before.map_values(|r: Arc<Route>| r@.0).push(
                            x,
                        ));
                        assert(without(srcs.take(j + 1), s) == without(srcs.take(j as int), s).push(x));
                    } else {
                        assert(without(srcs.take(j + 1), s) == without(srcs.take(j as int), s));
                    }
                    j = j + 1;
                }
                assert(srcs.take(srcs.len() as int) =~= srcs);
                proof {
                    lemma_without_len(srcs, s);
                }
                if kept.len() == entry.1.len() {
                    self.routes.insert(i, entry);
                    proof {
                        assert(self.routes@ =~= old(self).routes@);
                        assert(self.table() =~= t0);
                    }
                    return Err(Error::RouteNotFound(route_string(source, destination)));
                }
                if kept.len() == 0 {
                    proof {
                        assert(self.table() =~= t0.remove(i as int));
                        lemma_keyed_remove(t0, destination_key(), i as int);
                        lemma_entries_total_remove(t0, i as int);
                        assert(self@ =~= old(self)@.remove(d));
                    }
                } else {
                    let ghost rest = without(srcs, s);
                    self.routes.insert(i, (entry.0, kept));
                    proof {
                        let ev = (d, rest);
                        assert(entry_view(self.routes@[i as int]) == ev);
                        assert(self.table() =~= t0.update(i as int, ev));
                        lemma_keyed_update(t0, destination_key(), i as int, ev);
                        lemma_entries_total_update(t0, i as int, ev);
                        assert(self@ =~= old(self)@.insert(d, rest));
                        assert forall|a: int, b: int|
                            0 <= a < self.routes@.len() && 0 <= b < self.routes@[a].1@.len() implies (
                            #[trigger] self.routes@[a].1@[b])@.1 == self.routes@[a].0@ by {
                            if a != i {
                                assert(self.routes@[a] == old(self).routes@[a]);
                            }
                        }
                    }
                }
                Ok(())
            },
        }
    }

    /// The routes into `destination`, oldest first; empty where it has
    /// none.
    pub fn routes_to(&self, destination: &EndpointId) -> (r: Vec<Arc<Route>>)
        requires
            self.wf(),
        ensures
            r@.len() == self.sources_to(destination@).len(),
            forall|k: int| 0 <= k < r@.len() ==> (#[trigger] r@[k])@ == (self.sources_to(destination@)[k], destination@),
    {
        let mut out: Vec<Arc<Route>> = Vec::new();
        match self.find(destination) {
            None => {
                proof {
                    assert(!self@.contains_key(destination@));
                }
                out
            },
            Some(i) => {
                proof {
                    lemma_keyed_at(self.table(), destination_key(), i as int);
                }
                let list = &self.routes[i].1;
                let ghost srcs = self.table()[i as int].1;
                assert(list@.map_values(|r: Arc<Route>| r@.0) == srcs);
                assert(self.sources_to(destination@) == srcs);
                let mut j: usize = 0;
                while j < list.len()
                    invariant
                        j <= list@.len(),
                        out@.len() == j,
                        list@.map_values(|r: Arc<Route>| r@.0) == srcs,
                        forall|k: int| 0 <= k < list@.len() ==> (#[trigger] list@[k])@.1 == destination@,
                        forall|k: int| 0 <= k < j ==> (#[trigger] out@[k])@ == (srcs[k], destination@),
                    decreases list.len() - j,
                {
                    assert(list@.map_values(|r: Arc<Route>| r@.0)[j as int] == list@[j as int]@.0);
                    out.push(share(&list[j]));
                    j = j + 1;
                }
                out
            },
        }
    }

    /// The total number of routes.
    pub fn route_count(&self) -> (r: usize)
        requires
            self.wf(),
        ensures
            r == self.total(),
    {
        let ghost t = self.table();
        let mut sum: usize = 0;
        let mut i: usize = 0;
        assert(t.take(0) =~= Seq::<DestinationView>::empty());
        while i < self.routes.len()
            invariant
                i <= self.routes@.len(),
                t == self.table(),
                t.len() == self.routes@.len(),
                sum == entries_total(t.take(i as int)),
                entries_total(t) <= usize::MAX,
            decreases self.routes.len() - i,
        {
            proof {
                lemma_entries_total_prefix(t, i as int);
                lemma_entries_total_prefix(t, i + 1);
                assert(t[i as int].1.len() == self.routes@[i as int].1@.len());
            }
            sum = sum + self.routes[i].1.len();
            i = i + 1;
        }
        assert(t.take(t.len() as int) =~= t);
        sum
    }
}

impl Default for RoutingMatrix {
    fn default() -> (r: Self)
        ensures
            r.wf(),
            r@ == Map::<EndpointView, Seq<EndpointView>>::empty(),
            r.total() == 0,
    {
        Self::new()
    }
}

/// Adding a route and then removing it leaves the matrix as it was, where
/// no route from that source into that destination existed before.
pub proof fn law_add_then_remove_route(matrix: RoutingMatrix, source: EndpointView, destination: EndpointView)
    requires
        matrix.wf(),
        !matrix.sources_to(destination).contains(source),
    ensures
        ({
            let added = matrix@.insert(destination, matrix.sources_to(destination).push(source));
            let rest = without(added[destination], source);
            &&& added[destination].contains(source)
            &&& rest == matrix.sources_to(destination)
            &&& (if rest.len() == 0 {
                added.remove(destination)
            } else {
                added.insert(destination, rest)
            }) == matrix@
        }),
{
    let srcs = matrix.sources_to(destination);
    let added = matrix@.insert(destination, srcs.push(source));
    assert(added[destination][srcs.len() as int] == source);
    assert(srcs.push(source).drop_last() =~= srcs);
    lemma_without_absent(srcs, source);
    if srcs.len() == 0 {
        if matrix@.contains_key(destination) {
            let t = matrix.table();
            let i = choose|i: int| 0 <= i < t.len() && #[trigger] destination_key()(t[i]) == destination;
            lemma_keyed_at(t, destination_key(), i);
            assert(t[i] == entry_view(matrix.routes@[i]));
            assert(matrix.routes@[i].1@.len() > 0);
        }
        assert(added.remove(destination) =~= matrix@);
    } else {
        assert(added.insert(destination, srcs) =~= matrix@);
    }
}

} // verus!
