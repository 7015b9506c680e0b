//! The audio engine: source connections grouped under the destination
//! channels they feed.

use vstd::prelude::*;
use crate::connection::{ConnectionId, ConnectionIdView, SourceConnection, endpoint_text};
use crate::destination::{DestinationChannel, HeadroomMode, source_ids};
use crate::error::{Error, ErrorView};
use crate::keyed::{
    entries_total, has_key, keyed_map, keys_distinct, lemma_entries_total_prefix, lemma_entries_total_update,
    lemma_keyed_at, lemma_keyed_empty, lemma_keyed_len, lemma_keyed_push, lemma_keyed_update,
};
use crate::text::str_equal;

verus! {

/// Default buffer size of a connection, in samples.
pub const DEFAULT_BUFFER_SIZE: usize = 256;

/// Configuration of the audio engine.
#[derive(Debug, Clone, Copy)]
pub struct EngineConfig {
    /// Default buffer size of connections.
    pub buffer_size: usize,
    /// Default headroom mode of destinations.
    pub default_headroom_mode: HeadroomMode,
}

impl Default for EngineConfig {
    fn default() -> (r: Self)
        ensures
            r.buffer_size == DEFAULT_BUFFER_SIZE,
            r.default_headroom_mode == HeadroomMode::Clip,
    {
        EngineConfig { buffer_size: DEFAULT_BUFFER_SIZE, default_headroom_mode: HeadroomMode::Clip }
    }
}

/// The destination a connection feeds: the textual form of its
/// destination end.
pub open spec fn destination_of(c: ConnectionIdView) -> Seq<char> {
    endpoint_text(c.destination_node, c.destination_device, c.destination_channel)
}

/// The textual form of a connection: `{source}->{destination}`.
pub open spec fn connection_text(c: ConnectionIdView) -> Seq<char> {
    endpoint_text(c.source_node, c.source_device, c.source_channel) + "->"@ + destination_of(c)
}

/// One destination as values: its identifier and the connections feeding
/// it, in the order they were created.
pub type DestinationEntry = (Seq<char>, Seq<ConnectionIdView>);

/// The key of a destination's entry.
pub open spec fn entry_key() -> spec_fn(DestinationEntry) -> Seq<char> {
    |e: DestinationEntry| e.0
}

/// The entry of a destination channel.
pub open spec fn destination_entry(d: DestinationChannel) -> DestinationEntry {
    (d.id_spec(), source_ids(d.sources_spec()))
}

/// `s` without the occurrences of `x`.
pub open spec fn omit<T>(s: Seq<T>, x: T) -> Seq<T> {
    s.filter(|c: T| c != x)
}

/// Leaving out a value that does not occur leaves the sequence as it was.
proof fn lemma_filter_absent<T>(s: Seq<T>, x: T)
    requires
        !s.contains(x),
    ensures
        omit(s, x) == s,
    decreases s.len(),
{
    reveal(Seq::filter);
    if s.len() > 0 {
        let t = s.drop_last();
        assert(!t.contains(x)) by {
            if t.contains(x) {
                let j = choose|j: int| 0 <= j < t.len() && t[j] == x;
                assert(s[j] == x);
            }
        }
        lemma_filter_absent(t, x);
        assert(s.last() != x) by {
            if s.last() == x {
                assert(s[s.len() - 1] == x);
            }
        }
        assert(t.push(s.last()) =~= s);
    }
}

/// Leaving out a value that occurs once removes exactly that occurrence.
proof fn lemma_filter_out_unique<T>(s: Seq<T>, x: T)
    requires
        s.no_duplicates(),
        s.contains(x),
    ensures
        omit(s, x).len() + 1 == s.len(),
        omit(s, x).no_duplicates(),
        forall|c: T| #[trigger] omit(s, x).contains(c) == (s.contains(c) && c != x),
    decreases s.len(),
{
    reveal(Seq::filter);
    let p = |c: T| c != x;
    let t = s.drop_last();
    let l = s.last();
    assert(t.no_duplicates()) by {
        assert forall|a: int, b: int| 0 <= a < t.len() && 0 <= b < t.len() && a != b implies t[a] != t[b] by {
            assert(t[a] == s[a] && t[b] == s[b]);
        }
    }
    assert(!t.contains(l)) by {
        if t.contains(l) {
            let j = choose|j: int| 0 <= j < t.len() && t[j] == l;
            assert(s[j] == s[s.len() - 1]);
        }
    }
    assert forall|c: T| s.contains(c) == (t.contains(c) || c == l) by {
        if s.contains(c) {
            let j = choose|j: int| 0 <= j < s.len() && s[j] == c;
            if j < s.len() - 1 {
                assert(t[j] == c);
            }
        }
        if t.contains(c) {
            let j = choose|j: int| 0 <= j < t.len() && t[j] == c;
            assert(s[j] == c);
        }
        if c == l {
            assert(s[s.len() - 1] == c);
        }
    }
    if l == x {
        lemma_filter_absent(t, x);
        assert(s.filter(p) == t);
        assert(omit(s, x) == t);
        assert forall|c: T| #[trigger] omit(s, x).contains(c) == (s.contains(c) && c != x) by {
            if c == x {
                assert(!t.contains(c));
            }
        }
    } else {
        assert(t.contains(x));
        lemma_filter_out_unique(t, x);
        let f = t.filter(p);
        assert(f == omit(t, x));
        assert(s.filter(p) == f.push(l));
        assert(omit(s, x) == f.push(l));
        assert(!f.contains(l));
        assert forall|c: T| f.push(l).contains(c) == (f.contains(c) || c == l) by {
            if f.push(l).contains(c) {
                let j = choose|j: int| 0 <= j < f.len() + 1 && f.push(l)[j] == c;
                if j < f.len() {
                    assert(f[j] == c);
                }
            }
            if f.contains(c) {
                let j = choose|j: int| 0 <= j < f.len() && f[j] == c;
                assert(f.push(l)[j] == c);
            }
            if c == l {
                assert(f.push(l)[f.len() as int] == c);
            }
        }
        assert(f.push(l).no_duplicates()) by {
            assert forall|a: int, b: int|
                0 <= a < f.len() + 1 && 0 <= b < f.len() + 1 && a != b implies f.push(l)[a] != f.push(l)[b] by {
                if a < f.len() && b < f.len() {
                    assert(f.push(l)[a] == f[a] && f.push(l)[b] == f[b]);
                } else if a < f.len() {
                    assert(f.push(l)[a] == f[a]);
                    assert(f.contains(f[a]));
                } else if b < f.len() {
                    assert(f.push(l)[b] == f[b]);
                    assert(f.contains(f[b]));
                }
            }
        }
        assert forall|c: T| #[trigger] omit(s, x).contains(c) == (s.contains(c) && c != x) by {
            assert(omit(t, x).contains(c) == (t.contains(c) && c != x));
        }
    }
}

/// The identifiers of the sources kept are the identifiers kept.
proof fn lemma_source_ids_filter(s: Seq<SourceConnection>, x: ConnectionIdView)
    ensures
        source_ids(s.filter(|c: SourceConnection| c.id_spec() != x)) == omit(source_ids(s), x),
    decreases s.len(),
{
    reveal(Seq::filter);
    let p = |c: SourceConnection| c.id_spec() != x;
    let q = |v: ConnectionIdView| v != x;
    if s.len() == 0 {
        assert(source_ids(s) =~= Seq::<ConnectionIdView>::empty());
        assert(source_ids(s.filter(p)) =~= Seq::<ConnectionIdView>::empty());
    } else {
        let t = s.drop_last();
        lemma_source_ids_filter(t, x);
        assert(source_ids(s).drop_last() =~= source_ids(t));
        assert(source_ids(s).last() == s.last().id_spec());
        if p(s.last()) {
            assert(source_ids(t.filter(p).push(s.last())) =~= source_ids(t.filter(p)).push(s.last().id_spec()));
        }
    }
}

/// The identifiers of a list of connection identifiers, as values.
pub open spec fn id_views(ids: Seq<ConnectionId>) -> Seq<ConnectionIdView> {
    ids.map_values(|c: ConnectionId| c@)
}

/// The number of successes in a list of results.
pub open spec fn ok_count(rs: Seq<Result<(), Error>>) -> nat
    decreases rs.len(),
{
    if rs.len() == 0 {
        0
    } else {
        ok_count(rs.drop_last()) + if rs.last() is Ok {
            1nat
        } else {
            0nat
        }
    }
}

/// Whether `c` is among the first `n` values of `s`: one more value to
/// look at adds just that value.
proof fn lemma_take_contains_step<T>(s: Seq<T>, n: int, c: T)
    requires
        0 <= n < s.len(),
    ensures
        s.take(n + 1).contains(c) == (s.take(n).contains(c) || c == s[n]),
{
    let t = s.take(n + 1);
    let u = s.take(n);
    if t.contains(c) {
        let j = choose|j: int| 0 <= j < t.len() && t[j] == c;
        if j < n {
            assert(u[j] == c);
        }
    }
    if u.contains(c) {
        let j = choose|j: int| 0 <= j < u.len() && u[j] == c;
        assert(t[j] == c);
    }
    if c == s[n] {
        assert(t[n] == c);
    }
}

/// The connections listed in a table of destinations.
pub open spec fn listed(t: Seq<DestinationEntry>) -> Set<ConnectionIdView>
    decreases t.len(),
{
    if t.len() == 0 {
        Set::empty()
    } else {
        listed(t.drop_last()).union(t.last().1.to_set())
    }
}

/// In a table where destinations are distinct, each lists its connections
/// once and only connections that feed it, the connections listed number
/// as many as the entries hold.
proof fn lemma_listed(t: Seq<DestinationEntry>)
    requires
        keys_distinct(t, entry_key()),
        forall|i: int, j: int|
            0 <= i < t.len() && 0 <= j < t[i].1.len() ==> destination_of(#[trigger] t[i].1[j]) == t[i].0,
        forall|i: int| 0 <= i < t.len() ==> (#[trigger] t[i]).1.no_duplicates(),
    ensures
        listed(t).finite(),
        listed(t).len() == entries_total(t),
        forall|c: ConnectionIdView| #[trigger]
            listed(t).contains(c) <==> exists|i: int| 0 <= i < t.len() && (#[trigger] t[i]).1.contains(c),
    decreases t.len(),
{
    broadcast use vstd::seq_lib::seq_to_set_is_finite;
    if t.len() == 0 {
        return;
    }
    let u = t.drop_last();
    let n = u.len() as int;
    let l = t.last();
    assert forall|a: int, b: int|
        0 <= a < u.len() && 0 <= b < u.len() && #[trigger] entry_key()(u[a]) == #[trigger] entry_key()(u[b]) implies a == b by {
        assert(u[a] == t[a] && u[b] == t[b]);
        assert(entry_key()(t[a]) == entry_key()(t[b]));
    }
    assert forall|i: int, j: int| 0 <= i < u.len() && 0 <= j < u[i].1.len() implies destination_of(
        #[trigger] u[i].1[j],
    ) == u[i].0 by {
        assert(u[i] == t[i]);
        assert(destination_of(t[i].1[j]) == t[i].0);
    }
    assert forall|i: int| 0 <= i < u.len() implies (#[trigger] u[i]).1.no_duplicates() by {
        assert(u[i] == t[i]);
    }
    lemma_listed(u);
    l.1.unique_seq_to_set();
    assert(listed(u).disjoint(l.1.to_set())) by {
        assert forall|c: ConnectionIdView| listed(u).contains(c) implies !l.1.to_set().contains(c) by {
            let i = choose|i: int| 0 <= i < u.len() && (#[trigger] u[i]).1.contains(c);
            let j = choose|j: int| 0 <= j < u[i].1.len() && u[i].1[j] == c;
            assert(u[i] == t[i]);
            assert(destination_of(t[i].1[j]) == t[i].0);
            if l.1.contains(c) {
                let k = choose|k: int| 0 <= k < l.1.len() && l.1[k] == c;
                assert(t[n] == l);
                assert(destination_of(t[n].1[k]) == t[n].0);
                assert(entry_key()(t[i]) == entry_key()(t[n]));
            }
        }
    }
    vstd::set_lib::lemma_set_disjoint_lens(listed(u), l.1.to_set());
    assert(listed(t) == listed(u) + l.1.to_set());
    assert forall|c: ConnectionIdView| #[trigger]
        listed(t).contains(c) <==> exists|i: int| 0 <= i < t.len() && (#[trigger] t[i]).1.contains(c) by {
        if listed(t).contains(c) {
            if listed(u).contains(c) {
                let i = choose|i: int| 0 <= i < u.len() && (#[trigger] u[i]).1.contains(c);
                assert(t[i] == u[i]);
            } else {
                assert(t[n].1.contains(c));
            }
        }
        if exists|i: int| 0 <= i < t.len() && (#[trigger] t[i]).1.contains(c) {
            let i = choose|i: int| 0 <= i < t.len() && (#[trigger] t[i]).1.contains(c);
            if i < n {
                assert(u[i] == t[i]);
                assert(listed(u).contains(c));
            } else {
                assert(l.1.to_set().contains(c));
            }
        }
    }
}

/// The main audio routing engine: every connection is held by the
/// destination channel it feeds, and a destination, once made, stays.
pub struct AudioEngine {
    config: EngineConfig,
    destinations: Vec<DestinationChannel>,
}

impl View for AudioEngine {
    type V = Map<Seq<char>, Seq<ConnectionIdView>>;

    /// For each destination, the connections feeding it, oldest first.
    closed spec fn view(&self) -> Map<Seq<char>, Seq<ConnectionIdView>> {
        keyed_map(self.table(), entry_key()).map_values(|e: DestinationEntry| e.1)
    }
}

impl AudioEngine {
    /// The destinations, in the order they were made.
    pub closed spec fn table(&self) -> Seq<DestinationEntry> {
        self.destinations@.map_values(|d: DestinationChannel| destination_entry(d))
    }

    /// The engine's configuration.
    pub closed spec fn config_spec(&self) -> EngineConfig {
        self.config
    }

    /// The number of connections.
    pub closed spec fn total(&self) -> nat {
        entries_total(self.table())
    }

    /// No destination twice, every connection held by its own destination
    /// and by it once, a buffer size that can be rounded up to a power of
    /// two, and a connection count that fits a `usize`.
    pub closed spec fn wf(&self) -> bool {
        &&& self.config.buffer_size <= usize::MAX / 2 + 1
        &&& keys_distinct(self.table(), entry_key())
        &&& forall|i: int| 0 <= i < self.destinations@.len() ==> (#[trigger] self.destinations@[i]).wf()
        &&& forall|i: int, j: int|
            0 <= i < self.table().len() && 0 <= j < self.table()[i].1.len() ==> destination_of(
                #[trigger] self.table()[i].1[j],
            ) == self.table()[i].0
        &&& forall|i: int| 0 <= i < self.table().len() ==> (#[trigger] self.table()[i]).1.no_duplicates()
        &&& entries_total(self.table()) <= usize::MAX
    }

    /// The connections feeding `destination`, oldest first; empty where
    /// there is no such destination.
    pub open spec fn sources_into(&self, destination: Seq<char>) -> Seq<ConnectionIdView> {
        if self@.contains_key(destination) {
            self@[destination]
        } else {
            Seq::empty()
        }
    }

    /// Whether connection `c` exists.
    pub open spec fn has_connection(&self, c: ConnectionIdView) -> bool {
        self.sources_into(destination_of(c)).contains(c)
    }

    /// The connections that exist.
    pub open spec fn connections(&self) -> Set<ConnectionIdView> {
        Set::new(|c: ConnectionIdView| self.has_connection(c))
    }

    /// The connections that exist are those the destinations list, and
    /// there are as many as the count says.
    proof fn lemma_connections(&self)
        requires
            self.wf(),
        ensures
            self.connections() == listed(self.table()),
            self.connections().finite(),
            self.connections().len() == self.total(),
    {
        let t = self.table();
        lemma_listed(t);
        assert forall|c: ConnectionIdView| self.connections().contains(c) == listed(t).contains(c) by {
            let k = destination_of(c);
            if self.has_connection(c) {
                let i = choose|i: int| 0 <= i < t.len() && #[trigger] entry_key()(t[i]) == k;
                self.lemma_entry_at(i);
                assert(t[i].1.contains(c));
            }
            if listed(t).contains(c) {
                let i = choose|i: int| 0 <= i < t.len() && (#[trigger] t[i]).1.contains(c);
                let j = choose|j: int| 0 <= j < t[i].1.len() && t[i].1[j] == c;
                assert(destination_of(t[i].1[j]) == t[i].0);
                self.lemma_entry_at(i);
            }
        }
        assert(self.connections() =~= listed(t));
    }

    /// The view's entry for the destination at a position.
    proof fn lemma_entry_at(&self, i: int)
        requires
            self.wf(),
            0 <= i < self.table().len(),
        ensures
            self@.contains_key(self.table()[i].0),
            self@[self.table()[i].0] == self.table()[i].1,
            self.table()[i] == destination_entry(self.destinations@[i]),
    {
        lemma_keyed_at(self.table(), entry_key(), i);
    }

    /// The record of connection `c`: the source that its destination holds
    /// under its identifier (meaningful where the connection exists).
    pub closed spec fn source_state(&self, c: ConnectionIdView) -> SourceConnection {
        let i = choose|i: int|
            0 <= i < self.destinations@.len() && #[trigger] self.table()[i].0 == destination_of(c)
                && self.table()[i].1.contains(c);
        let j = choose|j: int|
            0 <= j < self.destinations@[i].sources_spec().len() && (#[trigger] self.destinations@[i].sources_spec()[j]).id_spec()
                == c;
        self.destinations@[i].sources_spec()[j]
    }

    /// A source found at a position is the record of its connection.
    proof fn lemma_source_at(&self, i: int, j: int)
        requires
            self.wf(),
            0 <= i < self.destinations@.len(),
            0 <= j < self.destinations@[i].sources_spec().len(),
        ensures
            self.has_connection(self.destinations@[i].sources_spec()[j].id_spec()),
            self.source_state(self.destinations@[i].sources_spec()[j].id_spec()) == self.destinations@[i].sources_spec()[j],
    {
        let t = self.table();
        let src = self.destinations@[i].sources_spec();
        let c = src[j].id_spec();
        self.lemma_entry_at(i);
        assert(t[i].1 == source_ids(src));
        assert(t[i].1[j] == c);
        assert(destination_of(t[i].1[j]) == t[i].0);
        assert(t[i].1.contains(c));
        let i2 = choose|i2: int|
            0 <= i2 < self.destinations@.len() && #[trigger] t[i2].0 == destination_of(c) && t[i2].1.contains(c);
        assert(entry_key()(t[i2]) == entry_key()(t[i]));
        assert(i2 == i);
        let j2 = choose|j2: int| 0 <= j2 < src.len() && (#[trigger] src[j2]).id_spec() == c;
        assert(t[i].1[j2] == c);
        assert(t[i].1.no_duplicates());
        assert(j2 == j);
    }

    /// An existing connection has a position.
    proof fn lemma_locate(&self, c: ConnectionIdView) -> (ij: (int, int))
        requires
            self.wf(),
            self.has_connection(c),
        ensures
            0 <= ij.0 < self.destinations@.len(),
            0 <= ij.1 < self.destinations@[ij.0].sources_spec().len(),
            self.destinations@[ij.0].sources_spec()[ij.1].id_spec() == c,
    {
        let t = self.table();
        let k = destination_of(c);
        assert(keyed_map(t, entry_key()).contains_key(k));
        let i = choose|i: int| 0 <= i < t.len() && #[trigger] entry_key()(t[i]) == k;
        self.lemma_entry_at(i);
        let src = self.destinations@[i].sources_spec();
        assert(t[i].1 == source_ids(src));
        assert(t[i].1.contains(c));
        let j = choose|j: int| 0 <= j < t[i].1.len() && t[i].1[j] == c;
        assert(src[j].id_spec() == t[i].1[j]);
        (i, j)
    }

    /// Creates an engine with the default configuration.
    pub fn new() -> (r: Self)
        ensures
            r.wf(),
            r.config_spec().buffer_size == DEFAULT_BUFFER_SIZE,
            r.config_spec().default_headroom_mode == HeadroomMode::Clip,
            r@ == Map::<Seq<char>, Seq<ConnectionIdView>>::empty(),
            r.total() == 0,
    {
        Self::with_config(EngineConfig::default())
    }

    /// Creates an engine with the given configuration.
    pub fn with_config(config: EngineConfig) -> (r: Self)
        requires
            config.buffer_size <= usize::MAX / 2 + 1,
        ensures
            r.wf(),
            r.config_spec() == config,
            r@ == Map::<Seq<char>, Seq<ConnectionIdView>>::empty(),
            r.total() == 0,
    {
        let r = AudioEngine { config, destinations: Vec::new() };
        proof {
            assert(r.table() =~= Seq::<DestinationEntry>::empty());
            lemma_keyed_empty(entry_key());
            assert(r@ =~= Map::<Seq<char>, Seq<ConnectionIdView>>::empty());
        }
        r
    }

    /// The engine's configuration.
    pub fn config(&self) -> (r: EngineConfig)
        ensures
            r == self.config_spec(),
    {
        self.config
    }

    fn find_destination(&self, key: &str) -> (r: Option<usize>)
        requires
            self.wf(),
        ensures
            r is None ==> !self@.contains_key(key@),
            r matches Some(i) ==> i < self.destinations@.len() && self.table()[i as int].0 == key@,
    {
        let mut i: usize = 0;
        while i < self.destinations.len()
            invariant
                i <= self.destinations@.len(),
                forall|j: int| 0 <= j < i ==> (#[trigger] self.destinations@[j]).id_spec() != key@,
            decreases self.destinations.len() - i,
        {
            if str_equal(self.destinations[i].id(), key) {
                return Some(i);
            }
            i = i + 1;
        }
        proof {
            let t = self.table();
            if self@.contains_key(key@) {
                assert(keyed_map(t, entry_key()).contains_key(key@));
                let j = choose|j: int| 0 <= j < t.len() && #[trigger] entry_key()(t[j]) == key@;
                assert(t[j] == destination_entry(self.destinations@[j]));
            }
        }
        None
    }

    fn find_source(&self, i: usize, id: &ConnectionId) -> (r: Option<usize>)
        requires
            self.wf(),
            i < self.destinations@.len(),
        ensures
            r is None ==> !self.table()[i as int].1.contains(id@),
            r matches Some(j) ==> j < self.table()[i as int].1.len() && self.table()[i as int].1[j as int] == id@,
    {
        let d = &self.destinations[i];
        let ghost ids = self.table()[i as int].1;
        assert(ids == source_ids(d.sources_spec()));
        let n = d.source_count();
        let mut j: usize = 0;
        while j < n
            invariant
                i < self.destinations@.len(),
                d == self.destinations@[i as int],
                ids == self.table()[i as int].1,
                n == d.sources_spec().len(),
                ids == source_ids(d.sources_spec()),
                j <= n,
                forall|k: int| 0 <= k < j ==> ids[k] != id@,
            decreases n - j,
        {
            assert(ids[j as int] == d.sources_spec()[j as int].id_spec());
            if d.source(j).id().same_as(id) {
                return Some(j);
            }
            j = j + 1;
        }
        None
    }

    /// The connection `id`, if it exists.
    pub fn get_connection(&self, id: &ConnectionId) -> (r: Option<&SourceConnection>)
        requires
            self.wf(),
        ensures
            r is Some <==> self.has_connection(id@),
            r matches Some(c) ==> c.id_spec() == id@ && c.wf() && *c == self.source_state(id@),
    {
        let key = id.destination_id();
        match self.find_destination(key.as_str()) {
            None => None,
            Some(i) => {
                proof {
                    self.lemma_entry_at(i as int);
                }
                match self.find_source(i, id) {
                    None => None,
                    Some(j) => {
                        let c = self.destinations[i].source(j);
                        proof {
                            assert(self.destinations@[i as int].wf());
                            assert(self.table()[i as int].1[j as int] == c.id_spec());
                            self.lemma_source_at(i as int, j as int);
                        }
                        Some(c)
                    },
                }
            },
        }
    }

    /// The destination `key`, made with the configured headroom mode where
    /// it did not exist; returns its position.
    fn ensure_destination(&mut self, key: String) -> (r: usize)
        requires
            old(self).wf(),
        ensures
            final(self).wf(),
            final(self).config_spec() == old(self).config_spec(),
            r < final(self).destinations@.len(),
            final(self).table()[r as int].0 == key@,
            final(self).total() == old(self).total(),
            old(self)@.contains_key(key@) ==> final(self).destinations@ == old(self).destinations@,
            !old(self)@.contains_key(key@) ==> final(self).table() == old(self).table().push(
                (key@, Seq::<ConnectionIdView>::empty()),
            ) && r == old(self).destinations@.len(),
    {
        match self.find_destination(key.as_str()) {
            Some(i) => {
                proof {
                    self.lemma_entry_at(i as int);
                }
                i
            },
            None => {
                let d = DestinationChannel::new(key.as_str(), self.config.buffer_size);
                d.set_headroom_mode(self.config.default_headroom_mode);
                let ghost dv = d;
                let ghost t0 = self.table();
                let ghost e = (key@, Seq::<ConnectionIdView>::empty());
                self.destinations.push(d);
                proof {
                    assert(source_ids(dv.sources_spec()) =~= Seq::<ConnectionIdView>::empty());
                    assert(self.table() =~= t0.push(e));
                    assert(!has_key(t0, entry_key(), key@)) by {
                        if has_key(t0, entry_key(), key@) {
                            assert(keyed_map(t0, entry_key()).contains_key(key@));
                            assert(old(self)@.contains_key(key@));
                        }
                    }
                    lemma_keyed_push(t0, entry_key(), e);
                    assert(t0.push(e).drop_last() =~= t0);
                    let t = self.table();
                    assert forall|a: int, b: int| 0 <= a < t.len() && 0 <= b < t[a].1.len() implies destination_of(
                        #[trigger] t[a].1[b],
                    ) == t[a].0 by {
                        assert(a < t0.len());
                        assert(t[a] == t0[a]);
                    }
                    assert forall|a: int| 0 <= a < t.len() implies (#[trigger] t[a]).1.no_duplicates() by {
                        if a < t0.len() {
                            assert(t[a] == t0[a]);
                        }
                    }
                    assert forall|a: int| 0 <= a < self.destinations@.len() implies (
                    #[trigger] self.destinations@[a]).wf() by {
                        if a < t0.len() {
                            assert(self.destinations@[a] == old(self).destinations@[a]);
                        }
                    }
                }
                self.destinations.len() - 1
            },
        }
    }

    /// Creates connection `id`, with an empty buffer of the configured size,
    /// under its destination, which is made where it did not exist. Fails,
    /// changing nothing, where the connection exists.
    pub fn create_connection(&mut self, id: ConnectionId) -> (r: Result<(), Error>)
        requires
            old(self).wf(),
            old(self).total() < usize::MAX,
        ensures
            final(self).wf(),
            final(self).config_spec() == old(self).config_spec(),
            old(self).has_connection(id@) ==> (r matches Err(e) && e@ == ErrorView::ConnectionExists(
                connection_text(id@),
            )) && final(self)@ == old(self)@ && final(self).total() == old(self).total(),
            !old(self).has_connection(id@) ==> r is Ok && final(self)@ == old(self)@.insert(
                destination_of(id@),
                old(self).sources_into(destination_of(id@)).push(id@),
            ) && final(self).total() == old(self).total() + 1,
            forall|c: ConnectionIdView| #[trigger]
                final(self).has_connection(c) == (old(self).has_connection(c) || c == id@),
            !old(self).has_connection(id@) ==> !final(self).source_state(id@).muted_spec(),
            !old(self).has_connection(id@) ==> final(self).source_state(id@).enabled_spec(),
            !old(self).has_connection(id@) ==> final(self).source_state(id@).buffer_spec()@ == Seq::<u32>::empty(),
    {
        if self.get_connection(&id).is_some() {
            return Err(Error::ConnectionExists(id.to_string()));
        }
        let key = id.destination_id();
        let ghost k = key@;
        let ghost idv = id@;
        let ghost t0 = self.table();
        let i = self.ensure_destination(key);
        let ghost t1 = self.table();
        let ghost mid = *self;
        let c = SourceConnection::new(id, self.config.buffer_size);
        let ghost cv = c;
        self.destinations[i as usize].add_source(c);
        proof {
            let old_ids = t1[i as int].1;
            let e = (k, old_ids.push(idv));
            assert(old(self).sources_into(k) == old_ids) by {
                if old(self)@.contains_key(k) {
                    mid.lemma_entry_at(i as int);
                    assert(mid.destinations@ == old(self).destinations@);
                    assert(t1 == t0);
                    old(self).lemma_entry_at(i as int);
                } else {
                    assert(t1[i as int] == (k, Seq::<ConnectionIdView>::empty()));
                }
            }
            assert(!old_ids.contains(idv));
            assert(self.destinations@ == mid.destinations@.update(i as int, self.destinations@[i as int]));
            assert(source_ids(self.destinations@[i as int].sources_spec()) =~= old_ids.push(idv)) by {
                assert(mid.table()[i as int] == destination_entry(mid.destinations@[i as int]));
            }
            assert(self.table() =~= t1.update(i as int, e));
            lemma_keyed_update(t1, entry_key(), i as int, e);
            lemma_entries_total_update(t1, i as int, e);
            mid.lemma_entry_at(i as int);
            let t = self.table();
            assert forall|a: int, b: int| 0 <= a < t.len() && 0 <= b < t[a].1.len() implies destination_of(
                #[trigger] t[a].1[b],
            ) == t[a].0 by {
                if a != i {
                    assert(t[a] == t1[a]);
                } else if b < old_ids.len() {
                    assert(t[a].1[b] == t1[a].1[b]);
                }
            }
            assert forall|a: int| 0 <= a < t.len() implies (#[trigger] t[a]).1.no_duplicates() by {
                if a != i {
                    assert(t[a] == t1[a]);
                } else {
                    assert forall|x: int, y: int| 0 <= x < e.1.len() && 0 <= y < e.1.len() && x != y implies e.1[x]
                        != e.1[y] by {
                        if x < old_ids.len() && y < old_ids.len() {
                            assert(t1[a].1.no_duplicates());
                        } else if x < old_ids.len() {
                            assert(old_ids.contains(e.1[x]));
                        } else if y < old_ids.len() {
                            assert(old_ids.contains(e.1[y]));
                        }
                    }
                }
            }
            assert forall|a: int| 0 <= a < self.destinations@.len() implies (
            #[trigger] self.destinations@[a]).wf() by {
                if a != i {
                    assert(self.destinations@[a] == mid.destinations@[a]);
                }
            }
            assert(self@ =~= old(self)@.insert(k, old(self).sources_into(k).push(idv))) by {
                if old(self)@.contains_key(k) {
                    assert(keyed_map(t1, entry_key()) == keyed_map(t0, entry_key()));
                } else {
                    lemma_keyed_push(t0, entry_key(), (k, Seq::<ConnectionIdView>::empty()));
                }
            }
            assert forall|x: ConnectionIdView| #[trigger]
                self.has_connection(x) == (old(self).has_connection(x) || x == idv) by {
                if destination_of(x) == k {
                    let s0 = old(self).sources_into(k);
                    assert(s0.push(idv).contains(x) == (s0.contains(x) || x == idv)) by {
                        if s0.push(idv).contains(x) {
                            let j = choose|j: int| 0 <= j < s0.len() + 1 && s0.push(idv)[j] == x;
                            if j < s0.len() {
                                assert(s0[j] == x);
                            }
                        }
                        if s0.contains(x) {
                            let j = choose|j: int| 0 <= j < s0.len() && s0[j] == x;
                            assert(s0.push(idv)[j] == x);
                        }
                        if x == idv {
                            assert(s0.push(idv)[s0.len() as int] == x);
                        }
                    }
                }
            }
        }
        proof {
            let n = self.destinations@[i as int].sources_spec().len() - 1;
            assert(self.destinations@[i as int].sources_spec()[n] == cv);
            self.lemma_source_at(i as int, n);
        }
        Ok(())
    }

    /// Removes connection `id` from its destination; the destination stays.
    /// Fails, changing nothing, where the connection does not exist.
    pub fn remove_connection(&mut self, id: &ConnectionId) -> (r: Result<(), Error>)
        requires
            old(self).wf(),
        ensures
            final(self).wf(),
            final(self).config_spec() == old(self).config_spec(),
            !old(self).has_connection(id@) ==> (r matches Err(e) && e@ == ErrorView::ConnectionNotFound(
                connection_text(id@),
            )) && final(self)@ == old(self)@ && final(self).total() == old(self).total(),
            old(self).has_connection(id@) ==> r is Ok && final(self)@ == old(self)@.insert(
                destination_of(id@),
                omit(old(self)@[destination_of(id@)], id@),
            ) && final(self).total() + 1 == old(self).total(),
            forall|c: ConnectionIdView| #[trigger]
                final(self).has_connection(c) == (old(self).has_connection(c) && c != id@),
    {
        let key = id.destination_id();
        let ghost k = key@;
        let ghost idv = id@;
        let i = match self.find_destination(key.as_str()) {
            None => {
                return Err(Error::ConnectionNotFound(id.to_string()));
            },
            Some(i) => i,
        };
        proof {
            self.lemma_entry_at(i as int);
        }
        if self.find_source(i, id).is_none() {
            return Err(Error::ConnectionNotFound(id.to_string()));
        }
        let ghost t0 = self.table();
        let ghost d0 = self.destinations@[i as int];
        self.destinations[i].remove_source(id);
        proof {
            let old_ids = t0[i as int].1;
            let e = (k, omit(old_ids, idv));
            assert(old_ids == source_ids(d0.sources_spec()));
            lemma_source_ids_filter(d0.sources_spec(), idv);
            lemma_filter_out_unique(old_ids, idv);
            assert(self.destinations@ == old(self).destinations@.update(i as int, self.destinations@[i as int]));
            assert(self.table() =~= t0.update(i as int, e));
            lemma_keyed_update(t0, entry_key(), i as int, e);
            lemma_entries_total_update(t0, i as int, e);
            let t = self.table();
            assert forall|a: int, b: int| 0 <= a < t.len() && 0 <= b < t[a].1.len() implies destination_of(
                #[trigger] t[a].1[b],
            ) == t[a].0 by {
                if a != i {
                    assert(t[a] == t0[a]);
                } else {
                    assert(omit(old_ids, idv).contains(t[a].1[b]));
                    let j = choose|j: int| 0 <= j < old_ids.len() && old_ids[j] == t[a].1[b];
                    assert(destination_of(t0[a].1[j]) == t0[a].0);
                }
            }
            assert forall|a: int| 0 <= a < t.len() implies (#[trigger] t[a]).1.no_duplicates() by {
                if a != i {
                    assert(t[a] == t0[a]);
                }
            }
            assert forall|a: int| 0 <= a < self.destinations@.len() implies (
            #[trigger] self.destinations@[a]).wf() by {
                if a != i {
                    assert(self.destinations@[a] == old(self).destinations@[a]);
                }
            }
            assert(self@ =~= old(self)@.insert(k, omit(old(self)@[k], idv)));
            assert forall|x: ConnectionIdView| #[trigger]
                self.has_connection(x) == (old(self).has_connection(x) && x != idv) by {
                if destination_of(x) == k {
                    assert(omit(old_ids, idv).contains(x) == (old_ids.contains(x) && x != idv));
                }
            }
        }
        Ok(())
    }

    /// Sets the gain of connection `id` by its bit pattern. Fails where the
    /// connection does not exist.
    pub fn set_connection_gain(&self, id: &ConnectionId, gain_bits: u32) -> (r: Result<(), Error>)
        requires
            self.wf(),
        ensures
            r is Ok <==> self.has_connection(id@),
            r matches Err(e) ==> e@ == ErrorView::ConnectionNotFound(connection_text(id@)),
    {
        match self.get_connection(id) {
            Some(c) => {
                c.set_gain_bits(gain_bits);
                Ok(())
            },
            None => Err(Error::ConnectionNotFound(id.to_string())),
        }
    }

    /// Sets the mute state of connection `id`, and nothing else. Fails,
    /// changing nothing, where the connection does not exist.
    pub fn set_connection_muted(&mut self, id: &ConnectionId, muted: bool) -> (r: Result<(), Error>)
        requires
            old(self).wf(),
        ensures
            final(self).wf(),
            final(self).config_spec() == old(self).config_spec(),
            final(self)@ == old(self)@,
            final(self).total() == old(self).total(),
            r is Ok <==> old(self).has_connection(id@),
            r matches Err(e) ==> e@ == ErrorView::ConnectionNotFound(connection_text(id@)),
            r is Ok ==> final(self).source_state(id@).muted_spec() == muted,
            r is Ok ==> final(self).source_state(id@).enabled_spec() == old(self).source_state(id@).enabled_spec(),
            r is Ok ==> final(self).source_state(id@).buffer_spec() == old(self).source_state(id@).buffer_spec(),
            forall|c: ConnectionIdView|
                c != id@ && old(self).has_connection(c) ==> #[trigger] final(self).source_state(c) == old(self).source_state(c),
    {
        let key = id.destination_id();
        let i = match self.find_destination(key.as_str()) {
            None => {
                return Err(Error::ConnectionNotFound(id.to_string()));
            },
            Some(i) => i,
        };
        proof {
            self.lemma_entry_at(i as int);
        }
        let j = match self.find_source(i, id) {
            None => {
                return Err(Error::ConnectionNotFound(id.to_string()));
            },
            Some(j) => j,
        };
        let ghost old_self = *self;
        let ghost d0 = self.destinations@[i as int];
        proof {
            assert(self.table()[i as int] == destination_entry(d0));
            assert(source_ids(d0.sources_spec())[j as int] == d0.sources_spec()[j as int].id_spec());
            old_self.lemma_source_at(i as int, j as int);
        }
        self.destinations[i].set_source_muted(j, muted);
        proof {
            let d1 = self.destinations@[i as int];
            assert(self.destinations@ == old_self.destinations@.update(i as int, d1));
            assert(source_ids(d1.sources_spec()) =~= source_ids(d0.sources_spec()));
            assert(self.table() =~= old_self.table());
            assert forall|a: int| 0 <= a < self.destinations@.len() implies (#[trigger] self.destinations@[a]).wf() by {
                if a != i {
                    assert(self.destinations@[a] == old_self.destinations@[a]);
                }
            }
            assert(self@ == old_self@);
            self.lemma_source_at(i as int, j as int);
            assert forall|c: ConnectionIdView|
                c != id@ && old_self.has_connection(c) implies #[trigger] self.source_state(c) == old_self.source_state(c) by {
                let ij = old_self.lemma_locate(c);
                old_self.lemma_source_at(ij.0, ij.1);
                if ij.0 == i as int {
                    assert(ij.1 != j as int);
                    assert(self.destinations@[ij.0].sources_spec()[ij.1] == d0.sources_spec()[ij.1]);
                } else {
                    assert(self.destinations@[ij.0] == old_self.destinations@[ij.0]);
                }
                self.lemma_source_at(ij.0, ij.1);
            }
        }
        Ok(())
    }

    /// Sets the enabled state of connection `id`, and nothing else. Fails,
    /// changing nothing, where the connection does not exist.
    pub fn set_connection_enabled(&mut self, id: &ConnectionId, enabled: bool) -> (r: Result<(), Error>)
        requires
            old(self).wf(),
        ensures
            final(self).wf(),
            final(self).config_spec() == old(self).config_spec(),
            final(self)@ == old(self)@,
            final(self).total() == old(self).total(),
            r is Ok <==> old(self).has_connection(id@),
            r matches Err(e) ==> e@ == ErrorView::ConnectionNotFound(connection_text(id@)),
            r is Ok ==> final(self).source_state(id@).enabled_spec() == enabled,
            r is Ok ==> final(self).source_state(id@).muted_spec() == old(self).source_state(id@).muted_spec(),
            r is Ok ==> final(self).source_state(id@).buffer_spec() == old(self).source_state(id@).buffer_spec(),
            forall|c: ConnectionIdView|
                c != id@ && old(self).has_connection(c) ==> #[trigger] final(self).source_state(c) == old(self).source_state(c),
    {
        let key = id.destination_id();
        let i = match self.find_destination(key.as_str()) {
            None => {
                return Err(Error::ConnectionNotFound(id.to_string()));
            },
            Some(i) => i,
        };
        proof {
            self.lemma_entry_at(i as int);
        }
        let j = match self.find_source(i, id) {
            None => {
                return Err(Error::ConnectionNotFound(id.to_string()));
            },
            Some(j) => j,
        };
        let ghost old_self = *self;
        let ghost d0 = self.destinations@[i as int];
        proof {
            assert(self.table()[i as int] == destination_entry(d0));
            assert(source_ids(d0.sources_spec())[j as int] == d0.sources_spec()[j as int].id_spec());
            old_self.lemma_source_at(i as int, j as int);
        }
        self.destinations[i].set_source_enabled(j, enabled);
        proof {
            let d1 = self.destinations@[i as int];
            assert(self.destinations@ == old_self.destinations@.update(i as int, d1));
            assert(source_ids(d1.sources_spec()) =~= source_ids(d0.sources_spec()));
            assert(self.table() =~= old_self.table());
            assert forall|a: int| 0 <= a < self.destinations@.len() implies (#[trigger] self.destinations@[a]).wf() by {
                if a != i {
                    assert(self.destinations@[a] == old_self.destinations@[a]);
                }
            }
            assert(self@ == old_self@);
            self.lemma_source_at(i as int, j as int);
            assert forall|c: ConnectionIdView|
                c != id@ && old_self.has_connection(c) implies #[trigger] self.source_state(c) == old_self.source_state(c) by {
                let ij = old_self.lemma_locate(c);
                old_self.lemma_source_at(ij.0, ij.1);
                if ij.0 == i as int {
                    assert(ij.1 != j as int);
                    assert(self.destinations@[ij.0].sources_spec()[ij.1] == d0.sources_spec()[ij.1]);
                } else {
                    assert(self.destinations@[ij.0] == old_self.destinations@[ij.0]);
                }
                self.lemma_source_at(ij.0, ij.1);
            }
        }
        Ok(())
    }

    /// Sets the headroom mode of destination `dest_id`. Fails where the
    /// destination does not exist.
    pub fn set_destination_headroom_mode(&self, dest_id: &str, mode: HeadroomMode) -> (r: Result<(), Error>)
        requires
            self.wf(),
        ensures
            r is Ok <==> self@.contains_key(dest_id@),
            r matches Err(e) ==> e@ == ErrorView::DestinationNotFound(dest_id@),
    {
        match self.get_destination(dest_id) {
            Some(d) => {
                d.set_headroom_mode(mode);
                Ok(())
            },
            None => Err(Error::DestinationNotFound(String::from_str(dest_id))),
        }
    }

    /// Looks up several connections, for a caller that updates each:
    /// each lookup fails where its connection does not exist.
    pub fn lookup_connections(&self, ids: &[ConnectionId]) -> (r: Vec<Result<&SourceConnection, Error>>)
        requires
            self.wf(),
        ensures
            r@.len() == ids@.len(),
            forall|k: int| 0 <= k < ids@.len() ==> ((#[trigger] r@[k]) is Ok <==> self.has_connection(ids@[k]@)),
            forall|k: int| 0 <= k < ids@.len() ==> (#[trigger] r@[k] matches Ok(c) ==> c.id_spec() == ids@[k]@),
            forall|k: int|
                0 <= k < ids@.len() ==> (#[trigger] r@[k] matches Err(e) ==> e@ == ErrorView::ConnectionNotFound(
                    connection_text(ids@[k]@),
                )),
    {
        let mut out: Vec<Result<&SourceConnection, Error>> = Vec::new();
        let mut k: usize = 0;
        while k < ids.len()
            invariant
                self.wf(),
                k <= ids@.len(),
                out@.len() == k,
                forall|j: int| 0 <= j < k ==> ((#[trigger] out@[j]) is Ok <==> self.has_connection(ids@[j]@)),
                forall|j: int| 0 <= j < k ==> (#[trigger] out@[j] matches Ok(c) ==> c.id_spec() == ids@[j]@),
                forall|j: int|
                    0 <= j < k ==> (#[trigger] out@[j] matches Err(e) ==> e@ == ErrorView::ConnectionNotFound(
                        connection_text(ids@[j]@),
                    )),
            decreases ids.len() - k,
        {
            match self.get_connection(&ids[k]) {
                Some(c) => out.push(Ok(c)),
                None => out.push(Err(Error::ConnectionNotFound(ids[k].to_string()))),
            }
            k = k + 1;
        }
        out
    }

    /// Creates several connections in order, as [`Self::create_connection`]
    /// does; one failing does not stop the others.
    pub fn batch_create_connections(&mut self, ids: Vec<ConnectionId>) -> (r: Vec<Result<(), Error>>)
        requires
            old(self).wf(),
            old(self).total() + ids@.len() <= usize::MAX,
        ensures
            final(self).wf(),
            final(self).config_spec() == old(self).config_spec(),
            r@.len() == ids@.len(),
            forall|k: int|
                0 <= k < ids@.len() ==> ((#[trigger] r@[k]) is Ok <==> !old(self).has_connection(id_views(ids@)[k])
                    && !id_views(ids@).take(k).contains(id_views(ids@)[k])),
            forall|k: int|
                0 <= k < ids@.len() ==> (#[trigger] r@[k] matches Err(e) ==> e@ == ErrorView::ConnectionExists(
                    connection_text(id_views(ids@)[k]),
                )),
            forall|c: ConnectionIdView| #[trigger]
                final(self).has_connection(c) == (old(self).has_connection(c) || id_views(ids@).contains(c)),
            final(self).total() == old(self).total() + ok_count(r@),
    {
        let ghost views = id_views(ids@);
        let ghost n = ids@.len() as int;
        let mut rest = ids;
        let mut out: Vec<Result<(), Error>> = Vec::new();
        proof {
            assert(views.skip(0) =~= views);
            assert(views.take(0) =~= Seq::<ConnectionIdView>::empty());
        }
        while rest.len() > 0
            invariant
                self.wf(),
                self.config_spec() == old(self).config_spec(),
                views.len() == n,
                rest@.len() <= n,
                id_views(rest@) == views.skip(n - rest@.len()),
                out@.len() == n - rest@.len(),
                forall|k: int|
                    0 <= k < out@.len() ==> ((#[trigger] out@[k]) is Ok <==> !old(self).has_connection(views[k])
                        && !views.take(k).contains(views[k])),
                forall|k: int|
                    0 <= k < out@.len() ==> (#[trigger] out@[k] matches Err(e) ==> e@ == ErrorView::ConnectionExists(
                        connection_text(views[k]),
                    )),
                forall|c: ConnectionIdView| #[trigger]
                    self.has_connection(c) == (old(self).has_connection(c) || views.take(out@.len() as int).contains(c)),
                self.total() == old(self).total() + ok_count(out@),
                ok_count(out@) <= out@.len(),
                old(self).total() + n <= usize::MAX,
            decreases rest.len(),
        {
            let ghost k = out@.len() as int;
            let ghost r0 = rest@;
            let id = rest.remove(0);
            proof {
                assert(id_views(r0)[0] == views.skip(k)[0]);
                assert(id@ == views[k]);
                assert(id_views(rest@) =~= id_views(r0).skip(1));
                assert(id_views(rest@) =~= views.skip(k + 1));
            }
            let res = self.create_connection(id);
            let ghost before = out@;
            out.push(res);
            proof {
                assert(out@.drop_last() == before);
                assert forall|c: ConnectionIdView| #[trigger]
                    self.has_connection(c) == (old(self).has_connection(c) || views.take(k + 1).contains(c)) by {
                    lemma_take_contains_step(views, k, c);
                }
            }
        }
        proof {
            assert(views.take(n) =~= views);
        }
        out
    }

    /// Removes several connections in order, as [`Self::remove_connection`]
    /// does; one failing does not stop the others.
    pub fn batch_remove_connections(&mut self, ids: &[ConnectionId]) -> (r: Vec<Result<(), Error>>)
        requires
            old(self).wf(),
        ensures
            final(self).wf(),
            final(self).config_spec() == old(self).config_spec(),
            r@.len() == ids@.len(),
            forall|k: int|
                0 <= k < ids@.len() ==> ((#[trigger] r@[k]) is Ok <==> old(self).has_connection(id_views(ids@)[k])
                    && !id_views(ids@).take(k).contains(id_views(ids@)[k])),
            forall|k: int|
                0 <= k < ids@.len() ==> (#[trigger] r@[k] matches Err(e) ==> e@ == ErrorView::ConnectionNotFound(
                    connection_text(id_views(ids@)[k]),
                )),
            forall|c: ConnectionIdView| #[trigger]
                final(self).has_connection(c) == (old(self).has_connection(c) && !id_views(ids@).contains(c)),
            final(self).total() + ok_count(r@) == old(self).total(),
    {
        let ghost views = id_views(ids@);
        let mut out: Vec<Result<(), Error>> = Vec::new();
        let mut k: usize = 0;
        proof {
            assert(views.take(0) =~= Seq::<ConnectionIdView>::empty());
        }
        while k < ids.len()
            invariant
                self.wf(),
                self.config_spec() == old(self).config_spec(),
                views == id_views(ids@),
                k <= ids@.len(),
                out@.len() == k,
                forall|j: int|
                    0 <= j < k ==> ((#[trigger] out@[j]) is Ok <==> old(self).has_connection(views[j])
                        && !views.take(j).contains(views[j])),
                forall|j: int|
                    0 <= j < k ==> (#[trigger] out@[j] matches Err(e) ==> e@ == ErrorView::ConnectionNotFound(
                        connection_text(views[j]),
                    )),
                forall|c: ConnectionIdView| #[trigger]
                    self.has_connection(c) == (old(self).has_connection(c) && !views.take(k as int).contains(c)),
                self.total() + ok_count(out@) == old(self).total(),
            decreases ids.len() - k,
        {
            assert(ids@[k as int]@ == views[k as int]);
            let res = self.remove_connection(&ids[k]);
            let ghost before = out@;
            out.push(res);
            proof {
                assert(out@.drop_last() == before);
                assert forall|c: ConnectionIdView| #[trigger]
                    self.has_connection(c) == (old(self).has_connection(c) && !views.take(k + 1).contains(c)) by {
                    lemma_take_contains_step(views, k as int, c);
                }
            }
            k = k + 1;
        }
        proof {
            assert(views.take(views.len() as int) =~= views);
        }
        out
    }

    /// The number of connections.
    pub fn connection_count(&self) -> (r: usize)
        requires
            self.wf(),
        ensures
            r == self.total(),
            r == self.connections().len(),
    {
        proof {
            self.lemma_connections();
        }
        let ghost t = self.table();
        let mut sum: usize = 0;
        let mut i: usize = 0;
        assert(t.take(0) =~= Seq::<DestinationEntry>::empty());
        while i < self.destinations.len()
            invariant
                i <= self.destinations@.len(),
                t == self.table(),
                t.len() == self.destinations@.len(),
                sum == entries_total(t.take(i as int)),
                entries_total(t) <= usize::MAX,
            decreases self.destinations.len() - i,
        {
            proof {
                lemma_entries_total_prefix(t, i as int);
                lemma_entries_total_prefix(t, i + 1);
                assert(t[i as int] == destination_entry(self.destinations@[i as int]));
            }
            sum = sum + self.destinations[i].source_count();
            i = i + 1;
        }
        assert(t.take(t.len() as int) =~= t);
        sum
    }

    /// The destination channel `id`, if it exists.
    pub fn get_destination(&self, id: &str) -> (r: Option<&DestinationChannel>)
        requires
            self.wf(),
        ensures
            r is Some <==> self@.contains_key(id@),
            r matches Some(d) ==> d.id_spec() == id@ && source_ids(d.sources_spec()) == self@[id@],
    {
        match self.find_destination(id) {
            None => None,
            Some(i) => {
                proof {
                    self.lemma_entry_at(i as int);
                }
                Some(&self.destinations[i])
            },
        }
    }

    /// The number of destination channels.
    pub fn destination_count(&self) -> (r: usize)
        requires
            self.wf(),
        ensures
            r == self@.dom().len(),
    {
        proof {
            lemma_keyed_len(self.table(), entry_key());
            assert(self@.dom() =~= keyed_map(self.table(), entry_key()).dom());
        }
        self.destinations.len()
    }
}

impl Default for AudioEngine {
    fn default() -> (r: Self)
        ensures
            r.wf(),
            r.config_spec().buffer_size == DEFAULT_BUFFER_SIZE,
            r.config_spec().default_headroom_mode == HeadroomMode::Clip,
            r@ == Map::<Seq<char>, Seq<ConnectionIdView>>::empty(),
            r.total() == 0,
    {
        Self::new()
    }
}

/// Creating a connection that did not exist and then removing it leaves
/// the connections feeding every destination as they were, in their order;
/// the destination it fed stays, with no connections where it had none.
pub proof fn law_create_then_remove_connection(engine: AudioEngine, id: ConnectionIdView)
    requires
        engine.wf(),
        !engine.has_connection(id),
    ensures
        ({
            let k = destination_of(id);
            let created = engine@.insert(k, engine.sources_into(k).push(id));
            &&& created[k].contains(id)
            &&& created.insert(k, omit(created[k], id)) == engine@.insert(k, engine.sources_into(k))
        }),
{
    let k = destination_of(id);
    let s = engine.sources_into(k);
    assert(s.push(id)[s.len() as int] == id);
    reveal(Seq::filter);
    assert(s.push(id).drop_last() =~= s);
    lemma_filter_absent(s, id);
    assert(omit(s.push(id), id) == omit(s, id));
}

/// The connection count is the number of connections that exist: no
/// connection is counted twice.
pub proof fn law_count_is_number_of_connections(engine: AudioEngine)
    requires
        engine.wf(),
    ensures
        engine.connections().finite(),
        engine.connections().len() == engine.total(),
{
    engine.lemma_connections();
}

} // verus!
