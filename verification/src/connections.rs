//! The pool of connections to relays, with the cycle that keeps it in
//! shape: it redials relays whose connection was lost and drops those that
//! cannot be reached while others can.

use crate::client::{Client, ClientStatus, ClientView};
use rand_core::{OsRng, RngCore};
use vstd::prelude::*;

verus! {

/// Seconds between two maintenance cycles.
pub const MAINTENANCE_INTERVAL_SECS: u64 = 1;

/// A disconnected relay with more failed attempts than this is dropped
/// while another relay is connected.
pub const MAX_FAILED_ATTEMPTS: u32 = 1;

/// Number of characters that random identifiers are drawn from.
pub const ALPHABET_LEN: u64 = 36;

/// The `i`-th character of the alphabet of random identifiers: the letters
/// `a` to `z`, then the digits `0` to `9`.
pub open spec fn alphabet(i: int) -> char
    recommends
        0 <= i < 36,
{
    if i < 26 {
        (97 + i) as u8 as char
    } else {
        (48 + (i - 26)) as u8 as char
    }
}

/// Whether `ch` is a character of the alphabet of random identifiers.
pub open spec fn in_alphabet(ch: char) -> bool {
    exists|k: int| 0 <= k < 36 && ch == #[trigger] alphabet(k)
}

/// The identifier that the draws `draws` stand for: one character for each
/// draw, picked from the alphabet by the draw's remainder.
pub open spec fn token(draws: Seq<u64>) -> Seq<char> {
    Seq::new(draws.len(), |i: int| alphabet(draws[i] as int % 36))
}

/// Trusted: `RngCore::next_u64` of `rand_core::OsRng` returns 64 bits from
/// the operating system's generator. Nothing is known of their value. The
/// call ends the process where the system has no randomness to give.
#[verifier::external_body]
fn os_random_u64() -> u64 {
    OsRng.next_u64()
}

/// Trusted: `String::push` appends one character to the string.
pub assume_specification[ String::push ](s: &mut String, ch: char)
    ensures
        final(s)@ == old(s)@.push(ch),
;

/// One entry of the pool as a mathematical value: a connection under the
/// identifier by which the pool knows it.
pub struct PeerView<Tx, H> {
    pub id: Seq<char>,
    pub client: ClientView<Tx, H>,
}

/// No two entries of `s` have the same identifier.
pub open spec fn unique_ids<Tx, H>(s: Seq<PeerView<Tx, H>>) -> bool {
    forall|i: int, j: int| 0 <= i < j < s.len() ==> #[trigger] s[i].id != #[trigger] s[j].id
}

/// Some entry of `s` has the identifier `id`.
pub open spec fn has_id<Tx, H>(s: Seq<PeerView<Tx, H>>, id: Seq<char>) -> bool {
    exists|i: int| 0 <= i < s.len() && #[trigger] s[i].id == id
}

/// The position in `s` of the entry with the identifier `id`.
pub open spec fn index_of<Tx, H>(s: Seq<PeerView<Tx, H>>, id: Seq<char>) -> int
    recommends
        has_id(s, id),
{
    choose|i: int| 0 <= i < s.len() && #[trigger] s[i].id == id
}

/// Some connection of `s` is connected: the network can be reached.
pub open spec fn any_connected<Tx, H>(s: Seq<PeerView<Tx, H>>) -> bool {
    exists|i: int| 0 <= i < s.len() && #[trigger] s[i].client.status is Connected
}

/// Whether a maintenance cycle drops `c`, `healthy` telling whether some
/// relay is connected.
pub open spec fn evicts<Tx, H>(c: ClientView<Tx, H>, healthy: bool) -> bool {
    c.status is Disconnected && healthy && c.connection_attempts > MAX_FAILED_ATTEMPTS
}

/// Whether a maintenance cycle redials `c`.
pub open spec fn redials<Tx, H>(c: ClientView<Tx, H>, healthy: bool) -> bool {
    c.status is Disconnected && !(healthy && c.connection_attempts > MAX_FAILED_ATTEMPTS)
}

/// The test of the entries that a maintenance cycle keeps.
pub open spec fn kept<Tx, H>(healthy: bool) -> spec_fn(PeerView<Tx, H>) -> bool {
    |p: PeerView<Tx, H>| !evicts(p.client, healthy)
}

/// The test of the entries that a maintenance cycle redials.
pub open spec fn redialed<Tx, H>(healthy: bool) -> spec_fn(PeerView<Tx, H>) -> bool {
    |p: PeerView<Tx, H>| redials(p.client, healthy)
}

/// What a maintenance cycle makes of an entry that it keeps: connecting if
/// it is redialed, and as it was otherwise.
pub open spec fn serviced<Tx, H>(healthy: bool) -> spec_fn(PeerView<Tx, H>) -> PeerView<Tx, H> {
    |p: PeerView<Tx, H>|
        if redials(p.client, healthy) {
            PeerView { id: p.id, client: p.client.dialing() }
        } else {
            p
        }
}

/// The identifier of an entry.
pub open spec fn id_of<Tx, H>() -> spec_fn(PeerView<Tx, H>) -> Seq<char> {
    |p: PeerView<Tx, H>| p.id
}

/// The entries that a maintenance cycle leaves of `s`, in their order:
/// those it drops are gone, those it redials are connecting.
pub open spec fn maintained_with<Tx, H>(s: Seq<PeerView<Tx, H>>, healthy: bool) -> Seq<
    PeerView<Tx, H>,
> {
    s.filter(kept(healthy)).map_values(serviced(healthy))
}

/// The identifiers of the entries of `s` that a maintenance cycle redials,
/// in their order.
pub open spec fn dialed_with<Tx, H>(s: Seq<PeerView<Tx, H>>, healthy: bool) -> Seq<Seq<char>> {
    s.filter(redialed(healthy)).map_values(id_of())
}

/// The pool after one maintenance cycle.
pub open spec fn maintained<Tx, H>(s: Seq<PeerView<Tx, H>>) -> Seq<PeerView<Tx, H>> {
    maintained_with(s, any_connected(s))
}

/// The identifiers that one maintenance cycle hands out to be dialed.
pub open spec fn dialed<Tx, H>(s: Seq<PeerView<Tx, H>>) -> Seq<Seq<char>> {
    dialed_with(s, any_connected(s))
}

/// The character that stands for the draw `x` in a random identifier.
pub fn alphabet_char(x: u64) -> (ch: char)
    ensures
        ch == alphabet(x as int % 36),
{
    let i: u8 = (x % ALPHABET_LEN) as u8;
    if i < 26 {
        (97 + i) as char
    } else {
        (48 + (i - 26)) as char
    }
}

/// The identifier that the draws `draws` stand for.
pub fn token_of(draws: &Vec<u64>) -> (s: String)
    ensures
        s@ == token(draws@),
{
    let mut result = String::new();
    let mut i: usize = 0;
    while i < draws.len()
        invariant
            i <= draws.len(),
            result@ == token(draws@.take(i as int)),
        decreases draws.len() - i,
    {
        result.push(alphabet_char(draws[i]));
        i = i + 1;
    }
    result
}

/// A random identifier of `n` characters, drawn from the letters `a` to
/// `z` and the digits `0` to `9` with the operating system's generator.
pub fn random_token(n: usize) -> (s: String)
    ensures
        s@.len() == n,
        forall|i: int| 0 <= i < n ==> in_alphabet(#[trigger] s@[i]),
{
    let mut draws: Vec<u64> = Vec::new();
    while draws.len() < n
        invariant
            draws.len() <= n,
        decreases n - draws.len(),
    {
        draws.push(os_random_u64());
    }
    let s = token_of(&draws);
    assert forall|i: int| 0 <= i < n implies in_alphabet(#[trigger] s@[i]) by {
        let k = draws@[i] as int % 36;
    }
    s
}

/// Connections to relays, each known by its identifier. No two have the
/// same identifier; they are kept in the order in which they were added.
pub struct Connections<Tx, H> {
    ids: Vec<String>,
    clients: Vec<Client<Tx, H>>,
}

/// The connections `clients` under the identifiers `ids`, as mathematical
/// values.
pub closed spec fn views<Tx, H>(ids: Seq<String>, clients: Seq<Client<Tx, H>>) -> Seq<
    PeerView<Tx, H>,
> {
    Seq::new(ids.len(), |i: int| PeerView { id: ids[i]@, client: clients[i]@ })
}

/// No two of the identifiers `ids` are the same.
spec fn distinct(ids: Seq<String>) -> bool {
    forall|i: int, j: int| 0 <= i < j < ids.len() ==> (#[trigger] ids[i])@ != (#[trigger] ids[j])@
}

/// Identifiers differ from each other exactly if those of the views do.
proof fn lemma_distinct_unique_ids<Tx, H>(ids: Seq<String>, clients: Seq<Client<Tx, H>>)
    ensures
        distinct(ids) <==> unique_ids(views(ids, clients)),
{
    let v = views(ids, clients);
    if distinct(ids) {
        assert forall|i: int, j: int| 0 <= i < j < v.len() implies #[trigger] v[i].id
            != #[trigger] v[j].id by {
            assert(ids[i]@ != ids[j]@);
        }
    }
    if unique_ids(v) {
        assert forall|i: int, j: int| 0 <= i < j < ids.len() implies (#[trigger] ids[i])@ != (
        #[trigger] ids[j])@ by {
            assert(v[i].id != v[j].id);
        }
    }
}

impl<Tx, H> View for Connections<Tx, H> {
    type V = Seq<PeerView<Tx, H>>;

    closed spec fn view(&self) -> Seq<PeerView<Tx, H>> {
        views(self.ids@, self.clients@)
    }
}

impl<Tx, H> Connections<Tx, H> {
    /// The pool is in order: no two entries have the same identifier.
    #[verifier::type_invariant]
    spec fn wf(&self) -> bool {
        self.ids@.len() == self.clients@.len() && distinct(self.ids@)
    }

    /// Create a pool with no connection.
    pub fn new() -> (pool: Self)
        ensures
            pool@ == Seq::<PeerView<Tx, H>>::empty(),
    {
        let pool = Connections { ids: Vec::new(), clients: Vec::new() };
        assert(pool@ =~= Seq::<PeerView<Tx, H>>::empty());
        pool
    }

    /// A random identifier of `n` characters, drawn from the letters `a`
    /// to `z` and the digits `0` to `9` with the operating system's
    /// generator.
    pub fn gen_random_string(n: usize) -> (s: String)
        ensures
            s@.len() == n,
            forall|i: int| 0 <= i < n ==> in_alphabet(#[trigger] s@[i]),
    {
        random_token(n)
    }

    /// The number of connections in the pool. No two of them have the same
    /// identifier.
    pub fn len(&self) -> (n: usize)
        ensures
            n == self@.len(),
            unique_ids(self@),
    {
        proof {
            use_type_invariant(self);
            lemma_distinct_unique_ids(self.ids@, self.clients@);
        }
        self.ids.len()
    }

    /// The position of the connection known as `id`, if there is one.
    pub fn position(&self, id: &String) -> (r: Option<usize>)
        ensures
            unique_ids(self@),
            match r {
                Some(i) => has_id(self@, id@) && i == index_of(self@, id@),
                None => !has_id(self@, id@),
            },
    {
        proof {
            use_type_invariant(self);
            lemma_distinct_unique_ids(self.ids@, self.clients@);
        }
        let mut i: usize = 0;
        while i < self.ids.len()
            invariant
                i <= self.ids.len(),
                unique_ids(self@),
                forall|j: int| 0 <= j < i ==> self@[j].id != id@,
            decreases self.ids.len() - i,
        {
            if self.ids[i] == *id {
                assert(self@[i as int].id == id@);
                return Some(i);
            }
            i = i + 1;
        }
        None
    }

    /// The identifier of the connection at position `i`.
    pub fn id_at(&self, i: usize) -> (id: &String)
        requires
            i < self@.len(),
        ensures
            id@ == self@[i as int].id,
    {
        &self.ids[i]
    }

    /// The connection known as `id`, if there is one.
    pub fn client(&self, id: &String) -> (r: Option<&Client<Tx, H>>)
        ensures
            match r {
                Some(c) => has_id(self@, id@) && c@ == self@[index_of(self@, id@)].client,
                None => !has_id(self@, id@),
            },
    {
        proof {
            use_type_invariant(self);
        }
        match self.position(id) {
            Some(i) => Some(&self.clients[i]),
            None => None,
        }
    }

    /// The connection known as `id`, if there is one, to act on. Whatever
    /// is done to it, the other connections and all identifiers stay as
    /// they are.
    pub fn client_mut(&mut self, id: &String) -> (r: Option<&mut Client<Tx, H>>)
        ensures
            final(self)@.len() == old(self)@.len(),
            forall|j: int|
                0 <= j < old(self)@.len() ==> #[trigger] final(self)@[j].id == old(self)@[j].id,
            forall|j: int|
                0 <= j < old(self)@.len() && j != index_of(old(self)@, id@) ==> final(self)@[j] == old(
                    self,
                )@[j],
            match r {
                Some(c) => {
                    &&& has_id(old(self)@, id@)
                    &&& c@ == old(self)@[index_of(old(self)@, id@)].client
                    &&& final(self)@[index_of(old(self)@, id@)].client == final(c)@
                },
                None => !has_id(old(self)@, id@) && final(self)@ == old(self)@,
            },
    {
        proof {
            use_type_invariant(&*self);
        }
        match self.position(id) {
            Some(i) => Some(&mut self.clients[i]),
            None => None,
        }
    }

    /// Add a relay under the identifier `id` and ask for a connection to
    /// it: the new connection is connecting, and the caller is to dial
    /// `relay_addr`. If the identifier is taken already, nothing changes
    /// and there is nothing to do.
    pub fn add_client(&mut self, id: String, relay_addr: String) -> (added: bool)
        ensures
            added == !has_id(old(self)@, id@),
            added ==> final(self)@ == old(self)@.push(
                PeerView { id: id@, client: ClientView::<Tx, H>::fresh(relay_addr@, id@).dialing() },
            ),
            !added ==> final(self)@ == old(self)@,
    {
        proof {
            use_type_invariant(&*self);
        }
        if self.position(&id).is_some() {
            return false;
        }
        let mut client = Client::new(relay_addr, id.clone());
        client.spawn();
        let mut taken = Connections { ids: Vec::new(), clients: Vec::new() };
        core::mem::swap(self, &mut taken);
        let Connections { mut ids, mut clients } = taken;
        ids.push(id);
        clients.push(client);
        proof {
            assert(views(ids@, clients@) =~= old(self)@.push(
                PeerView { id: id@, client: ClientView::<Tx, H>::fresh(relay_addr@, id@).dialing() },
            ));
            assert forall|i: int, j: int| 0 <= i < j < ids@.len() implies (#[trigger] ids@[i])@ != (
            #[trigger] ids@[j])@ by {
                if j == old(self)@.len() {
                    assert(old(self)@[i].id != id@);
                }
            }
        }
        *self = Connections { ids, clients };
        true
    }

    /// Whether some connection of the pool is connected.
    pub fn is_any_connected(&self) -> (b: bool)
        ensures
            b == any_connected(self@),
    {
        proof {
            use_type_invariant(self);
        }
        let mut i: usize = 0;
        while i < self.ids.len()
            invariant
                self.ids@.len() == self.clients@.len(),
                i <= self.ids.len(),
                forall|j: int| 0 <= j < i ==> !(#[trigger] self@[j].client.status is Connected),
            decreases self.ids.len() - i,
        {
            if self.clients[i].is_connected() {
                assert(self@[i as int].client.status is Connected);
                return true;
            }
            i = i + 1;
        }
        false
    }

    /// One maintenance cycle, to be run every [`MAINTENANCE_INTERVAL_SECS`].
    ///
    /// If some relay is connected, the network is fine, and a disconnected
    /// relay that failed more than [`MAX_FAILED_ATTEMPTS`] times is
    /// dropped. Every other disconnected relay becomes connecting, and its
    /// identifier is handed out for the caller to dial. Connections that
    /// are connecting, connected or sleeping are left alone.
    pub fn main_loop(&mut self) -> (dial: Vec<String>)
        ensures
            unique_ids(old(self)@),
            unique_ids(final(self)@),
            final(self)@ == maintained(old(self)@),
            dial.deep_view() == dialed(old(self)@),
    {
        proof {
            use_type_invariant(&*self);
            lemma_distinct_unique_ids(self.ids@, self.clients@);
        }
        let healthy = self.is_any_connected();
        let mut dial: Vec<String> = Vec::new();
        let mut taken = Connections { ids: Vec::new(), clients: Vec::new() };
        core::mem::swap(self, &mut taken);
        let Connections { mut ids, mut clients } = taken;
        let mut i: usize = 0;
        let ghost before = views(ids@, clients@);
        let ghost mut k: int = 0;
        proof {
            reveal(Seq::filter);
            assert(views(ids@, clients@) =~= maintained_with(before.take(0), healthy) + before.skip(0));
        }
        while i < ids.len()
            invariant
                ids@.len() == clients@.len(),
                distinct(ids@),
                0 <= k <= before.len(),
                i == before.take(k).filter(kept(healthy)).len(),
                views(ids@, clients@) == maintained_with(before.take(k), healthy) + before.skip(k),
                dial.deep_view() == dialed_with(before.take(k), healthy),
            decreases before.len() - k,
        {
            let ghost peer = before[k];
            let ghost here = views(ids@, clients@);
            proof {
                assert(here[i as int] == before.skip(k)[0]);
                assert(before.take(k + 1) =~= before.take(k).push(peer));
                assert(before.skip(k + 1) =~= before.skip(k).remove(0));
                Seq::lemma_filter_push(before.take(k), peer, kept(healthy));
                Seq::lemma_filter_push(before.take(k), peer, redialed(healthy));
            }
            if clients[i].is_disconnected() {
                if healthy && clients[i].connection_attempts() > MAX_FAILED_ATTEMPTS {
                    ids.remove(i);
                    clients.remove(i);
                    proof {
                        assert(views(ids@, clients@) =~= here.remove(i as int));
                    }
                } else {
                    clients[i].spawn();
                    dial.push(ids[i].clone());
                    proof {
                        assert(views(ids@, clients@) =~= here.update(
                            i as int,
                            serviced::<Tx, H>(healthy)(peer),
                        ));
                        assert(dial.deep_view() =~= dialed_with(before.take(k), healthy).push(peer.id));
                    }
                    i = i + 1;
                }
            } else {
                i = i + 1;
            }
            proof {
                k = k + 1;
            }
        }
        proof {
            assert(before.take(k) =~= before);
            lemma_distinct_unique_ids(ids@, clients@);
        }
        *self = Connections { ids, clients };
        dial
    }

    /// The handles that a packet for all relays goes to, in the order of
    /// the pool: those of the connections at its head that are connected,
    /// up to the first that is not. The caller sends on each in turn and
    /// stops at the first handle that fails.
    pub fn send_data(&self) -> (out: Vec<&Tx>)
        ensures
            out@.len() <= self@.len(),
            forall|j: int|
                0 <= j < out@.len() ==> #[trigger] self@[j].client.status == ClientStatus::Connected(
                    *out@[j],
                ),
            out@.len() < self@.len() ==> !(self@[out@.len() as int].client.status is Connected),
    {
        proof {
            use_type_invariant(self);
        }
        let mut out: Vec<&Tx> = Vec::new();
        let mut i: usize = 0;
        while i < self.ids.len()
            invariant
                self.ids@.len() == self.clients@.len(),
                i <= self.ids.len(),
                out@.len() == i,
                forall|j: int|
                    0 <= j < i ==> #[trigger] self@[j].client.status == ClientStatus::Connected(
                        *out@[j],
                    ),
            decreases self.ids.len() - i,
        {
            match self.clients[i].sender() {
                Some(tx) => {
                    out.push(tx);
                },
                None => {
                    return out;
                },
            }
            i = i + 1;
        }
        out
    }
}

/// An entry that a maintenance cycle keeps is in the pool afterwards, as
/// the cycle made it.
pub proof fn lemma_kept_entry_stays<Tx, H>(s: Seq<PeerView<Tx, H>>, healthy: bool, i: int)
    requires
        0 <= i < s.len(),
        !evicts(s[i].client, healthy),
    ensures
        maintained_with(s, healthy).contains(serviced(healthy)(s[i])),
{
    let f = s.filter(kept(healthy));
    s.lemma_filter_contains(kept(healthy), i);
    let j = choose|j: int| 0 <= j < f.len() && f[j] == s[i];
    assert(maintained_with(s, healthy)[j] == serviced(healthy)(s[i]));
}

/// Every entry of the pool after a maintenance cycle is what the cycle
/// made of an entry that it kept.
pub proof fn lemma_entry_was_kept<Tx, H>(s: Seq<PeerView<Tx, H>>, healthy: bool, j: int) -> (i: int)
    requires
        0 <= j < maintained_with(s, healthy).len(),
    ensures
        0 <= i < s.len(),
        !evicts(s[i].client, healthy),
        maintained_with(s, healthy)[j] == serviced(healthy)(s[i]),
        maintained_with(s, healthy)[j].id == s[i].id,
{
    let f = s.filter(kept(healthy));
    s.lemma_filter_pred(kept(healthy), j);
    s.lemma_filter_contains_rev(kept(healthy), f[j]);
    let i = choose|i: int| 0 <= i < s.len() && s[i] == f[j];
    i
}

/// Every identifier that a maintenance cycle hands out is that of an
/// entry that it redials.
pub proof fn lemma_dialed_was_redialed<Tx, H>(s: Seq<PeerView<Tx, H>>, healthy: bool, j: int) -> (i:
    int)
    requires
        0 <= j < dialed_with(s, healthy).len(),
    ensures
        0 <= i < s.len(),
        redials(s[i].client, healthy),
        dialed_with(s, healthy)[j] == s[i].id,
{
    let f = s.filter(redialed(healthy));
    s.lemma_filter_pred(redialed(healthy), j);
    s.lemma_filter_contains_rev(redialed(healthy), f[j]);
    let i = choose|i: int| 0 <= i < s.len() && s[i] == f[j];
    i
}

/// The identifier of every entry that a maintenance cycle redials is
/// handed out.
pub proof fn lemma_redialed_is_dialed<Tx, H>(s: Seq<PeerView<Tx, H>>, healthy: bool, i: int)
    requires
        0 <= i < s.len(),
        redials(s[i].client, healthy),
    ensures
        dialed_with(s, healthy).contains(s[i].id),
{
    let f = s.filter(redialed(healthy));
    s.lemma_filter_contains(redialed(healthy), i);
    let j = choose|j: int| 0 <= j < f.len() && f[j] == s[i];
    assert(dialed_with(s, healthy)[j] == s[i].id);
}

/// A maintenance cycle leaves the pool in order.
pub proof fn lemma_maintained_unique_ids<Tx, H>(s: Seq<PeerView<Tx, H>>, healthy: bool)
    requires
        unique_ids(s),
    ensures
        unique_ids(maintained_with(s, healthy)),
    decreases s.len(),
{
    let m = maintained_with(s, healthy);
    if s.len() > 0 {
        let r = s.drop_last();
        let last = s.last();
        let mr = maintained_with(r, healthy);
        assert(s =~= r.push(last));
        Seq::lemma_filter_push(r, last, kept(healthy));
        lemma_maintained_unique_ids(r, healthy);
        if kept(healthy)(last) {
            assert forall|a: int, b: int| 0 <= a < b < m.len() implies #[trigger] m[a].id
                != #[trigger] m[b].id by {
                if b == mr.len() {
                    let i = lemma_entry_was_kept(r, healthy, a);
                } else {
                    assert(mr[a].id != mr[b].id);
                }
            }
        }
    } else {
        reveal(Seq::filter);
    }
}

/// Reconnect eviction: while some relay is connected, a disconnected relay
/// that failed more than once is gone after the next maintenance cycle,
/// and it is not dialed again.
pub proof fn lemma_unreachable_relay_is_dropped<Tx, H>(s: Seq<PeerView<Tx, H>>, i: int)
    requires
        unique_ids(s),
        any_connected(s),
        0 <= i < s.len(),
        s[i].client.status is Disconnected,
        s[i].client.connection_attempts >= 2,
    ensures
        !has_id(maintained(s), s[i].id),
        !dialed(s).contains(s[i].id),
{
    let healthy = any_connected(s);
    if has_id(maintained(s), s[i].id) {
        let j = choose|j: int| 0 <= j < maintained(s).len() && #[trigger] maintained(s)[j].id == s[i].id;
        let i2 = lemma_entry_was_kept(s, healthy, j);
        assert(i2 == i);
    }
    if dialed(s).contains(s[i].id) {
        let j = choose|j: int| 0 <= j < dialed(s).len() && dialed(s)[j] == s[i].id;
        let i2 = lemma_dialed_was_redialed(s, healthy, j);
        assert(i2 == i);
    }
}

/// Reconnect without a network: while no relay is connected, a
/// disconnected relay stays in the pool and is dialed again, however often
/// it failed.
pub proof fn lemma_offline_relay_is_retried<Tx, H>(s: Seq<PeerView<Tx, H>>, i: int)
    requires
        !any_connected(s),
        0 <= i < s.len(),
        s[i].client.status is Disconnected,
    ensures
        maintained(s).contains(PeerView { id: s[i].id, client: s[i].client.dialing() }),
        dialed(s).contains(s[i].id),
{
    lemma_kept_entry_stays(s, false, i);
    lemma_redialed_is_dialed(s, false, i);
}

/// The pool after `n` maintenance cycles with nothing happening between
/// them.
pub open spec fn cycles<Tx, H>(s: Seq<PeerView<Tx, H>>, n: nat) -> Seq<PeerView<Tx, H>>
    decreases n,
{
    if n == 0 {
        s
    } else {
        maintained(cycles(s, (n - 1) as nat))
    }
}

/// Sleeping exclusion: a sleeping relay is in the pool, unchanged, after
/// any number of maintenance cycles, and none of them dials it.
pub proof fn lemma_sleeping_relay_is_left_alone<Tx, H>(s: Seq<PeerView<Tx, H>>, i: int, n: nat)
    requires
        unique_ids(s),
        0 <= i < s.len(),
        s[i].client.status is Sleeping,
    ensures
        unique_ids(cycles(s, n)),
        cycles(s, n).contains(s[i]),
        !dialed(cycles(s, n)).contains(s[i].id),
    decreases n,
{
    let t = cycles(s, n);
    if n > 0 {
        let before = cycles(s, (n - 1) as nat);
        lemma_sleeping_relay_is_left_alone(s, i, (n - 1) as nat);
        let healthy = any_connected(before);
        let j = choose|j: int| 0 <= j < before.len() && before[j] == s[i];
        lemma_kept_entry_stays(before, healthy, j);
        lemma_maintained_unique_ids(before, healthy);
    }
    let j = choose|j: int| 0 <= j < t.len() && t[j] == s[i];
    if dialed(t).contains(s[i].id) {
        let healthy = any_connected(t);
        let d = choose|d: int| 0 <= d < dialed(t).len() && dialed(t)[d] == s[i].id;
        let j2 = lemma_dialed_was_redialed(t, healthy, d);
        assert(j2 == j);
    }
}

} // verus!
