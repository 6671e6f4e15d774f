//! The connection registry: which connections are live, and how each is
//! addressed.

use std::collections::HashMap;
use vstd::prelude::*;
use vstd::std_specs::iter::IteratorSpec;

verus! {

broadcast use vstd::std_specs::hash::group_hash_axioms;

/// The address of one connection: the token that names it while it lives,
/// and the serial number that the transport gave it when it was accepted.
///
/// A token may be handed to a later connection once its connection has
/// closed; the serial number tells the two apart.
#[derive(Debug, Clone, Copy, PartialEq, Eq, Structural)]
pub struct Endpoint {
    pub token: usize,
    pub connection_id: u32,
}

/// The table of live connections, from token to serial number.
///
/// A token is in the table exactly while its connection is open: the
/// listener registers a connection when its handshake is done and
/// deregisters it when it closes.
pub struct Registry {
    live: HashMap<usize, u32>,
}

impl View for Registry {
    type V = Map<usize, u32>;

    closed spec fn view(&self) -> Map<usize, u32> {
        self.live@
    }
}

/// Whether `targets` lists the live connections: each of them once, under
/// the address it is registered with, and nothing else.
pub open spec fn lists_all(targets: Seq<Endpoint>, live: Map<usize, u32>) -> bool {
    &&& targets.len() == live.len()
    &&& forall|i: int|
        0 <= i < targets.len() ==> live.contains_key((#[trigger] targets[i]).token)
            && live[targets[i].token] == targets[i].connection_id
    &&& forall|token: usize|
        live.contains_key(token) ==> exists|i: int|
            0 <= i < targets.len() && (#[trigger] targets[i]).token == token
    &&& forall|i: int, j: int|
        0 <= i < j < targets.len() ==> (#[trigger] targets[i]).token != (
        #[trigger] targets[j]).token
}

impl Registry {
    /// Whether the connection named `token` is live.
    pub open spec fn spec_is_open(&self, token: usize) -> bool {
        self@.contains_key(token)
    }

    /// The address under which `token` is registered, if it is.
    pub open spec fn spec_resolve(&self, token: usize) -> Option<Endpoint> {
        if self@.contains_key(token) {
            Some(Endpoint { token, connection_id: self@[token] })
        } else {
            None
        }
    }

    /// A registry with no connection in it.
    pub fn new() -> (registry: Registry)
        ensures
            registry@ == Map::<usize, u32>::empty(),
    {
        Registry { live: HashMap::new() }
    }

    /// Enters a connection. A token that is already there is given the new
    /// serial number.
    pub fn register(&mut self, endpoint: Endpoint)
        ensures
            final(self)@ == old(self)@.insert(endpoint.token, endpoint.connection_id),
    {
        self.live.insert(endpoint.token, endpoint.connection_id);
    }

    /// Takes a connection out. Nothing changes if the token is not there.
    pub fn deregister(&mut self, token: usize)
        ensures
            final(self)@ == old(self)@.remove(token),
    {
        self.live.remove(&token);
    }

    /// Whether the connection named `token` is live.
    #[verifier::when_used_as_spec(spec_is_open)]
    pub fn is_open(&self, token: usize) -> (live: bool)
        ensures
            live == self.spec_is_open(token),
    {
        self.live.contains_key(&token)
    }

    /// Whether the connection named `token` is gone, or was never there.
    pub fn is_closed(&self, token: usize) -> (gone: bool)
        ensures
            gone == !self.is_open(token),
    {
        !self.live.contains_key(&token)
    }

    /// The address under which `token` is registered, if it is.
    #[verifier::when_used_as_spec(spec_resolve)]
    pub fn resolve(&self, token: usize) -> (found: Option<Endpoint>)
        ensures
            found == self.spec_resolve(token),
    {
        match self.live.get(&token) {
            Some(connection_id) => Some(Endpoint { token, connection_id: *connection_id }),
            None => None,
        }
    }

    /// A copy of the table as it stands: every live connection once, in no
    /// particular order. What is registered or deregistered afterwards does
    /// not show in it.
    pub fn snapshot(&self) -> (targets: Vec<Endpoint>)
        ensures
            lists_all(targets@, self@),
    {
        let mut targets: Vec<Endpoint> = Vec::new();
        let ghost entries = self.live.iter().remaining();
        for entry in it: self.live.iter()
            invariant
                it.seq() == entries,
                entries == self.live.iter().remaining(),
                targets@.len() == it.index(),
                forall|i: int|
                    0 <= i < targets@.len() ==> (#[trigger] targets@[i]) == (Endpoint {
                        token: *entries[i].0,
                        connection_id: *entries[i].1,
                    }),
        {
            let (token, connection_id) = entry;
            targets.push(Endpoint { token: *token, connection_id: *connection_id });
        }
        proof {
            let live = self.live@;
            assert(entries.no_duplicates());
            assert forall|i: int| 0 <= i < targets@.len() implies live.contains_key(
                (#[trigger] targets@[i]).token,
            ) && live[targets@[i].token] == targets@[i].connection_id by {
                assert(live.contains_key(*entries[i].0));
            }
            assert forall|token: usize| live.contains_key(token) implies exists|i: int|
                0 <= i < targets@.len() && (#[trigger] targets@[i]).token == token by {
                let pair = (&token, &live[token]);
                assert(entries.contains(pair));
                let i = choose|i: int| 0 <= i < entries.len() && entries[i] == pair;
                assert(targets@[i].token == token);
            }
            assert forall|i: int, j: int| 0 <= i < j < targets@.len() implies (
            #[trigger] targets@[i]).token != (#[trigger] targets@[j]).token by {
                assert(live.contains_key(*entries[i].0));
                assert(live.contains_key(*entries[j].0));
                if targets@[i].token == targets@[j].token {
                    assert(entries[i] == entries[j]);
                }
            }
        }
        targets
    }

    /// How many connections are live.
    pub fn len(&self) -> (count: usize)
        ensures
            count == self@.len(),
    {
        self.live.len()
    }
}

/// Whether the connection behind `ctx` is closed.
pub fn closed(registry: &Registry, ctx: &Endpoint) -> (gone: bool)
    ensures
        gone == !registry.is_open(ctx.token),
{
    registry.is_closed(ctx.token)
}

/// Whether the connection behind `ctx` is open.
pub fn open(registry: &Registry, ctx: &Endpoint) -> (live: bool)
    ensures
        live == registry.is_open(ctx.token),
{
    registry.is_open(ctx.token)
}

/// Registering a connection and then deregistering it leaves the registry
/// as if the connection had never been entered: its token is closed, it
/// resolves to nothing, and no other entry has changed.
pub proof fn lemma_register_then_deregister(
    before: Registry,
    between: Registry,
    after: Registry,
    endpoint: Endpoint,
)
    requires
        between@ == before@.insert(endpoint.token, endpoint.connection_id),
        after@ == between@.remove(endpoint.token),
    ensures
        !after.is_open(endpoint.token),
        after.resolve(endpoint.token) is None,
        after@ == before@.remove(endpoint.token),
        !before.is_open(endpoint.token) ==> after@ == before@,
{
    assert(after@ =~= before@.remove(endpoint.token));
    if !before.is_open(endpoint.token) {
        assert(after@ =~= before@);
    }
}

} // verus!
