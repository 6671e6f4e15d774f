//! Addressed delivery: which connection a frame is for, and when there is
//! none to send it to.

use vstd::prelude::*;

use crate::connections::{lists_all, Endpoint, Registry};
use crate::envelope::{envelope, frame};
use crate::event::event_type::Event;

verus! {

/// One write that is to be made: the frame, and the connection it is for.
#[derive(Debug, Clone, PartialEq, Eq)]
pub struct Outbound {
    pub target: Endpoint,
    pub frame: String,
}

impl View for Outbound {
    type V = (Endpoint, Seq<char>);

    open spec fn view(&self) -> (Endpoint, Seq<char>) {
        (self.target, self.frame@)
    }
}

/// The write that delivers `data` to the connection named `token`, given
/// the live connections: none if the token is not among them.
pub open spec fn addressed(live: Map<usize, u32>, token: usize, event: Event, data: Seq<char>)
    -> Option<(Endpoint, Seq<char>)> {
    if live.contains_key(token) {
        Some((Endpoint { token, connection_id: live[token] }, envelope(event, data)))
    } else {
        None
    }
}

/// Addresses `data` to the connection that `client` stands for.
///
/// Fails if that connection is not registered; then nothing is to be
/// written. On success the frame goes to `client` itself.
pub fn send(registry: &Registry, client: &Endpoint, event: Event, data: &str) -> (plan: Result<
    Outbound,
    (),
>)
    ensures
        match plan {
            Ok(out) => registry.is_open(client.token) && out@ == (*client, envelope(event, data@)),
            Err(_) => !registry.is_open(client.token),
        },
{
    if crate::connections::closed(registry, client) {
        return Err(());
    }
    Ok(Outbound { target: *client, frame: frame(event, data) })
}

/// Addresses `data` to the connection named `token`, whichever connection
/// the caller itself stands for.
///
/// Fails if no such connection is registered; then nothing is to be
/// written. On success the frame goes to the address under which the
/// token is registered.
pub fn send_to(registry: &Registry, token: usize, event: Event, data: &str) -> (plan: Result<
    Outbound,
    (),
>)
    ensures
        match plan {
            Ok(out) => Some(out@) == addressed(registry@, token, event, data@),
            Err(_) => addressed(registry@, token, event, data@) is None,
        },
{
    match registry.resolve(token) {
        Some(target) => send(registry, &target, event, data),
        None => Err(()),
    }
}

/// Whether `plan` is a fan-out of `data` over the live connections: it
/// holds one write for each of them and no other, each addressed as
/// `send_to` would address it.
pub open spec fn targets_all(
    plan: Seq<Outbound>,
    live: Map<usize, u32>,
    event: Event,
    data: Seq<char>,
) -> bool {
    &&& plan.len() == live.len()
    &&& forall|i: int|
        0 <= i < plan.len() ==> Some((#[trigger] plan[i])@) == addressed(
            live,
            plan[i].target.token,
            event,
            data,
        )
    &&& forall|token: usize|
        live.contains_key(token) ==> exists|i: int|
            0 <= i < plan.len() && (#[trigger] plan[i]).target.token == token
    &&& forall|i: int, j: int|
        0 <= i < j < plan.len() ==> (#[trigger] plan[i]).target.token != (
        #[trigger] plan[j]).target.token
}

/// Addresses `data` to each of `targets` in turn, as `send_to` addresses it
/// with the registry as it stands now. A target that has left since the
/// list was made fails alone: every other attempt is what it would have
/// been without it.
pub fn fan_out(registry: &Registry, targets: &Vec<Endpoint>, event: Event, data: &str) -> (attempts:
    Vec<Result<Outbound, ()>>)
    ensures
        attempts@.len() == targets@.len(),
        forall|i: int|
            0 <= i < attempts@.len() ==> match #[trigger] attempts@[i] {
                Ok(out) => Some(out@) == addressed(registry@, targets@[i].token, event, data@),
                Err(_) => addressed(registry@, targets@[i].token, event, data@) is None,
            },
{
    let mut attempts: Vec<Result<Outbound, ()>> = Vec::new();
    for k in 0..targets.len()
        invariant
            attempts@.len() == k,
            forall|i: int|
                0 <= i < k ==> match #[trigger] attempts@[i] {
                    Ok(out) => Some(out@) == addressed(registry@, targets@[i].token, event, data@),
                    Err(_) => addressed(registry@, targets@[i].token, event, data@) is None,
                },
    {
        attempts.push(send_to(registry, targets[k].token, event, data));
    }
    attempts
}

/// Addresses `data` to every connection that is live at the time of the
/// call: one write for each, in no particular order.
pub fn broadcast(registry: &Registry, event: Event, data: &str) -> (plan: Vec<Outbound>)
    ensures
        targets_all(plan@, registry@, event, data@),
{
    let targets = registry.snapshot();
    let mut attempts = fan_out(registry, &targets, event, data);
    let ghost all = attempts@;
    let ghost live = registry@;
    let mut plan: Vec<Outbound> = Vec::new();
    while attempts.len() > 0
        invariant
            lists_all(targets@, live),
            all.len() == targets@.len(),
            forall|i: int|
                0 <= i < all.len() ==> match #[trigger] all[i] {
                    Ok(out) => Some(out@) == addressed(live, targets@[i].token, event, data@),
                    Err(_) => addressed(live, targets@[i].token, event, data@) is None,
                },
            attempts@ == all.subrange(0, attempts@.len() as int),
            plan@.len() + attempts@.len() == all.len(),
            forall|j: int|
                0 <= j < plan@.len() ==> all[all.len() - 1 - j] == Ok::<Outbound, ()>(
                    #[trigger] plan@[j],
                ),
        decreases attempts@.len(),
    {
        let ghost last = attempts@.len() - 1;
        assert(attempts@[last] == all[last]);
        assert(live.contains_key(targets@[last].token));
        match attempts.pop() {
            Some(Ok(out)) => plan.push(out),
            _ => unreached(),
        }
    }
    proof {
        let n = all.len() as int;
        assert forall|i: int| 0 <= i < plan@.len() implies (#[trigger] plan@[i])@ == (
            targets@[n - 1 - i],
            envelope(event, data@),
        ) by {
            assert(all[n - 1 - i] == Ok::<Outbound, ()>(plan@[i]));
            assert(live.contains_key(targets@[n - 1 - i].token));
        }
        assert forall|token: usize| live.contains_key(token) implies exists|i: int|
            0 <= i < plan@.len() && (#[trigger] plan@[i]).target.token == token by {
            let k = choose|k: int|
                0 <= k < targets@.len() && (#[trigger] targets@[k]).token == token;
            assert(plan@[n - 1 - k].target.token == token);
        }
        assert forall|i: int, j: int| 0 <= i < j < plan@.len() implies (
        #[trigger] plan@[i]).target.token != (#[trigger] plan@[j]).target.token by {
            assert(targets@[n - 1 - j].token != targets@[n - 1 - i].token);
        }
    }
    plan
}

/// The tokens that the writes of `plan` go to, in the plan's order.
pub open spec fn tokens_of(plan: Seq<Outbound>) -> Seq<usize> {
    Seq::new(plan.len(), |i: int| plan[i].target.token)
}

/// A fan-out goes to exactly the connections that were live when it was
/// made: the tokens written to are the live tokens, none is written to
/// twice, and every write carries the same frame, the one that `send`
/// builds for the kind and the data.
pub proof fn lemma_fan_out_covers_live(
    plan: Seq<Outbound>,
    live: Map<usize, u32>,
    event: Event,
    data: Seq<char>,
)
    requires
        targets_all(plan, live, event, data),
    ensures
        tokens_of(plan).to_set() == live.dom(),
        tokens_of(plan).no_duplicates(),
        plan.len() == live.len(),
        forall|i: int| 0 <= i < plan.len() ==> (#[trigger] plan[i]).frame@ == envelope(event, data),
{
    let tokens = tokens_of(plan);
    assert forall|token: usize| tokens.to_set().contains(token) <==> live.dom().contains(
        token,
    ) by {
        if tokens.to_set().contains(token) {
            let i = choose|i: int| 0 <= i < tokens.len() && tokens[i] == token;
            assert(addressed(live, plan[i].target.token, event, data) is Some);
        }
        if live.dom().contains(token) {
            let i = choose|i: int|
                0 <= i < plan.len() && (#[trigger] plan[i]).target.token == token;
            assert(tokens[i] == token);
        }
    }
    assert(tokens.to_set() =~= live.dom());
    assert forall|i: int, j: int|
        0 <= i < tokens.len() && 0 <= j < tokens.len() && i != j implies tokens[i]
        != tokens[j] by {
        if i < j {
            assert(plan[i].target.token != plan[j].target.token);
        } else {
            assert(plan[j].target.token != plan[i].target.token);
        }
    }
    assert forall|i: int| 0 <= i < plan.len() implies (#[trigger] plan[i]).frame@ == envelope(
        event,
        data,
    ) by {
        assert(addressed(live, plan[i].target.token, event, data) is Some);
    }
}

/// A fan-out reaches no connection that was not live when it was made:
/// one that registers afterwards gets nothing from it.
pub proof fn lemma_fan_out_skips_later_arrivals(
    plan: Seq<Outbound>,
    live: Map<usize, u32>,
    event: Event,
    data: Seq<char>,
    late: usize,
)
    requires
        targets_all(plan, live, event, data),
        !live.contains_key(late),
    ensures
        forall|i: int| 0 <= i < plan.len() ==> (#[trigger] plan[i]).target.token != late,
{
    assert forall|i: int| 0 <= i < plan.len() implies (#[trigger] plan[i]).target.token != late by {
        assert(addressed(live, plan[i].target.token, event, data) is Some);
    }
}

/// When a connection leaves while a fan-out is under way, the delivery to
/// it fails and every other delivery of the fan-out still goes to the
/// address that the fan-out gave it.
pub proof fn lemma_departure_fails_alone(
    plan: Seq<Outbound>,
    live: Map<usize, u32>,
    event: Event,
    data: Seq<char>,
    gone: usize,
)
    requires
        targets_all(plan, live, event, data),
    ensures
        addressed(live.remove(gone), gone, event, data) is None,
        forall|i: int|
            0 <= i < plan.len() && (#[trigger] plan[i]).target.token != gone ==> addressed(
                live.remove(gone),
                plan[i].target.token,
                event,
                data,
            ) == Some(plan[i]@),
{
}

} // verus!
