use vstd::prelude::*;

use crate::agent::AgentMessage;
use crate::config::AgentConfig;
use crate::ids::AgentId;
use crate::registry::{created, Registry};
use crate::router::{dispatched, is_broadcast_target};

verus! {

/// `x` and `y` hold the same agents in the same places: same identifiers,
/// owners, configurations and pending messages throughout.
pub open spec fn same_registry_state(x: Registry, y: Registry) -> bool {
    &&& x.agents@.len() == y.agents@.len()
    &&& forall|j: int|
        0 <= j < x.agents@.len() ==> {
            &&& x.agents@[j].id == y.agents@[j].id
            &&& x.agents@[j].owner == y.agents@[j].owner
            &&& x.agents@[j].config == y.agents@[j].config
            &&& x.agents@[j].inbox@ == y.agents@[j].inbox@
        }
}

/// Law: an identifier returned by a successful create is never returned by
/// a later successful create — each success registers its identifier, an
/// identifier once registered stays registered, and a create succeeds only
/// under an identifier registered to nobody. The count grows by exactly one
/// per success.
pub proof fn lemma_created_ids_never_duplicated(
    r0: Registry,
    r1: Registry,
    r2: Registry,
    id1: AgentId,
    owner1: String,
    config1: AgentConfig,
    id2: AgentId,
    owner2: String,
    config2: AgentConfig,
)
    requires
        created(r0, r1, id1, owner1, config1),
        created(r1, r2, id2, owner2, config2),
    ensures
        id2 != id1,
        r1.agents@.len() == r0.agents@.len() + 1,
        r2.agents@.len() == r1.agents@.len() + 1,
{
    assert(r1.contains_id(id1));
}

/// Law: registration is permanent — no create removes or displaces an agent
/// already registered, so an identifier once registered is registered ever
/// after.
pub proof fn lemma_create_preserves_registered(
    r0: Registry,
    r1: Registry,
    fresh: AgentId,
    owner: String,
    config: AgentConfig,
    id: AgentId,
)
    requires
        created(r0, r1, fresh, owner, config),
        r0.contains_id(id),
    ensures
        r1.contains_id(id),
{
    let i = choose|i: int| 0 <= i < r0.agents@.len() && r0.agents@[i].id == id;
    assert(r1.agents@[i] == r0.agents@.subrange(0, r0.agents@.len() as int)[i]);
    assert(r1.agents@[i].id == id);
}

/// Law: interactions aimed at two different registered agents are
/// independent — each leaves the other's agent untouched, and performing
/// them in either order ends in the same registry state.
pub proof fn lemma_distinct_targets_commute(
    r0: Registry,
    r1: Registry,
    r2: Registry,
    s1: Registry,
    s2: Registry,
    a: AgentId,
    b: AgentId,
    ma: AgentMessage,
    mb: AgentMessage,
)
    requires
        a != b,
        dispatched(r0, r1, a, ma),
        dispatched(r1, r2, b, mb),
        dispatched(r0, s1, b, mb),
        dispatched(s1, s2, a, ma),
    ensures
        same_registry_state(r2, s2),
{
    assert forall|j: int| 0 <= j < r2.agents@.len() implies {
        &&& r2.agents@[j].id == s2.agents@[j].id
        &&& r2.agents@[j].owner == s2.agents@[j].owner
        &&& r2.agents@[j].config == s2.agents@[j].config
        &&& r2.agents@[j].inbox@ == s2.agents@[j].inbox@
    } by {
        assert(r1.agents@[j].id == r0.agents@[j].id);
        assert(s1.agents@[j].id == r0.agents@[j].id);
        if r0.agents@[j].id == a {
            assert(r1.agents@[j].inbox@ == r0.agents@[j].inbox@.push(ma));
            assert(r2.agents@[j] == r1.agents@[j]);
            assert(s1.agents@[j] == r0.agents@[j]);
            assert(s2.agents@[j].inbox@ == s1.agents@[j].inbox@.push(ma));
        } else if r0.agents@[j].id == b {
            assert(r1.agents@[j] == r0.agents@[j]);
            assert(r2.agents@[j].inbox@ == r1.agents@[j].inbox@.push(mb));
            assert(s1.agents@[j].inbox@ == r0.agents@[j].inbox@.push(mb));
            assert(s2.agents@[j] == s1.agents@[j]);
        } else {
            assert(r1.agents@[j] == r0.agents@[j]);
            assert(r2.agents@[j] == r1.agents@[j]);
            assert(s1.agents@[j] == r0.agents@[j]);
            assert(s2.agents@[j] == s1.agents@[j]);
        }
    }
}

/// Law: a dispatch to one registered agent leaves every other agent exactly
/// as it was — no interaction blocks or alters traffic to anyone else.
pub proof fn lemma_dispatch_touches_only_target(
    pre: Registry,
    post: Registry,
    target: AgentId,
    m: AgentMessage,
    j: int,
)
    requires
        dispatched(pre, post, target, m),
        0 <= j < pre.agents@.len(),
        pre.agents@[j].id != target,
    ensures
        post.agents@[j] == pre.agents@[j],
{
}

/// Law: messages leave an inbox in exactly the order they were accepted.
/// With `k` messages already taken, an inbox that accepted the messages `q`
/// holds `q` from position `k` on; the next take hands back `q[k]` — never
/// a later message — and leaves `q` from position `k + 1` on.
pub proof fn lemma_inbox_fifo(q: Seq<AgentMessage>, k: int)
    requires
        0 <= k < q.len(),
    ensures
        q.subrange(k, q.len() as int)[0] == q[k],
        q.subrange(k, q.len() as int).drop_first() =~= q.subrange(k + 1, q.len() as int),
{
}

/// Law: a new arrival never displaces a message already waiting — it goes
/// to the back, every earlier message keeps its place, and so two requests
/// submitted to one agent are handed to it in submission order.
pub proof fn lemma_arrival_keeps_order(q: Seq<AgentMessage>, m: AgentMessage, k: int)
    requires
        0 <= k < q.len(),
    ensures
        q.push(m).len() == q.len() + 1,
        q.push(m)[k] == q[k],
        q.push(m).last() == m,
{
}

/// Law: a broadcast with no named recipients is aimed at every registered
/// agent; one with named recipients is aimed at exactly the agents it
/// names — the intersection of the list with the registry, identifiers
/// registered to nobody falling away silently.
pub proof fn lemma_broadcast_reach(recipients: Seq<AgentId>, id: AgentId)
    ensures
        recipients.len() == 0 ==> is_broadcast_target(recipients, id),
        recipients.len() > 0 ==> (is_broadcast_target(recipients, id) <==> recipients.contains(
            id,
        )),
{
}

} // verus!
