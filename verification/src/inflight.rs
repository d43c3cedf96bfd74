//! The bookkeeping of running tool calls: admission bounded by a worker limit,
//! an id for every admitted call, release by id, and the cancellation handles
//! of everything still running. The lock, the condition variable and the
//! cancellation handles themselves belong to the server around it.
use vstd::prelude::*;
use crate::text::{decimal_nat, owned, push_decimal_u64, push_str};

verus! {

/// How many tool calls may run at once.
pub const MCP_MAX_TOOL_WORKERS: usize = 32;

/// The calls a server is running, each with its id and cancellation handle.
#[derive(Debug)]
pub struct InFlightRegistry<T> {
    running: Vec<(u64, T)>,
    next_id: u64,
}

/// The mathematical form of a registry: the running calls in admission order
/// and the last id handed out.
pub struct InFlightV<T> {
    pub running: Seq<(u64, T)>,
    pub next_id: u64,
}

impl<T> View for InFlightRegistry<T> {
    type V = InFlightV<T>;

    closed spec fn view(&self) -> InFlightV<T> {
        InFlightV { running: self.running@, next_id: self.next_id }
    }
}

/// A registry never runs more calls than the limit; its ids are positive,
/// no larger than the last id handed out, and increase in admission order.
pub open spec fn registry_wf<T>(s: InFlightV<T>) -> bool {
    &&& s.running.len() <= MCP_MAX_TOOL_WORKERS
    &&& forall|i: int| 0 <= i < s.running.len() ==> 0 < (#[trigger] s.running[i]).0 <= s.next_id
    &&& forall|i: int, j: int|
        0 <= i < j < s.running.len() ==> (#[trigger] s.running[i]).0 < (#[trigger] s.running[j]).0
}

/// The message with which a full registry refuses a call.
pub open spec fn overloaded_message() -> Seq<char> {
    "dispatcher overloaded: at most "@ + decimal_nat(MCP_MAX_TOOL_WORKERS as nat)
        + " concurrent tools/call requests are allowed"@
}

/// The registry after admitting a call with `token`.
pub open spec fn admitted<T>(s: InFlightV<T>, token: T) -> InFlightV<T> {
    InFlightV { running: s.running.push(((s.next_id + 1) as u64, token)), next_id: (s.next_id + 1) as u64 }
}

/// Whether an entry belongs to a call other than `id`.
pub open spec fn other_than<T>(id: u64) -> spec_fn((u64, T)) -> bool {
    |e: (u64, T)| e.0 != id
}

/// The registry after the call `id` is released.
pub open spec fn released<T>(s: InFlightV<T>, id: u64) -> InFlightV<T> {
    InFlightV { running: s.running.filter(other_than::<T>(id)), next_id: s.next_id }
}

impl<T> InFlightRegistry<T> {
    /// An empty registry.
    pub fn new() -> (r: InFlightRegistry<T>)
        ensures
            r@.running.len() == 0,
            r@.next_id == 0,
            registry_wf(r@),
    {
        InFlightRegistry { running: Vec::new(), next_id: 0 }
    }

    /// Admits a call with `token` and returns its id, unless the limit is
    /// reached: then the registry stays as it is and the call is refused.
    pub fn admit_call(&mut self, token: T) -> (r: Result<u64, String>)
        requires
            registry_wf(old(self)@),
            old(self)@.running.len() < MCP_MAX_TOOL_WORKERS ==> old(self)@.next_id < u64::MAX,
        ensures
            registry_wf(final(self)@),
            old(self)@.running.len() >= MCP_MAX_TOOL_WORKERS ==> (match r {
                Err(m) => m@ == overloaded_message(),
                Ok(_) => false,
            }) && final(self)@ == old(self)@,
            old(self)@.running.len() < MCP_MAX_TOOL_WORKERS ==> r == Ok::<u64, String>(
                (old(self)@.next_id + 1) as u64,
            ) && final(self)@ == admitted(old(self)@, token),
    {
        if self.running.len() >= MCP_MAX_TOOL_WORKERS {
            return Err(overloaded());
        }
        self.next_id = self.next_id + 1;
        let id = self.next_id;
        self.running.push((id, token));
        Ok(id)
    }

    /// The last id handed out; zero before the first admission.
    pub fn last_id(&self) -> (r: u64)
        ensures
            r == self@.next_id,
    {
        self.next_id
    }

    /// How many calls are running.
    pub fn running(&self) -> (r: usize)
        ensures
            r == self@.running.len(),
    {
        self.running.len()
    }

    /// Forgets the call `id`; the other calls stay in order.
    pub fn release(&mut self, id: u64)
        requires
            registry_wf(old(self)@),
        ensures
            registry_wf(final(self)@),
            final(self)@ == released(old(self)@, id),
    {
        let ghost pred = other_than::<T>(id);
        let ghost all = self.running@;
        let mut kept: Vec<(u64, T)> = Vec::new();
        let mut rest: Vec<(u64, T)> = Vec::new();
        std::mem::swap(&mut rest, &mut self.running);
        let ghost n = all.len();
        while rest.len() > 0
            invariant
                n == all.len(),
                rest.len() <= n,
                registry_wf(InFlightV { running: all, next_id: self.next_id }),
                rest@ == all.subrange(n - rest.len(), n as int),
                kept@ == all.subrange(0, n - rest.len()).filter(pred),
                pred == other_than::<T>(id),
                kept@.len() <= n - rest.len(),
                forall|i: int| 0 <= i < kept@.len() ==> 0 < (#[trigger] kept@[i]).0 <= self.next_id,
                forall|i: int, j: int|
                    0 <= i < j < kept@.len() ==> (#[trigger] kept@[i]).0 < (#[trigger] kept@[j]).0,
                forall|i: int, k: int|
                    0 <= i < kept@.len() && n - rest.len() <= k < n ==> (#[trigger] kept@[i]).0
                        < (#[trigger] all[k]).0,
            decreases rest.len(),
        {
            let ghost done = (n - rest.len()) as int;
            let entry = rest.remove(0);
            proof {
                assert(entry == all[done]);
                assert(all.subrange(0, done + 1) =~= all.subrange(0, done).push(all[done]));
                all.subrange(0, done).lemma_filter_push(all[done], pred);
                all.subrange(0, done).filter(pred).lemma_filter_len(pred);
                assert(rest@ =~= all.subrange(done + 1, n as int));
            }
            if entry.0 != id {
                kept.push(entry);
            }
        }
        proof {
            assert(all.subrange(0, n as int) =~= all);
        }
        self.running = kept;
    }

    /// The cancellation handles of every running call, in admission order.
    pub fn cancel_all(&self) -> (r: Vec<&T>)
        ensures
            r@.len() == self@.running.len(),
            forall|i: int| 0 <= i < r@.len() ==> *r@[i] == self@.running[i].1,
    {
        let mut r: Vec<&T> = Vec::new();
        let mut i: usize = 0;
        while i < self.running.len()
            invariant
                i <= self.running.len(),
                r@.len() == i,
                forall|k: int| 0 <= k < i ==> *r@[k] == self.running@[k].1,
            decreases self.running.len() - i,
        {
            r.push(&self.running[i].1);
            i = i + 1;
        }
        r
    }

    /// One look at the registry while waiting for it to drain: `Some(true)`
    /// once nothing runs, `Some(false)` when calls still run and the time is
    /// up, `None` to wait for the next release.
    pub fn wait_idle(&self, time_is_up: bool) -> (r: Option<bool>)
        ensures
            self@.running.len() == 0 ==> r == Some(true),
            self@.running.len() > 0 && time_is_up ==> r == Some(false),
            self@.running.len() > 0 && !time_is_up ==> r is None,
    {
        if self.running.len() == 0 {
            Some(true)
        } else if time_is_up {
            Some(false)
        } else {
            None
        }
    }
}

/// Filtering keeps a sequence whose every item passes.
proof fn lemma_filter_keeps_all<A>(s: Seq<A>, pred: spec_fn(A) -> bool)
    requires
        forall|i: int| 0 <= i < s.len() ==> pred(#[trigger] s[i]),
    ensures
        s.filter(pred) == s,
    decreases s.len(),
{
    if s.len() > 0 {
        let init = s.drop_last();
        assert forall|i: int| 0 <= i < init.len() implies pred(#[trigger] init[i]) by {
            assert(init[i] == s[i]);
        }
        lemma_filter_keeps_all(init, pred);
        init.lemma_filter_push(s.last(), pred);
        assert(init.push(s.last()) =~= s);
    }
}

/// Releasing an id that no running call has changes nothing.
pub proof fn law_release_of_unknown_id_changes_nothing<T>(s: InFlightV<T>, id: u64)
    requires
        forall|i: int| 0 <= i < s.running.len() ==> (#[trigger] s.running[i]).0 != id,
    ensures
        released(s, id) == s,
{
    lemma_filter_keeps_all(s.running, other_than::<T>(id));
}

/// Admission is reusable: admitting a call and then releasing the id it got
/// gives back the registry as it was, but for the last id handed out.
pub proof fn law_release_undoes_admission<T>(s: InFlightV<T>, token: T)
    requires
        registry_wf(s),
        s.running.len() < MCP_MAX_TOOL_WORKERS,
        s.next_id < u64::MAX,
    ensures
        ({
            let id = (s.next_id + 1) as u64;
            let after = released(admitted(s, token), id);
            &&& registry_wf(admitted(s, token))
            &&& after.running == s.running
            &&& after.next_id == id
        }),
{
    let id = (s.next_id + 1) as u64;
    lemma_filter_keeps_all(s.running, other_than::<T>(id));
    s.running.lemma_filter_push((id, token), other_than::<T>(id));
}

/// Release removes every entry of the released id and keeps every other
/// entry, never adding one.
pub proof fn law_release_removes_exactly<T>(s: InFlightV<T>, id: u64)
    ensures
        forall|i: int|
            0 <= i < released(s, id).running.len() ==> (#[trigger] released(s, id).running[i]).0
                != id && s.running.contains(released(s, id).running[i]),
        forall|i: int|
            0 <= i < s.running.len() && (#[trigger] s.running[i]).0 != id ==> released(
                s,
                id,
            ).running.contains(s.running[i]),
        released(s, id).running.len() <= s.running.len(),
{
    let pred = other_than::<T>(id);
    s.running.lemma_filter_len(pred);
    assert forall|i: int| 0 <= i < released(s, id).running.len() implies (
    #[trigger] released(s, id).running[i]).0 != id && s.running.contains(
        released(s, id).running[i],
    ) by {
        s.running.lemma_filter_pred(pred, i);
        let e = released(s, id).running[i];
        assert(released(s, id).running.contains(e));
        s.running.lemma_filter_contains_rev(pred, e);
    }
    assert forall|i: int| 0 <= i < s.running.len() && (#[trigger] s.running[i]).0 != id implies released(
        s,
        id,
    ).running.contains(s.running[i]) by {
        s.running.lemma_filter_contains(pred, i);
    }
}

/// The message with which a full registry refuses a call.
fn overloaded() -> (r: String)
    ensures
        r@ == overloaded_message(),
{
    let mut m = owned("dispatcher overloaded: at most ");
    push_decimal_u64(&mut m, MCP_MAX_TOOL_WORKERS as u64);
    push_str(&mut m, " concurrent tools/call requests are allowed");
    m
}

} // verus!
