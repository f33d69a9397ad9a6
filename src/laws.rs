//! Properties of runs of the core, stated over the abstract steps that the
//! executable methods of [`crate::consensus::FediMintConsensus`] are proved to
//! perform exactly.
use vstd::prelude::*;
use crate::consensus::{
    accept_request, add_share, combination_due, complete, deliver, has_share_from, record_own,
    shares_of, threshold, unique_peers, ActionView, CoreState,
};
use crate::types::{ClientRequestView, ItemView, PartialSigView, SigView};

verus! {

/// One input to a peer's core.
pub enum Event {
    /// A client request submitted with the outcome of its signature and coin checks.
    Submit(ClientRequestView, bool, bool),
    /// An item delivered in an epoch, with its contributor.
    Deliver(u16, ItemView),
    /// This peer's own share, produced by the mint.
    OwnShare(PartialSigView),
    /// The outcome of combining the shares of a request.
    Combined(u64, Option<Seq<u8>>),
}

pub open spec fn apply_event(s: CoreState, e: Event) -> (CoreState, Option<SigView>) {
    match e {
        Event::Submit(cr, sv, cv) => (accept_request(s, cr, sv, cv), None),
        Event::Deliver(peer, item) => (deliver(s, peer, item).0, None),
        Event::OwnShare(ps) => (record_own(s, ps), None),
        Event::Combined(rid, c) => complete(s, rid, c),
    }
}

/// The state reached and the signatures emitted, in order, by a sequence of events.
pub open spec fn run(s: CoreState, evs: Seq<Event>) -> (CoreState, Seq<SigView>)
    decreases evs.len(),
{
    if evs.len() == 0 {
        (s, Seq::empty())
    } else {
        let (t, out) = run(s, evs.drop_last());
        let (u, e) = apply_event(t, evs.last());
        (
            u,
            match e {
                Some(x) => out.push(x),
                None => out,
            },
        )
    }
}

proof fn lemma_add_share_wf(s: CoreState, peer: u16, ps: PartialSigView)
    requires
        s.wf(),
        !s.completed.contains(ps.id),
    ensures
        add_share(s, peer, ps).wf(),
        add_share(s, peer, ps).completed == s.completed,
{
    let l0 = shares_of(s, ps.id);
    let t = add_share(s, peer, ps);
    let lv = t.shares[ps.id];
    assert(unique_peers(l0));
    if !has_share_from(l0, peer) {
        assert forall|i: int, j: int|
            0 <= i < lv.len() && 0 <= j < lv.len() && i != j implies (#[trigger] lv[i]).0 != (
            #[trigger] lv[j]).0 by {
            if i == l0.len() as int {
                assert(l0[j] == lv[j]);
            } else if j == l0.len() as int {
                assert(l0[i] == lv[i]);
            } else {
                assert(l0[i] == lv[i] && l0[j] == lv[j]);
            }
        }
    }
    assert forall|rid: u64| #[trigger] t.shares.contains_key(rid) implies unique_peers(t.shares[rid])
        && !t.completed.contains(rid) by {
        if rid != ps.id {
            assert(s.shares.contains_key(rid));
        }
    }
}

proof fn lemma_step_wf(s: CoreState, e: Event)
    requires
        s.wf(),
    ensures
        apply_event(s, e).0.wf(),
        s.completed.subset_of(apply_event(s, e).0.completed),
        apply_event(s, e).1 matches Some(x) ==> !s.completed.contains(x.id)
            && apply_event(s, e).0.completed.contains(x.id),
{
    match e {
        Event::Submit(cr, sv, cv) => {},
        Event::Deliver(peer, item) => {
            let s1 = CoreState { pool: s.pool.remove(item), ..s };
            if let ItemView::PartiallySignedRequest(ps) = item {
                if !s.completed.contains(ps.id) {
                    lemma_add_share_wf(s1, peer, ps);
                }
            }
        },
        Event::OwnShare(ps) => {
            if !s.completed.contains(ps.id) {
                let s1 = CoreState {
                    pool: s.pool.insert(ItemView::PartiallySignedRequest(ps)),
                    ..s
                };
                lemma_add_share_wf(s1, s.cfg.identity, ps);
            }
        },
        Event::Combined(rid, c) => {
            let u = apply_event(s, e).0;
            assert forall|k: u64| #[trigger] u.shares.contains_key(k) implies unique_peers(
                u.shares[k],
            ) && !u.completed.contains(k) by {
                assert(s.shares.contains_key(k));
            }
        },
    }
}

proof fn lemma_run_wf(s: CoreState, evs: Seq<Event>)
    requires
        s.wf(),
    ensures
        run(s, evs).0.wf(),
        s.completed.subset_of(run(s, evs).0.completed),
        forall|i: int|
            0 <= i < run(s, evs).1.len() ==> !s.completed.contains((#[trigger] run(s, evs).1[i]).id)
                && run(s, evs).0.completed.contains(run(s, evs).1[i].id),
        forall|i: int, j: int|
            0 <= i < j < run(s, evs).1.len() ==> (#[trigger] run(s, evs).1[i]).id != (
            #[trigger] run(s, evs).1[j]).id,
    decreases evs.len(),
{
    if evs.len() > 0 {
        let p = evs.drop_last();
        lemma_run_wf(s, p);
        let (t, out) = run(s, p);
        lemma_step_wf(t, evs.last());
        let (u, e) = apply_event(t, evs.last());
        let res = run(s, evs).1;
        if let Some(x) = e {
            assert(res == out.push(x));
            assert forall|i: int| 0 <= i < res.len() implies !s.completed.contains(
                (#[trigger] res[i]).id,
            ) && u.completed.contains(res[i].id) by {
                if i < out.len() {
                    assert(res[i] == out[i]);
                    assert(t.completed.contains(out[i].id));
                }
            }
            assert forall|i: int, j: int| 0 <= i < j < res.len() implies (#[trigger] res[i]).id != (
            #[trigger] res[j]).id by {
                assert(res[i] == out[i]);
                if j == out.len() {
                    assert(t.completed.contains(out[i].id));
                } else {
                    assert(res[j] == out[j]);
                }
            }
        } else {
            assert forall|i: int| 0 <= i < res.len() implies !s.completed.contains(
                (#[trigger] res[i]).id,
            ) && u.completed.contains(res[i].id) by {
                assert(t.completed.contains(out[i].id));
            }
        }
    }
}

/// Determinism: two cores in the same state that are given the same events
/// (the same delivered epochs and the same outcomes of the mint's work) reach
/// the same state and emit the same signatures in the same order.
pub proof fn lemma_deterministic(s1: CoreState, s2: CoreState, evs: Seq<Event>)
    requires
        s1 == s2,
    ensures
        run(s1, evs) == run(s2, evs),
{
}

/// At most one emission: along any run from a well-formed state, no two
/// emitted signatures answer the same request, and none answers a request
/// that was already answered before the run.
pub proof fn lemma_at_most_one_emission(s: CoreState, evs: Seq<Event>)
    requires
        s.wf(),
    ensures
        forall|i: int, j: int|
            0 <= i < j < run(s, evs).1.len() ==> (#[trigger] run(s, evs).1[i]).id != (
            #[trigger] run(s, evs).1[j]).id,
        forall|i: int|
            0 <= i < run(s, evs).1.len() ==> !s.completed.contains(
                (#[trigger] run(s, evs).1[i]).id,
            ),
{
    lemma_run_wf(s, evs);
}

/// Share uniqueness: along any run from a well-formed state, the shares held
/// for a request never hold two entries of the same peer.
pub proof fn lemma_share_uniqueness(s: CoreState, evs: Seq<Event>, rid: u64)
    requires
        s.wf(),
    ensures
        unique_peers(shares_of(run(s, evs).0, rid)),
{
    lemma_run_wf(s, evs);
}

/// Pool idempotence: submitting the same client request twice, or taking the
/// same own share twice, leaves the state as the first time left it.
pub proof fn lemma_pool_idempotent(
    s: CoreState,
    cr: ClientRequestView,
    signature_valid: bool,
    coins_valid: bool,
    ps: PartialSigView,
)
    requires
        s.wf(),
    ensures
        accept_request(accept_request(s, cr, signature_valid, coins_valid), cr, signature_valid, coins_valid)
            == accept_request(s, cr, signature_valid, coins_valid),
        record_own(record_own(s, ps), ps) == record_own(s, ps),
{
    let a = accept_request(s, cr, signature_valid, coins_valid);
    assert(s.pool.insert(ItemView::ClientRequest(cr)).insert(ItemView::ClientRequest(cr))
        =~= s.pool.insert(ItemView::ClientRequest(cr)));
    assert(accept_request(a, cr, signature_valid, coins_valid) =~= a);
    if !s.completed.contains(ps.id) {
        let t = record_own(s, ps);
        let l = t.shares[ps.id];
        let k = if has_share_from(shares_of(s, ps.id), s.cfg.identity) {
            choose|i: int| 0 <= i < shares_of(s, ps.id).len() && (#[trigger] shares_of(s, ps.id)[i]).0 == s.cfg.identity
        } else {
            shares_of(s, ps.id).len() as int
        };
        assert(l[k].0 == s.cfg.identity);
        assert(has_share_from(l, s.cfg.identity));
        assert(t.pool.insert(ItemView::PartiallySignedRequest(ps)) =~= t.pool);
        assert(t.shares.insert(ps.id, l) =~= t.shares);
        assert(record_own(t, ps) =~= t);
    }
}

/// Progress: once more than the threshold of shares is held for `rid` (at
/// least N - f), the next delivered share for `rid` calls for combination,
/// and a successful combination emits the signature for `rid`.
pub proof fn lemma_progress(s: CoreState, rid: u64, peer: u16, ps: PartialSigView, sig: Seq<u8>)
    requires
        s.wf(),
        s.shares.contains_key(rid),
        s.shares[rid].len() > threshold(s.cfg),
        ps.id == rid,
    ensures
        deliver(s, peer, ItemView::PartiallySignedRequest(ps)).1 == ActionView::Combine(rid),
        complete(deliver(s, peer, ItemView::PartiallySignedRequest(ps)).0, rid, Some(sig)).1
            == Some(SigView { id: rid, sig }),
{
    let s1 = CoreState { pool: s.pool.remove(ItemView::PartiallySignedRequest(ps)), ..s };
    let s2 = add_share(s1, peer, ps);
    assert(s2.shares[rid].len() >= s.shares[rid].len());
    assert(combination_due(s2, rid));
}

} // verus!
