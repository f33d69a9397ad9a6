use minimint::consensus::{Action, ClientRequestError, FediMintConsensus, FederationConfig};
use minimint::epoch::Batch;
use minimint::types::{
    Coin, ClientRequest, ConsensusItem, IssuanceRequest, PartialSigResponse, PegInRequest,
    PegOutRequest, ReissuanceRequest, SigResponse,
};

fn config(identity: u16) -> FederationConfig {
    FederationConfig { identity, peer_count: 4, max_faulty: 1 }
}

fn new_core(identity: u16) -> FediMintConsensus {
    FediMintConsensus::new(config(identity))
}

fn tokens(id: u64) -> IssuanceRequest {
    IssuanceRequest { id, blind_tokens: vec![id as u8, 1, 2, 3] }
}

fn peg_in(id: u64) -> ClientRequest {
    ClientRequest::PegIn(PegInRequest { proof: vec![9, 9], blind_tokens: tokens(id) })
}

fn coin(k: u8) -> Coin {
    Coin { spend_key: vec![k, k], mint_sig: vec![k, 0, k] }
}

fn reissuance(id: u64, coins: Vec<Coin>) -> ReissuanceRequest {
    ReissuanceRequest { coins, blind_tokens: tokens(id), sig: vec![5, 5, 5] }
}

/// A well-formed share of `peer` for request `id`.
fn share(id: u64, peer: u16) -> PartialSigResponse {
    PartialSigResponse { id, share: vec![peer as u8, 7] }
}

fn psr(ps: PartialSigResponse) -> ConsensusItem {
    ConsensusItem::PartiallySignedRequest(ps)
}

/// Stand-in for the mint: shares whose second byte is 7 are well formed; at
/// least three well-formed shares combine; coins listed in `spent` are refused.
struct FakeMint {
    identity: u16,
    spent: Vec<Vec<u8>>,
}

impl FakeMint {
    fn combine(&self, shares: &[(u16, PartialSigResponse)], rid: u64) -> Option<Vec<u8>> {
        let good: Vec<u16> =
            shares.iter().filter(|(_, s)| s.share.len() == 2 && s.share[1] == 7).map(|(p, _)| *p).collect();
        if good.len() >= 3 {
            let mut sig = vec![rid as u8];
            sig.extend(good.iter().map(|p| *p as u8));
            Some(sig)
        } else {
            None
        }
    }
}

fn run_epoch(c: &mut FediMintConsensus, mint: &mut FakeMint, batch: Batch) -> Vec<SigResponse> {
    assert!(batch.is_ordered());
    let mut out = Vec::new();
    for (peer, item) in batch.delivery_order() {
        match c.process_consensus_item(peer, item) {
            Action::Nothing => {}
            Action::Sign(req) => c.record_own_share(share(req.id, mint.identity)),
            Action::Reissue(r) => {
                let spent = r.coins.iter().any(|k| mint.spent.contains(&k.spend_key));
                if !spent {
                    for k in &r.coins {
                        mint.spent.push(k.spend_key.clone());
                    }
                    c.record_own_share(share(r.blind_tokens.id, mint.identity));
                }
            }
            Action::Combine(rid) => {
                let shares = c.shares_for(rid);
                let combined = mint.combine(&shares, rid);
                if let Some(sig) = c.complete_combination(rid, combined) {
                    out.push(sig);
                }
            }
        }
    }
    out
}

fn batch(contributions: Vec<(u16, Vec<ConsensusItem>)>) -> Batch {
    Batch { epoch: 1, contributions }
}

#[test]
fn peg_in_happy_path() {
    let mut cores: Vec<FediMintConsensus> = (0..4).map(new_core).collect();
    let mut mints: Vec<FakeMint> = (0..4).map(|i| FakeMint { identity: i, spent: vec![] }).collect();
    for c in cores.iter_mut() {
        assert_eq!(c.submit_client_request(peg_in(42), true, true), Ok(()));
    }
    for i in 0..4 {
        let b = batch((0..4u16).map(|p| (p, vec![ConsensusItem::ClientRequest(peg_in(42))])).collect());
        let out = run_epoch(&mut cores[i], &mut mints[i], b);
        assert!(out.is_empty());
        assert_eq!(cores[i].shares_for(42).len(), 1);
        let proposal = cores[i].get_consensus_proposal();
        assert_eq!(proposal.len(), 1);
        assert_eq!(proposal[0], psr(share(42, i as u16)));
    }
    for i in 0..4 {
        let b = batch((0..3u16).map(|p| (p, vec![psr(share(42, p))])).collect());
        let out = run_epoch(&mut cores[i], &mut mints[i], b);
        assert_eq!(out.len(), 1);
        assert_eq!(out[0].id(), 42);
        assert!(cores[i].shares_for(42).is_empty());
        assert!(!cores[i].combination_due(42));
    }
}

#[test]
fn reissuance_with_bad_multisig() {
    let mut c = new_core(0);
    let before = c.get_consensus_proposal().len();
    let r = ClientRequest::Reissuance(reissuance(7, vec![coin(1)]));
    assert_eq!(c.submit_client_request(r, false, true), Err(ClientRequestError::InvalidTransactionSignature));
    assert_eq!(c.get_consensus_proposal().len(), before);
    assert_eq!(c.outstanding_consensus_items.len(), 0);
}

#[test]
fn reissuance_denied_by_mint() {
    let mut c = new_core(0);
    let r = ClientRequest::Reissuance(reissuance(7, vec![coin(1)]));
    assert_eq!(c.submit_client_request(r, true, false), Err(ClientRequestError::DeniedByMint));
    assert_eq!(c.outstanding_consensus_items.len(), 0);
}

#[test]
fn valid_reissuance_is_admitted() {
    let mut c = new_core(0);
    let r = ClientRequest::Reissuance(reissuance(7, vec![coin(1), coin(2)]));
    assert_eq!(c.submit_client_request(r, true, true), Ok(()));
    let p = c.get_consensus_proposal();
    assert_eq!(p, vec![ConsensusItem::ClientRequest(ClientRequest::Reissuance(reissuance(7, vec![coin(1), coin(2)])))]);
}

#[test]
fn peg_out_is_unimplemented() {
    let mut c = new_core(0);
    let r = ClientRequest::PegOut(PegOutRequest { body: vec![1] });
    assert_eq!(c.submit_client_request(r, true, true), Err(ClientRequestError::Unimplemented));
    assert_eq!(c.outstanding_consensus_items.len(), 0);
}

#[test]
fn duplicate_submission_is_not_an_error() {
    let mut c = new_core(1);
    assert_eq!(c.submit_client_request(peg_in(3), true, true), Ok(()));
    assert_eq!(c.submit_client_request(peg_in(3), true, true), Ok(()));
    assert_eq!(c.get_consensus_proposal().len(), 1);
}

#[test]
fn double_spend_reissuance_survives_bft() {
    let mut c = new_core(0);
    let mut mint = FakeMint { identity: 0, spent: vec![] };
    let first = reissuance(10, vec![coin(3)]);
    let out = run_epoch(&mut c, &mut mint, batch(vec![(1, vec![ConsensusItem::ClientRequest(ClientRequest::Reissuance(first))])]));
    assert!(out.is_empty());
    assert_eq!(c.shares_for(10).len(), 1);
    // a Byzantine peer proposes a second reissuance of the same coin
    let second = reissuance(11, vec![coin(3)]);
    let out = run_epoch(&mut c, &mut mint, batch(vec![(3, vec![ConsensusItem::ClientRequest(ClientRequest::Reissuance(second))])]));
    assert!(out.is_empty());
    assert!(c.shares_for(11).is_empty());
    // honest peers refuse it too: only the Byzantine peer's own share can follow
    let out = run_epoch(&mut c, &mut mint, batch(vec![(3, vec![psr(share(11, 3))])]));
    assert!(out.iter().all(|s| s.id() != 11));
    assert_eq!(c.shares_for(11).len(), 1);
}

#[test]
fn byzantine_duplicate_share() {
    let mut c = new_core(0);
    let mut mint = FakeMint { identity: 0, spent: vec![] };
    let first = share(5, 2);
    let second = PartialSigResponse { id: 5, share: vec![2, 8] };
    assert!(run_epoch(&mut c, &mut mint, batch(vec![(2, vec![psr(first)])])).is_empty());
    assert!(run_epoch(&mut c, &mut mint, batch(vec![(2, vec![psr(second)])])).is_empty());
    let held = c.shares_for(5);
    assert_eq!(held.len(), 1);
    assert_eq!(held[0], (2, share(5, 2)));
    let out = run_epoch(&mut c, &mut mint, batch(vec![(0, vec![psr(share(5, 0))]), (1, vec![psr(share(5, 1))])]));
    assert_eq!(out.len(), 1);
    assert_eq!(out[0].id(), 5);
    // the combined signature used peer 2's first share, which is well formed
    assert_eq!(out[0].sig, vec![5, 2, 0, 1]);
}

#[test]
fn below_threshold() {
    let mut c = new_core(0);
    let mut mint = FakeMint { identity: 0, spent: vec![] };
    let out = run_epoch(&mut c, &mut mint, batch(vec![(1, vec![psr(share(6, 1))]), (2, vec![psr(share(6, 2))])]));
    assert!(out.is_empty());
    assert_eq!(c.shares_for(6).len(), 2);
    assert!(!c.outstanding_consensus_items.contains(&psr(share(6, 1))));
    assert!(!c.combination_due(6));
}

#[test]
fn faulty_share_recovery() {
    let mut c = new_core(0);
    let mut mint = FakeMint { identity: 0, spent: vec![] };
    let bad = PartialSigResponse { id: 8, share: vec![3, 0] };
    let out = run_epoch(
        &mut c,
        &mut mint,
        batch(vec![(0, vec![psr(share(8, 0))]), (1, vec![psr(share(8, 1))]), (3, vec![psr(bad)])]),
    );
    // three shares held, one of them malformed: combination fails and the shares stay
    assert!(out.is_empty());
    assert_eq!(c.shares_for(8).len(), 3);
    let out = run_epoch(&mut c, &mut mint, batch(vec![(2, vec![psr(share(8, 2))])]));
    assert_eq!(out.len(), 1);
    assert_eq!(out[0].id(), 8);
    assert_eq!(out[0].sig, vec![8, 0, 1, 2]);
}

#[test]
fn no_second_emission_for_a_request() {
    let mut c = new_core(0);
    let mut mint = FakeMint { identity: 0, spent: vec![] };
    let out = run_epoch(&mut c, &mut mint, batch((0..3u16).map(|p| (p, vec![psr(share(9, p))])).collect()));
    assert_eq!(out.len(), 1);
    let out = run_epoch(&mut c, &mut mint, batch((0..4u16).map(|p| (p, vec![psr(share(9, p))])).collect()));
    assert!(out.is_empty());
    assert!(c.shares_for(9).is_empty());
    assert_eq!(c.complete_combination(9, Some(vec![1])), None);
}

#[test]
fn identical_runs_agree() {
    let mut a = new_core(1);
    let mut b = new_core(1);
    let mut ma = FakeMint { identity: 1, spent: vec![] };
    let mut mb = FakeMint { identity: 1, spent: vec![] };
    let epochs = || {
        vec![
            batch(vec![(0, vec![ConsensusItem::ClientRequest(peg_in(4))]), (2, vec![psr(share(4, 2))])]),
            batch(vec![(0, vec![psr(share(4, 0))]), (3, vec![psr(share(4, 3))])]),
        ]
    };
    let mut oa = Vec::new();
    let mut ob = Vec::new();
    for e in epochs() {
        oa.extend(run_epoch(&mut a, &mut ma, e));
    }
    for e in epochs() {
        ob.extend(run_epoch(&mut b, &mut mb, e));
    }
    assert_eq!(oa.len(), 1);
    assert_eq!(oa.iter().map(|s| (s.id, s.sig.clone())).collect::<Vec<_>>(), ob.iter().map(|s| (s.id, s.sig.clone())).collect::<Vec<_>>());
    assert_eq!(a.get_consensus_proposal(), b.get_consensus_proposal());
    assert_eq!(a.shares_for(4), b.shares_for(4));
}

#[test]
fn own_share_recorded_once() {
    let mut c = new_core(2);
    c.record_own_share(share(1, 2));
    c.record_own_share(share(1, 2));
    assert_eq!(c.shares_for(1).len(), 1);
    assert_eq!(c.get_consensus_proposal(), vec![psr(share(1, 2))]);
}

#[test]
fn failed_combination_keeps_shares() {
    let mut c = new_core(0);
    for p in 0..3u16 {
        let a = c.process_consensus_item(p, psr(share(2, p)));
        if p == 2 {
            assert!(matches!(a, Action::Combine(2)));
        } else {
            assert!(matches!(a, Action::Nothing));
        }
    }
    assert_eq!(c.complete_combination(2, None), None);
    assert_eq!(c.shares_for(2).len(), 3);
    let s = c.complete_combination(2, Some(vec![4, 4])).unwrap();
    assert_eq!((s.id, s.sig), (2, vec![4, 4]));
}

#[test]
fn combination_not_due_emits_nothing() {
    let mut c = new_core(0);
    let _ = c.process_consensus_item(1, psr(share(3, 1)));
    assert_eq!(c.complete_combination(3, Some(vec![1])), None);
    assert_eq!(c.shares_for(3).len(), 1);
}

#[test]
fn threshold_is_n_minus_f_minus_one() {
    assert_eq!(new_core(0).tbs_threshold(), 2);
    let c = FediMintConsensus::new(FederationConfig { identity: 0, peer_count: 7, max_faulty: 2 });
    assert_eq!(c.tbs_threshold(), 4);
}

#[test]
fn delivered_items_leave_the_pool() {
    let mut c = new_core(0);
    c.submit_client_request(peg_in(12), true, true).unwrap();
    let a = c.process_consensus_item(3, ConsensusItem::ClientRequest(peg_in(12)));
    match a {
        Action::Sign(req) => assert_eq!(req, tokens(12)),
        _ => panic!("expected a signing action"),
    }
    assert_eq!(c.get_consensus_proposal().len(), 0);
}

#[test]
fn peg_out_delivery_does_nothing() {
    let mut c = new_core(0);
    let a = c.process_consensus_item(1, ConsensusItem::ClientRequest(ClientRequest::PegOut(PegOutRequest { body: vec![] })));
    assert!(matches!(a, Action::Nothing));
}

#[test]
fn delivery_order_is_by_peer_then_position() {
    let b = batch(vec![
        (0, vec![psr(share(1, 0)), psr(share(2, 0))]),
        (3, vec![psr(share(3, 3))]),
    ]);
    assert!(b.is_ordered());
    let order: Vec<(u16, u64)> = b
        .delivery_order()
        .into_iter()
        .map(|(p, i)| match i {
            ConsensusItem::PartiallySignedRequest(ps) => (p, ps.id),
            _ => (p, 0),
        })
        .collect();
    assert_eq!(order, vec![(0, 1), (0, 2), (3, 3)]);
}

#[test]
fn unordered_batch_is_detected() {
    let b = batch(vec![(2, vec![]), (1, vec![])]);
    assert!(!b.is_ordered());
    let b = batch(vec![(1, vec![]), (1, vec![])]);
    assert!(!b.is_ordered());
    assert!(batch(vec![]).is_ordered());
}

#[test]
fn pool_insert_twice_leaves_pool_unchanged() {
    let mut c = new_core(0);
    assert!(c.outstanding_consensus_items.insert(psr(share(1, 1))));
    assert!(!c.outstanding_consensus_items.insert(psr(share(1, 1))));
    assert_eq!(c.outstanding_consensus_items.len(), 1);
    c.outstanding_consensus_items.remove(&psr(share(1, 1)));
    c.outstanding_consensus_items.remove(&psr(share(1, 1)));
    assert_eq!(c.outstanding_consensus_items.len(), 0);
}

#[test]
fn spend_keys_follow_coins() {
    let r = reissuance(1, vec![coin(4), coin(6)]);
    assert_eq!(r.spend_keys(), vec![vec![4, 4], vec![6, 6]]);
    assert_eq!(coin(4).spend_key(), vec![4, 4]);
}

#[test]
fn request_names_and_messages() {
    assert_eq!(peg_in(1).dbg_type_name(), "PegIn");
    assert_eq!(ClientRequest::Reissuance(reissuance(1, vec![])).dbg_type_name(), "Reissuance");
    assert_eq!(
        ClientRequestError::DeniedByMint.message(),
        "Client request was denied by mint (double spend or invalid mint signature)"
    );
    assert_ne!(ClientRequestError::DeniedByMint.message(), ClientRequestError::Unimplemented.message());
}
