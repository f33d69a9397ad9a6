//! The replicated state machine of one federation peer.
//!
//! Cryptography (multi-signature checks, the mint's `validate`, `sign`,
//! `reissue` and `combine`) is performed by the host. The machine decides what
//! is to be done and is told the outcome: each step returns the work it needs
//! as an [`Action`], and the host hands the result back through
//! [`FediMintConsensus::record_own_share`] or
//! [`FediMintConsensus::complete_combination`].
use vstd::prelude::*;
use std::collections::HashMap;
use std::collections::HashSet;
use crate::pool::ProposalPool;
use crate::types::{
    ClientRequest, ClientRequestView, ConsensusItem, IssuanceRequest, IssuanceView, ItemView,
    PartialSigResponse, PartialSigView, ReissuanceRequest, SigResponse, SigView,
};

verus! {

broadcast use vstd::std_specs::hash::group_hash_axioms;

/// What the core needs to know of the federation.
#[derive(Clone, Copy, Debug, PartialEq, Eq, Structural)]
pub struct FederationConfig {
    /// This peer's id.
    pub identity: u16,
    /// Number of peers in the federation.
    pub peer_count: usize,
    /// Number of Byzantine peers tolerated.
    pub max_faulty: usize,
}

/// Why a client request was refused at admission.
#[derive(Clone, Copy, Debug, PartialEq, Eq, Structural)]
pub enum ClientRequestError {
    /// The multi-signature over the request does not verify under the coins' spend keys.
    InvalidTransactionSignature,
    /// The mint found a coin spent or not signed by it.
    DeniedByMint,
    /// Peg-outs are not handled yet.
    Unimplemented,
}

impl ClientRequestError {
    /// A human readable description.
    pub fn message(&self) -> (r: &'static str)
        ensures
            r@ == match self {
                ClientRequestError::InvalidTransactionSignature =>
                    "Client request was not authorized with a valid signature"@,
                ClientRequestError::DeniedByMint =>
                    "Client request was denied by mint (double spend or invalid mint signature)"@,
                ClientRequestError::Unimplemented => "Client request kind is not supported yet"@,
            },
    {
        match self {
            ClientRequestError::InvalidTransactionSignature => {
                "Client request was not authorized with a valid signature"
            },
            ClientRequestError::DeniedByMint => {
                "Client request was denied by mint (double spend or invalid mint signature)"
            },
            ClientRequestError::Unimplemented => "Client request kind is not supported yet",
        }
    }
}

/// Abstract value of an [`Action`].
pub enum ActionView {
    Nothing,
    Sign(IssuanceView),
    Reissue(ClientRequestView),
    Combine(u64),
}

/// Work that a step leaves to the host.
#[derive(Debug)]
pub enum Action {
    /// Nothing to do.
    Nothing,
    /// Sign these blind tokens with the mint and hand the share to `record_own_share`.
    Sign(IssuanceRequest),
    /// Ask the mint to reissue; on success hand the share to `record_own_share`.
    Reissue(ReissuanceRequest),
    /// Combine the shares held for this request and hand the outcome to `complete_combination`.
    Combine(u64),
}

impl View for Action {
    type V = ActionView;

    open spec fn view(&self) -> ActionView {
        match self {
            Action::Nothing => ActionView::Nothing,
            Action::Sign(req) => ActionView::Sign(req@),
            Action::Reissue(r) => ActionView::Reissue(ClientRequest::Reissuance(*r)@),
            Action::Combine(rid) => ActionView::Combine(*rid),
        }
    }
}

/// Abstract state of a peer's core.
pub struct CoreState {
    pub cfg: FederationConfig,
    pub pool: Set<ItemView>,
    pub shares: Map<u64, Seq<(u16, PartialSigView)>>,
    pub completed: Set<u64>,
}

/// Combination is attempted once more than this many shares are held.
pub open spec fn threshold(cfg: FederationConfig) -> int {
    cfg.peer_count - cfg.max_faulty - 1
}

pub open spec fn has_share_from(list: Seq<(u16, PartialSigView)>, peer: u16) -> bool {
    exists|i: int| 0 <= i < list.len() && (#[trigger] list[i]).0 == peer
}

/// No peer has two entries in the list.
pub open spec fn unique_peers(list: Seq<(u16, PartialSigView)>) -> bool {
    forall|i: int, j: int|
        0 <= i < list.len() && 0 <= j < list.len() && i != j ==> (#[trigger] list[i]).0 != (
        #[trigger] list[j]).0
}

pub open spec fn shares_of(s: CoreState, rid: u64) -> Seq<(u16, PartialSigView)> {
    if s.shares.contains_key(rid) {
        s.shares[rid]
    } else {
        Seq::empty()
    }
}

/// First contribution of a peer wins; later ones are ignored.
pub open spec fn add_share(s: CoreState, peer: u16, ps: PartialSigView) -> CoreState {
    let list = shares_of(s, ps.id);
    let list2 = if has_share_from(list, peer) {
        list
    } else {
        list.push((peer, ps))
    };
    CoreState { shares: s.shares.insert(ps.id, list2), ..s }
}

pub open spec fn combination_due(s: CoreState, rid: u64) -> bool {
    &&& !s.completed.contains(rid)
    &&& s.shares.contains_key(rid)
    &&& s.shares[rid].len() > threshold(s.cfg)
}

/// The admission verdict on a client request, given whether its multi-signature
/// verifies and whether the mint accepts its input coins.
pub open spec fn admission(
    cr: ClientRequestView,
    signature_valid: bool,
    coins_valid: bool,
) -> Result<(), ClientRequestError> {
    match cr {
        ClientRequestView::Reissuance { .. } => if !signature_valid {
            Err(ClientRequestError::InvalidTransactionSignature)
        } else if !coins_valid {
            Err(ClientRequestError::DeniedByMint)
        } else {
            Ok(())
        },
        ClientRequestView::PegIn { .. } => Ok(()),
        ClientRequestView::PegOut { .. } => Err(ClientRequestError::Unimplemented),
    }
}

pub open spec fn accept_request(
    s: CoreState,
    cr: ClientRequestView,
    signature_valid: bool,
    coins_valid: bool,
) -> CoreState {
    if admission(cr, signature_valid, coins_valid) is Ok {
        CoreState { pool: s.pool.insert(ItemView::ClientRequest(cr)), ..s }
    } else {
        s
    }
}

/// Applying one delivered item contributed by `peer`. A share for a request
/// that has already been answered is ignored: answered is a terminal state.
pub open spec fn deliver(s: CoreState, peer: u16, item: ItemView) -> (CoreState, ActionView) {
    let s1 = CoreState { pool: s.pool.remove(item), ..s };
    match item {
        ItemView::ClientRequest(cr) => match cr {
            ClientRequestView::PegIn { blind_tokens, .. } => (s1, ActionView::Sign(blind_tokens)),
            ClientRequestView::Reissuance { .. } => (s1, ActionView::Reissue(cr)),
            ClientRequestView::PegOut { .. } => (s1, ActionView::Nothing),
        },
        ItemView::PartiallySignedRequest(ps) => if s.completed.contains(ps.id) {
            (s1, ActionView::Nothing)
        } else {
            let s2 = add_share(s1, peer, ps);
            if combination_due(s2, ps.id) {
                (s2, ActionView::Combine(ps.id))
            } else {
                (s2, ActionView::Nothing)
            }
        },
    }
}

/// Taking this peer's own share: proposed to the others and held under our id.
pub open spec fn record_own(s: CoreState, ps: PartialSigView) -> CoreState {
    if s.completed.contains(ps.id) {
        s
    } else {
        add_share(
            CoreState { pool: s.pool.insert(ItemView::PartiallySignedRequest(ps)), ..s },
            s.cfg.identity,
            ps,
        )
    }
}

/// Taking the outcome of a combination for `rid`.
pub open spec fn complete(s: CoreState, rid: u64, combined: Option<Seq<u8>>) -> (
    CoreState,
    Option<SigView>,
) {
    match combined {
        Some(sig) => if combination_due(s, rid) {
            (
                CoreState {
                    shares: s.shares.remove(rid),
                    completed: s.completed.insert(rid),
                    ..s
                },
                Some(SigView { id: rid, sig }),
            )
        } else {
            (s, None)
        },
        None => (s, None),
    }
}

impl CoreState {
    pub open spec fn wf(&self) -> bool {
        &&& self.cfg.max_faulty < self.cfg.peer_count
        &&& forall|rid: u64| #[trigger]
            self.shares.contains_key(rid) ==> unique_peers(self.shares[rid])
                && !self.completed.contains(rid)
    }
}

pub open spec fn opt_bytes_view(o: Option<Vec<u8>>) -> Option<Seq<u8>> {
    match o {
        Some(v) => Some(v@),
        None => None,
    }
}

pub open spec fn opt_sig_view(o: Option<SigResponse>) -> Option<SigView> {
    match o {
        Some(x) => Some(x@),
        None => None,
    }
}

pub open spec fn share_list_view(s: Seq<(u16, PartialSigResponse)>) -> Seq<(u16, PartialSigView)> {
    s.map_values(|e: (u16, PartialSigResponse)| (e.0, e.1@))
}

pub open spec fn share_map_view(m: Map<u64, Vec<(u16, PartialSigResponse)>>) -> Map<
    u64,
    Seq<(u16, PartialSigView)>,
> {
    m.map_values(|v: Vec<(u16, PartialSigResponse)>| share_list_view(v@))
}

/// The consensus core of one peer: the items it proposes, the shares it has
/// gathered per request, and the requests already answered.
#[derive(Debug)]
pub struct FediMintConsensus {
    /// Configuration of the federation.
    pub cfg: FederationConfig,
    /// Items that still need to be agreed on, because they are new or were not
    /// included in earlier epochs.
    pub outstanding_consensus_items: ProposalPool,
    /// Signature shares per request that has not reached the threshold yet.
    pub partial_blind_signatures: HashMap<u64, Vec<(u16, PartialSigResponse)>>,
    /// Requests whose combined signature has been emitted.
    pub completed_requests: HashSet<u64>,
}

impl View for FediMintConsensus {
    type V = CoreState;

    open spec fn view(&self) -> CoreState {
        CoreState {
            cfg: self.cfg,
            pool: self.outstanding_consensus_items@,
            shares: share_map_view(self.partial_blind_signatures@),
            completed: self.completed_requests@,
        }
    }
}

fn has_peer(list: &Vec<(u16, PartialSigResponse)>, peer: u16) -> (r: bool)
    ensures
        r == has_share_from(share_list_view(list@), peer),
{
    let ghost lv = share_list_view(list@);
    let mut i: usize = 0;
    while i < list.len()
        invariant
            i <= list@.len(),
            lv == share_list_view(list@),
            forall|j: int| 0 <= j < i ==> list@[j].0 != peer,
        decreases list@.len() - i,
    {
        if list[i].0 == peer {
            assert(lv[i as int].0 == peer);
            return true;
        }
        i += 1;
    }
    assert forall|j: int| 0 <= j < lv.len() implies (#[trigger] lv[j]).0 != peer by {
        assert(lv[j].0 == list@[j].0);
    }
    false
}

fn copy_share_list(list: &Vec<(u16, PartialSigResponse)>) -> (r: Vec<(u16, PartialSigResponse)>)
    ensures
        share_list_view(r@) == share_list_view(list@),
{
    let mut r: Vec<(u16, PartialSigResponse)> = Vec::new();
    let mut i: usize = 0;
    while i < list.len()
        invariant
            i <= list@.len(),
            r@.len() == i,
            forall|j: int| 0 <= j < i ==> (#[trigger] r@[j]).0 == list@[j].0 && r@[j].1@ == list@[j].1@,
        decreases list@.len() - i,
    {
        let e = (list[i].0, list[i].1.duplicate());
        r.push(e);
        i += 1;
    }
    assert(share_list_view(r@) =~= share_list_view(list@));
    r
}

impl FediMintConsensus {
    pub open spec fn wf(&self) -> bool {
        &&& self.outstanding_consensus_items.wf()
        &&& self@.wf()
    }

    /// A core with nothing pending.
    pub fn new(cfg: FederationConfig) -> (r: FediMintConsensus)
        requires
            cfg.max_faulty < cfg.peer_count,
        ensures
            r.wf(),
            r@ == (CoreState {
                cfg,
                pool: Set::empty(),
                shares: Map::empty(),
                completed: Set::empty(),
            }),
    {
        let r = FediMintConsensus {
            cfg,
            outstanding_consensus_items: ProposalPool::new(),
            partial_blind_signatures: HashMap::new(),
            completed_requests: HashSet::new(),
        };
        assert(share_map_view(r.partial_blind_signatures@) =~= Map::empty());
        r
    }

    /// Shares must exceed this count before they are combined.
    pub fn tbs_threshold(&self) -> (r: usize)
        requires
            self.wf(),
        ensures
            r == threshold(self.cfg),
    {
        self.cfg.peer_count - self.cfg.max_faulty - 1
    }

    /// Admits a client request into the proposal pool. `signature_valid` says
    /// whether the request's multi-signature verifies under the spend keys of
    /// its coins, and `coins_valid` whether the mint accepts those coins; both
    /// matter for reissuances only. A request already pending is not an error.
    pub fn submit_client_request(
        &mut self,
        cr: ClientRequest,
        signature_valid: bool,
        coins_valid: bool,
    ) -> (r: Result<(), ClientRequestError>)
        requires
            old(self).wf(),
        ensures
            final(self).wf(),
            r == admission(cr@, signature_valid, coins_valid),
            final(self)@ == accept_request(old(self)@, cr@, signature_valid, coins_valid),
            r is Ok && cr@ is Reissuance ==> signature_valid && coins_valid,
    {
        match &cr {
            ClientRequest::Reissuance(_) => {
                if !signature_valid {
                    return Err(ClientRequestError::InvalidTransactionSignature);
                }
                if !coins_valid {
                    return Err(ClientRequestError::DeniedByMint);
                }
            },
            ClientRequest::PegIn(_) => {},
            ClientRequest::PegOut(_) => {
                return Err(ClientRequestError::Unimplemented);
            },
        }
        let _new = self.outstanding_consensus_items.insert(ConsensusItem::ClientRequest(cr));
        assert(self@ =~= accept_request(old(self)@, cr@, signature_valid, coins_valid));
        Ok(())
    }

    /// The items to propose for the next epoch.
    pub fn get_consensus_proposal(&mut self) -> (r: Vec<ConsensusItem>)
        requires
            old(self).wf(),
        ensures
            *final(self) == *old(self),
            crate::pool::items_view(r@).to_set() == old(self)@.pool,
            crate::pool::items_view(r@).no_duplicates(),
    {
        self.outstanding_consensus_items.snapshot()
    }

    /// Records `ps` from `peer` unless that peer already has a share for its request.
    fn aggregate_share(&mut self, peer: u16, ps: PartialSigResponse)
        requires
            old(self).wf(),
            !old(self)@.completed.contains(ps@.id),
        ensures
            final(self).wf(),
            final(self)@ == add_share(old(self)@, peer, ps@),
    {
        let rid = ps.id;
        let ghost psv = ps@;
        let ghost s0 = self@;
        let mut list = match self.partial_blind_signatures.remove(&rid) {
            Some(v) => v,
            None => Vec::new(),
        };
        assert(share_list_view(list@) =~= shares_of(s0, rid));
        let present = has_peer(&list, peer);
        if !present {
            let ghost before = list@;
            list.push((peer, ps));
            assert(share_list_view(list@) =~= share_list_view(before).push((peer, psv)));
        }
        let ghost lv = share_list_view(list@);
        self.partial_blind_signatures.insert(rid, list);
        assert(self@.shares =~= s0.shares.insert(rid, lv));
        assert(self@ =~= add_share(s0, peer, psv));
        assert(unique_peers(lv)) by {
            let l0 = shares_of(s0, rid);
            assert(unique_peers(l0));
            if !present {
                assert forall|i: int, j: int|
                    0 <= i < lv.len() && 0 <= j < lv.len() && i != j implies (
                    #[trigger] lv[i]).0 != (#[trigger] lv[j]).0 by {
                    if i == l0.len() as int {
                        assert(l0[j] == lv[j]);
                    } else if j == l0.len() as int {
                        assert(l0[i] == lv[i]);
                    } else {
                        assert(l0[i] == lv[i] && l0[j] == lv[j]);
                    }
                }
            }
        }
    }

    /// Applies one item delivered in an epoch, contributed by `peer`: the item
    /// leaves the pool, and the work it calls for is returned.
    pub fn process_consensus_item(&mut self, peer: u16, item: ConsensusItem) -> (r: Action)
        requires
            old(self).wf(),
        ensures
            final(self).wf(),
            final(self)@ == deliver(old(self)@, peer, item@).0,
            r@ == deliver(old(self)@, peer, item@).1,
    {
        self.outstanding_consensus_items.remove(&item);
        let ghost s1 = self@;
        assert(s1 =~= CoreState { pool: old(self)@.pool.remove(item@), ..old(self)@ });
        match item {
            ConsensusItem::ClientRequest(cr) => match cr {
                ClientRequest::PegIn(p) => Action::Sign(p.blind_tokens),
                ClientRequest::Reissuance(r) => Action::Reissue(r),
                ClientRequest::PegOut(_) => Action::Nothing,
            },
            ConsensusItem::PartiallySignedRequest(ps) => {
                let rid = ps.id;
                if self.completed_requests.contains(&rid) {
                    return Action::Nothing;
                }
                self.aggregate_share(peer, ps);
                if self.combination_due(rid) {
                    Action::Combine(rid)
                } else {
                    Action::Nothing
                }
            },
        }
    }

    /// Whether the shares held for `rid` are enough to attempt combination.
    pub fn combination_due(&self, rid: u64) -> (r: bool)
        requires
            self.wf(),
        ensures
            r == combination_due(self@, rid),
    {
        if self.completed_requests.contains(&rid) {
            return false;
        }
        match self.partial_blind_signatures.get(&rid) {
            Some(list) => {
                assert(self@.shares[rid] == share_list_view(list@));
                list.len() > self.tbs_threshold()
            },
            None => false,
        }
    }

    /// The shares held for `rid`, in the order they were recorded.
    pub fn shares_for(&self, rid: u64) -> (r: Vec<(u16, PartialSigResponse)>)
        requires
            self.wf(),
        ensures
            share_list_view(r@) == shares_of(self@, rid),
    {
        match self.partial_blind_signatures.get(&rid) {
            Some(list) => copy_share_list(list),
            None => {
                let r: Vec<(u16, PartialSigResponse)> = Vec::new();
                assert(share_list_view(r@) =~= Seq::empty());
                r
            },
        }
    }

    /// Takes this peer's own share for a request it has signed: the share is
    /// proposed to the other peers and held under this peer's id.
    pub fn record_own_share(&mut self, ps: PartialSigResponse)
        requires
            old(self).wf(),
        ensures
            final(self).wf(),
            final(self)@ == record_own(old(self)@, ps@),
    {
        if self.completed_requests.contains(&ps.id) {
            return;
        }
        let copy = ps.duplicate();
        let _new = self.outstanding_consensus_items.insert(
            ConsensusItem::PartiallySignedRequest(copy),
        );
        let identity = self.cfg.identity;
        assert(self@ =~= (CoreState {
            pool: old(self)@.pool.insert(ItemView::PartiallySignedRequest(ps@)),
            ..old(self)@
        }));
        self.aggregate_share(identity, ps);
    }

    /// Takes the outcome of combining the shares for `rid`: `Some` with the
    /// combined signature, `None` where combination failed. The signature is
    /// emitted, and the request closed, only if combination was due.
    pub fn complete_combination(&mut self, rid: u64, combined: Option<Vec<u8>>) -> (r: Option<
        SigResponse,
    >)
        requires
            old(self).wf(),
        ensures
            final(self).wf(),
            final(self)@ == complete(old(self)@, rid, opt_bytes_view(combined)).0,
            opt_sig_view(r) == complete(old(self)@, rid, opt_bytes_view(combined)).1,
    {
        match combined {
            Some(sig) => {
                if !self.combination_due(rid) {
                    return None;
                }
                let ghost s0 = self@;
                let _ = self.partial_blind_signatures.remove(&rid);
                let _ = self.completed_requests.insert(rid);
                assert(self@.shares =~= s0.shares.remove(rid));
                Some(SigResponse { id: rid, sig })
            },
            None => None,
        }
    }
}

} // verus!
