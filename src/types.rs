//! The data that flows through consensus: client requests, signature shares
//! and the items proposed to the atomic-broadcast layer.
//!
//! Cryptographic payloads are held in their canonical binary encoding, so
//! that equality of two values is equality of what would be sent on the wire.
use vstd::prelude::*;

verus! {

/// Byte-wise equality of two encodings.
pub fn bytes_equal(a: &Vec<u8>, b: &Vec<u8>) -> (r: bool)
    ensures
        r == (a@ == b@),
{
    if a.len() != b.len() {
        return false;
    }
    let mut i: usize = 0;
    while i < a.len()
        invariant
            a.len() == b.len(),
            i <= a.len(),
            forall|j: int| 0 <= j < i ==> a@[j] == b@[j],
        decreases a.len() - i,
    {
        if a[i] != b[i] {
            return false;
        }
        i += 1;
    }
    assert(a@ =~= b@);
    true
}

/// A fresh copy of an encoding.
pub fn copy_bytes(a: &Vec<u8>) -> (r: Vec<u8>)
    ensures
        r@ == a@,
{
    let mut r: Vec<u8> = Vec::new();
    let mut i: usize = 0;
    while i < a.len()
        invariant
            i <= a.len(),
            r@ == a@.subrange(0, i as int),
        decreases a.len() - i,
    {
        r.push(a[i]);
        i += 1;
        assert(r@ =~= a@.subrange(0, i as int));
    }
    assert(r@ =~= a@);
    r
}

/// Abstract value of a [`Coin`].
pub struct CoinView {
    pub spend_key: Seq<u8>,
    pub mint_sig: Seq<u8>,
}

/// Abstract value of an [`IssuanceRequest`].
pub struct IssuanceView {
    pub id: u64,
    pub blind_tokens: Seq<u8>,
}

/// Abstract value of a [`ClientRequest`].
pub enum ClientRequestView {
    PegIn { proof: Seq<u8>, blind_tokens: IssuanceView },
    Reissuance { coins: Seq<CoinView>, blind_tokens: IssuanceView, sig: Seq<u8> },
    PegOut { body: Seq<u8> },
}

/// Abstract value of a [`PartialSigResponse`].
pub struct PartialSigView {
    pub id: u64,
    pub share: Seq<u8>,
}

/// Abstract value of a [`SigResponse`].
pub struct SigView {
    pub id: u64,
    pub sig: Seq<u8>,
}

/// Abstract value of a [`ConsensusItem`].
pub enum ItemView {
    ClientRequest(ClientRequestView),
    PartiallySignedRequest(PartialSigView),
}

/// An unlinkable token: its spend public key and the mint's signature on it.
#[derive(Debug)]
pub struct Coin {
    pub spend_key: Vec<u8>,
    pub mint_sig: Vec<u8>,
}

impl View for Coin {
    type V = CoinView;

    open spec fn view(&self) -> CoinView {
        CoinView { spend_key: self.spend_key@, mint_sig: self.mint_sig@ }
    }
}

impl Coin {
    pub fn same_as(&self, o: &Coin) -> (r: bool)
        ensures
            r == (self@ == o@),
    {
        bytes_equal(&self.spend_key, &o.spend_key) && bytes_equal(&self.mint_sig, &o.mint_sig)
    }

    pub fn duplicate(&self) -> (r: Coin)
        ensures
            r@ == self@,
    {
        Coin { spend_key: copy_bytes(&self.spend_key), mint_sig: copy_bytes(&self.mint_sig) }
    }

    /// The key that must take part in the multi-signature spending this coin.
    pub fn spend_key(&self) -> (r: Vec<u8>)
        ensures
            r@ == self.spend_key@,
    {
        copy_bytes(&self.spend_key)
    }
}

pub open spec fn coins_view(coins: Seq<Coin>) -> Seq<CoinView> {
    coins.map_values(|c: Coin| c@)
}

pub fn coins_equal(a: &Vec<Coin>, b: &Vec<Coin>) -> (r: bool)
    ensures
        r == (coins_view(a@) == coins_view(b@)),
{
    if a.len() != b.len() {
        assert(coins_view(a@).len() != coins_view(b@).len());
        return false;
    }
    let mut i: usize = 0;
    while i < a.len()
        invariant
            a.len() == b.len(),
            i <= a.len(),
            forall|j: int| 0 <= j < i ==> a@[j]@ == b@[j]@,
        decreases a.len() - i,
    {
        if !a[i].same_as(&b[i]) {
            assert(coins_view(a@)[i as int] != coins_view(b@)[i as int]);
            return false;
        }
        i += 1;
    }
    assert(coins_view(a@) =~= coins_view(b@));
    true
}

pub fn copy_coins(a: &Vec<Coin>) -> (r: Vec<Coin>)
    ensures
        coins_view(r@) == coins_view(a@),
{
    let mut r: Vec<Coin> = Vec::new();
    let mut i: usize = 0;
    while i < a.len()
        invariant
            i <= a.len(),
            r@.len() == i,
            forall|j: int| 0 <= j < i ==> r@[j]@ == a@[j]@,
        decreases a.len() - i,
    {
        r.push(a[i].duplicate());
        i += 1;
    }
    assert(coins_view(r@) =~= coins_view(a@));
    r
}

/// Blind tokens to be signed, with the request id that identifies them.
/// The id is the digest of the tokens, computed where the tokens are decoded.
#[derive(Debug)]
pub struct IssuanceRequest {
    pub id: u64,
    pub blind_tokens: Vec<u8>,
}

impl View for IssuanceRequest {
    type V = IssuanceView;

    open spec fn view(&self) -> IssuanceView {
        IssuanceView { id: self.id, blind_tokens: self.blind_tokens@ }
    }
}

impl IssuanceRequest {
    pub fn same_as(&self, o: &IssuanceRequest) -> (r: bool)
        ensures
            r == (self@ == o@),
    {
        self.id == o.id && bytes_equal(&self.blind_tokens, &o.blind_tokens)
    }

    pub fn duplicate(&self) -> (r: IssuanceRequest)
        ensures
            r@ == self@,
    {
        IssuanceRequest { id: self.id, blind_tokens: copy_bytes(&self.blind_tokens) }
    }
}

/// Funds moved in from the external chain: a proof and the tokens to sign.
#[derive(Debug)]
pub struct PegInRequest {
    pub proof: Vec<u8>,
    pub blind_tokens: IssuanceRequest,
}

/// Spending coins for freshly signed tokens, authorised by a multi-signature
/// of the coins' spend keys.
#[derive(Debug)]
pub struct ReissuanceRequest {
    pub coins: Vec<Coin>,
    pub blind_tokens: IssuanceRequest,
    pub sig: Vec<u8>,
}

/// Funds moved out to the external chain (not handled yet).
#[derive(Debug)]
pub struct PegOutRequest {
    pub body: Vec<u8>,
}

impl ReissuanceRequest {
    /// The spend keys of the input coins, in the order of the coins.
    pub fn spend_keys(&self) -> (r: Vec<Vec<u8>>)
        ensures
            r@.len() == self.coins@.len(),
            forall|i: int| 0 <= i < r@.len() ==> #[trigger] r@[i]@ == self.coins@[i].spend_key@,
    {
        let mut r: Vec<Vec<u8>> = Vec::new();
        let mut i: usize = 0;
        while i < self.coins.len()
            invariant
                i <= self.coins@.len(),
                r@.len() == i,
                forall|j: int| 0 <= j < i ==> #[trigger] r@[j]@ == self.coins@[j].spend_key@,
            decreases self.coins@.len() - i,
        {
            r.push(self.coins[i].spend_key());
            i += 1;
        }
        r
    }
}

#[derive(Debug)]
pub enum ClientRequest {
    PegIn(PegInRequest),
    Reissuance(ReissuanceRequest),
    PegOut(PegOutRequest),
}

impl View for ClientRequest {
    type V = ClientRequestView;

    open spec fn view(&self) -> ClientRequestView {
        match self {
            ClientRequest::PegIn(p) => ClientRequestView::PegIn {
                proof: p.proof@,
                blind_tokens: p.blind_tokens@,
            },
            ClientRequest::Reissuance(r) => ClientRequestView::Reissuance {
                coins: coins_view(r.coins@),
                blind_tokens: r.blind_tokens@,
                sig: r.sig@,
            },
            ClientRequest::PegOut(p) => ClientRequestView::PegOut { body: p.body@ },
        }
    }
}

impl ClientRequest {
    pub fn same_as(&self, o: &ClientRequest) -> (r: bool)
        ensures
            r == (self@ == o@),
    {
        match (self, o) {
            (ClientRequest::PegIn(a), ClientRequest::PegIn(b)) => {
                bytes_equal(&a.proof, &b.proof) && a.blind_tokens.same_as(&b.blind_tokens)
            },
            (ClientRequest::Reissuance(a), ClientRequest::Reissuance(b)) => {
                coins_equal(&a.coins, &b.coins) && a.blind_tokens.same_as(&b.blind_tokens)
                    && bytes_equal(&a.sig, &b.sig)
            },
            (ClientRequest::PegOut(a), ClientRequest::PegOut(b)) => bytes_equal(&a.body, &b.body),
            _ => false,
        }
    }

    pub fn duplicate(&self) -> (r: ClientRequest)
        ensures
            r@ == self@,
    {
        match self {
            ClientRequest::PegIn(p) => ClientRequest::PegIn(
                PegInRequest { proof: copy_bytes(&p.proof), blind_tokens: p.blind_tokens.duplicate() },
            ),
            ClientRequest::Reissuance(r) => ClientRequest::Reissuance(
                ReissuanceRequest {
                    coins: copy_coins(&r.coins),
                    blind_tokens: r.blind_tokens.duplicate(),
                    sig: copy_bytes(&r.sig),
                },
            ),
            ClientRequest::PegOut(p) => ClientRequest::PegOut(PegOutRequest { body: copy_bytes(&p.body) }),
        }
    }

    /// Name of the request's kind.
    pub fn dbg_type_name(&self) -> (r: &'static str)
        ensures
            r@ == match self@ {
                ClientRequestView::PegIn { .. } => "PegIn"@,
                ClientRequestView::Reissuance { .. } => "Reissuance"@,
                ClientRequestView::PegOut { .. } => "PegOut"@,
            },
    {
        match self {
            ClientRequest::PegIn(_) => "PegIn",
            ClientRequest::Reissuance(_) => "Reissuance",
            ClientRequest::PegOut(_) => "PegOut",
        }
    }
}

/// One peer's share of the blind signature on an issuance request.
#[derive(Debug)]
pub struct PartialSigResponse {
    pub id: u64,
    pub share: Vec<u8>,
}

impl View for PartialSigResponse {
    type V = PartialSigView;

    open spec fn view(&self) -> PartialSigView {
        PartialSigView { id: self.id, share: self.share@ }
    }
}

impl PartialSigResponse {
    /// The request this share belongs to.
    pub fn id(&self) -> (r: u64)
        ensures
            r == self@.id,
    {
        self.id
    }

    pub fn same_as(&self, o: &PartialSigResponse) -> (r: bool)
        ensures
            r == (self@ == o@),
    {
        self.id == o.id && bytes_equal(&self.share, &o.share)
    }

    pub fn duplicate(&self) -> (r: PartialSigResponse)
        ensures
            r@ == self@,
    {
        PartialSigResponse { id: self.id, share: copy_bytes(&self.share) }
    }
}

/// The federation's combined blind signature on an issuance request.
#[derive(Debug)]
pub struct SigResponse {
    pub id: u64,
    pub sig: Vec<u8>,
}

impl View for SigResponse {
    type V = SigView;

    open spec fn view(&self) -> SigView {
        SigView { id: self.id, sig: self.sig@ }
    }
}

impl SigResponse {
    /// The request this signature answers.
    pub fn id(&self) -> (r: u64)
        ensures
            r == self@.id,
    {
        self.id
    }
}

/// What a peer proposes to the atomic-broadcast layer.
#[derive(Debug)]
pub enum ConsensusItem {
    ClientRequest(ClientRequest),
    PartiallySignedRequest(PartialSigResponse),
}

impl View for ConsensusItem {
    type V = ItemView;

    open spec fn view(&self) -> ItemView {
        match self {
            ConsensusItem::ClientRequest(cr) => ItemView::ClientRequest(cr@),
            ConsensusItem::PartiallySignedRequest(ps) => ItemView::PartiallySignedRequest(ps@),
        }
    }
}

impl ConsensusItem {
    pub fn same_as(&self, o: &ConsensusItem) -> (r: bool)
        ensures
            r == (self@ == o@),
    {
        match (self, o) {
            (ConsensusItem::ClientRequest(a), ConsensusItem::ClientRequest(b)) => a.same_as(b),
            (ConsensusItem::PartiallySignedRequest(a), ConsensusItem::PartiallySignedRequest(b)) => {
                a.same_as(b)
            },
            _ => false,
        }
    }

    pub fn duplicate(&self) -> (r: ConsensusItem)
        ensures
            r@ == self@,
    {
        match self {
            ConsensusItem::ClientRequest(cr) => ConsensusItem::ClientRequest(cr.duplicate()),
            ConsensusItem::PartiallySignedRequest(ps) => ConsensusItem::PartiallySignedRequest(
                ps.duplicate(),
            ),
        }
    }
}

impl PartialEq for Coin {
    fn eq(&self, o: &Coin) -> (r: bool) {
        self.same_as(o)
    }
}

impl vstd::std_specs::cmp::PartialEqSpecImpl for Coin {
    open spec fn obeys_eq_spec() -> bool {
        true
    }

    open spec fn eq_spec(&self, o: &Coin) -> bool {
        self@ == o@
    }
}

impl PartialEq for IssuanceRequest {
    fn eq(&self, o: &IssuanceRequest) -> (r: bool) {
        self.same_as(o)
    }
}

impl vstd::std_specs::cmp::PartialEqSpecImpl for IssuanceRequest {
    open spec fn obeys_eq_spec() -> bool {
        true
    }

    open spec fn eq_spec(&self, o: &IssuanceRequest) -> bool {
        self@ == o@
    }
}

impl PartialEq for ClientRequest {
    fn eq(&self, o: &ClientRequest) -> (r: bool) {
        self.same_as(o)
    }
}

impl vstd::std_specs::cmp::PartialEqSpecImpl for ClientRequest {
    open spec fn obeys_eq_spec() -> bool {
        true
    }

    open spec fn eq_spec(&self, o: &ClientRequest) -> bool {
        self@ == o@
    }
}

impl PartialEq for PartialSigResponse {
    fn eq(&self, o: &PartialSigResponse) -> (r: bool) {
        self.same_as(o)
    }
}

impl vstd::std_specs::cmp::PartialEqSpecImpl for PartialSigResponse {
    open spec fn obeys_eq_spec() -> bool {
        true
    }

    open spec fn eq_spec(&self, o: &PartialSigResponse) -> bool {
        self@ == o@
    }
}

impl PartialEq for ConsensusItem {
    fn eq(&self, o: &ConsensusItem) -> (r: bool) {
        self.same_as(o)
    }
}

impl vstd::std_specs::cmp::PartialEqSpecImpl for ConsensusItem {
    open spec fn obeys_eq_spec() -> bool {
        true
    }

    open spec fn eq_spec(&self, o: &ConsensusItem) -> bool {
        self@ == o@
    }
}

impl PartialEq for SigResponse {
    fn eq(&self, o: &SigResponse) -> (r: bool) {
        self.id == o.id && bytes_equal(&self.sig, &o.sig)
    }
}

impl vstd::std_specs::cmp::PartialEqSpecImpl for SigResponse {
    open spec fn obeys_eq_spec() -> bool {
        true
    }

    open spec fn eq_spec(&self, o: &SigResponse) -> bool {
        self@ == o@
    }
}

} // verus!
