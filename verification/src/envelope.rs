//! Envelopes: ordered protocol instruction sequences.
//!
//! An [`Envelope`] is the atomic unit of cross-chain work: the remote engine
//! replays its instructions in order, and a failing step aborts the later
//! ones. Order is semantically load-bearing; see the builder for the
//! canonical shape.
//!
//! Every type here has a mathematical view (`@`) over `Seq`, on which the
//! contracts of the builder and the weight negotiator are stated.

use vstd::prelude::*;
use crate::call::AccountId;
use crate::scale::le_bytes;

verus! {

/// The dispatch origin a `Transact` instruction runs under.
pub enum OriginKind {
    Native,
    SovereignAccount,
    Superuser,
    Xcm,
}

/// A bound on execution credit: either none, or a resource-cost ceiling.
///
/// A provisional `Limited` placeholder is used to build a draft envelope for
/// measurement, then replaced by the negotiated value before dispatch.
#[derive(Clone, Copy, PartialEq, Eq, Structural, Debug)]
pub enum WeightLimit {
    Unlimited,
    Limited(u64),
}

/// One step of a hierarchical location: a sibling chain or an account.
pub enum Junction {
    Parachain(u32),
    AccountId32(AccountId),
}

/// A hierarchical address, relative to the executing context: how many
/// parents to ascend, then the interior path downwards.
pub struct Location {
    pub parents: u8,
    pub interior: Vec<Junction>,
}

/// A fungible asset: a token identified by its location, and an amount.
pub struct Asset {
    pub location: Location,
    pub amount: u128,
}

/// Which assets an instruction applies to.
pub enum AssetFilter {
    WildAll,
    Definite(Vec<Asset>),
}

/// One step of a protocol envelope.
pub enum Instruction {
    WithdrawAsset(Vec<Asset>),
    BuyExecution { fees: Asset, weight_limit: WeightLimit },
    Transact { origin_kind: OriginKind, require_weight_at_most: u64, call: Vec<u8> },
    RefundSurplus,
    DepositAsset { assets: AssetFilter, max_assets: u32, beneficiary: Location },
    ReserveAssetDeposited(Vec<Asset>),
    DepositReserveAsset { assets: AssetFilter, dest: Location, inner: Envelope },
}

/// An ordered, fully owned instruction sequence; immutable once dispatched.
pub struct Envelope {
    pub instructions: Vec<Instruction>,
}

/// Mathematical value of a [`Junction`].
pub enum JunctionData {
    Parachain(u32),
    AccountId32(Seq<u8>),
}

/// Mathematical value of a [`Location`].
pub struct LocationData {
    pub parents: u8,
    pub interior: Seq<JunctionData>,
}

/// Mathematical value of an [`Asset`].
pub struct AssetData {
    pub location: LocationData,
    pub amount: u128,
}

/// Mathematical value of an [`AssetFilter`].
pub enum AssetFilterData {
    WildAll,
    Definite(Seq<AssetData>),
}

/// Mathematical value of an [`Instruction`].
pub enum InstructionData {
    WithdrawAsset(Seq<AssetData>),
    BuyExecution { fees: AssetData, weight_limit: WeightLimit },
    Transact { origin_kind: OriginKind, require_weight_at_most: u64, call: Seq<u8> },
    RefundSurplus,
    DepositAsset { assets: AssetFilterData, max_assets: u32, beneficiary: LocationData },
    ReserveAssetDeposited(Seq<AssetData>),
    DepositReserveAsset { assets: AssetFilterData, dest: LocationData, inner: EnvelopeData },
}

/// Mathematical value of an [`Envelope`].
pub struct EnvelopeData {
    pub instructions: Seq<InstructionData>,
}

impl View for Junction {
    type V = JunctionData;

    open spec fn view(&self) -> JunctionData {
        match self {
            Junction::Parachain(id) => JunctionData::Parachain(*id),
            Junction::AccountId32(a) => JunctionData::AccountId32(a@),
        }
    }
}

pub open spec fn junctions_view(s: Seq<Junction>) -> Seq<JunctionData>
    decreases s,
{
    if s.len() == 0 {
        Seq::empty()
    } else {
        seq![s[0]@] + junctions_view(s.drop_first())
    }
}

impl View for Location {
    type V = LocationData;

    open spec fn view(&self) -> LocationData {
        LocationData { parents: self.parents, interior: junctions_view(self.interior@) }
    }
}

impl View for Asset {
    type V = AssetData;

    open spec fn view(&self) -> AssetData {
        AssetData { location: self.location@, amount: self.amount }
    }
}

pub open spec fn assets_view(s: Seq<Asset>) -> Seq<AssetData>
    decreases s,
{
    if s.len() == 0 {
        Seq::empty()
    } else {
        seq![s[0]@] + assets_view(s.drop_first())
    }
}

impl View for AssetFilter {
    type V = AssetFilterData;

    open spec fn view(&self) -> AssetFilterData {
        match self {
            AssetFilter::WildAll => AssetFilterData::WildAll,
            AssetFilter::Definite(v) => AssetFilterData::Definite(assets_view(v@)),
        }
    }
}

pub open spec fn instruction_view(i: Instruction) -> InstructionData
    decreases i,
{
    match i {
        Instruction::WithdrawAsset(assets) => InstructionData::WithdrawAsset(assets_view(assets@)),
        Instruction::BuyExecution { fees, weight_limit } => InstructionData::BuyExecution {
            fees: fees@,
            weight_limit,
        },
        Instruction::Transact { origin_kind, require_weight_at_most, call } =>
            InstructionData::Transact { origin_kind, require_weight_at_most, call: call@ },
        Instruction::RefundSurplus => InstructionData::RefundSurplus,
        Instruction::DepositAsset { assets, max_assets, beneficiary } =>
            InstructionData::DepositAsset { assets: assets@, max_assets, beneficiary: beneficiary@ },
        Instruction::ReserveAssetDeposited(assets) => InstructionData::ReserveAssetDeposited(
            assets_view(assets@),
        ),
        Instruction::DepositReserveAsset { assets, dest, inner } =>
            InstructionData::DepositReserveAsset {
                assets: assets@,
                dest: dest@,
                inner: EnvelopeData { instructions: instructions_view(inner.instructions@) },
            },
    }
}

pub open spec fn instructions_view(s: Seq<Instruction>) -> Seq<InstructionData>
    decreases s,
{
    if s.len() == 0 {
        Seq::empty()
    } else {
        seq![instruction_view(s[0])] + instructions_view(s.drop_first())
    }
}

impl View for Instruction {
    type V = InstructionData;

    open spec fn view(&self) -> InstructionData {
        instruction_view(*self)
    }
}

impl View for Envelope {
    type V = EnvelopeData;

    open spec fn view(&self) -> EnvelopeData {
        EnvelopeData { instructions: instructions_view(self.instructions@) }
    }
}

pub proof fn lemma_instructions_view_len(s: Seq<Instruction>)
    ensures
        instructions_view(s).len() == s.len(),
    decreases s,
{
    if s.len() > 0 {
        lemma_instructions_view_len(s.drop_first());
    }
}

pub proof fn lemma_instructions_view_index(s: Seq<Instruction>, i: int)
    requires
        0 <= i < s.len(),
    ensures
        instructions_view(s).len() == s.len(),
        instructions_view(s)[i] == instruction_view(s[i]),
    decreases s,
{
    lemma_instructions_view_len(s);
    if i > 0 {
        lemma_instructions_view_index(s.drop_first(), i - 1);
    }
}

/// Appending an instruction appends its view.
pub proof fn lemma_instructions_view_push(s: Seq<Instruction>, i: Instruction)
    ensures
        instructions_view(s.push(i)) == instructions_view(s).push(instruction_view(i)),
    decreases s,
{
    if s.len() == 0 {
        assert(s.push(i).drop_first() =~= Seq::<Instruction>::empty());
        assert(instructions_view(Seq::<Instruction>::empty()) == Seq::<InstructionData>::empty());
        assert(s.push(i)[0] == i);
        assert(instructions_view(s.push(i)) =~= instructions_view(s).push(instruction_view(i)));
    } else {
        assert(s.push(i).drop_first() =~= s.drop_first().push(i));
        assert(s.push(i)[0] == s[0]);
        lemma_instructions_view_push(s.drop_first(), i);
        assert(instructions_view(s.push(i)) =~= instructions_view(s).push(instruction_view(i)));
    }
}

/// Copies a byte vector.
pub fn copy_bytes(b: &Vec<u8>) -> (r: Vec<u8>)
    ensures
        r@ == b@,
{
    let mut r: Vec<u8> = Vec::new();
    let mut i: usize = 0;
    while i < b.len()
        invariant
            i <= b.len(),
            r@ == b@.subrange(0, i as int),
        decreases b.len() - i,
    {
        r.push(b[i]);
        assert(r@ =~= b@.subrange(0, i + 1));
        i = i + 1;
    }
    assert(r@ =~= b@);
    r
}

/// Copies an account identifier.
pub fn copy_account(a: &AccountId) -> (r: AccountId)
    ensures
        r@ == a@,
        r.wf() <==> a.wf(),
{
    AccountId { bytes: copy_bytes(&a.bytes) }
}

/// Copies a location, preserving its value.
pub fn copy_location(l: &Location) -> (r: Location)
    ensures
        r@ == l@,
{
    let mut interior: Vec<Junction> = Vec::new();
    let mut i: usize = 0;
    while i < l.interior.len()
        invariant
            i <= l.interior.len(),
            junctions_view(interior@) == junctions_view(l.interior@.subrange(0, i as int)),
            interior@.len() == i,
        decreases l.interior.len() - i,
    {
        let ghost before = interior@;
        let j: Junction = match &l.interior[i] {
            Junction::Parachain(id) => Junction::Parachain(*id),
            Junction::AccountId32(a) => Junction::AccountId32(copy_account(a)),
        };
        assert(j@ == l.interior@[i as int]@);
        let ghost jv = j@;
        interior.push(j);
        proof {
            lemma_junctions_view_push(before, interior@[i as int]);
            assert(interior@ =~= before.push(interior@[i as int]));
            lemma_junctions_view_push(
                l.interior@.subrange(0, i as int),
                l.interior@[i as int],
            );
            assert(l.interior@.subrange(0, i as int).push(l.interior@[i as int]) =~= l.interior@
                .subrange(0, i + 1));
        }
        i = i + 1;
    }
    assert(l.interior@.subrange(0, l.interior@.len() as int) =~= l.interior@);
    Location { parents: l.parents, interior }
}

/// The view of a one-junction sequence.
pub proof fn lemma_junctions_view_singleton(s: Seq<Junction>)
    requires
        s.len() == 1,
    ensures
        junctions_view(s) == seq![s[0]@],
{
    assert(s.drop_first() =~= Seq::<Junction>::empty());
    assert(junctions_view(Seq::<Junction>::empty()) == Seq::<JunctionData>::empty());
    assert(junctions_view(s) =~= seq![s[0]@]);
}

pub proof fn lemma_junctions_view_push(s: Seq<Junction>, j: Junction)
    ensures
        junctions_view(s.push(j)) == junctions_view(s).push(j@),
    decreases s,
{
    if s.len() == 0 {
        assert(s.push(j).drop_first() =~= Seq::<Junction>::empty());
        assert(junctions_view(Seq::<Junction>::empty()) == Seq::<JunctionData>::empty());
        assert(s.push(j)[0] == j);
        assert(junctions_view(s.push(j)) =~= junctions_view(s).push(j@));
    } else {
        assert(s.push(j).drop_first() =~= s.drop_first().push(j));
        assert(s.push(j)[0] == s[0]);
        lemma_junctions_view_push(s.drop_first(), j);
        assert(junctions_view(s.push(j)) =~= junctions_view(s).push(j@));
    }
}

/// The view of a one-asset sequence.
pub proof fn lemma_assets_view_singleton(s: Seq<Asset>)
    requires
        s.len() == 1,
    ensures
        assets_view(s) == seq![s[0]@],
{
    assert(s.drop_first() =~= Seq::<Asset>::empty());
    assert(assets_view(Seq::<Asset>::empty()) == Seq::<AssetData>::empty());
    assert(assets_view(s) =~= seq![s[0]@]);
}

/// Copies an asset, preserving its value.
pub fn copy_asset(a: &Asset) -> (r: Asset)
    ensures
        r@ == a@,
{
    Asset { location: copy_location(&a.location), amount: a.amount }
}

/// The executing context's own location.
pub fn here_location() -> (r: Location)
    ensures
        r@ == (LocationData { parents: 0, interior: Seq::empty() }),
{
    let r = Location { parents: 0, interior: Vec::new() };
    assert(junctions_view(r.interior@) =~= Seq::<JunctionData>::empty());
    r
}

/// The location of a sibling chain: one parent up, then down into the
/// sibling by its identifier.
pub fn sibling_parachain_location(para_id: u32) -> (r: Location)
    ensures
        r@ == (LocationData {
            parents: 1,
            interior: seq![JunctionData::Parachain(para_id)],
        }),
{
    let mut interior: Vec<Junction> = Vec::new();
    interior.push(Junction::Parachain(para_id));
    proof {
        lemma_junctions_view_singleton(interior@);
        assert(junctions_view(interior@) =~= seq![JunctionData::Parachain(para_id)]);
    }
    Location { parents: 1, interior }
}

/// A local account location: no parents, one 32-byte account junction.
pub fn account_location(account: AccountId) -> (r: Location)
    ensures
        r@ == (LocationData {
            parents: 0,
            interior: seq![JunctionData::AccountId32(account@)],
        }),
{
    let ghost acct = account@;
    let mut interior: Vec<Junction> = Vec::new();
    let j = Junction::AccountId32(account);
    assert(j@ == JunctionData::AccountId32(acct));
    interior.push(j);
    proof {
        lemma_junctions_view_singleton(interior@);
        assert(junctions_view(interior@) =~= seq![JunctionData::AccountId32(acct)]);
    }
    Location { parents: 0, interior }
}

/// The bytes of a sibling chain's sovereign account: the ASCII tag "sibl",
/// the chain identifier in little-endian, zero-padded to 32 bytes.
pub open spec fn sibling_account_bytes(para_id: u32) -> Seq<u8> {
    seq![0x73u8, 0x69u8, 0x62u8, 0x6cu8] + le_bytes(para_id as nat, 4) + Seq::new(
        24,
        |i: int| 0u8,
    )
}

/// Derives the sovereign account of a sibling chain: the account this chain
/// controls on a sibling, from which envelope fees are withdrawn.
pub fn sibling_sovereign_account(para_id: u32) -> (r: AccountId)
    ensures
        r@ == sibling_account_bytes(para_id),
        r.wf(),
{
    let mut bytes: Vec<u8> = Vec::new();
    bytes.push(0x73);
    bytes.push(0x69);
    bytes.push(0x62);
    bytes.push(0x6c);
    crate::scale::push_le_bytes(&mut bytes, para_id as u128, 4);
    let mut i: usize = 0;
    let ghost prefix = bytes@;
    while i < 24
        invariant
            i <= 24,
            bytes@ == prefix + Seq::new(i as nat, |k: int| 0u8),
        decreases 24 - i,
    {
        bytes.push(0);
        assert(bytes@ =~= prefix + Seq::new((i + 1) as nat, |k: int| 0u8));
        i = i + 1;
    }
    proof {
        crate::scale::lemma_le_bytes_len(para_id as nat, 4);
        assert(bytes@ =~= sibling_account_bytes(para_id));
    }
    AccountId { bytes }
}

} // verus!
