//! Trade records: the bid/offer match rule and the trade ledger.
//!
//! The surrounding runtime persists these records and emits the events;
//! what is verified here is the matching rule itself and the ledger's
//! last-write-wins lookup behaviour.

use vstd::prelude::*;
use crate::call::AccountId;
use crate::envelope::copy_account;
use crate::envelope::copy_bytes;

verus! {

/// A buy order, as the verifier receives it.
pub struct Bid {
    pub uuid: u32,
    pub market_uuid: Option<Vec<u8>>,
    pub asset_uuid: Option<Vec<u8>>,
    pub max_energy: u32,
    pub time_slot: Vec<u8>,
}

/// A sell order, as the verifier receives it.
pub struct Offer {
    pub uuid: u32,
    pub market_uuid: Vec<u8>,
    pub asset_uuid: Vec<u8>,
    pub energy_type: Vec<u8>,
    pub max_energy: u32,
    pub time_slot: Vec<u8>,
}

/// When a bid and an offer form a valid match: same trade identifier, and
/// the bid names exactly the offer's market and asset.
pub open spec fn spec_match(bid: &Bid, offer: &Offer) -> bool {
    &&& bid.uuid == offer.uuid
    &&& bid.market_uuid matches Some(m) && m@ == offer.market_uuid@
    &&& bid.asset_uuid matches Some(a) && a@ == offer.asset_uuid@
}

/// Tests the match rule.
pub fn is_match(bid: &Bid, offer: &Offer) -> (r: bool)
    ensures
        r == spec_match(bid, offer),
{
    if bid.uuid != offer.uuid {
        return false;
    }
    let market_ok = match &bid.market_uuid {
        Some(m) => bytes_equal(m, &offer.market_uuid),
        None => false,
    };
    if !market_ok {
        return false;
    }
    match &bid.asset_uuid {
        Some(a) => bytes_equal(a, &offer.asset_uuid),
        None => false,
    }
}

/// Byte-string equality.
fn bytes_equal(a: &Vec<u8>, b: &Vec<u8>) -> (r: bool)
    ensures
        r == (a@ == b@),
{
    if a.len() != b.len() {
        assert(a@ != b@);
        return false;
    }
    let mut i: usize = 0;
    while i < a.len()
        invariant
            i <= a.len(),
            a@.len() == b@.len(),
            forall|j: int| 0 <= j < i ==> a@[j] == b@[j],
        decreases a.len() - i,
    {
        if a[i] != b[i] {
            return false;
        }
        i = i + 1;
    }
    proof {
        assert(a@ =~= b@);
    }
    true
}

/// The verified trade identifiers.
pub struct MatchRegistry {
    pub verified: Vec<u32>,
}

impl MatchRegistry {
    pub fn new() -> (r: MatchRegistry)
        ensures
            r.verified@ == Seq::<u32>::empty(),
    {
        MatchRegistry { verified: Vec::new() }
    }

    /// Verifies a bid/offer pair and records the trade identifier. A pair
    /// that fails the match rule is a caller error, kept out by contract;
    /// callers test with [`is_match`] first.
    pub fn verify_match(&mut self, bid: Bid, offer: Offer) -> (r: (Bid, Offer))
        requires
            spec_match(&bid, &offer),
        ensures
            final(self).verified@ == old(self).verified@.push(bid.uuid),
            r.0 == bid,
            r.1 == offer,
    {
        let trade_id = bid.uuid;
        self.verified.push(trade_id);
        (bid, offer)
    }

    /// Whether a trade identifier has been verified.
    pub fn valid_trades(&self, trade_id: u32) -> (r: bool)
        ensures
            r == self.verified@.contains(trade_id),
    {
        let mut i: usize = 0;
        while i < self.verified.len()
            invariant
                i <= self.verified@.len(),
                forall|j: int| 0 <= j < i ==> self.verified@[j] != trade_id,
            decreases self.verified@.len() - i,
        {
            if self.verified[i] == trade_id {
                assert(self.verified@.contains(trade_id));
                return true;
            }
            i = i + 1;
        }
        assert(!self.verified@.contains(trade_id));
        false
    }
}

/// The payload recorded for one trade.
pub struct TradeRecord {
    pub buyer: AccountId,
    pub seller: AccountId,
    pub energy: u32,
    pub rate: u32,
}

/// Mathematical value of a [`TradeRecord`].
pub struct TradeData {
    pub buyer: Seq<u8>,
    pub seller: Seq<u8>,
    pub energy: u32,
    pub rate: u32,
}

impl View for TradeRecord {
    type V = TradeData;

    open spec fn view(&self) -> TradeData {
        TradeData {
            buyer: self.buyer@,
            seller: self.seller@,
            energy: self.energy,
            rate: self.rate,
        }
    }
}

/// One recorded trade, as the runtime stores and reports it.
pub struct TradeStruct {
    pub trade_id: Vec<u8>,
    pub buyer: AccountId,
    pub seller: AccountId,
    pub energy: u32,
    pub rate: u32,
}

/// A trade placed in a market slot.
pub struct MarketTradeStruct {
    pub market_slot: u32,
    pub trades: TradeStruct,
}

/// The trade ledger: trades by trade identifier, market entries by
/// simulation and market identifier. Writes append; the latest write to a
/// key wins on lookup.
pub struct TradeStore {
    pub trades: Vec<(Vec<u8>, TradeRecord)>,
    pub markets: Vec<((Vec<u8>, Vec<u8>), MarketTradeStruct)>,
}

/// Looks a key up in an append-ordered entry list: the last write wins.
pub open spec fn spec_lookup(entries: Seq<(Seq<u8>, TradeData)>, key: Seq<u8>) -> Option<TradeData>
    decreases entries.len(),
{
    if entries.len() == 0 {
        Option::None
    } else if entries.last().0 == key {
        Option::Some(entries.last().1)
    } else {
        spec_lookup(entries.drop_last(), key)
    }
}

/// The view of the trade list: keys and records over `Seq`.
pub open spec fn trades_view(entries: Seq<(Vec<u8>, TradeRecord)>) -> Seq<(Seq<u8>, TradeData)>
    decreases entries,
{
    if entries.len() == 0 {
        Seq::empty()
    } else {
        trades_view(entries.drop_last()).push((entries.last().0@, entries.last().1@))
    }
}

pub proof fn lemma_trades_view_len(entries: Seq<(Vec<u8>, TradeRecord)>)
    ensures
        trades_view(entries).len() == entries.len(),
    decreases entries,
{
    if entries.len() > 0 {
        lemma_trades_view_len(entries.drop_last());
    }
}

pub proof fn lemma_trades_view_index(entries: Seq<(Vec<u8>, TradeRecord)>, i: int)
    requires
        0 <= i < entries.len(),
    ensures
        trades_view(entries).len() == entries.len(),
        trades_view(entries)[i] == (entries[i].0@, entries[i].1@),
    decreases entries,
{
    lemma_trades_view_len(entries);
    if i < entries.len() - 1 {
        assert(entries.drop_last()[i] == entries[i]);
        lemma_trades_view_index(entries.drop_last(), i);
    }
}

/// Appending an entry appends its view.
pub proof fn lemma_trades_view_push(entries: Seq<(Vec<u8>, TradeRecord)>, e: (Vec<u8>, TradeRecord))
    ensures
        trades_view(entries.push(e)) == trades_view(entries).push((e.0@, e.1@)),
{
    assert(entries.push(e).drop_last() =~= entries);
    assert(entries.push(e).last() == e);
}

impl TradeStore {
    pub fn new() -> (r: TradeStore)
        ensures
            trades_view(r.trades@) == Seq::<(Seq<u8>, TradeData)>::empty(),
            r.markets@.len() == 0,
    {
        let r = TradeStore { trades: Vec::new(), markets: Vec::new() };
        assert(trades_view(r.trades@) =~= Seq::<(Seq<u8>, TradeData)>::empty());
        r
    }

    /// Records a trade under its identifier, and its market entry under the
    /// simulation and market identifiers; returns the stored market record
    /// for the caller's event. Looking the trade identifier up afterwards
    /// finds exactly this trade.
    pub fn store_trade_map(
        &mut self,
        simulation_id: Vec<u8>,
        market_id: Vec<u8>,
        market_slot: u32,
        trade_id: Vec<u8>,
        buyer: AccountId,
        seller: AccountId,
        energy: u32,
        rate: u32,
    ) -> (r: MarketTradeStruct)
        ensures
            trades_view(final(self).trades@) == trades_view(old(self).trades@).push(
                (trade_id@, TradeData { buyer: buyer@, seller: seller@, energy, rate }),
            ),
            spec_lookup(trades_view(final(self).trades@), trade_id@) == Option::Some(
                TradeData { buyer: buyer@, seller: seller@, energy, rate },
            ),
            final(self).markets@.len() == old(self).markets@.len() + 1,
            final(self).markets@.drop_last() == old(self).markets@,
            final(self).markets@.last().0.0@ == simulation_id@,
            final(self).markets@.last().0.1@ == market_id@,
            final(self).markets@.last().1.market_slot == market_slot,
            final(self).markets@.last().1.trades.trade_id@ == trade_id@,
            final(self).markets@.last().1.trades.buyer@ == buyer@,
            final(self).markets@.last().1.trades.seller@ == seller@,
            final(self).markets@.last().1.trades.energy == energy,
            final(self).markets@.last().1.trades.rate == rate,
            r.market_slot == market_slot,
            r.trades.trade_id@ == trade_id@,
            r.trades.buyer@ == buyer@,
            r.trades.seller@ == seller@,
            r.trades.energy == energy,
            r.trades.rate == rate,
    {
        let record = TradeRecord {
            buyer: copy_account(&buyer),
            seller: copy_account(&seller),
            energy,
            rate,
        };
        let ghost prior = self.trades@;
        let trade_key = copy_bytes(&trade_id);
        proof {
            lemma_trades_view_push(prior, (trade_key, record));
        }
        self.trades.push((trade_key, record));
        proof {
            assert(trades_view(self.trades@).last() == (
                trade_id@,
                TradeData { buyer: buyer@, seller: seller@, energy, rate },
            ));
        }
        let market_struct = MarketTradeStruct {
            market_slot,
            trades: TradeStruct {
                trade_id: copy_bytes(&trade_id),
                buyer: copy_account(&buyer),
                seller: copy_account(&seller),
                energy,
                rate,
            },
        };
        let event_struct = MarketTradeStruct {
            market_slot,
            trades: TradeStruct { trade_id, buyer, seller, energy, rate },
        };
        let ghost mprior = self.markets@;
        self.markets.push(((simulation_id, market_id), market_struct));
        proof {
            assert(self.markets@.drop_last() =~= mprior);
        }
        event_struct
    }

    /// Looks a trade up by its identifier: the most recently stored record
    /// under that identifier, if any.
    pub fn trade_map(&self, trade_id: &Vec<u8>) -> (r: Option<TradeRecord>)
        ensures
            (match r {
                Some(rec) => spec_lookup(trades_view(self.trades@), trade_id@) == Option::Some(
                    rec@,
                ),
                None => spec_lookup(trades_view(self.trades@), trade_id@) is None,
            }),
    {
        let ghost tv = trades_view(self.trades@);
        proof {
            lemma_trades_view_len(self.trades@);
            assert(tv.take(tv.len() as int) =~= tv);
        }
        let mut i: usize = self.trades.len();
        while i > 0
            invariant
                i <= self.trades@.len(),
                tv == trades_view(self.trades@),
                tv.len() == self.trades@.len(),
                spec_lookup(tv, trade_id@) == spec_lookup(tv.take(i as int), trade_id@),
            decreases i,
        {
            proof {
                lemma_trades_view_index(self.trades@, i - 1);
                assert(tv.take(i as int).last() == tv[i - 1]);
                assert(tv.take(i as int).drop_last() =~= tv.take(i - 1));
            }
            let entry = &self.trades[i - 1];
            if bytes_equal(&entry.0, trade_id) {
                let rec = TradeRecord {
                    buyer: copy_account(&entry.1.buyer),
                    seller: copy_account(&entry.1.seller),
                    energy: entry.1.energy,
                    rate: entry.1.rate,
                };
                return Some(rec);
            }
            i = i - 1;
        }
        proof {
            assert(tv.take(0) =~= Seq::<(Seq<u8>, TradeData)>::empty());
        }
        None
    }
}

} // verus!
