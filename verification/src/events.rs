//! The mapping from standardized event-stream identifiers to the coin
//! type, derived from a coin-store body.

use vstd::prelude::*;
use vstd::string::StringExecFns;
use crate::address::{standardized, standardize_address};
use crate::digits::{dec_str_of, u64_to_string};
use crate::payload::{GuidId, CoinStoreBody};

verus! {

/// The standardized identifier of an event stream: the owning account's
/// standardized address, a dash, and the creation number in decimal.
pub open spec fn guid_key(g: GuidId) -> Seq<char> {
    standardized(g.account_address@) + seq!['-'] + dec_str_of(g.creation_number as nat)
}

/// Renders a stream identity into its standardized identifier.
pub fn guid_key_str(g: &GuidId) -> (r: String)
    ensures
        r@ == guid_key(*g),
{
    let mut s = standardize_address(g.account_address.as_str());
    s.append("-");
    proof {
        reveal_strlit("-");
        assert(s@ =~= standardized(g.account_address@) + seq!['-']);
    }
    let num = u64_to_string(g.creation_number);
    s.append(num.as_str());
    proof {
        assert(s@ =~= guid_key(*g));
    }
    s
}

/// The mapping from standardized stream identifiers to the coin type: an
/// explicitly sized list of key-value entries with distinct keys, holding
/// two entries per coin store, or one when the two streams coincide.
pub struct EventToCoinType {
    pub entries: Vec<(String, String)>,
}

impl EventToCoinType {
    /// Keys are distinct.
    pub open spec fn wf(self) -> bool {
        forall|i: int, j: int|
            0 <= i < j < self.entries@.len() ==> self.entries@[i].0@ != self.entries@[j].0@
    }
}

/// Derives the stream-to-coin-type mapping of a coin-store body: the
/// withdraw and deposit streams' standardized identifiers, each mapped to
/// the coin type. Two entries always, collapsed to one when the two
/// identifiers coincide.
pub fn map_events(body: &CoinStoreBody, coin_type: &str) -> (m: EventToCoinType)
    ensures
        m.wf(),
        m.entries@.len() == (if guid_key(body.withdraw) == guid_key(body.deposit) {
            1int
        } else {
            2int
        }),
        forall|i: int| 0 <= i < m.entries@.len() ==> (#[trigger] m.entries@[i].1)@ == coin_type@,
        m.entries@[0].0@ == guid_key(body.withdraw),
        guid_key(body.withdraw) != guid_key(body.deposit) ==> m.entries@[1].0@ == guid_key(
            body.deposit,
        ),
{
    let kw = guid_key_str(&body.withdraw);
    let kd = guid_key_str(&body.deposit);
    let ct = String::from_str(coin_type);
    let mut entries: Vec<(String, String)> = Vec::new();
    if kw == kd {
        entries.push((kw, ct));
    } else {
        entries.push((kw, ct.clone()));
        entries.push((kd, ct));
    }
    EventToCoinType { entries }
}

} // verus!
