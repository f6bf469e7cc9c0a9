//! Address standardization: every account address is rendered as `0x`
//! followed by its hexadecimal body left-padded with zeros to sixty-four
//! characters (a longer body is kept as it is).

use vstd::prelude::*;
use vstd::string::StrSliceExecFns;
use vstd::string::StringExecFns;

verus! {

/// The address body: the characters after a leading `0x`, if there is one,
/// else the whole string.
pub open spec fn address_body(s: Seq<char>) -> Seq<char> {
    if s.len() >= 2 && s[0] == '0' && s[1] == 'x' {
        s.skip(2)
    } else {
        s
    }
}

/// A body left-padded with `'0'` to sixty-four characters; a body
/// already that long is unchanged.
pub open spec fn zero_padded(s: Seq<char>) -> Seq<char> {
    if s.len() >= 64 {
        s
    } else {
        Seq::new((64 - s.len()) as nat, |i: int| '0') + s
    }
}

/// The canonical textual form of an address.
pub open spec fn standardized(s: Seq<char>) -> Seq<char> {
    seq!['0', 'x'] + zero_padded(address_body(s))
}

/// Standardizes a raw address string into its canonical form.
pub fn standardize_address(addr: &str) -> (r: String)
    ensures
        r@ == standardized(addr@),
{
    let n = addr.unicode_len();
    let stripped: bool = n >= 2 && addr.get_char(0) == '0' && addr.get_char(1) == 'x';
    let body: &str = if stripped {
        addr.substring_char(2, n)
    } else {
        addr
    };
    let body_len: usize = if stripped {
        n - 2
    } else {
        n
    };
    proof {
        assert(body@ =~= address_body(addr@));
    }
    let mut out = String::from_str("0x");
    proof {
        reveal_strlit("0x");
        assert(out@ =~= seq!['0', 'x']);
    }
    let mut k: usize = 0;
    let pad: usize = if body_len < 64 {
        64 - body_len
    } else {
        0
    };
    while k < pad
        invariant
            0 <= k <= pad,
            out@ == seq!['0', 'x'] + Seq::new(k as nat, |i: int| '0'),
        decreases pad - k,
    {
        out.append("0");
        proof {
            reveal_strlit("0");
            assert(out@ =~= seq!['0', 'x'] + Seq::new((k + 1) as nat, |i: int| '0'));
        }
        k = k + 1;
    }
    out.append(body);
    proof {
        assert(out@ =~= standardized(addr@));
    }
    out
}

/// Standardization is idempotent: a canonical address standardizes to
/// itself.
pub proof fn lemma_standardize_idempotent(s: Seq<char>)
    ensures
        standardized(standardized(s)) == standardized(s),
{
    let t = standardized(s);
    assert(t[0] == '0' && t[1] == 'x');
    assert(t.skip(2) =~= zero_padded(address_body(s)));
    assert(zero_padded(address_body(s)).len() >= 64);
    assert(standardized(t) =~= t);
}

} // verus!
