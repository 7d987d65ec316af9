//! Rendering delta queries in the remote client's textual syntax.
//!
//! A range query becomes `lo:4294967295` (the top of the identifier space
//! spelled out, as the remote protocol accepts); an "all" query is answered
//! by the remote search, whose resulting identifiers are joined with commas
//! into one fetch set.

use vstd::prelude::*;

verus! {

/// The character for one decimal digit.
pub open spec fn digit_char(d: nat) -> char {
    if d == 0 {
        '0'
    } else if d == 1 {
        '1'
    } else if d == 2 {
        '2'
    } else if d == 3 {
        '3'
    } else if d == 4 {
        '4'
    } else if d == 5 {
        '5'
    } else if d == 6 {
        '6'
    } else if d == 7 {
        '7'
    } else if d == 8 {
        '8'
    } else {
        '9'
    }
}

/// The decimal representation of a number, most significant digit first,
/// with no leading zeros (zero itself is the single digit `0`).
pub open spec fn dec_rep(n: nat) -> Seq<char>
    decreases n,
{
    if n < 10 {
        seq![digit_char(n)]
    } else {
        dec_rep(n / 10) + seq![digit_char(n % 10)]
    }
}

/// The comma-separated decimal representations of a sequence of message
/// identifiers, in order.
pub open spec fn spec_joined(ids: Seq<u32>) -> Seq<char>
    decreases ids.len(),
{
    if ids.len() == 0 {
        Seq::empty()
    } else if ids.len() == 1 {
        dec_rep(ids[0] as nat)
    } else {
        spec_joined(ids.drop_last()) + seq![','] + dec_rep(ids.last() as nat)
    }
}

/// The one-character string for a decimal digit.
fn digit_str(d: u32) -> (r: &'static str)
    requires
        d < 10,
    ensures
        r@ == seq![digit_char(d as nat)],
{
    proof {
        reveal_strlit("0");
        reveal_strlit("1");
        reveal_strlit("2");
        reveal_strlit("3");
        reveal_strlit("4");
        reveal_strlit("5");
        reveal_strlit("6");
        reveal_strlit("7");
        reveal_strlit("8");
        reveal_strlit("9");
    }
    let r = match d {
        0 => "0",
        1 => "1",
        2 => "2",
        3 => "3",
        4 => "4",
        5 => "5",
        6 => "6",
        7 => "7",
        8 => "8",
        _ => "9",
    };
    proof {
        assert(r@ =~= seq![digit_char(d as nat)]);
    }
    r
}

/// Renders a number in decimal, most significant digit first.
pub fn decimal_string(n: u32) -> (r: String)
    ensures
        r@ == dec_rep(n as nat),
    decreases n,
{
    if n < 10 {
        let mut s = String::new();
        s.append(digit_str(n));
        proof {
            assert(s@ =~= dec_rep(n as nat));
        }
        s
    } else {
        let mut s = decimal_string(n / 10);
        s.append(digit_str(n % 10));
        s
    }
}

/// Renders the range query `[lo, u32::MAX]` as `lo:4294967295`.
pub fn range_query(lo: u32) -> (r: String)
    ensures
        r@ == dec_rep(lo as nat) + seq![':'] + dec_rep(0xffff_ffff as nat),
{
    let mut s = decimal_string(lo);
    proof {
        reveal_strlit(":");
        assert(":"@ =~= seq![':']);
    }
    s.append(":");
    let m = decimal_string(0xffff_ffffu32);
    s.append(m.as_str());
    s
}

/// Joins message identifiers into one comma-separated fetch set.
pub fn join_ids(ids: &Vec<u32>) -> (r: String)
    ensures
        r@ == spec_joined(ids@),
{
    let mut s = String::new();
    let mut i: usize = 0;
    while i < ids.len()
        invariant
            i <= ids@.len(),
            s@ == spec_joined(ids@.subrange(0, i as int)),
        decreases ids@.len() - i,
    {
        if i > 0 {
            proof {
                reveal_strlit(",");
                assert(","@ =~= seq![',']);
            }
            s.append(",");
        }
        let d = decimal_string(ids[i]);
        s.append(d.as_str());
        proof {
            assert(ids@.subrange(0, i + 1 as int).drop_last() =~= ids@.subrange(0, i as int));
            if i == 0 {
                assert(s@ =~= spec_joined(ids@.subrange(0, i + 1 as int)));
            }
        }
        i += 1;
    }
    proof {
        assert(ids@.subrange(0, ids@.len() as int) =~= ids@);
    }
    s
}

} // verus!
