use vstd::prelude::*;

use crate::selector::{SegmentSelector, index_of, rpl_of, ti_of};

verus! {

/// The text of one decimal digit.
pub open spec fn digit_text(d: nat) -> Seq<char> {
    if d == 0 {
        "0"@
    } else if d == 1 {
        "1"@
    } else if d == 2 {
        "2"@
    } else if d == 3 {
        "3"@
    } else if d == 4 {
        "4"@
    } else if d == 5 {
        "5"@
    } else if d == 6 {
        "6"@
    } else if d == 7 {
        "7"@
    } else if d == 8 {
        "8"@
    } else {
        "9"@
    }
}

/// The decimal representation of `n`, without leading zeros.
pub open spec fn decimal(n: nat) -> Seq<char>
    decreases n,
{
    if n < 10 {
        digit_text(n)
    } else {
        decimal(n / 10) + digit_text(n % 10)
    }
}

/// The name of the table that a raw selector points into.
pub open spec fn table_text(bits: u16) -> Seq<char> {
    if ti_of(bits) {
        "LDT Table"@
    } else {
        "GDT Table"@
    }
}

/// The fragment for ring `ring`: present only when the requested-privilege
/// field of `bits` is exactly `ring`.
pub open spec fn ring_text(bits: u16, ring: u16) -> Seq<char> {
    if rpl_of(bits) != ring {
        Seq::empty()
    } else if ring == 0 {
        "Ring 0 segment selector."@
    } else if ring == 1 {
        "Ring 1 segment selector."@
    } else if ring == 2 {
        "Ring 2 segment selector."@
    } else {
        "Ring 3 segment selector."@
    }
}

/// The rendering of a raw selector:
/// `Index <index> in <table>, ` followed by the ring fragments 0 to 3.
pub open spec fn rendering(bits: u16) -> Seq<char> {
    "Index "@ + decimal(index_of(bits) as nat) + " in "@ + table_text(bits) + ", "@ + ring_text(
        bits,
        0,
    ) + ring_text(bits, 1) + ring_text(bits, 2) + ring_text(bits, 3)
}

fn digit_str(d: u16) -> (r: &'static str)
    requires
        d < 10,
    ensures
        r@ == digit_text(d as nat),
{
    if d == 0 {
        "0"
    } else if d == 1 {
        "1"
    } else if d == 2 {
        "2"
    } else if d == 3 {
        "3"
    } else if d == 4 {
        "4"
    } else if d == 5 {
        "5"
    } else if d == 6 {
        "6"
    } else if d == 7 {
        "7"
    } else if d == 8 {
        "8"
    } else {
        "9"
    }
}

/// Appends the decimal representation of `n` to `s`.
pub fn push_decimal(s: &mut String, n: u16)
    ensures
        final(s)@ == old(s)@ + decimal(n as nat),
    decreases n,
{
    if n >= 10 {
        push_decimal(s, n / 10);
        s.append(digit_str(n % 10));
        assert(final(s)@ =~= old(s)@ + decimal(n as nat));
    } else {
        s.append(digit_str(n));
    }
}

fn ring_str(bits: u16, ring: u16) -> (r: &'static str)
    requires
        ring < 4,
    ensures
        r@ == ring_text(bits, ring),
{
    if bits & 3 != ring {
        proof {
            reveal_strlit("");
        }
        ""
    } else if ring == 0 {
        "Ring 0 segment selector."
    } else if ring == 1 {
        "Ring 1 segment selector."
    } else if ring == 2 {
        "Ring 2 segment selector."
    } else {
        "Ring 3 segment selector."
    }
}

impl SegmentSelector {
    /// A human-readable description: the index, the table it points into,
    /// and "Ring N segment selector." for the ring N that the
    /// requested-privilege field holds exactly.
    pub fn to_string(&self) -> (r: String)
        ensures
            r@ == rendering(self@),
    {
        let bits = self.bits();
        let mut s = String::from_str("Index ");
        push_decimal(&mut s, self.index());
        s.append(" in ");
        if self.is_ldt() {
            s.append("LDT Table");
        } else {
            s.append("GDT Table");
        }
        s.append(", ");
        s.append(ring_str(bits, 0));
        s.append(ring_str(bits, 1));
        s.append(ring_str(bits, 2));
        s.append(ring_str(bits, 3));
        s
    }
}

} // verus!
