use vstd::prelude::*;

use crate::privilege::PrivilegeLevel;

verus! {

/// Mask of the requested privilege level, bits 1–0.
pub const RPL_MASK: u16 = 0b11;

/// Mask of the table indicator, bit 2: clear for the global table, set for
/// the local table.
pub const TI_LDT: u16 = 0b100;

/// Position of the lowest index bit; the index occupies bits 15–3.
pub const INDEX_SHIFT: u16 = 3;

/// The largest index that fits in the 13 index bits.
pub const MAX_INDEX: u16 = 8191;

/// The descriptor table a selector points into.
#[derive(Clone, Copy, Debug, PartialEq, Eq, Structural)]
pub enum TableIndicator {
    Global,
    Local,
}

/// The index field of a raw selector.
pub open spec fn index_of(bits: u16) -> u16 {
    bits >> INDEX_SHIFT
}

/// The requested-privilege field of a raw selector.
pub open spec fn rpl_of(bits: u16) -> u16 {
    bits & RPL_MASK
}

/// Whether the table-indicator bit of a raw selector is set.
pub open spec fn ti_of(bits: u16) -> bool {
    bits & TI_LDT != 0
}

/// The raw pattern composed from an index and a ring: `index << 3 | ring`.
/// An index wider than 13 bits loses its top bits to the shift.
pub open spec fn encode(index: u16, rpl: PrivilegeLevel) -> u16 {
    (index << INDEX_SHIFT) | rpl.level()
}

/// The raw pattern with its table-indicator bit set to `table`, all other
/// bits kept.
pub open spec fn with_table_bits(bits: u16, table: TableIndicator) -> u16 {
    match table {
        TableIndicator::Global => bits & !TI_LDT,
        TableIndicator::Local => bits | TI_LDT,
    }
}

/// A 16-bit segment selector: bits 15–3 hold an index into a descriptor
/// table, bit 2 the table indicator, bits 1–0 the requested privilege level.
/// Any 16-bit pattern is a selector; two selectors are equal exactly when
/// their raw patterns are.
#[derive(Clone, Copy, Debug, PartialEq, Eq, Structural)]
pub struct SegmentSelector {
    bits: u16,
}

impl View for SegmentSelector {
    type V = u16;

    closed spec fn view(&self) -> u16 {
        self.bits
    }
}

impl SegmentSelector {
    /// The selector that holds `bits` verbatim.
    pub closed spec fn spec_from_raw(bits: u16) -> SegmentSelector {
        SegmentSelector { bits }
    }

    /// Composes `index << 3 | rpl`, in the global table. The index is not
    /// checked: one above 8191 loses its top bits to the shift.
    pub fn new(index: u16, rpl: PrivilegeLevel) -> (r: SegmentSelector)
        ensures
            r@ == encode(index, rpl),
            index <= MAX_INDEX ==> index_of(r@) == index && rpl_of(r@) == rpl.level() && !ti_of(
                r@,
            ),
    {
        let level = rpl.as_u16();
        let bits = (index << INDEX_SHIFT) | level;
        proof {
            lemma_encode_fields(index, level);
        }
        SegmentSelector { bits }
    }

    /// The selector with raw pattern `bits`, taken as it is.
    pub fn from_raw(bits: u16) -> (r: SegmentSelector)
        ensures
            r == Self::spec_from_raw(bits),
            r@ == bits,
    {
        SegmentSelector { bits }
    }

    /// The raw 16-bit pattern.
    pub fn bits(&self) -> (r: u16)
        ensures
            r == self@,
    {
        self.bits
    }

    /// The index into the descriptor table, bits 15–3.
    pub fn index(&self) -> (r: u16)
        ensures
            r == index_of(self@),
            r <= MAX_INDEX,
    {
        let r = self.bits >> INDEX_SHIFT;
        let b = self.bits;
        assert(b >> 3u16 <= 8191u16) by (bit_vector);
        r
    }

    /// The requested privilege level, bits 1–0.
    pub fn rpl(&self) -> (r: PrivilegeLevel)
        ensures
            r.level() == rpl_of(self@),
            r == PrivilegeLevel::from_level(rpl_of(self@)),
    {
        let b = self.bits & RPL_MASK;
        let x = self.bits;
        assert(x & 3u16 < 4u16) by (bit_vector);
        if b == 0 {
            PrivilegeLevel::Ring0
        } else if b == 1 {
            PrivilegeLevel::Ring1
        } else if b == 2 {
            PrivilegeLevel::Ring2
        } else {
            PrivilegeLevel::Ring3
        }
    }

    /// Whether the requested privilege level is exactly `level`.
    pub fn has_rpl(&self, level: PrivilegeLevel) -> (r: bool)
        ensures
            r == (rpl_of(self@) == level.level()),
    {
        (self.bits & RPL_MASK) == level.as_u16()
    }

    /// The table this selector points into.
    pub fn table(&self) -> (r: TableIndicator)
        ensures
            r == (if ti_of(self@) {
                TableIndicator::Local
            } else {
                TableIndicator::Global
            }),
    {
        if self.bits & TI_LDT != 0 {
            TableIndicator::Local
        } else {
            TableIndicator::Global
        }
    }

    /// Whether the selector points into the local descriptor table.
    pub fn is_ldt(&self) -> (r: bool)
        ensures
            r == ti_of(self@),
    {
        self.bits & TI_LDT != 0
    }

    /// Whether the selector points into the global descriptor table.
    pub fn is_gdt(&self) -> (r: bool)
        ensures
            r == !ti_of(self@),
    {
        self.bits & TI_LDT == 0
    }

    /// The same selector with its table indicator set to `table`; index and
    /// requested privilege level are kept.
    pub fn with_table(self, table: TableIndicator) -> (r: SegmentSelector)
        ensures
            r@ == with_table_bits(self@, table),
            index_of(r@) == index_of(self@),
            rpl_of(r@) == rpl_of(self@),
            ti_of(r@) == (table == TableIndicator::Local),
    {
        proof {
            lemma_table_fields(self.bits);
        }
        match table {
            TableIndicator::Global => SegmentSelector { bits: self.bits & !TI_LDT },
            TableIndicator::Local => SegmentSelector { bits: self.bits | TI_LDT },
        }
    }
}

/// A selector built from an index of at most 8191 and a ring gives that
/// index back as `raw >> 3` and that ring back as `raw & 0b11`.
pub proof fn lemma_new_decodes(index: u16, rpl: PrivilegeLevel)
    requires
        index <= MAX_INDEX,
    ensures
        index_of(encode(index, rpl)) == index,
        rpl_of(encode(index, rpl)) == rpl.level(),
{
    lemma_encode_fields(index, rpl.level());
}

/// The raw pattern of a selector made from raw bits is those bits,
/// unchanged.
pub proof fn lemma_from_raw_round_trip(bits: u16)
    ensures
        SegmentSelector::spec_from_raw(bits)@ == bits,
{
}

/// The table indicator is independent of index and ring: setting it on a
/// selector built from an index of at most 8191 and a ring makes the local
/// predicate hold exactly for the local table and the global predicate
/// exactly for the global table, and keeps index and ring.
pub proof fn lemma_table_independent(index: u16, rpl: PrivilegeLevel, table: TableIndicator)
    requires
        index <= MAX_INDEX,
    ensures
        ti_of(with_table_bits(encode(index, rpl), table)) == (table == TableIndicator::Local),
        !ti_of(with_table_bits(encode(index, rpl), table)) == (table == TableIndicator::Global),
        index_of(with_table_bits(encode(index, rpl), table)) == index,
        rpl_of(with_table_bits(encode(index, rpl), table)) == rpl.level(),
{
    lemma_encode_fields(index, rpl.level());
    lemma_table_fields(encode(index, rpl));
}

/// Two selectors are equal exactly when their raw patterns are equal: no
/// normalisation identifies distinct patterns.
pub proof fn lemma_eq_iff_raw_eq(a: SegmentSelector, b: SegmentSelector)
    ensures
        (a == b) <==> (a@ == b@),
{
}

proof fn lemma_encode_fields(index: u16, level: u16)
    requires
        level < 4,
    ensures
        index <= 8191 ==> ((index << 3u16) | level) >> 3u16 == index,
        ((index << 3u16) | level) & 3u16 == level,
        index <= 8191 ==> ((index << 3u16) | level) & 4u16 == 0,
{
    assert(index <= 8191 ==> ((index << 3u16) | level) >> 3u16 == index) by (bit_vector)
        requires
            level < 4,
    ;
    assert(((index << 3u16) | level) & 3u16 == level) by (bit_vector)
        requires
            level < 4,
    ;
    assert(index <= 8191 ==> ((index << 3u16) | level) & 4u16 == 0) by (bit_vector)
        requires
            level < 4,
    ;
}

proof fn lemma_table_fields(bits: u16)
    ensures
        (bits & !4u16) >> 3u16 == bits >> 3u16,
        (bits & !4u16) & 3u16 == bits & 3u16,
        (bits & !4u16) & 4u16 == 0,
        (bits | 4u16) >> 3u16 == bits >> 3u16,
        (bits | 4u16) & 3u16 == bits & 3u16,
        (bits | 4u16) & 4u16 != 0,
{
    assert((bits & !4u16) >> 3u16 == bits >> 3u16) by (bit_vector);
    assert((bits & !4u16) & 3u16 == bits & 3u16) by (bit_vector);
    assert((bits & !4u16) & 4u16 == 0) by (bit_vector);
    assert((bits | 4u16) >> 3u16 == bits >> 3u16) by (bit_vector);
    assert((bits | 4u16) & 3u16 == bits & 3u16) by (bit_vector);
    assert((bits | 4u16) & 4u16 != 0) by (bit_vector);
}

} // verus!
