use segmentation::render::push_decimal;
use segmentation::selector::{INDEX_SHIFT, MAX_INDEX, RPL_MASK, TI_LDT};
use segmentation::{PrivilegeLevel, SegmentSelector, TableIndicator};

const RINGS: [(PrivilegeLevel, u16); 4] = [
    (PrivilegeLevel::Ring0, 0),
    (PrivilegeLevel::Ring1, 1),
    (PrivilegeLevel::Ring2, 2),
    (PrivilegeLevel::Ring3, 3),
];

#[test]
fn new_decodes_index_and_ring() {
    for index in 0..=MAX_INDEX {
        for (ring, level) in RINGS {
            let raw = SegmentSelector::new(index, ring).bits();
            assert_eq!((raw >> 3, raw & 0b11), (index, level));
        }
    }
}

#[test]
fn new_composes_shift_and_or() {
    assert_eq!(SegmentSelector::new(5, PrivilegeLevel::Ring3).bits(), 0x2b);
    assert_eq!(SegmentSelector::new(1, PrivilegeLevel::Ring0).bits(), 0x8);
    assert_eq!(SegmentSelector::new(0, PrivilegeLevel::Ring2).bits(), 0x2);
    assert_eq!(SegmentSelector::new(MAX_INDEX, PrivilegeLevel::Ring0).bits(), 0xfff8);
}

#[test]
fn new_with_wide_index_overlaps() {
    // An index wider than 13 bits loses its top bits to the shift.
    assert_eq!(SegmentSelector::new(8192, PrivilegeLevel::Ring0).bits(), 0);
    assert_eq!(SegmentSelector::new(0xffff, PrivilegeLevel::Ring1).bits(), 0xfff9);
}

#[test]
fn new_is_in_global_table() {
    let s = SegmentSelector::new(7, PrivilegeLevel::Ring1);
    assert!(s.is_gdt());
    assert!(!s.is_ldt());
    assert_eq!(s.table(), TableIndicator::Global);
}

#[test]
fn from_raw_round_trip() {
    for bits in 0..=u16::MAX {
        assert_eq!(SegmentSelector::from_raw(bits).bits(), bits);
    }
}

#[test]
fn table_indicator_independent_of_index_and_ring() {
    for index in [0u16, 1, 5, 4095, MAX_INDEX] {
        for (ring, level) in RINGS {
            let local = SegmentSelector::new(index, ring).with_table(TableIndicator::Local);
            assert!(local.is_ldt());
            assert!(!local.is_gdt());
            assert_eq!(local.table(), TableIndicator::Local);
            assert_eq!(local.index(), index);
            assert_eq!(local.rpl(), ring);
            assert_eq!(local.bits() & RPL_MASK, level);

            let global = local.with_table(TableIndicator::Global);
            assert!(global.is_gdt());
            assert!(!global.is_ldt());
            assert_eq!(global.table(), TableIndicator::Global);
            assert_eq!(global.index(), index);
            assert_eq!(global.rpl(), ring);
            assert_eq!(global, SegmentSelector::new(index, ring));
        }
    }
}

#[test]
fn table_indicator_is_bit_two() {
    let s = SegmentSelector::new(5, PrivilegeLevel::Ring3).with_table(TableIndicator::Local);
    assert_eq!(s.bits(), 0x2f);
    assert_eq!(s.bits() & TI_LDT, 0b100);
    assert_eq!(s.bits() >> INDEX_SHIFT, 5);
    assert!(SegmentSelector::from_raw(0b100).is_ldt());
    assert!(SegmentSelector::from_raw(0b1000).is_gdt());
}

#[test]
fn accessors_on_raw_patterns() {
    let s = SegmentSelector::from_raw(0xffff);
    assert_eq!(s.index(), MAX_INDEX);
    assert_eq!(s.rpl(), PrivilegeLevel::Ring3);
    assert!(s.is_ldt());
    assert!(s.has_rpl(PrivilegeLevel::Ring3));
    assert!(!s.has_rpl(PrivilegeLevel::Ring1));

    let z = SegmentSelector::from_raw(0);
    assert_eq!(z.index(), 0);
    assert_eq!(z.rpl(), PrivilegeLevel::Ring0);
    assert!(z.has_rpl(PrivilegeLevel::Ring0));
    assert!(!z.has_rpl(PrivilegeLevel::Ring2));

    assert_eq!(SegmentSelector::from_raw(0b10).rpl(), PrivilegeLevel::Ring2);
    assert_eq!(SegmentSelector::from_raw(0b01).rpl(), PrivilegeLevel::Ring1);
}

#[test]
fn privilege_level_patterns() {
    for (ring, level) in RINGS {
        assert_eq!(ring.as_u16(), level);
    }
}

#[test]
fn display_local_ring_three() {
    let s = SegmentSelector::new(5, PrivilegeLevel::Ring3).with_table(TableIndicator::Local);
    let text = s.to_string();
    assert!(text.contains("Index 5 in LDT Table"));
    assert!(text.contains("Ring 3 segment selector."));
    assert!(!text.contains("Ring 0"));
    assert!(!text.contains("Ring 1"));
    assert!(!text.contains("Ring 2"));
    assert_eq!(text, "Index 5 in LDT Table, Ring 3 segment selector.");
}

#[test]
fn display_global_ring_zero() {
    let s = SegmentSelector::new(1, PrivilegeLevel::Ring0);
    assert_eq!(s.to_string(), "Index 1 in GDT Table, Ring 0 segment selector.");
}

#[test]
fn display_each_ring_alone() {
    for (ring, level) in RINGS {
        let text = SegmentSelector::new(42, ring).to_string();
        assert_eq!(
            text,
            format!("Index 42 in GDT Table, Ring {} segment selector.", level)
        );
        for other in 0..4u16 {
            let fragment = format!("Ring {}", other);
            assert_eq!(text.contains(&fragment), other == level);
        }
    }
}

#[test]
fn display_largest_index() {
    let s = SegmentSelector::from_raw(0xffff);
    assert_eq!(s.to_string(), "Index 8191 in LDT Table, Ring 3 segment selector.");
}

#[test]
fn equality_is_raw_equality() {
    assert_eq!(SegmentSelector::from_raw(0x2b), SegmentSelector::new(5, PrivilegeLevel::Ring3));
    assert_ne!(SegmentSelector::from_raw(0x2b), SegmentSelector::from_raw(0x2f));
    for a in (0..=u16::MAX).step_by(97) {
        for b in (0..=u16::MAX).step_by(89) {
            let sa = SegmentSelector::from_raw(a);
            let sb = SegmentSelector::from_raw(b);
            assert_eq!(sa == sb, a == b);
        }
    }
}

#[test]
fn decimal_digits() {
    let mut s = String::from("n=");
    push_decimal(&mut s, 0);
    assert_eq!(s, "n=0");
    let mut t = String::new();
    push_decimal(&mut t, 65535);
    assert_eq!(t, "65535");
    let mut u = String::new();
    push_decimal(&mut u, 10);
    assert_eq!(u, "10");
}
