use bch_btree::engine::{btree, Bkey, Fs};
use bch_btree::error::BchErrcode;
use bch_btree::flags::{
    BtreeIterFlags, CACHED, CACHED_NOFILL, INTENT, IS_EXTENTS, NOT_EXTENTS, SLOTS,
};
use bch_btree::pos::Bpos;

#[test]
fn successor_carries_into_higher_fields() {
    assert_eq!(Bpos::new(1, 2, 3).successor(), Some(Bpos::new(1, 2, 4)));
    assert_eq!(Bpos::new(1, 2, u32::MAX).successor(), Some(Bpos::new(1, 3, 0)));
    assert_eq!(Bpos::new(1, u64::MAX, u32::MAX).successor(), Some(Bpos::new(2, 0, 0)));
    assert_eq!(Bpos::max().successor(), None);
    assert!(Bpos::max().is_max());
}

#[test]
fn positions_order_lexicographically() {
    assert!(Bpos::new(1, 9, 9).lt(&Bpos::new(2, 0, 0)));
    assert!(Bpos::new(1, 1, 9).lt(&Bpos::new(1, 2, 0)));
    assert!(Bpos::new(1, 1, 1).lt(&Bpos::new(1, 1, 2)));
    assert!(!Bpos::new(1, 1, 1).lt(&Bpos::new(1, 1, 1)));
    assert!(Bpos::new(1, 1, 1).le(&Bpos::new(1, 1, 1)));
    assert!(!Bpos::new(2, 0, 0).le(&Bpos::new(1, 9, 9)));
}

#[test]
fn nonsensical_flag_combinations_are_rejected() {
    assert!(BtreeIterFlags::from_bits(CACHED_NOFILL).is_none());
    assert!(BtreeIterFlags::from_bits(IS_EXTENTS | NOT_EXTENTS).is_none());
    let f = BtreeIterFlags::from_bits(CACHED_NOFILL | CACHED | INTENT).unwrap();
    assert!(f.contains(INTENT));
    assert!(f.contains(CACHED | CACHED_NOFILL));
    assert!(!f.contains(SLOTS));
    assert_eq!(f.bits(), CACHED_NOFILL | CACHED | INTENT);
    assert_eq!(BtreeIterFlags::empty().bits(), 0);
}

#[test]
fn only_restart_is_retryable() {
    assert!(BchErrcode::TransactionRestart.is_restart());
    assert!(!BchErrcode::ResourceExhausted.is_restart());
    assert!(!BchErrcode::ProtocolMisuse.is_restart());
}

#[test]
fn node_renders_in_memory_state() {
    let mut fs = Fs::new(1);
    fs.insert_key(Bkey { btree_id: 4, pos: Bpos::new(0, 0, 0), val: 1 });
    fs.insert_key(Bkey { btree_id: 4, pos: Bpos::new(12, 345, 6), val: 2 });
    fs.insert_key(Bkey { btree_id: 4, pos: Bpos::new(12, 345, 7), val: 3 });
    fs.insert_key(Bkey { btree_id: 5, pos: Bpos::new(1, 0, 0), val: 4 });
    let b = btree {
        btree_id: 4,
        level: 1,
        min_key: Bpos::new(0, 0, 0),
        max_key: Bpos::new(12, 345, 6),
        nr_keys: 78,
        sectors_written: 16,
    };
    assert_eq!(b.to_text(&fs).render(), "btree 4 level 1 0:0:0-12:345:6 keys 2");
}

#[test]
fn node_renders_ondisk_form() {
    let fs = Fs::new(1);
    let b = btree {
        btree_id: 10,
        level: 0,
        min_key: Bpos::new(0, 0, 0),
        max_key: Bpos::max(),
        nr_keys: 0,
        sectors_written: 2048,
    };
    assert_eq!(
        b.ondisk_to_text(&fs).render(),
        "btree 10 level 0 max 18446744073709551615:18446744073709551615:4294967295 keys 0 sectors 2048"
    );
}
