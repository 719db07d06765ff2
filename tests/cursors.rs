use bch_btree::engine::{Bkey, btree, BtreeTrans, Fs};
use bch_btree::error::BchErrcode;
use bch_btree::flags::{BtreeIterFlags, FILTER_SNAPSHOTS, INTENT};
use bch_btree::iter::{BtreeIter, IterState};
use bch_btree::node_iter::BtreeNodeIter;
use bch_btree::pos::Bpos;

fn key(btree_id: u32, inode: u64, offset: u64, snapshot: u32, val: u64) -> Bkey {
    Bkey { btree_id, pos: Bpos::new(inode, offset, snapshot), val }
}

fn node(btree_id: u32, level: u32, min: Bpos, max: Bpos, nr_keys: u32) -> btree {
    btree { btree_id, level, min_key: min, max_key: max, nr_keys, sectors_written: 8 }
}

fn flags(bits: u16) -> BtreeIterFlags {
    BtreeIterFlags::from_bits(bits).unwrap()
}

#[test]
fn advance_returns_increasing_keys() {
    let mut fs = Fs::new(4);
    fs.insert_key(key(1, 3, 0, 0, 30));
    fs.insert_key(key(1, 1, 5, 0, 15));
    fs.insert_key(key(2, 2, 0, 0, 99));
    fs.insert_key(key(1, 1, 2, 0, 12));
    fs.insert_key(key(1, 2, 7, 1, 27));
    let mut trans = BtreeTrans::new(&mut fs).unwrap();
    let mut it = BtreeIter::new(&mut trans, &mut fs, 1, Bpos::new(0, 0, 0), BtreeIterFlags::empty())
        .unwrap();
    let mut seen = Vec::new();
    loop {
        match it.peek(&mut fs).unwrap() {
            Some(k) => {
                seen.push(k.val);
                it.advance();
            }
            None => break,
        }
    }
    assert_eq!(seen, vec![12, 15, 27, 30]);
    it.exit(&mut trans, &mut fs);
    trans.put(&mut fs);
}

#[test]
fn peek_upto_stays_within_bound() {
    let mut fs = Fs::new(4);
    fs.insert_key(key(1, 1, 0, 0, 10));
    fs.insert_key(key(1, 5, 0, 0, 50));
    let mut trans = BtreeTrans::new(&mut fs).unwrap();
    let mut it = BtreeIter::new(&mut trans, &mut fs, 1, Bpos::new(0, 0, 0), BtreeIterFlags::empty())
        .unwrap();
    let end = Bpos::new(4, 0, 0);
    assert_eq!(it.peek_upto(&mut fs, end).unwrap().map(|k| k.val), Some(10));
    it.advance();
    assert_eq!(it.peek_upto(&mut fs, end), Ok(None));
    assert_eq!(it.peek_upto(&mut fs, Bpos::new(5, 0, 0)).unwrap().map(|k| k.val), Some(50));
    it.exit(&mut trans, &mut fs);
    trans.put(&mut fs);
}

#[test]
fn filter_snapshots_returns_only_visible_key() {
    let mut fs = Fs::new(4);
    let mut trans = BtreeTrans::new(&mut fs).unwrap();
    let mut it =
        BtreeIter::new(&mut trans, &mut fs, 1, Bpos::new(0, 0, 1), flags(FILTER_SNAPSHOTS)).unwrap();
    let mut writer = BtreeTrans::new(&mut fs).unwrap();
    fs.insert_key(key(1, 1, 10, 1, 100));
    fs.insert_key(key(1, 1, 10, 2, 200));
    writer.put(&mut fs);
    let k = it.peek(&mut fs).unwrap().unwrap();
    assert_eq!(k.val, 100);
    assert_eq!(k.pos, Bpos::new(1, 10, 1));
    it.advance();
    assert_eq!(it.peek(&mut fs), Ok(None));
    it.exit(&mut trans, &mut fs);
    trans.put(&mut fs);
}

#[test]
fn without_filter_every_snapshot_is_seen() {
    let mut fs = Fs::new(4);
    fs.insert_key(key(1, 1, 10, 2, 200));
    fs.insert_key(key(1, 1, 10, 1, 100));
    let mut trans = BtreeTrans::new(&mut fs).unwrap();
    let mut it = BtreeIter::new(&mut trans, &mut fs, 1, Bpos::new(0, 0, 1), BtreeIterFlags::empty())
        .unwrap();
    assert_eq!(it.peek(&mut fs).unwrap().map(|k| k.val), Some(100));
    it.advance();
    assert_eq!(it.peek(&mut fs).unwrap().map(|k| k.val), Some(200));
    it.exit(&mut trans, &mut fs);
    trans.put(&mut fs);
}

#[test]
fn node_cursor_on_empty_tree_finds_no_node() {
    let mut fs = Fs::new(4);
    let mut trans = BtreeTrans::new(&mut fs).unwrap();
    let mut it = BtreeNodeIter::new(
        &mut trans,
        &mut fs,
        1,
        Bpos::new(0, 0, 0),
        0,
        0,
        BtreeIterFlags::empty(),
    )
    .unwrap();
    assert_eq!(it.peek(&mut fs), Ok(None));
    it.exit(&mut trans, &mut fs);
    trans.put(&mut fs);
}

#[test]
fn node_cursor_walks_one_depth_in_order() {
    let mut fs = Fs::new(4);
    fs.insert_node(node(1, 0, Bpos::new(5, 0, 0), Bpos::max(), 3));
    fs.insert_node(node(1, 1, Bpos::new(0, 0, 0), Bpos::max(), 2));
    fs.insert_node(node(1, 0, Bpos::new(0, 0, 0), Bpos::new(4, u64::MAX, u32::MAX), 7));
    let mut trans = BtreeTrans::new(&mut fs).unwrap();
    let mut it = BtreeNodeIter::new(
        &mut trans,
        &mut fs,
        1,
        Bpos::new(0, 0, 0),
        1,
        0,
        BtreeIterFlags::empty(),
    )
    .unwrap();
    assert_eq!(it.peek(&mut fs).unwrap().map(|b| b.nr_keys), Some(7));
    assert_eq!(it.next(&mut fs).unwrap().map(|b| b.nr_keys), Some(3));
    assert_eq!(it.pos(), Bpos::max());
    assert_eq!(it.next(&mut fs), Ok(None));
    assert_eq!(it.state(), IterState::Exhausted);
    it.exit(&mut trans, &mut fs);
    trans.put(&mut fs);
}

#[test]
fn intent_locks_conflict_until_holder_closes() {
    let mut fs = Fs::new(4);
    fs.insert_key(key(1, 1, 0, 0, 10));
    fs.insert_key(key(1, 2, 0, 0, 20));
    let mut t1 = BtreeTrans::new(&mut fs).unwrap();
    let mut t2 = BtreeTrans::new(&mut fs).unwrap();
    let mut a = BtreeIter::new(&mut t1, &mut fs, 1, Bpos::new(0, 0, 0), flags(INTENT)).unwrap();
    let mut b = BtreeIter::new(&mut t2, &mut fs, 1, Bpos::new(1, 0, 0), flags(INTENT)).unwrap();
    assert_eq!(a.peek(&mut fs).unwrap().map(|k| k.val), Some(10));
    assert_eq!(b.peek(&mut fs), Err(BchErrcode::TransactionRestart));
    assert_eq!(b.state(), IterState::Conflicted);
    assert_eq!(b.peek(&mut fs), Err(BchErrcode::ProtocolMisuse));
    assert_eq!(b.peek_and_restart(&mut fs), Err(BchErrcode::TransactionRestart));
    a.exit(&mut t1, &mut fs);
    t1.put(&mut fs);
    assert_eq!(b.peek_and_restart(&mut fs).unwrap().map(|k| k.val), Some(10));
    assert_eq!(b.state(), IterState::Positioned);
    b.exit(&mut t2, &mut fs);
    t2.put(&mut fs);
}

#[test]
fn read_locks_do_not_conflict() {
    let mut fs = Fs::new(4);
    fs.insert_key(key(1, 1, 0, 0, 10));
    let mut t1 = BtreeTrans::new(&mut fs).unwrap();
    let mut t2 = BtreeTrans::new(&mut fs).unwrap();
    let mut a = BtreeIter::new(&mut t1, &mut fs, 1, Bpos::new(0, 0, 0), flags(INTENT)).unwrap();
    let mut b =
        BtreeIter::new(&mut t2, &mut fs, 1, Bpos::new(0, 0, 0), BtreeIterFlags::empty()).unwrap();
    assert!(a.peek(&mut fs).unwrap().is_some());
    assert!(b.peek(&mut fs).unwrap().is_some());
    a.exit(&mut t1, &mut fs);
    b.exit(&mut t2, &mut fs);
    t1.put(&mut fs);
    t2.put(&mut fs);
}

#[test]
fn resources_are_released_once_each() {
    let mut fs = Fs::new(2);
    let mut t1 = BtreeTrans::new(&mut fs).unwrap();
    let mut t2 = BtreeTrans::new(&mut fs).unwrap();
    assert_eq!(BtreeTrans::new(&mut fs).err(), Some(BchErrcode::ResourceExhausted));
    assert_eq!(fs.open_transactions(), 2);
    let a = BtreeIter::new(&mut t1, &mut fs, 1, Bpos::new(0, 0, 0), BtreeIterFlags::empty())
        .unwrap();
    let b = BtreeNodeIter::new(&mut t2, &mut fs, 1, Bpos::new(0, 0, 0), 0, 0, BtreeIterFlags::empty())
        .unwrap();
    assert_eq!(fs.open_iterators(), 2);
    assert_eq!(t1.nr_iters(), 1);
    a.exit(&mut t1, &mut fs);
    assert_eq!(fs.open_iterators(), 1);
    assert_eq!(t1.nr_iters(), 0);
    b.exit(&mut t2, &mut fs);
    assert_eq!(fs.open_iterators(), 0);
    t1.put(&mut fs);
    t2.put(&mut fs);
    assert_eq!(fs.open_transactions(), 0);
    let t3 = BtreeTrans::new(&mut fs).unwrap();
    assert_eq!(fs.open_transactions(), 1);
    t3.put(&mut fs);
    assert_eq!(fs.open_transactions(), 0);
}

#[test]
fn advance_past_end_exhausts_cursor() {
    let mut fs = Fs::new(1);
    fs.insert_key(Bkey { btree_id: 1, pos: Bpos::max(), val: 7 });
    let mut trans = BtreeTrans::new(&mut fs).unwrap();
    let mut it = BtreeIter::new(&mut trans, &mut fs, 1, Bpos::new(9, 9, 9), BtreeIterFlags::empty())
        .unwrap();
    assert_eq!(it.peek(&mut fs).unwrap().map(|k| k.val), Some(7));
    it.advance();
    assert_eq!(it.state(), IterState::Exhausted);
    assert_eq!(it.peek(&mut fs), Ok(None));
    it.exit(&mut trans, &mut fs);
    trans.put(&mut fs);
}

#[test]
fn other_trees_are_not_seen() {
    let mut fs = Fs::new(1);
    fs.insert_key(key(2, 1, 0, 0, 1));
    let mut trans = BtreeTrans::new(&mut fs).unwrap();
    let mut it = BtreeIter::new(&mut trans, &mut fs, 1, Bpos::new(0, 0, 0), BtreeIterFlags::empty())
        .unwrap();
    assert_eq!(it.peek(&mut fs), Ok(None));
    it.exit(&mut trans, &mut fs);
    trans.put(&mut fs);
}
