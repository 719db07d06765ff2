use vstd::prelude::*;
use crate::error::BchErrcode;
use crate::pos::Bpos;

verus! {

/// One key and its value, as a cursor returns it. It is a copy taken whole from
/// the engine, so it never aliases storage that a later operation changes.
#[derive(Clone, Copy, Debug, PartialEq, Eq, Structural)]
pub struct Bkey {
    pub btree_id: u32,
    pub pos: Bpos,
    pub val: u64,
}

/// A tree node: the keys of `btree_id` at `level` (0 for leaves) between
/// `min_key` and `max_key`, both inclusive.
#[allow(non_camel_case_types)]
#[derive(Clone, Copy, Debug, PartialEq, Eq, Structural)]
pub struct btree {
    pub btree_id: u32,
    pub level: u32,
    pub min_key: Bpos,
    pub max_key: Bpos,
    pub nr_keys: u32,
    pub sectors_written: u32,
}

/// Whether `k` is one that a cursor on `btree_id` standing at `from` may return
/// when it reads no further than `end`; with `filter`, only the keys of
/// `snapshot` count.
pub open spec fn key_in_range(
    k: Bkey,
    btree_id: u32,
    from: Bpos,
    end: Bpos,
    filter: bool,
    snapshot: u32,
) -> bool {
    &&& k.btree_id == btree_id
    &&& from.le_spec(k.pos)
    &&& k.pos.le_spec(end)
    &&& filter ==> k.pos.snapshot == snapshot
}

/// `k` is a stored key in range, at or below every other stored key in range.
pub open spec fn is_first_key(
    keys: Seq<Bkey>,
    k: Bkey,
    btree_id: u32,
    from: Bpos,
    end: Bpos,
    filter: bool,
    snapshot: u32,
) -> bool {
    &&& keys.contains(k)
    &&& key_in_range(k, btree_id, from, end, filter, snapshot)
    &&& forall|j: int|
        0 <= j < keys.len() && key_in_range(#[trigger] keys[j], btree_id, from, end, filter, snapshot)
            ==> k.pos.le_spec(keys[j].pos)
}

/// No stored key is in range.
pub open spec fn no_key_in_range(
    keys: Seq<Bkey>,
    btree_id: u32,
    from: Bpos,
    end: Bpos,
    filter: bool,
    snapshot: u32,
) -> bool {
    forall|j: int|
        0 <= j < keys.len() ==> !key_in_range(#[trigger] keys[j], btree_id, from, end, filter, snapshot)
}

/// Whether node `b` lies on the walk of `btree_id` at `level` from `from` on.
pub open spec fn node_in_range(b: btree, btree_id: u32, level: u32, from: Bpos) -> bool {
    b.btree_id == btree_id && b.level == level && from.le_spec(b.max_key)
}

/// `b` is a stored node in range whose end is at or below that of every other.
pub open spec fn is_first_node(
    nodes: Seq<btree>,
    b: btree,
    btree_id: u32,
    level: u32,
    from: Bpos,
) -> bool {
    &&& nodes.contains(b)
    &&& node_in_range(b, btree_id, level, from)
    &&& forall|j: int|
        0 <= j < nodes.len() && node_in_range(#[trigger] nodes[j], btree_id, level, from)
            ==> b.max_key.le_spec(nodes[j].max_key)
}

pub open spec fn no_node_in_range(nodes: Seq<btree>, btree_id: u32, level: u32, from: Bpos) -> bool {
    forall|j: int| 0 <= j < nodes.len() ==> !node_in_range(#[trigger] nodes[j], btree_id, level, from)
}

/// The keys that lie in node `b`: those of its tree between its bounds.
pub open spec fn in_node(b: btree) -> spec_fn(Bkey) -> bool {
    |k: Bkey| k.btree_id == b.btree_id && b.min_key.le_spec(k.pos) && k.pos.le_spec(b.max_key)
}

/// The storage engine that transactions and cursors work on: the keys and nodes
/// of every tree, the intent locks that transactions hold, and the count of
/// engine records that are open.
pub struct Fs {
    keys: Vec<Bkey>,
    nodes: Vec<btree>,
    intent_locks: Vec<(u32, u64)>,
    next_trans_id: u64,
    open_trans: u64,
    open_iters: u64,
    max_trans: u64,
}

impl Fs {
    pub closed spec fn keys_spec(&self) -> Seq<Bkey> {
        self.keys@
    }

    pub closed spec fn nodes_spec(&self) -> Seq<btree> {
        self.nodes@
    }

    /// The intent locks held, as (tree id, transaction id) pairs.
    pub closed spec fn locks_spec(&self) -> Seq<(u32, u64)> {
        self.intent_locks@
    }

    pub closed spec fn open_trans_spec(&self) -> nat {
        self.open_trans as nat
    }

    pub closed spec fn open_iters_spec(&self) -> nat {
        self.open_iters as nat
    }

    pub closed spec fn max_trans_spec(&self) -> nat {
        self.max_trans as nat
    }

    pub closed spec fn next_trans_id_spec(&self) -> nat {
        self.next_trans_id as nat
    }

    /// The two engines agree on everything but the locks.
    pub open spec fn same_but_locks(&self, o: &Fs) -> bool {
        &&& self.keys_spec() == o.keys_spec()
        &&& self.nodes_spec() == o.nodes_spec()
        &&& self.open_trans_spec() == o.open_trans_spec()
        &&& self.open_iters_spec() == o.open_iters_spec()
        &&& self.max_trans_spec() == o.max_trans_spec()
        &&& self.next_trans_id_spec() == o.next_trans_id_spec()
    }

    /// `o` holds the locks of `self` and the lock of `trans_id` on `btree_id`, no more.
    pub open spec fn locks_plus(&self, o: &Fs, btree_id: u32, trans_id: u64) -> bool {
        forall|l: (u32, u64)|
            #[trigger] o.locks_spec().contains(l) <==> (self.locks_spec().contains(l) || l == (
            btree_id,
            trans_id,
        ))
    }

    /// Whether a transaction other than `trans_id` holds the intent lock on `btree_id`.
    pub open spec fn locked_by_other(&self, btree_id: u32, trans_id: u64) -> bool {
        exists|i: int|
            0 <= i < self.locks_spec().len() && (#[trigger] self.locks_spec()[i]).0 == btree_id
                && self.locks_spec()[i].1 != trans_id
    }

    pub open spec fn holds_lock(&self, btree_id: u32, trans_id: u64) -> bool {
        self.locks_spec().contains((btree_id, trans_id))
    }

    /// An engine with no keys and no nodes that admits up to `max_trans`
    /// transactions at once.
    pub fn new(max_trans: u64) -> (r: Fs)
        ensures
            r.keys_spec() == Seq::<Bkey>::empty(),
            r.nodes_spec() == Seq::<btree>::empty(),
            r.locks_spec() == Seq::<(u32, u64)>::empty(),
            r.open_trans_spec() == 0,
            r.open_iters_spec() == 0,
            r.max_trans_spec() == max_trans,
            r.next_trans_id_spec() == 0,
    {
        Fs {
            keys: Vec::new(),
            nodes: Vec::new(),
            intent_locks: Vec::new(),
            next_trans_id: 0,
            open_trans: 0,
            open_iters: 0,
            max_trans,
        }
    }

    /// Stores a key. Keys are kept as a collection; cursors find them in order.
    pub fn insert_key(&mut self, k: Bkey)
        ensures
            final(self).keys_spec() == old(self).keys_spec().push(k),
            final(self).nodes_spec() == old(self).nodes_spec(),
            final(self).locks_spec() == old(self).locks_spec(),
            final(self).open_trans_spec() == old(self).open_trans_spec(),
            final(self).open_iters_spec() == old(self).open_iters_spec(),
            final(self).max_trans_spec() == old(self).max_trans_spec(),
            final(self).next_trans_id_spec() == old(self).next_trans_id_spec(),
    {
        self.keys.push(k);
    }

    /// Stores a node.
    pub fn insert_node(&mut self, b: btree)
        ensures
            final(self).nodes_spec() == old(self).nodes_spec().push(b),
            final(self).keys_spec() == old(self).keys_spec(),
            final(self).locks_spec() == old(self).locks_spec(),
            final(self).open_trans_spec() == old(self).open_trans_spec(),
            final(self).open_iters_spec() == old(self).open_iters_spec(),
            final(self).max_trans_spec() == old(self).max_trans_spec(),
            final(self).next_trans_id_spec() == old(self).next_trans_id_spec(),
    {
        self.nodes.push(b);
    }

    pub fn open_transactions(&self) -> (r: u64)
        ensures
            r == self.open_trans_spec(),
    {
        self.open_trans
    }

    pub fn open_iterators(&self) -> (r: u64)
        ensures
            r == self.open_iters_spec(),
    {
        self.open_iters
    }

    /// Whether a transaction other than `trans_id` holds the intent lock on `btree_id`.
    pub fn is_locked_by_other(&self, btree_id: u32, trans_id: u64) -> (r: bool)
        ensures
            r == self.locked_by_other(btree_id, trans_id),
    {
        let mut i: usize = 0;
        while i < self.intent_locks.len()
            invariant
                0 <= i <= self.intent_locks@.len(),
                forall|j: int|
                    0 <= j < i ==> !((#[trigger] self.intent_locks@[j]).0 == btree_id
                        && self.intent_locks@[j].1 != trans_id),
            decreases self.intent_locks@.len() - i,
        {
            let l = self.intent_locks[i];
            if l.0 == btree_id && l.1 != trans_id {
                assert(self.locks_spec()[i as int] == l);
                return true;
            }
            i += 1;
        }
        false
    }

    /// The first key in range, by position.
    pub fn find_key(
        &self,
        btree_id: u32,
        from: Bpos,
        end: Bpos,
        filter: bool,
        snapshot: u32,
    ) -> (r: Option<Bkey>)
        ensures
            r.is_none() ==> no_key_in_range(self.keys_spec(), btree_id, from, end, filter, snapshot),
            r.is_some() ==> is_first_key(
                self.keys_spec(),
                r.unwrap(),
                btree_id,
                from,
                end,
                filter,
                snapshot,
            ),
    {
        let mut best: Option<Bkey> = None;
        let mut i: usize = 0;
        while i < self.keys.len()
            invariant
                0 <= i <= self.keys@.len(),
                best.is_none() ==> no_key_in_range(
                    self.keys@.subrange(0, i as int),
                    btree_id,
                    from,
                    end,
                    filter,
                    snapshot,
                ),
                best.is_some() ==> is_first_key(
                    self.keys@.subrange(0, i as int),
                    best.unwrap(),
                    btree_id,
                    from,
                    end,
                    filter,
                    snapshot,
                ),
            decreases self.keys@.len() - i,
        {
            let k = self.keys[i];
            let ghost prev = self.keys@.subrange(0, i as int);
            let ghost next = self.keys@.subrange(0, i + 1);
            assert(next == prev.push(k));
            let in_range = k.btree_id == btree_id && from.le(&k.pos) && k.pos.le(&end) && (!filter
                || k.pos.snapshot == snapshot);
            let take = match best {
                None => in_range,
                Some(b) => in_range && k.pos.lt(&b.pos),
            };
            if take {
                best = Some(k);
            }
            proof {
                assert(next[i as int] == k);
                if best.is_some() {
                    let b = best.unwrap();
                    if !take {
                        let j = choose|j: int| 0 <= j < prev.len() && prev[j] == b;
                        assert(next[j] == b);
                    }
                    assert(next.contains(b));
                }
            }
            i += 1;
        }
        assert(self.keys@.subrange(0, self.keys@.len() as int) == self.keys@);
        best
    }

    /// The first node in range, by its end position.
    pub fn find_node(&self, btree_id: u32, level: u32, from: Bpos) -> (r: Option<btree>)
        ensures
            r.is_none() ==> no_node_in_range(self.nodes_spec(), btree_id, level, from),
            r.is_some() ==> is_first_node(self.nodes_spec(), r.unwrap(), btree_id, level, from),
    {
        let mut best: Option<btree> = None;
        let mut i: usize = 0;
        while i < self.nodes.len()
            invariant
                0 <= i <= self.nodes@.len(),
                best.is_none() ==> no_node_in_range(
                    self.nodes@.subrange(0, i as int),
                    btree_id,
                    level,
                    from,
                ),
                best.is_some() ==> is_first_node(
                    self.nodes@.subrange(0, i as int),
                    best.unwrap(),
                    btree_id,
                    level,
                    from,
                ),
            decreases self.nodes@.len() - i,
        {
            let b = self.nodes[i];
            let ghost prev = self.nodes@.subrange(0, i as int);
            let ghost next = self.nodes@.subrange(0, i + 1);
            assert(next == prev.push(b));
            let in_range = b.btree_id == btree_id && b.level == level && from.le(&b.max_key);
            let take = match best {
                None => in_range,
                Some(c) => in_range && b.max_key.lt(&c.max_key),
            };
            if take {
                best = Some(b);
            }
            proof {
                assert(next[i as int] == b);
                if best.is_some() {
                    let c = best.unwrap();
                    if !take {
                        let j = choose|j: int| 0 <= j < prev.len() && prev[j] == c;
                        assert(next[j] == c);
                    }
                    assert(next.contains(c));
                }
            }
            i += 1;
        }
        assert(self.nodes@.subrange(0, self.nodes@.len() as int) == self.nodes@);
        best
    }

    /// How many stored keys lie in node `b`.
    pub fn count_keys_in(&self, b: &btree) -> (r: u64)
        ensures
            r == self.keys_spec().filter(in_node(*b)).len(),
    {
        let ghost pred = in_node(*b);
        let mut count: u64 = 0;
        let mut i: usize = 0;
        while i < self.keys.len()
            invariant
                0 <= i <= self.keys@.len(),
                pred == in_node(*b),
                count == self.keys@.subrange(0, i as int).filter(pred).len(),
            decreases self.keys@.len() - i,
        {
            let k = self.keys[i];
            proof {
                let s1 = self.keys@.subrange(0, i + 1);
                assert(s1.drop_last() == self.keys@.subrange(0, i as int));
                assert(s1.last() == k);
                reveal(Seq::filter);
                assert(s1.filter(pred) == (if pred(k) {
                    s1.drop_last().filter(pred).push(k)
                } else {
                    s1.drop_last().filter(pred)
                }));
                s1.drop_last().lemma_filter_len(pred);
            }
            if k.btree_id == b.btree_id && b.min_key.le(&k.pos) && k.pos.le(&b.max_key) {
                count = count + 1;
            }
            i += 1;
        }
        assert(self.keys@.subrange(0, self.keys@.len() as int) == self.keys@);
        count
    }

    /// Records that `trans_id` holds the intent lock on `btree_id`.
    pub(crate) fn take_lock(&mut self, btree_id: u32, trans_id: u64)
        ensures
            final(self).holds_lock(btree_id, trans_id),
            forall|l: (u32, u64)|
                #[trigger] final(self).locks_spec().contains(l) <==> (old(self).locks_spec().contains(l)
                    || l == (btree_id, trans_id)),
            final(self).keys_spec() == old(self).keys_spec(),
            final(self).nodes_spec() == old(self).nodes_spec(),
            final(self).open_trans_spec() == old(self).open_trans_spec(),
            final(self).open_iters_spec() == old(self).open_iters_spec(),
            final(self).max_trans_spec() == old(self).max_trans_spec(),
            final(self).next_trans_id_spec() == old(self).next_trans_id_spec(),
    {
        let ghost old_locks = self.intent_locks@;
        self.intent_locks.push((btree_id, trans_id));
        assert(self.intent_locks@[old_locks.len() as int] == (btree_id, trans_id));
        assert forall|l: (u32, u64)|
            #[trigger] self.locks_spec().contains(l) <==> (old_locks.contains(l) || l == (
            btree_id,
            trans_id,
        )) by {
            if old_locks.contains(l) {
                let j = choose|j: int| 0 <= j < old_locks.len() && old_locks[j] == l;
                assert(self.intent_locks@[j] == l);
            }
        }
    }

    /// Drops every intent lock that `trans_id` holds.
    pub(crate) fn release_locks(&mut self, trans_id: u64)
        ensures
            forall|l: (u32, u64)|
                #[trigger] final(self).locks_spec().contains(l) <==> (old(self).locks_spec().contains(l)
                    && l.1 != trans_id),
            final(self).keys_spec() == old(self).keys_spec(),
            final(self).nodes_spec() == old(self).nodes_spec(),
            final(self).open_trans_spec() == old(self).open_trans_spec(),
            final(self).open_iters_spec() == old(self).open_iters_spec(),
            final(self).max_trans_spec() == old(self).max_trans_spec(),
            final(self).next_trans_id_spec() == old(self).next_trans_id_spec(),
    {
        let ghost pred = not_held_by(trans_id);
        let mut kept: Vec<(u32, u64)> = Vec::new();
        let mut i: usize = 0;
        while i < self.intent_locks.len()
            invariant
                0 <= i <= self.intent_locks@.len(),
                pred == not_held_by(trans_id),
                kept@ == self.intent_locks@.subrange(0, i as int).filter(pred),
            decreases self.intent_locks@.len() - i,
        {
            let l = self.intent_locks[i];
            proof {
                let s1 = self.intent_locks@.subrange(0, i + 1);
                assert(s1.drop_last() == self.intent_locks@.subrange(0, i as int));
                assert(s1.last() == l);
                reveal(Seq::filter);
                assert(s1.filter(pred) == (if pred(l) {
                    s1.drop_last().filter(pred).push(l)
                } else {
                    s1.drop_last().filter(pred)
                }));
            }
            let ghost before = kept@;
            if l.1 != trans_id {
                kept.push(l);
                assert(kept@ == before.push(l));
            }
            assert(kept@ == self.intent_locks@.subrange(0, i + 1).filter(pred));
            i += 1;
        }
        proof {
            let old_locks = self.intent_locks@;
            assert(old_locks.subrange(0, old_locks.len() as int) == old_locks);
            broadcast use vstd::seq_lib::group_filter_ensures;
            assert forall|l: (u32, u64)|
                #[trigger] kept@.contains(l) <==> (old_locks.contains(l) && l.1 != trans_id) by {
                if old_locks.contains(l) && l.1 != trans_id {
                    let j = choose|j: int| 0 <= j < old_locks.len() && old_locks[j] == l;
                    old_locks.lemma_filter_contains(pred, j);
                }
                if kept@.contains(l) {
                    old_locks.lemma_filter_contains_rev(pred, l);
                    let j = choose|j: int| 0 <= j < kept@.len() && kept@[j] == l;
                    old_locks.lemma_filter_pred(pred, j);
                }
            }
        }
        self.intent_locks = kept;
    }
}

/// The locks that are not those of `trans_id`.
pub open spec fn not_held_by(trans_id: u64) -> spec_fn((u32, u64)) -> bool {
    |l: (u32, u64)| l.1 != trans_id
}

/// A transaction context: the unit that owns locks, shared by the cursors
/// opened under it. `nr_iters` counts those cursors that are still open.
pub struct BtreeTrans {
    id: u64,
    nr_iters: u64,
}

impl BtreeTrans {
    pub closed spec fn id_spec(&self) -> u64 {
        self.id
    }

    pub closed spec fn nr_iters_spec(&self) -> nat {
        self.nr_iters as nat
    }

    /// Opens a transaction on `fs`; fails when the engine already has as many
    /// open as it admits.
    pub fn new(fs: &mut Fs) -> (r: Result<BtreeTrans, BchErrcode>)
        ensures
            r.is_err() <==> (old(fs).open_trans_spec() >= old(fs).max_trans_spec()
                || old(fs).next_trans_id_spec() == u64::MAX),
            r.is_err() ==> r == Err::<BtreeTrans, BchErrcode>(BchErrcode::ResourceExhausted)
                && *final(fs) == *old(fs),
            r.is_ok() ==> {
                &&& r.unwrap().id_spec() == old(fs).next_trans_id_spec()
                &&& r.unwrap().nr_iters_spec() == 0
                &&& final(fs).open_trans_spec() == old(fs).open_trans_spec() + 1
                &&& final(fs).next_trans_id_spec() == old(fs).next_trans_id_spec() + 1
            },
            final(fs).keys_spec() == old(fs).keys_spec(),
            final(fs).nodes_spec() == old(fs).nodes_spec(),
            final(fs).locks_spec() == old(fs).locks_spec(),
            final(fs).open_iters_spec() == old(fs).open_iters_spec(),
            final(fs).max_trans_spec() == old(fs).max_trans_spec(),
    {
        if fs.open_trans >= fs.max_trans || fs.next_trans_id == u64::MAX {
            return Err(BchErrcode::ResourceExhausted);
        }
        let id = fs.next_trans_id;
        fs.next_trans_id = id + 1;
        fs.open_trans = fs.open_trans + 1;
        Ok(BtreeTrans { id, nr_iters: 0 })
    }

    pub fn id(&self) -> (r: u64)
        ensures
            r == self.id_spec(),
    {
        self.id
    }

    pub fn nr_iters(&self) -> (r: u64)
        ensures
            r == self.nr_iters_spec(),
    {
        self.nr_iters
    }

    /// Closes the transaction: its locks are released and its record returns to
    /// the engine. Every cursor opened under it must have been closed first;
    /// taking `self` by value makes a second close impossible to write.
    pub fn put(self, fs: &mut Fs)
        requires
            self.nr_iters_spec() == 0,
            old(fs).open_trans_spec() > 0,
        ensures
            final(fs).open_trans_spec() == old(fs).open_trans_spec() - 1,
            forall|l: (u32, u64)|
                #[trigger] final(fs).locks_spec().contains(l) <==> (old(fs).locks_spec().contains(l)
                    && l.1 != self.id_spec()),
            final(fs).keys_spec() == old(fs).keys_spec(),
            final(fs).nodes_spec() == old(fs).nodes_spec(),
            final(fs).open_iters_spec() == old(fs).open_iters_spec(),
            final(fs).max_trans_spec() == old(fs).max_trans_spec(),
            final(fs).next_trans_id_spec() == old(fs).next_trans_id_spec(),
    {
        fs.release_locks(self.id);
        let ghost released = fs.locks_spec();
        fs.open_trans = fs.open_trans - 1;
        assert(fs.locks_spec() == released);
    }

    /// Registers a cursor under this transaction.
    pub(crate) fn iter_opened(&mut self, fs: &mut Fs) -> (r: Result<(), BchErrcode>)
        ensures
            r.is_err() <==> (old(self).nr_iters_spec() == u64::MAX || old(fs).open_iters_spec()
                == u64::MAX),
            r.is_err() ==> r == Err::<(), BchErrcode>(BchErrcode::ResourceExhausted)
                && *final(fs) == *old(fs) && *final(self) == *old(self),
            r.is_ok() ==> final(self).nr_iters_spec() == old(self).nr_iters_spec() + 1
                && final(fs).open_iters_spec() == old(fs).open_iters_spec() + 1,
            final(self).id_spec() == old(self).id_spec(),
            final(fs).keys_spec() == old(fs).keys_spec(),
            final(fs).nodes_spec() == old(fs).nodes_spec(),
            final(fs).locks_spec() == old(fs).locks_spec(),
            final(fs).open_trans_spec() == old(fs).open_trans_spec(),
            final(fs).max_trans_spec() == old(fs).max_trans_spec(),
            final(fs).next_trans_id_spec() == old(fs).next_trans_id_spec(),
    {
        if self.nr_iters == u64::MAX || fs.open_iters == u64::MAX {
            return Err(BchErrcode::ResourceExhausted);
        }
        self.nr_iters = self.nr_iters + 1;
        fs.open_iters = fs.open_iters + 1;
        Ok(())
    }

    /// Deregisters a cursor of this transaction.
    pub(crate) fn iter_closed(&mut self, fs: &mut Fs)
        requires
            old(self).nr_iters_spec() > 0,
            old(fs).open_iters_spec() > 0,
        ensures
            final(self).nr_iters_spec() == old(self).nr_iters_spec() - 1,
            final(fs).open_iters_spec() == old(fs).open_iters_spec() - 1,
            final(self).id_spec() == old(self).id_spec(),
            final(fs).keys_spec() == old(fs).keys_spec(),
            final(fs).nodes_spec() == old(fs).nodes_spec(),
            final(fs).locks_spec() == old(fs).locks_spec(),
            final(fs).open_trans_spec() == old(fs).open_trans_spec(),
            final(fs).max_trans_spec() == old(fs).max_trans_spec(),
            final(fs).next_trans_id_spec() == old(fs).next_trans_id_spec(),
    {
        self.nr_iters = self.nr_iters - 1;
        fs.open_iters = fs.open_iters - 1;
    }
}

/// Opening a transaction and a cursor under it, then closing the cursor and
/// the transaction, each once, leaves the engine with as many open records as
/// before: nothing leaks and nothing is released twice.
pub proof fn lemma_open_close_balanced(
    fs0: Fs,
    fs1: Fs,
    fs2: Fs,
    fs3: Fs,
    fs4: Fs,
    t1: BtreeTrans,
    t2: BtreeTrans,
    t3: BtreeTrans,
)
    requires
        fs1.open_trans_spec() == fs0.open_trans_spec() + 1,
        fs1.open_iters_spec() == fs0.open_iters_spec(),
        t1.nr_iters_spec() == 0,
        fs2.open_iters_spec() == fs1.open_iters_spec() + 1,
        fs2.open_trans_spec() == fs1.open_trans_spec(),
        t2.nr_iters_spec() == t1.nr_iters_spec() + 1,
        fs3.open_iters_spec() == fs2.open_iters_spec() - 1,
        fs3.open_trans_spec() == fs2.open_trans_spec(),
        t3.nr_iters_spec() == t2.nr_iters_spec() - 1,
        fs4.open_trans_spec() == fs3.open_trans_spec() - 1,
        fs4.open_iters_spec() == fs3.open_iters_spec(),
    ensures
        t3.nr_iters_spec() == 0,
        fs4.open_trans_spec() == fs0.open_trans_spec(),
        fs4.open_iters_spec() == fs0.open_iters_spec(),
{
}

} // verus!
