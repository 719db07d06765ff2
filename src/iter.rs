use vstd::prelude::*;
use crate::engine::{is_first_key, no_key_in_range, Bkey, BtreeTrans, Fs};
use crate::error::BchErrcode;
use crate::flags::{BtreeIterFlags, FILTER_SNAPSHOTS, INTENT};
use crate::pos::{lemma_successor, pos_max, Bpos};

verus! {

/// Where a cursor stands in its protocol.
#[derive(Clone, Copy, Debug, PartialEq, Eq, Structural)]
pub enum IterState {
    /// Opened, or at a position it may read from.
    Positioned,
    /// Moved past the end of the keyspace: every read comes back empty.
    Exhausted,
    /// A read met a lock of another transaction; only a restarting read may follow.
    Conflicted,
}

/// The state of a leaf cursor.
pub struct IterView {
    pub trans_id: u64,
    pub btree_id: u32,
    pub pos: Bpos,
    pub snapshot: u32,
    pub flags: BtreeIterFlags,
    pub state: IterState,
}

impl IterView {
    pub open spec fn filter(self) -> bool {
        self.flags.has(FILTER_SNAPSHOTS)
    }

    /// A read now would meet the intent lock of another transaction.
    pub open spec fn blocked(self, fs: Fs) -> bool {
        self.flags.has(INTENT) && fs.locked_by_other(self.btree_id, self.trans_id)
    }

    pub open spec fn with_state(self, state: IterState) -> IterView {
        IterView { state, ..self }
    }

    pub open spec fn with_pos(self, pos: Bpos) -> IterView {
        IterView { pos, ..self }
    }
}

/// What a read up to `end` does, from cursor `c` and engine `fs` to cursor
/// `c2`, engine `fs2` and result `r`.
pub open spec fn peek_upto_post(
    c: IterView,
    c2: IterView,
    fs: Fs,
    fs2: Fs,
    end: Bpos,
    r: Result<Option<&Bkey>, BchErrcode>,
) -> bool {
    &&& fs2.same_but_locks(&fs)
    &&& match c.state {
        IterState::Conflicted => r == Err::<Option<&Bkey>, BchErrcode>(BchErrcode::ProtocolMisuse)
            && c2 == c && fs2 == fs,
        IterState::Exhausted => r == Ok::<Option<&Bkey>, BchErrcode>(None) && c2 == c && fs2
            == fs,
        IterState::Positioned => if c.blocked(fs) {
            r == Err::<Option<&Bkey>, BchErrcode>(BchErrcode::TransactionRestart) && c2
                == c.with_state(IterState::Conflicted) && fs2 == fs
        } else {
            &&& c.flags.has(INTENT) ==> fs.locks_plus(&fs2, c.btree_id, c.trans_id)
            &&& !c.flags.has(INTENT) ==> fs2 == fs
            &&& r.is_ok()
            &&& r == Ok::<Option<&Bkey>, BchErrcode>(None) <==> no_key_in_range(
                fs.keys_spec(),
                c.btree_id,
                c.pos,
                end,
                c.filter(),
                c.snapshot,
            )
            &&& r == Ok::<Option<&Bkey>, BchErrcode>(None) ==> c2 == c
            &&& r matches Ok(Some(k)) ==> is_first_key(
                fs.keys_spec(),
                *k,
                c.btree_id,
                c.pos,
                end,
                c.filter(),
                c.snapshot,
            ) && c2 == c.with_pos(k.pos)
        },
    }
}

/// A cursor over the keys of one tree, in position order, opened under a
/// transaction.
pub struct BtreeIter {
    trans_id: u64,
    btree_id: u32,
    pos: Bpos,
    snapshot: u32,
    flags: BtreeIterFlags,
    state: IterState,
    k: Option<Bkey>,
}

impl View for BtreeIter {
    type V = IterView;

    closed spec fn view(&self) -> IterView {
        IterView {
            trans_id: self.trans_id,
            btree_id: self.btree_id,
            pos: self.pos,
            snapshot: self.snapshot,
            flags: self.flags,
            state: self.state,
        }
    }
}

/// Takes the intent lock for a cursor of `trans_id` on `btree_id` when `intent`
/// asks for it; `false` when another transaction holds it.
pub(crate) fn lock_for_read(fs: &mut Fs, btree_id: u32, trans_id: u64, intent: bool) -> (r: bool)
    ensures
        final(fs).same_but_locks(old(fs)),
        r <==> !(intent && old(fs).locked_by_other(btree_id, trans_id)),
        r && intent ==> old(fs).locks_plus(final(fs), btree_id, trans_id),
        !(r && intent) ==> *final(fs) == *old(fs),
{
    if !intent {
        return true;
    }
    if fs.is_locked_by_other(btree_id, trans_id) {
        return false;
    }
    fs.take_lock(btree_id, trans_id);
    true
}

impl BtreeIter {
    /// Opens a cursor on tree `btree` at `pos` under `trans`. With
    /// `FILTER_SNAPSHOTS` it sees only the keys of `pos`'s snapshot.
    pub fn new(
        trans: &mut BtreeTrans,
        fs: &mut Fs,
        btree: u32,
        pos: Bpos,
        flags: BtreeIterFlags,
    ) -> (r: Result<BtreeIter, BchErrcode>)
        ensures
            r.is_err() <==> (old(trans).nr_iters_spec() == u64::MAX || old(fs).open_iters_spec()
                == u64::MAX),
            r.is_err() ==> r == Err::<BtreeIter, BchErrcode>(BchErrcode::ResourceExhausted)
                && *final(fs) == *old(fs) && *final(trans) == *old(trans),
            r.is_ok() ==> r.unwrap()@ == (IterView {
                trans_id: old(trans).id_spec(),
                btree_id: btree,
                pos,
                snapshot: pos.snapshot,
                flags,
                state: IterState::Positioned,
            }),
            r.is_ok() ==> final(trans).nr_iters_spec() == old(trans).nr_iters_spec() + 1
                && final(fs).open_iters_spec() == old(fs).open_iters_spec() + 1,
            final(trans).id_spec() == old(trans).id_spec(),
            final(fs).keys_spec() == old(fs).keys_spec(),
            final(fs).nodes_spec() == old(fs).nodes_spec(),
            final(fs).locks_spec() == old(fs).locks_spec(),
            final(fs).open_trans_spec() == old(fs).open_trans_spec(),
            final(fs).max_trans_spec() == old(fs).max_trans_spec(),
            final(fs).next_trans_id_spec() == old(fs).next_trans_id_spec(),
    {
        match trans.iter_opened(fs) {
            Err(e) => Err(e),
            Ok(()) => Ok(
                BtreeIter {
                    trans_id: trans.id(),
                    btree_id: btree,
                    pos,
                    snapshot: pos.snapshot,
                    flags,
                    state: IterState::Positioned,
                    k: None,
                },
            ),
        }
    }

    /// The first key at or after the cursor's position and at or before `end`,
    /// or `None` when there is none; the cursor moves to the key it returns.
    /// The key is lent out of the cursor: it cannot be read once the cursor
    /// is used again or closed.
    pub fn peek_upto(&mut self, fs: &mut Fs, end: Bpos) -> (r: Result<Option<&Bkey>, BchErrcode>)
        ensures
            peek_upto_post(old(self)@, final(self)@, *old(fs), *final(fs), end, r),
    {
        match self.state {
            IterState::Conflicted => {
                return Err(BchErrcode::ProtocolMisuse);
            },
            IterState::Exhausted => {
                return Ok(None);
            },
            IterState::Positioned => {},
        }
        if !lock_for_read(fs, self.btree_id, self.trans_id, self.flags.contains(INTENT)) {
            self.state = IterState::Conflicted;
            return Err(BchErrcode::TransactionRestart);
        }
        let found = fs.find_key(
            self.btree_id,
            self.pos,
            end,
            self.flags.contains(FILTER_SNAPSHOTS),
            self.snapshot,
        );
        if let Some(k) = found {
            self.pos = k.pos;
        }
        self.k = found;
        match &self.k {
            None => Ok(None),
            Some(k) => Ok(Some(k)),
        }
    }

    /// `peek_upto` to the end of the keyspace.
    pub fn peek(&mut self, fs: &mut Fs) -> (r: Result<Option<&Bkey>, BchErrcode>)
        ensures
            peek_upto_post(old(self)@, final(self)@, *old(fs), *final(fs), pos_max(), r),
    {
        self.peek_upto(fs, Bpos::max())
    }

    /// Like `peek`, but a conflicted cursor is first put back at its position
    /// and the read is tried again against the engine as it is now. The result
    /// is `TransactionRestart` again while the other lock is still held.
    pub fn peek_and_restart(&mut self, fs: &mut Fs) -> (r: Result<Option<&Bkey>, BchErrcode>)
        ensures
            peek_upto_post(
                if old(self)@.state == IterState::Conflicted {
                    old(self)@.with_state(IterState::Positioned)
                } else {
                    old(self)@
                },
                final(self)@,
                *old(fs),
                *final(fs),
                pos_max(),
                r,
            ),
    {
        if self.state == IterState::Conflicted {
            self.state = IterState::Positioned;
        }
        self.peek(fs)
    }

    /// Moves past the current position; past the end of the keyspace the
    /// cursor is exhausted.
    pub fn advance(&mut self)
        requires
            old(self)@.state != IterState::Conflicted,
        ensures
            old(self)@.state == IterState::Exhausted ==> final(self)@ == old(self)@,
            old(self)@.state == IterState::Positioned && old(self)@.pos.is_max_spec()
                ==> final(self)@ == old(self)@.with_state(IterState::Exhausted),
            old(self)@.state == IterState::Positioned && !old(self)@.pos.is_max_spec()
                ==> final(self)@ == old(self)@.with_pos(old(self)@.pos.successor_spec()),
    {
        if self.state == IterState::Exhausted {
            return;
        }
        match self.pos.successor() {
            None => {
                self.state = IterState::Exhausted;
            },
            Some(p) => {
                self.pos = p;
            },
        }
    }

    /// Closes the cursor and deregisters it from its transaction.
    pub fn exit(self, trans: &mut BtreeTrans, fs: &mut Fs)
        requires
            old(trans).id_spec() == self@.trans_id,
            old(trans).nr_iters_spec() > 0,
            old(fs).open_iters_spec() > 0,
        ensures
            final(trans).nr_iters_spec() == old(trans).nr_iters_spec() - 1,
            final(trans).id_spec() == old(trans).id_spec(),
            final(fs).open_iters_spec() == old(fs).open_iters_spec() - 1,
            final(fs).keys_spec() == old(fs).keys_spec(),
            final(fs).nodes_spec() == old(fs).nodes_spec(),
            final(fs).locks_spec() == old(fs).locks_spec(),
            final(fs).open_trans_spec() == old(fs).open_trans_spec(),
            final(fs).max_trans_spec() == old(fs).max_trans_spec(),
            final(fs).next_trans_id_spec() == old(fs).next_trans_id_spec(),
    {
        trans.iter_closed(fs);
    }

    pub fn pos(&self) -> (r: Bpos)
        ensures
            r == self@.pos,
    {
        self.pos
    }

    pub fn state(&self) -> (r: IterState)
        ensures
            r == self@.state,
    {
        self.state
    }

    pub fn flags(&self) -> (r: BtreeIterFlags)
        ensures
            r == self@.flags,
    {
        self.flags
    }
}

/// A read never returns a key beyond the bound it was given.
pub proof fn lemma_peek_upto_bounded(
    c: IterView,
    c2: IterView,
    fs: Fs,
    fs2: Fs,
    end: Bpos,
    k: Bkey,
)
    requires
        peek_upto_post(c, c2, fs, fs2, end, Ok(Some(&k))),
    ensures
        k.pos.le_spec(end),
        c.pos.le_spec(k.pos),
{
}

/// With no writer in between, a read, an advance and a second read return
/// keys in strictly increasing position order.
pub proof fn lemma_advance_increasing(
    c0: IterView,
    c1: IterView,
    c2: IterView,
    c3: IterView,
    fs0: Fs,
    fs1: Fs,
    fs2: Fs,
    end1: Bpos,
    end2: Bpos,
    k1: Bkey,
    k2: Bkey,
)
    requires
        peek_upto_post(c0, c1, fs0, fs1, end1, Ok(Some(&k1))),
        !c1.pos.is_max_spec(),
        c2 == c1.with_pos(c1.pos.successor_spec()),
        peek_upto_post(c2, c3, fs1, fs2, end2, Ok(Some(&k2))),
    ensures
        k1.pos.lt_spec(k2.pos),
{
    lemma_successor(k1.pos);
}

/// A cursor restarted after a conflict returns a key exactly as the engine
/// stores it, never one pieced together from two states.
pub proof fn lemma_restart_reads_stored_key(
    c: IterView,
    c2: IterView,
    fs: Fs,
    fs2: Fs,
    k: Bkey,
)
    requires
        c.state == IterState::Conflicted,
        peek_upto_post(c.with_state(IterState::Positioned), c2, fs, fs2, pos_max(), Ok(Some(&k))),
    ensures
        fs.keys_spec().contains(k),
        fs2.keys_spec() == fs.keys_spec(),
        c2.state == IterState::Positioned,
{
}

/// Two transactions that both want intent locks on one tree: once the first
/// has read, the read of the second is a conflict.
pub proof fn lemma_intent_excludes(
    a: IterView,
    a2: IterView,
    b: IterView,
    b2: IterView,
    fs0: Fs,
    fs1: Fs,
    fs2: Fs,
    end_a: Bpos,
    end_b: Bpos,
    ra: Result<Option<&Bkey>, BchErrcode>,
    rb: Result<Option<&Bkey>, BchErrcode>,
)
    requires
        a.state == IterState::Positioned,
        b.state == IterState::Positioned,
        a.flags.has(INTENT),
        b.flags.has(INTENT),
        a.btree_id == b.btree_id,
        a.trans_id != b.trans_id,
        peek_upto_post(a, a2, fs0, fs1, end_a, ra),
        ra.is_ok(),
        peek_upto_post(b, b2, fs1, fs2, end_b, rb),
    ensures
        rb == Err::<Option<&Bkey>, BchErrcode>(BchErrcode::TransactionRestart),
        b2.state == IterState::Conflicted,
{
    assert(fs1.locks_spec().contains((a.btree_id, a.trans_id)));
    let i = choose|i: int|
        0 <= i < fs1.locks_spec().len() && fs1.locks_spec()[i] == (a.btree_id, a.trans_id);
    assert(fs1.locks_spec()[i].0 == b.btree_id && fs1.locks_spec()[i].1 != b.trans_id);
}

/// A conflicted cursor that restarts once no other transaction holds the
/// lock on its tree reads successfully.
pub proof fn lemma_restart_succeeds_when_free(
    c: IterView,
    c2: IterView,
    fs: Fs,
    fs2: Fs,
    r: Result<Option<&Bkey>, BchErrcode>,
)
    requires
        c.state == IterState::Conflicted,
        !fs.locked_by_other(c.btree_id, c.trans_id),
        peek_upto_post(c.with_state(IterState::Positioned), c2, fs, fs2, pos_max(), r),
    ensures
        r.is_ok(),
        c2.state == IterState::Positioned,
{
}

/// When the only other transaction that held locks on a tree closes, its
/// locks go, and a cursor of a remaining transaction on that tree is no longer
/// blocked.
pub proof fn lemma_close_unblocks(c: IterView, fs: Fs, fs2: Fs, closed_id: u64)
    requires
        forall|l: (u32, u64)|
            #[trigger] fs.locks_spec().contains(l) && l.0 == c.btree_id ==> l.1 == closed_id
                || l.1 == c.trans_id,
        forall|l: (u32, u64)|
            #[trigger] fs2.locks_spec().contains(l) <==> (fs.locks_spec().contains(l) && l.1
                != closed_id),
    ensures
        !fs2.locked_by_other(c.btree_id, c.trans_id),
        !c.blocked(fs2),
{
    if fs2.locked_by_other(c.btree_id, c.trans_id) {
        let i = choose|i: int|
            0 <= i < fs2.locks_spec().len() && (#[trigger] fs2.locks_spec()[i]).0 == c.btree_id
                && fs2.locks_spec()[i].1 != c.trans_id;
        assert(fs2.locks_spec().contains(fs2.locks_spec()[i]));
    }
}

} // verus!
