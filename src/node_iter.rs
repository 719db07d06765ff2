use vstd::prelude::*;
use crate::engine::{is_first_node, no_node_in_range, btree, BtreeTrans, Fs};
use crate::error::BchErrcode;
use crate::flags::{BtreeIterFlags, INTENT};
use crate::iter::{lock_for_read, IterState};
use crate::pos::Bpos;

verus! {

/// The state of a node cursor.
pub struct NodeIterView {
    pub trans_id: u64,
    pub btree_id: u32,
    pub pos: Bpos,
    pub locks_want: u32,
    pub depth: u32,
    pub flags: BtreeIterFlags,
    pub state: IterState,
}

impl NodeIterView {
    /// A read now would meet the intent lock of another transaction.
    pub open spec fn blocked(self, fs: Fs) -> bool {
        self.flags.has(INTENT) && fs.locked_by_other(self.btree_id, self.trans_id)
    }

    pub open spec fn with_state(self, state: IterState) -> NodeIterView {
        NodeIterView { state, ..self }
    }

    pub open spec fn with_pos(self, pos: Bpos) -> NodeIterView {
        NodeIterView { pos, ..self }
    }

    /// The cursor after it moves past its position.
    pub open spec fn advanced(self) -> NodeIterView {
        if self.state != IterState::Positioned {
            self
        } else if self.pos.is_max_spec() {
            self.with_state(IterState::Exhausted)
        } else {
            self.with_pos(self.pos.successor_spec())
        }
    }
}

/// What a node read does, from cursor `c` and engine `fs` to cursor `c2`,
/// engine `fs2` and result `r`.
pub open spec fn node_peek_post(
    c: NodeIterView,
    c2: NodeIterView,
    fs: Fs,
    fs2: Fs,
    r: Result<Option<&btree>, BchErrcode>,
) -> bool {
    &&& fs2.same_but_locks(&fs)
    &&& match c.state {
        IterState::Conflicted => r == Err::<Option<&btree>, BchErrcode>(BchErrcode::ProtocolMisuse)
            && c2 == c && fs2 == fs,
        IterState::Exhausted => r == Ok::<Option<&btree>, BchErrcode>(None) && c2 == c && fs2
            == fs,
        IterState::Positioned => if c.blocked(fs) {
            r == Err::<Option<&btree>, BchErrcode>(BchErrcode::TransactionRestart) && c2
                == c.with_state(IterState::Conflicted) && fs2 == fs
        } else {
            &&& c.flags.has(INTENT) ==> fs.locks_plus(&fs2, c.btree_id, c.trans_id)
            &&& !c.flags.has(INTENT) ==> fs2 == fs
            &&& r.is_ok()
            &&& r == Ok::<Option<&btree>, BchErrcode>(None) <==> no_node_in_range(
                fs.nodes_spec(),
                c.btree_id,
                c.depth,
                c.pos,
            )
            &&& r == Ok::<Option<&btree>, BchErrcode>(None) ==> c2 == c
            &&& r matches Ok(Some(b)) ==> is_first_node(
                fs.nodes_spec(),
                *b,
                c.btree_id,
                c.depth,
                c.pos,
            ) && c2 == c.with_pos(b.max_key)
        },
    }
}

/// A cursor over the nodes of one tree at one depth (0 for leaves), in key
/// order, opened under a transaction.
pub struct BtreeNodeIter {
    trans_id: u64,
    btree_id: u32,
    pos: Bpos,
    locks_want: u32,
    depth: u32,
    flags: BtreeIterFlags,
    state: IterState,
    b: Option<btree>,
}

impl View for BtreeNodeIter {
    type V = NodeIterView;

    closed spec fn view(&self) -> NodeIterView {
        NodeIterView {
            trans_id: self.trans_id,
            btree_id: self.btree_id,
            pos: self.pos,
            locks_want: self.locks_want,
            depth: self.depth,
            flags: self.flags,
            state: self.state,
        }
    }
}

impl BtreeNodeIter {
    /// Opens a node cursor on tree `btree` at `pos` and `depth` under `trans`;
    /// `locks_want` is how many ancestor levels it asks to keep locked.
    pub fn new(
        trans: &mut BtreeTrans,
        fs: &mut Fs,
        btree: u32,
        pos: Bpos,
        locks_want: u32,
        depth: u32,
        flags: BtreeIterFlags,
    ) -> (r: Result<BtreeNodeIter, BchErrcode>)
        ensures
            r.is_err() <==> (old(trans).nr_iters_spec() == u64::MAX || old(fs).open_iters_spec()
                == u64::MAX),
            r.is_err() ==> r == Err::<BtreeNodeIter, BchErrcode>(BchErrcode::ResourceExhausted)
                && *final(fs) == *old(fs) && *final(trans) == *old(trans),
            r.is_ok() ==> r.unwrap()@ == (NodeIterView {
                trans_id: old(trans).id_spec(),
                btree_id: btree,
                pos,
                locks_want,
                depth,
                flags,
                state: IterState::Positioned,
            }),
            r.is_ok() ==> final(trans).nr_iters_spec() == old(trans).nr_iters_spec() + 1
                && final(fs).open_iters_spec() == old(fs).open_iters_spec() + 1,
            final(trans).id_spec() == old(trans).id_spec(),
            final(fs).keys_spec() == old(fs).keys_spec(),
            final(fs).nodes_spec() == old(fs).nodes_spec(),
            final(fs).locks_spec() == old(fs).locks_spec(),
            final(fs).open_trans_spec() == old(fs).open_trans_spec(),
            final(fs).max_trans_spec() == old(fs).max_trans_spec(),
            final(fs).next_trans_id_spec() == old(fs).next_trans_id_spec(),
    {
        match trans.iter_opened(fs) {
            Err(e) => Err(e),
            Ok(()) => Ok(
                BtreeNodeIter {
                    trans_id: trans.id(),
                    btree_id: btree,
                    pos,
                    locks_want,
                    depth,
                    flags,
                    state: IterState::Positioned,
                    b: None,
                },
            ),
        }
    }

    /// The first node at the cursor's depth whose range ends at or after the
    /// cursor's position, or `None`; the cursor moves to that node's end. The
    /// node is lent out of the cursor, like the keys of a leaf cursor.
    pub fn peek(&mut self, fs: &mut Fs) -> (r: Result<Option<&btree>, BchErrcode>)
        ensures
            node_peek_post(old(self)@, final(self)@, *old(fs), *final(fs), r),
    {
        match self.state {
            IterState::Conflicted => {
                return Err(BchErrcode::ProtocolMisuse);
            },
            IterState::Exhausted => {
                return Ok(None);
            },
            IterState::Positioned => {},
        }
        if !lock_for_read(fs, self.btree_id, self.trans_id, self.flags.contains(INTENT)) {
            self.state = IterState::Conflicted;
            return Err(BchErrcode::TransactionRestart);
        }
        let found = fs.find_node(self.btree_id, self.depth, self.pos);
        if let Some(b) = found {
            self.pos = b.max_key;
        }
        self.b = found;
        match &self.b {
            None => Ok(None),
            Some(b) => Ok(Some(b)),
        }
    }

    /// Like `peek`, but a conflicted cursor is first put back at its position
    /// and the read is tried again.
    pub fn peek_and_restart(&mut self, fs: &mut Fs) -> (r: Result<Option<&btree>, BchErrcode>)
        ensures
            node_peek_post(
                if old(self)@.state == IterState::Conflicted {
                    old(self)@.with_state(IterState::Positioned)
                } else {
                    old(self)@
                },
                final(self)@,
                *old(fs),
                *final(fs),
                r,
            ),
    {
        if self.state == IterState::Conflicted {
            self.state = IterState::Positioned;
        }
        self.peek(fs)
    }

    /// Moves past the current node's end; past the end of the keyspace the
    /// cursor is exhausted.
    pub fn advance(&mut self)
        requires
            old(self)@.state != IterState::Conflicted,
        ensures
            final(self)@ == old(self)@.advanced(),
    {
        if self.state == IterState::Exhausted {
            return;
        }
        match self.pos.successor() {
            None => {
                self.state = IterState::Exhausted;
            },
            Some(p) => {
                self.pos = p;
            },
        }
    }

    /// `advance` followed by `peek`: the next node at the same depth.
    pub fn next(&mut self, fs: &mut Fs) -> (r: Result<Option<&btree>, BchErrcode>)
        requires
            old(self)@.state != IterState::Conflicted,
        ensures
            node_peek_post(old(self)@.advanced(), final(self)@, *old(fs), *final(fs), r),
    {
        self.advance();
        self.peek(fs)
    }

    /// Closes the cursor and deregisters it from its transaction.
    pub fn exit(self, trans: &mut BtreeTrans, fs: &mut Fs)
        requires
            old(trans).id_spec() == self@.trans_id,
            old(trans).nr_iters_spec() > 0,
            old(fs).open_iters_spec() > 0,
        ensures
            final(trans).nr_iters_spec() == old(trans).nr_iters_spec() - 1,
            final(trans).id_spec() == old(trans).id_spec(),
            final(fs).open_iters_spec() == old(fs).open_iters_spec() - 1,
            final(fs).keys_spec() == old(fs).keys_spec(),
            final(fs).nodes_spec() == old(fs).nodes_spec(),
            final(fs).locks_spec() == old(fs).locks_spec(),
            final(fs).open_trans_spec() == old(fs).open_trans_spec(),
            final(fs).max_trans_spec() == old(fs).max_trans_spec(),
            final(fs).next_trans_id_spec() == old(fs).next_trans_id_spec(),
    {
        trans.iter_closed(fs);
    }

    pub fn pos(&self) -> (r: Bpos)
        ensures
            r == self@.pos,
    {
        self.pos
    }

    pub fn state(&self) -> (r: IterState)
        ensures
            r == self@.state,
    {
        self.state
    }

    pub fn depth(&self) -> (r: u32)
        ensures
            r == self@.depth,
    {
        self.depth
    }

    pub fn locks_want(&self) -> (r: u32)
        ensures
            r == self@.locks_want,
    {
        self.locks_want
    }
}

} // verus!
