use vstd::prelude::*;
use vstd::string::*;
use crate::engine::{btree, in_node, Fs};
use crate::pos::Bpos;

verus! {

/// The decimal digits of `n`, most significant first, without sign or padding.
pub open spec fn decimal_digits(n: nat) -> Seq<char>
    decreases n,
{
    if n < 10 {
        seq![digit_char(n)]
    } else {
        decimal_digits(n / 10) + seq![digit_char(n % 10)]
    }
}

pub open spec fn digit_char(d: nat) -> char {
    if d == 0 { '0' }
    else if d == 1 { '1' }
    else if d == 2 { '2' }
    else if d == 3 { '3' }
    else if d == 4 { '4' }
    else if d == 5 { '5' }
    else if d == 6 { '6' }
    else if d == 7 { '7' }
    else if d == 8 { '8' }
    else { '9' }
}

/// Relies on `u64`'s `ToString`, which goes through `Display`: the decimal
/// digits of `n`, with no sign and no padding.
#[verifier::external_body]
fn decimal_string(n: u64) -> (r: String)
    ensures
        r@ == decimal_digits(n as nat),
{
    n.to_string()
}

/// A position as `inode:offset:snapshot`.
pub open spec fn pos_text(p: Bpos) -> Seq<char> {
    decimal_digits(p.inode as nat) + seq![':'] + decimal_digits(p.offset as nat) + seq![':']
        + decimal_digits(p.snapshot as nat)
}

/// The text of node `b` as it stands in memory, where `live_keys` keys of the
/// engine lie in its range.
pub open spec fn node_text(b: btree, live_keys: nat) -> Seq<char> {
    seq!['b', 't', 'r', 'e', 'e', ' '] + decimal_digits(b.btree_id as nat) + seq![
        ' ',
        'l',
        'e',
        'v',
        'e',
        'l',
        ' ',
    ] + decimal_digits(b.level as nat) + seq![' '] + pos_text(b.min_key) + seq!['-'] + pos_text(
        b.max_key,
    ) + seq![' ', 'k', 'e', 'y', 's', ' '] + decimal_digits(live_keys)
}

/// The text of a node as it is encoded on disk.
pub open spec fn node_ondisk_text(b: btree) -> Seq<char> {
    seq!['b', 't', 'r', 'e', 'e', ' '] + decimal_digits(b.btree_id as nat) + seq![
        ' ',
        'l',
        'e',
        'v',
        'e',
        'l',
        ' ',
    ] + decimal_digits(b.level as nat) + seq![' ', 'm', 'a', 'x', ' '] + pos_text(b.max_key)
        + seq![' ', 'k', 'e', 'y', 's', ' '] + decimal_digits(b.nr_keys as nat) + seq![
        ' ',
        's',
        'e',
        'c',
        't',
        'o',
        'r',
        's',
        ' ',
    ] + decimal_digits(
        b.sectors_written as nat,
    )
}

fn push_str(s: &mut String, lit: &str)
    ensures
        final(s)@ == old(s)@ + lit@,
{
    s.append(lit);
}

fn push_decimal(s: &mut String, n: u64)
    ensures
        final(s)@ == old(s)@ + decimal_digits(n as nat),
{
    let d = decimal_string(n);
    s.append(d.as_str());
}

fn push_pos(s: &mut String, p: &Bpos)
    ensures
        final(s)@ == old(s)@ + pos_text(*p),
{
    let ghost s0 = s@;
    push_decimal(s, p.inode);
    proof {
        reveal_strlit(":");
    }
    push_str(s, ":");
    push_decimal(s, p.offset);
    push_str(s, ":");
    push_decimal(s, p.snapshot as u64);
    assert(s@ =~= s0 + pos_text(*p));
}

/// Renders a node's in-memory state; the text is produced only on `render`.
pub struct BtreeNodeToText<'a> {
    b: &'a btree,
    fs: &'a Fs,
}

/// Renders a node's on-disk form; the text is produced only on `render`.
pub struct BtreeNodeOndiskToText<'a> {
    b: &'a btree,
    fs: &'a Fs,
}

impl btree {
    /// A renderer of this node's in-memory state, borrowing the node and its engine.
    pub fn to_text<'a>(&'a self, fs: &'a Fs) -> (r: BtreeNodeToText<'a>)
        ensures
            r.node() == *self,
            r.engine() == *fs,
    {
        BtreeNodeToText { b: self, fs }
    }

    /// A renderer of this node's on-disk form, borrowing the node and its engine.
    pub fn ondisk_to_text<'a>(&'a self, fs: &'a Fs) -> (r: BtreeNodeOndiskToText<'a>)
        ensures
            r.node() == *self,
            r.engine() == *fs,
    {
        BtreeNodeOndiskToText { b: self, fs }
    }
}

impl<'a> BtreeNodeToText<'a> {
    pub closed spec fn node(&self) -> btree {
        *self.b
    }

    pub closed spec fn engine(&self) -> Fs {
        *self.fs
    }

    /// The node's tree, level and range, and how many keys the engine holds
    /// in that range now.
    pub fn render(&self) -> (r: String)
        ensures
            r@ == node_text(self.node(), self.engine().keys_spec().filter(in_node(self.node())).len()),
    {
        let b = self.b;
        proof {
            reveal_strlit("btree ");
            reveal_strlit(" level ");
            reveal_strlit(" ");
            reveal_strlit("-");
            reveal_strlit(" keys ");
        }
        let mut s = String::from_str("btree ");
        push_decimal(&mut s, b.btree_id as u64);
        push_str(&mut s, " level ");
        push_decimal(&mut s, b.level as u64);
        push_str(&mut s, " ");
        push_pos(&mut s, &b.min_key);
        push_str(&mut s, "-");
        push_pos(&mut s, &b.max_key);
        push_str(&mut s, " keys ");
        let live = self.fs.count_keys_in(b);
        push_decimal(&mut s, live);
        assert(s@ =~= node_text(*b, live as nat));
        s
    }
}

impl<'a> BtreeNodeOndiskToText<'a> {
    pub closed spec fn node(&self) -> btree {
        *self.b
    }

    pub closed spec fn engine(&self) -> Fs {
        *self.fs
    }

    /// The engine the node belongs to.
    pub fn fs(&self) -> (r: &'a Fs)
        ensures
            *r == self.engine(),
    {
        self.fs
    }

    /// The node's tree, level, end, key count and the sectors written for it,
    /// as its on-disk header records them.
    pub fn render(&self) -> (r: String)
        ensures
            r@ == node_ondisk_text(self.node()),
    {
        let b = self.b;
        proof {
            reveal_strlit("btree ");
            reveal_strlit(" level ");
            reveal_strlit(" max ");
            reveal_strlit(" keys ");
            reveal_strlit(" sectors ");
        }
        let mut s = String::from_str("btree ");
        push_decimal(&mut s, b.btree_id as u64);
        push_str(&mut s, " level ");
        push_decimal(&mut s, b.level as u64);
        push_str(&mut s, " max ");
        push_pos(&mut s, &b.max_key);
        push_str(&mut s, " keys ");
        push_decimal(&mut s, b.nr_keys as u64);
        push_str(&mut s, " sectors ");
        push_decimal(&mut s, b.sectors_written as u64);
        assert(s@ =~= node_ondisk_text(*b));
        s
    }
}

} // verus!
