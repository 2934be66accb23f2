//! Output scripts: the standard templates and the split into operations.
use vstd::prelude::*;

verus! {

pub const OP_PUSHDATA1: u8 = 76;

pub const OP_PUSHDATA2: u8 = 77;

pub const OP_PUSHDATA4: u8 = 78;

pub const OP_RETURN: u8 = 106;

pub const OP_DUP: u8 = 118;

pub const OP_EQUAL: u8 = 135;

pub const OP_EQUALVERIFY: u8 = 136;

pub const OP_HASH160: u8 = 169;

pub const OP_CHECKSIG: u8 = 172;

/// One script operation: a plain opcode, or an opcode that pushes data.
#[derive(Clone, Debug, PartialEq, Eq)]
pub enum Op {
    Code(u8),
    Push(u8, Vec<u8>),
}

/// An operation with its pushed data as a sequence.
pub enum OpView {
    Code(u8),
    Push(u8, Seq<u8>),
}

impl View for Op {
    type V = OpView;

    open spec fn view(&self) -> OpView {
        match self {
            Op::Code(c) => OpView::Code(*c),
            Op::Push(c, d) => OpView::Push(*c, d@),
        }
    }
}

/// `OP_DUP OP_HASH160 <20> hash OP_EQUALVERIFY OP_CHECKSIG`.
pub open spec fn is_p2pkh(s: Seq<u8>) -> bool {
    s.len() == 25 && s[0] == OP_DUP && s[1] == OP_HASH160 && s[2] == 20 && s[23] == OP_EQUALVERIFY
        && s[24] == OP_CHECKSIG
}

/// `OP_HASH160 <20> hash OP_EQUAL`.
pub open spec fn is_p2sh(s: Seq<u8>) -> bool {
    s.len() == 23 && s[0] == OP_HASH160 && s[1] == 20 && s[22] == OP_EQUAL
}

/// `<33> key OP_CHECKSIG` or `<65> key OP_CHECKSIG`.
pub open spec fn is_p2pk(s: Seq<u8>) -> bool {
    ((s.len() == 35 && s[0] == 33) || (s.len() == 67 && s[0] == 65)) && s[s.len() - 1]
        == OP_CHECKSIG
}

/// `OP_RETURN` followed by anything.
pub open spec fn is_nulldata(s: Seq<u8>) -> bool {
    s.len() >= 1 && s[0] == OP_RETURN
}

/// The pay-to-public-key-hash script of a hash.
pub open spec fn p2pkh_script(hash: Seq<u8>) -> Seq<u8> {
    seq![OP_DUP, OP_HASH160, 20u8] + hash + seq![OP_EQUALVERIFY, OP_CHECKSIG]
}

/// The pay-to-script-hash script of a hash.
pub open spec fn p2sh_script(hash: Seq<u8>) -> Seq<u8> {
    seq![OP_HASH160, 20u8] + hash + seq![OP_EQUAL]
}

/// No script matches two templates: they differ in their first byte.
pub proof fn lemma_templates_exclusive(s: Seq<u8>)
    ensures
        !(is_p2pkh(s) && is_p2sh(s)),
        !(is_p2pkh(s) && is_p2pk(s)),
        !(is_p2pkh(s) && is_nulldata(s)),
        !(is_p2sh(s) && is_p2pk(s)),
        !(is_p2sh(s) && is_nulldata(s)),
        !(is_p2pk(s) && is_nulldata(s)),
{
}

/// The template scripts of a 20-byte hash match their own template, and give
/// the hash back from where the classifier reads it.
pub proof fn lemma_template_scripts(hash: Seq<u8>)
    requires
        hash.len() == 20,
    ensures
        is_p2pkh(p2pkh_script(hash)),
        p2pkh_script(hash).subrange(3, 23) == hash,
        is_p2sh(p2sh_script(hash)),
        p2sh_script(hash).subrange(2, 22) == hash,
{
    assert(p2pkh_script(hash).subrange(3, 23) =~= hash);
    assert(p2sh_script(hash).subrange(2, 22) =~= hash);
}

/// How many length bytes follow a push opcode.
pub open spec fn length_bytes(opcode: u8) -> int {
    if opcode == OP_PUSHDATA1 {
        1
    } else if opcode == OP_PUSHDATA2 {
        2
    } else {
        4
    }
}

/// The little-endian value of `count` bytes of `s` from `start`.
pub open spec fn le_value(s: Seq<u8>, start: int, count: int) -> int
    decreases count,
{
    if count <= 0 {
        0
    } else {
        s[start] + 256 * le_value(s, start + 1, count - 1)
    }
}

/// The operation that starts at `pos`, with the position just after it, or
/// `None` where the script ends inside it.
pub open spec fn op_at(s: Seq<u8>, pos: int) -> Option<(OpView, int)> {
    let opcode = s[pos];
    if 1 <= opcode < OP_PUSHDATA1 {
        let end = pos + 1 + opcode;
        if end <= s.len() {
            Some((OpView::Push(opcode, s.subrange(pos + 1, end)), end))
        } else {
            None
        }
    } else if OP_PUSHDATA1 <= opcode <= OP_PUSHDATA4 {
        let start = pos + 1 + length_bytes(opcode);
        if start <= s.len() {
            let end = start + le_value(s, pos + 1, length_bytes(opcode));
            if end <= s.len() {
                Some((OpView::Push(opcode, s.subrange(start, end)), end))
            } else {
                None
            }
        } else {
            None
        }
    } else {
        Some((OpView::Code(opcode), pos + 1))
    }
}

/// The operations of `s` from `pos` on, or `None` where one is cut short.
pub open spec fn ops_from(s: Seq<u8>, pos: int) -> Option<Seq<OpView>>
    decreases s.len() - pos,
{
    if pos < 0 || pos >= s.len() {
        Some(Seq::empty())
    } else {
        match op_at(s, pos) {
            None => None,
            Some((op, next)) => if next <= pos {
                None
            } else {
                match ops_from(s, next) {
                    None => None,
                    Some(rest) => Some(seq![op] + rest),
                }
            },
        }
    }
}

/// The operations of a whole script.
pub open spec fn ops_of(s: Seq<u8>) -> Option<Seq<OpView>> {
    ops_from(s, 0)
}

/// The views of a list of operations.
pub open spec fn ops_view(ops: Seq<Op>) -> Seq<OpView> {
    ops.map_values(|op: Op| op@)
}

/// `256` to the power `n`.
pub open spec fn pow256(n: int) -> int
    decreases n,
{
    if n <= 0 {
        1
    } else {
        256 * pow256(n - 1)
    }
}

/// Reads the little-endian length of a data push.
fn read_length(s: &[u8], pos: usize, count: usize) -> (r: u64)
    requires
        1 <= count <= 4,
        pos + count <= s.len(),
    ensures
        r == le_value(s@, pos as int, count as int),
        r < pow256(count as int),
    decreases count,
{
    if count == 1 {
        assert(le_value(s@, pos + 1, 0) == 0);
        assert(pow256(1) == 256) by {
            reveal_with_fuel(pow256, 2);
        }
        s[pos] as u64
    } else {
        let rest = read_length(s, pos + 1, count - 1);
        let b = s[pos];
        assert(pow256(count - 1) <= 0x100_0000) by {
            reveal_with_fuel(pow256, 4);
        }
        assert(b + 256 * rest < 256 * pow256(count - 1)) by (nonlinear_arith)
            requires
                b < 256,
                rest < pow256(count - 1),
        ;
        assert(pow256(count as int) == 256 * pow256(count - 1));
        b as u64 + 256 * rest
    }
}

/// Copies `s[start..end]`.
pub(crate) fn copy_range(s: &[u8], start: usize, end: usize) -> (r: Vec<u8>)
    requires
        start <= end <= s@.len(),
    ensures
        r@ == s@.subrange(start as int, end as int),
{
    let mut r: Vec<u8> = Vec::new();
    let mut i: usize = start;
    while i < end
        invariant
            start <= i <= end,
            end <= s@.len(),
            r@ == s@.subrange(start as int, i as int),
        decreases end - i,
    {
        r.push(s[i]);
        i = i + 1;
        assert(s@.subrange(start as int, i as int) == s@.subrange(start as int, i - 1) + seq![
            s@[i - 1],
        ]);
    }
    r
}

/// Reads the operation that starts at `pos`.
pub fn read_op(s: &[u8], pos: usize) -> (r: Option<(Op, usize)>)
    requires
        pos < s@.len(),
    ensures
        match r {
            None => op_at(s@, pos as int) is None,
            Some((op, next)) => op_at(s@, pos as int) == Some((op@, next as int)) && pos < next,
        },
{
    let opcode = s[pos];
    if 1 <= opcode && opcode < OP_PUSHDATA1 {
        if opcode as usize > s.len() - (pos + 1) {
            return None;
        }
        let end = pos + 1 + opcode as usize;
        Some((Op::Push(opcode, copy_range(s, pos + 1, end)), end))
    } else if OP_PUSHDATA1 <= opcode && opcode <= OP_PUSHDATA4 {
        let count: usize = if opcode == OP_PUSHDATA1 {
            1
        } else if opcode == OP_PUSHDATA2 {
            2
        } else {
            4
        };
        if count > s.len() - (pos + 1) {
            return None;
        }
        let start = pos + 1 + count;
        let len = read_length(s, pos + 1, count);
        assert(pow256(count as int) <= 0x1_0000_0000) by {
            reveal_with_fuel(pow256, 5);
        }
        if len > (s.len() - start) as u64 {
            return None;
        }
        let end = start + len as usize;
        Some((Op::Push(opcode, copy_range(s, start, end)), end))
    } else {
        Some((Op::Code(opcode), pos + 1))
    }
}

/// Splits a script into its operations; `None` where one is cut short.
pub fn parse_ops(s: &[u8]) -> (r: Option<Vec<Op>>)
    ensures
        match r {
            None => ops_of(s@) is None,
            Some(ops) => ops_of(s@) == Some(ops_view(ops@)),
        },
{
    let mut ops: Vec<Op> = Vec::new();
    let mut pos: usize = 0;
    while pos < s.len()
        invariant
            pos <= s@.len(),
            ops_of(s@) == match ops_from(s@, pos as int) {
                None => None,
                Some(rest) => Some(ops_view(ops@) + rest),
            },
        decreases s@.len() - pos,
    {
        match read_op(s, pos) {
            None => {
                return None;
            },
            Some((op, next)) => {
                proof {
                    let ov = op@;
                    assert(ops_view(ops@.push(op)) =~= ops_view(ops@).push(ov));
                    match ops_from(s@, next as int) {
                        None => {},
                        Some(rest) => {
                            assert(ops_view(ops@) + (seq![ov] + rest) =~= ops_view(ops@).push(ov)
                                + rest);
                        },
                    }
                }
                ops.push(op);
                pos = next;
            },
        }
    }
    assert(ops_view(ops@) + Seq::<OpView>::empty() =~= ops_view(ops@));
    Some(ops)
}

} // verus!
