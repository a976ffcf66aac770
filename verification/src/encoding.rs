//! The two-tag binary serialization of program trees.
//!
//! A pair is the byte `0xFF` followed by its two halves. An atom of one byte
//! below `0x80` is that byte. Any other atom is a length prefix followed by
//! its bytes; the number of leading one bits of the first prefix byte gives
//! the width of the prefix, and the remaining bits hold the length, big
//! endian.

use crate::error::DecodeError;
use crate::program::{Program, Tree};
use std::rc::Rc;
use vstd::prelude::*;
use vstd::slice::*;

verus! {

/// The tag byte of a pair.
pub const PAIR_TAG: u8 = 0xFF;

/// An atom must be shorter than this to have a serialization.
pub const ATOM_LEN_LIMIT: u64 = 0x4_0000_0000;

/// The width of the length prefix that `first` opens, or 0 where `first`
/// opens none (a one-byte atom, the pair tag, or the unused byte `0xFE`).
pub open spec fn prefix_width(first: u8) -> int {
    if first < 0x80 {
        0
    } else if first < 0xC0 {
        1
    } else if first < 0xE0 {
        2
    } else if first < 0xF0 {
        3
    } else if first < 0xF8 {
        4
    } else if first < 0xFC {
        5
    } else if first < 0xFE {
        6
    } else {
        0
    }
}

/// The leading one bits of a prefix of the given width, as a byte value.
pub open spec fn prefix_tag(width: int) -> int {
    if width == 1 {
        0x80
    } else if width == 2 {
        0xC0
    } else if width == 3 {
        0xE0
    } else if width == 4 {
        0xF0
    } else if width == 5 {
        0xF8
    } else {
        0xFC
    }
}

/// The length that the first `width` bytes of `b` announce.
pub open spec fn prefix_size(b: Seq<u8>, width: int) -> int
    recommends
        1 <= width <= 6,
        width <= b.len(),
{
    let high = b[0] as int - prefix_tag(width);
    if width == 1 {
        high
    } else if width == 2 {
        high * 0x100 + b[1] as int
    } else if width == 3 {
        high * 0x1_0000 + b[1] as int * 0x100 + b[2] as int
    } else if width == 4 {
        high * 0x100_0000 + b[1] as int * 0x1_0000 + b[2] as int * 0x100 + b[3] as int
    } else if width == 5 {
        high * 0x1_0000_0000 + b[1] as int * 0x100_0000 + b[2] as int * 0x1_0000 + b[3] as int
            * 0x100 + b[4] as int
    } else {
        high * 0x100_0000_0000 + b[1] as int * 0x1_0000_0000 + b[2] as int * 0x100_0000
            + b[3] as int * 0x1_0000 + b[4] as int * 0x100 + b[5] as int
    }
}

/// Reads one tree from the front of `b`: the tree and the number of bytes it
/// took, or `None` where `b` does not start with a serialized tree.
pub open spec fn parse(b: Seq<u8>) -> Option<(Tree, int)>
    decreases b.len(),
{
    if b.len() == 0 {
        None
    } else if b[0] == PAIR_TAG {
        match parse(b.skip(1)) {
            None => None,
            Some((first, used_first)) => if 0 < used_first < b.len() {
                match parse(b.skip(1 + used_first)) {
                    None => None,
                    Some((rest, used_rest)) => Some(
                        (Tree::Pair(Box::new(first), Box::new(rest)), 1 + used_first + used_rest),
                    ),
                }
            } else {
                None
            },
        }
    } else if b[0] < 0x80 {
        Some((Tree::Atom(b.subrange(0, 1)), 1))
    } else {
        let width = prefix_width(b[0]);
        if width == 0 || b.len() < width {
            None
        } else {
            let size = prefix_size(b, width);
            if size >= ATOM_LEN_LIMIT || b.len() < width + size {
                None
            } else {
                Some((Tree::Atom(b.subrange(width, width + size)), width + size))
            }
        }
    }
}

/// What decoding a whole buffer yields: the tree that the buffer serializes,
/// with nothing left over.
pub open spec fn decode_spec(b: Seq<u8>) -> Result<Tree, DecodeError> {
    match parse(b) {
        Some((tree, used)) => if used == b.len() {
            Ok(tree)
        } else {
            Err(DecodeError::MalformedEncoding)
        },
        None => Err(DecodeError::MalformedEncoding),
    }
}

/// The shortest length prefix for an atom of `len` bytes.
pub open spec fn size_prefix(len: int) -> Seq<u8>
    recommends
        0 <= len < ATOM_LEN_LIMIT,
{
    if len < 0x40 {
        seq![(0x80 + len) as u8]
    } else if len < 0x2000 {
        seq![(0xC0 + len / 0x100) as u8, (len % 0x100) as u8]
    } else if len < 0x10_0000 {
        seq![(0xE0 + len / 0x1_0000) as u8, (len / 0x100 % 0x100) as u8, (len % 0x100) as u8]
    } else if len < 0x800_0000 {
        seq![
            (0xF0 + len / 0x100_0000) as u8,
            (len / 0x1_0000 % 0x100) as u8,
            (len / 0x100 % 0x100) as u8,
            (len % 0x100) as u8,
        ]
    } else {
        seq![
            (0xF8 + len / 0x1_0000_0000) as u8,
            (len / 0x100_0000 % 0x100) as u8,
            (len / 0x1_0000 % 0x100) as u8,
            (len / 0x100 % 0x100) as u8,
            (len % 0x100) as u8,
        ]
    }
}

/// The serialization of an atom.
pub open spec fn serialize_atom(bytes: Seq<u8>) -> Seq<u8> {
    if bytes.len() == 1 && bytes[0] < 0x80 {
        bytes
    } else {
        size_prefix(bytes.len() as int) + bytes
    }
}

/// The serialization of a tree.
pub open spec fn serialize(tree: Tree) -> Seq<u8>
    decreases tree,
{
    match tree {
        Tree::Atom(bytes) => serialize_atom(bytes),
        Tree::Pair(first, rest) => seq![PAIR_TAG] + serialize(*first) + serialize(*rest),
    }
}

/// Every atom of the tree is short enough to be serialized.
pub open spec fn encodable(tree: Tree) -> bool
    decreases tree,
{
    match tree {
        Tree::Atom(bytes) => bytes.len() < ATOM_LEN_LIMIT,
        Tree::Pair(first, rest) => encodable(*first) && encodable(*rest),
    }
}

/// A buffer is a well-formed serialization when it is what some tree
/// serializes to.
pub open spec fn well_formed(b: Seq<u8>) -> bool {
    exists|tree: Tree| encodable(tree) && #[trigger] serialize(tree) == b
}

/// A tree read from the front of a buffer takes at least one byte and no more
/// than the buffer holds, and each of its atoms is short enough to be
/// serialized again.
pub proof fn lemma_parse_bounds(b: Seq<u8>)
    ensures
        parse(b) matches Some((tree, used)) ==> 0 < used <= b.len() && encodable(tree),
    decreases b.len(),
{
    if b.len() > 0 && b[0] == PAIR_TAG {
        lemma_parse_bounds(b.skip(1));
        match parse(b.skip(1)) {
            Some((first, used_first)) => {
                if 0 < used_first < b.len() {
                    lemma_parse_bounds(b.skip(1 + used_first));
                }
            },
            None => {},
        }
    }
}

/// The big-endian digits of a length, base 256, add up to the length.
proof fn lemma_digits(len: int)
    requires
        0 <= len < ATOM_LEN_LIMIT,
    ensures
        len == (len / 0x100) * 0x100 + len % 0x100,
        len == (len / 0x1_0000) * 0x1_0000 + (len / 0x100 % 0x100) * 0x100 + len % 0x100,
        len == (len / 0x100_0000) * 0x100_0000 + (len / 0x1_0000 % 0x100) * 0x1_0000 + (len
            / 0x100 % 0x100) * 0x100 + len % 0x100,
        len == (len / 0x1_0000_0000) * 0x1_0000_0000 + (len / 0x100_0000 % 0x100) * 0x100_0000
            + (len / 0x1_0000 % 0x100) * 0x1_0000 + (len / 0x100 % 0x100) * 0x100 + len % 0x100,
        len < 0x2000 ==> len / 0x100 < 0x20,
        len < 0x10_0000 ==> len / 0x1_0000 < 0x10,
        len < 0x800_0000 ==> len / 0x100_0000 < 0x08,
        len / 0x1_0000_0000 < 0x04,
{
    let d1 = len / 0x100;
    let d2 = d1 / 0x100;
    let d3 = d2 / 0x100;
    let d4 = d3 / 0x100;
    assert(len / 0x1_0000 == d2);
    assert(len / 0x100_0000 == d3);
    assert(len / 0x1_0000_0000 == d4);
}

/// The shortest prefix of a length announces that length, with the width
/// that its first byte opens.
proof fn lemma_size_prefix(len: int, after: Seq<u8>)
    requires
        0 <= len < ATOM_LEN_LIMIT,
    ensures
        1 <= size_prefix(len).len() <= 5,
        0x80 <= size_prefix(len)[0] < 0xFC,
        prefix_width(size_prefix(len)[0]) == size_prefix(len).len(),
        prefix_size(size_prefix(len) + after, size_prefix(len).len() as int) == len,
{
    let p = size_prefix(len);
    let b = p + after;
    lemma_digits(len);
    assert(b[0] == p[0]);
    if len < 0x40 {
    } else if len < 0x2000 {
        assert(b[1] == p[1]);
    } else if len < 0x10_0000 {
        assert(b[1] == p[1] && b[2] == p[2]);
    } else if len < 0x800_0000 {
        assert(b[1] == p[1] && b[2] == p[2] && b[3] == p[3]);
    } else {
        assert(b[1] == p[1] && b[2] == p[2] && b[3] == p[3] && b[4] == p[4]);
    }
}

/// A serialization is never empty.
pub proof fn lemma_serialize_nonempty(tree: Tree)
    ensures
        serialize(tree).len() > 0,
    decreases tree,
{
    match tree {
        Tree::Atom(bytes) => {},
        Tree::Pair(first, rest) => {},
    }
}

/// Reading from a buffer that starts with the serialization of a tree gives
/// that tree and stops where the serialization ends, whatever follows.
pub proof fn lemma_parse_serialize(tree: Tree, tail: Seq<u8>)
    requires
        encodable(tree),
    ensures
        parse(serialize(tree) + tail) == Some((tree, serialize(tree).len() as int)),
    decreases tree,
{
    let b = serialize(tree) + tail;
    match tree {
        Tree::Atom(bytes) => {
            if bytes.len() == 1 && bytes[0] < 0x80 {
                assert(b[0] == bytes[0]);
                assert(b.subrange(0, 1) =~= bytes);
            } else {
                let len = bytes.len() as int;
                let p = size_prefix(len);
                lemma_size_prefix(len, bytes + tail);
                assert(b =~= p + (bytes + tail));
                assert(b[0] == p[0]);
                let width = p.len() as int;
                assert(b.subrange(width, width + len) =~= bytes);
            }
        },
        Tree::Pair(first, rest) => {
            let s1 = serialize(*first);
            let s2 = serialize(*rest);
            lemma_serialize_nonempty(*first);
            lemma_parse_serialize(*first, s2 + tail);
            lemma_parse_serialize(*rest, tail);
            assert(b[0] == PAIR_TAG);
            assert(b.skip(1) =~= s1 + (s2 + tail));
            assert(b.skip(1 + s1.len() as int) =~= s2 + tail);
        },
    }
}

/// Decoding inverts serializing: the serialization of a tree decodes to that
/// tree.
pub proof fn law_decode_inverts_serialize(tree: Tree)
    requires
        encodable(tree),
    ensures
        decode_spec(serialize(tree)) == Ok::<Tree, DecodeError>(tree),
{
    lemma_parse_serialize(tree, Seq::empty());
    assert(serialize(tree) + Seq::<u8>::empty() =~= serialize(tree));
}

/// Round trip: a well-formed serialization decodes, and what it decodes to
/// serializes to the same bytes again.
pub proof fn law_round_trip(b: Seq<u8>)
    requires
        well_formed(b),
    ensures
        decode_spec(b) is Ok,
        serialize(decode_spec(b).unwrap()) == b,
{
    let tree = choose|tree: Tree| encodable(tree) && #[trigger] serialize(tree) == b;
    law_decode_inverts_serialize(tree);
}

/// A buffer is well formed exactly when it decodes to a tree that
/// serializes to that buffer.
pub proof fn law_well_formed_is_round_trip(b: Seq<u8>)
    ensures
        well_formed(b) <==> (decode_spec(b) matches Ok(tree) && serialize(tree) == b),
{
    if well_formed(b) {
        law_round_trip(b);
    }
    if decode_spec(b) is Ok {
        lemma_parse_bounds(b);
    }
}

/// Whatever decodes can be serialized again, and the result is well formed.
pub proof fn law_decoded_is_encodable(b: Seq<u8>)
    requires
        decode_spec(b) is Ok,
    ensures
        encodable(decode_spec(b).unwrap()),
        well_formed(serialize(decode_spec(b).unwrap())),
{
    lemma_parse_bounds(b);
}

/// The length that the prefix at `pos` announces.
fn read_size(bytes: &[u8], pos: usize, width: usize) -> (size: u64)
    requires
        1 <= width <= 6,
        pos + width <= bytes@.len(),
        prefix_width(bytes@[pos as int]) == width,
    ensures
        size == prefix_size(bytes@.skip(pos as int), width as int),
        size < 0x200_0000_0000,
{
    let ghost b = bytes@.skip(pos as int);
    assert(forall|i: int| 0 <= i < width ==> b[i] == bytes@[pos + i]);
    let first: u8 = bytes[pos];
    if width == 1 {
        (first - 0x80) as u64
    } else if width == 2 {
        (first - 0xC0) as u64 * 0x100 + bytes[pos + 1] as u64
    } else if width == 3 {
        (first - 0xE0) as u64 * 0x1_0000 + bytes[pos + 1] as u64 * 0x100 + bytes[pos + 2] as u64
    } else if width == 4 {
        (first - 0xF0) as u64 * 0x100_0000 + bytes[pos + 1] as u64 * 0x1_0000 + bytes[pos
            + 2] as u64 * 0x100 + bytes[pos + 3] as u64
    } else if width == 5 {
        (first - 0xF8) as u64 * 0x1_0000_0000 + bytes[pos + 1] as u64 * 0x100_0000 + bytes[pos
            + 2] as u64 * 0x1_0000 + bytes[pos + 3] as u64 * 0x100 + bytes[pos + 4] as u64
    } else {
        (first - 0xFC) as u64 * 0x100_0000_0000 + bytes[pos + 1] as u64 * 0x1_0000_0000
            + bytes[pos + 2] as u64 * 0x100_0000 + bytes[pos + 3] as u64 * 0x1_0000 + bytes[pos
            + 4] as u64 * 0x100 + bytes[pos + 5] as u64
    }
}

/// Reads one tree that starts at `pos`, and says where it ends.
fn parse_at(bytes: &[u8], pos: usize) -> (found: Option<(Program, usize)>)
    requires
        pos <= bytes@.len(),
    ensures
        match parse(bytes@.skip(pos as int)) {
            Some((tree, used)) => found is Some && found.unwrap().0@ == tree && found.unwrap().1
                == pos + used,
            None => found is None,
        },
    decreases bytes@.len() - pos,
{
    let len: usize = bytes.len();
    if pos >= len {
        return None;
    }
    let ghost b = bytes@.skip(pos as int);
    let first: u8 = bytes[pos];
    assert(b[0] == first);
    if first == PAIR_TAG {
        assert(b.skip(1) =~= bytes@.skip(pos + 1));
        proof {
            lemma_parse_bounds(b.skip(1));
        }
        match parse_at(bytes, pos + 1) {
            None => None,
            Some((head, middle)) => {
                assert(b.skip(1 + (middle - pos - 1)) =~= bytes@.skip(middle as int));
                match parse_at(bytes, middle) {
                    None => None,
                    Some((tail, end)) => Some((Program::Pair(Rc::new(head), Rc::new(tail)), end)),
                }
            },
        }
    } else if first < 0x80 {
        let atom: Vec<u8> = slice_to_vec(slice_subrange(bytes, pos, pos + 1));
        assert(atom@ =~= b.subrange(0, 1));
        Some((Program::Atom(atom), pos + 1))
    } else {
        let width: usize = if first < 0xC0 {
            1
        } else if first < 0xE0 {
            2
        } else if first < 0xF0 {
            3
        } else if first < 0xF8 {
            4
        } else if first < 0xFC {
            5
        } else if first < 0xFE {
            6
        } else {
            return None;
        };
        if len - pos < width {
            return None;
        }
        let size: u64 = read_size(bytes, pos, width);
        if size >= ATOM_LEN_LIMIT {
            return None;
        }
        let start: usize = pos + width;
        if ((len - start) as u64) < size {
            return None;
        }
        let end: usize = start + size as usize;
        let atom: Vec<u8> = slice_to_vec(slice_subrange(bytes, start, end));
        assert(atom@ =~= b.subrange(width as int, width + size));
        Some((Program::Atom(atom), end))
    }
}

/// Appends the shortest length prefix for an atom of `len` bytes.
fn write_prefix(len: u64, out: &mut Vec<u8>)
    requires
        len < ATOM_LEN_LIMIT,
    ensures
        final(out)@ == old(out)@ + size_prefix(len as int),
{
    if len < 0x40 {
        out.push((0x80 + len) as u8);
    } else if len < 0x2000 {
        out.push((0xC0 + len / 0x100) as u8);
        out.push((len % 0x100) as u8);
    } else if len < 0x10_0000 {
        out.push((0xE0 + len / 0x1_0000) as u8);
        out.push((len / 0x100 % 0x100) as u8);
        out.push((len % 0x100) as u8);
    } else if len < 0x800_0000 {
        out.push((0xF0 + len / 0x100_0000) as u8);
        out.push((len / 0x1_0000 % 0x100) as u8);
        out.push((len / 0x100 % 0x100) as u8);
        out.push((len % 0x100) as u8);
    } else {
        out.push((0xF8 + len / 0x1_0000_0000) as u8);
        out.push((len / 0x100_0000 % 0x100) as u8);
        out.push((len / 0x1_0000 % 0x100) as u8);
        out.push((len / 0x100 % 0x100) as u8);
        out.push((len % 0x100) as u8);
    }
    assert(out@ =~= old(out)@ + size_prefix(len as int));
}

/// Appends the serialization of `program`, unless one of its atoms is too
/// long to have one.
fn write_tree(program: &Program, out: &mut Vec<u8>) -> (done: bool)
    ensures
        done == encodable(program@),
        done ==> final(out)@ == old(out)@ + serialize(program@),
    decreases program,
{
    match program {
        Program::Atom(bytes) => {
            if bytes.len() as u64 >= ATOM_LEN_LIMIT {
                return false;
            }
            if !(bytes.len() == 1 && bytes[0] < 0x80) {
                write_prefix(bytes.len() as u64, out);
            }
            out.extend_from_slice(bytes.as_slice());
            assert(out@ =~= old(out)@ + serialize_atom(bytes@));
            true
        },
        Program::Pair(first, rest) => {
            out.push(PAIR_TAG);
            if !write_tree(first, out) {
                return false;
            }
            if !write_tree(rest, out) {
                return false;
            }
            assert(out@ =~= old(out)@ + serialize(program@));
            true
        },
    }
}

impl Program {
    /// Decodes a buffer that holds the serialization of exactly one program
    /// tree. A buffer that ends early, holds an invalid length prefix, or
    /// goes on after the tree is `MalformedEncoding`.
    pub fn from_bytes(bytes: &[u8]) -> (decoded: Result<Program, DecodeError>)
        ensures
            match decode_spec(bytes@) {
                Ok(tree) => decoded is Ok && decoded.unwrap()@ == tree,
                Err(error) => decoded matches Err(e) && e == error,
            },
    {
        assert(bytes@.skip(0) =~= bytes@);
        match parse_at(bytes, 0) {
            Some((program, end)) => {
                if end == bytes.len() {
                    Ok(program)
                } else {
                    Err(DecodeError::MalformedEncoding)
                }
            },
            None => Err(DecodeError::MalformedEncoding),
        }
    }

    /// Serializes the program, each atom with the shortest prefix. `None`
    /// where an atom is too long to be serialized.
    pub fn to_bytes(&self) -> (encoded: Option<Vec<u8>>)
        ensures
            encoded is Some <==> encodable(self@),
            encoded is Some ==> encoded.unwrap()@ == serialize(self@),
    {
        let mut out: Vec<u8> = Vec::new();
        if write_tree(self, &mut out) {
            assert(out@ =~= serialize(self@));
            Some(out)
        } else {
            None
        }
    }
}

} // verus!
