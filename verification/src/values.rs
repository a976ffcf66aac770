//! Typed values inside a program: identifiers, unsigned numbers, text and
//! lists of text.

use crate::hash::Bytes32;
use crate::program::{size, Program, Tree};
use vstd::prelude::*;
use vstd::slice::*;
use vstd::utf8::*;

verus! {

/// The number that a byte string holds, big endian.
pub open spec fn be_value(bytes: Seq<u8>) -> nat
    decreases bytes.len(),
{
    if bytes.len() == 0 {
        0
    } else {
        be_value(bytes.drop_last()) * 256 + bytes.last() as nat
    }
}

/// 256 to the power of `n`.
pub open spec fn pow256(n: nat) -> nat
    decreases n,
{
    if n == 0 {
        1
    } else {
        256 * pow256((n - 1) as nat)
    }
}

/// A big-endian number of `n` bytes is below 256 to the power of `n`.
pub proof fn lemma_be_value_bound(bytes: Seq<u8>)
    ensures
        be_value(bytes) < pow256(bytes.len()),
    decreases bytes.len(),
{
    if bytes.len() > 0 {
        lemma_be_value_bound(bytes.drop_last());
    }
}

/// An unsigned number of at most `width` bytes is below 256 to the power of
/// `width`.
pub proof fn lemma_unsigned_bound(tree: Tree, width: nat)
    requires
        width >= 1,
    ensures
        unsigned(tree, width) matches Some(value) ==> value < pow256(width),
{
    if let Tree::Atom(bytes) = tree {
        if bytes.len() <= width {
            lemma_be_value_bound(bytes);
            lemma_pow256_monotone(bytes.len(), width);
        } else {
            lemma_be_value_bound(bytes.skip(bytes.len() - width));
        }
    }
}

/// The powers of 256 grow.
pub proof fn lemma_pow256_monotone(a: nat, b: nat)
    requires
        a <= b,
    ensures
        pow256(a) <= pow256(b),
    decreases b,
{
    if a < b {
        lemma_pow256_monotone(a, (b - 1) as nat);
    }
}

/// The unsigned number of at most `width` bytes that an atom holds. An atom
/// of up to `width` bytes holds its big-endian value. A longer atom is read
/// only where its first byte is zero, and then its last `width` bytes count.
pub open spec fn unsigned_value(bytes: Seq<u8>, width: nat) -> Option<nat> {
    if bytes.len() <= width {
        Some(be_value(bytes))
    } else if bytes[0] == 0 {
        Some(be_value(bytes.skip(bytes.len() - width)))
    } else {
        None
    }
}

/// The 32-byte identifier that a tree holds: an atom of exactly 32 bytes.
pub open spec fn identifier(tree: Tree) -> Option<Seq<u8>> {
    match tree {
        Tree::Atom(bytes) => if bytes.len() == 32 {
            Some(bytes)
        } else {
            None
        },
        Tree::Pair(_, _) => None,
    }
}

/// An identifier that may be absent: the empty atom stands for none. The
/// outer `None` says that the tree is neither.
pub open spec fn optional_identifier(tree: Tree) -> Option<Option<Seq<u8>>> {
    match tree {
        Tree::Atom(bytes) => if bytes.len() == 0 {
            Some(None)
        } else if bytes.len() == 32 {
            Some(Some(bytes))
        } else {
            None
        },
        Tree::Pair(_, _) => None,
    }
}

/// The unsigned number of at most `width` bytes that a tree holds.
pub open spec fn unsigned(tree: Tree, width: nat) -> Option<nat> {
    match tree {
        Tree::Atom(bytes) => unsigned_value(bytes, width),
        Tree::Pair(_, _) => None,
    }
}

/// The text that a tree holds: an atom whose bytes are valid UTF-8.
pub open spec fn text(tree: Tree) -> Option<Seq<char>> {
    match tree {
        Tree::Atom(bytes) => if valid_utf8(bytes) {
            Some(decode_utf8(bytes))
        } else {
            None
        },
        Tree::Pair(_, _) => None,
    }
}

/// The texts that a tree holds: a list, ended by the empty atom, of atoms
/// whose bytes are valid UTF-8.
pub open spec fn text_list(tree: Tree) -> Option<Seq<Seq<char>>>
    decreases tree,
{
    match tree {
        Tree::Atom(bytes) => if bytes.len() == 0 {
            Some(Seq::empty())
        } else {
            None
        },
        Tree::Pair(first, rest) => match (text(*first), text_list(*rest)) {
            (Some(item), Some(others)) => Some(seq![item] + others),
            _ => None,
        },
    }
}

/// The views of a sequence of strings.
pub open spec fn texts(strings: Seq<String>) -> Seq<Seq<char>> {
    Seq::new(strings.len(), |i: int| strings[i]@)
}

/// The view of an optional identifier.
pub open spec fn optional_bytes(id: Option<Bytes32>) -> Option<Seq<u8>> {
    match id {
        Some(bytes) => Some(bytes@),
        None => None,
    }
}

/// Calls `String::from_utf8`, which checks that the bytes are valid UTF-8 and
/// then makes them a string: the error case is turned into `None`.
#[verifier::external_body]
fn utf8_string(bytes: Vec<u8>) -> (made: Option<String>)
    ensures
        made is Some <==> valid_utf8(bytes@),
        made is Some ==> made.unwrap()@ == decode_utf8(bytes@),
{
    String::from_utf8(bytes).ok()
}

/// Copies a slice of exactly 32 bytes into an identifier.
pub fn to_bytes32(bytes: &[u8]) -> (id: Option<Bytes32>)
    ensures
        id is Some <==> bytes@.len() == 32,
        id is Some ==> id.unwrap()@ == bytes@,
{
    if bytes.len() != 32 {
        return None;
    }
    let mut id: Bytes32 = [0u8; 32];
    let mut i: usize = 0;
    while i < 32
        invariant
            bytes@.len() == 32,
            i <= 32,
            forall|k: int| 0 <= k < i ==> id@[k] == bytes@[k],
        decreases 32 - i,
    {
        id[i] = bytes[i];
        i += 1;
    }
    assert(id@ =~= bytes@);
    Some(id)
}

/// Reads the big-endian number that `bytes` holds.
fn read_be(bytes: &[u8]) -> (value: u64)
    requires
        bytes@.len() <= 8,
    ensures
        value == be_value(bytes@),
{
    let mut value: u64 = 0;
    let mut i: usize = 0;
    assert(bytes@.subrange(0, 0) =~= Seq::<u8>::empty());
    while i < bytes.len()
        invariant
            bytes@.len() <= 8,
            i <= bytes@.len(),
            value == be_value(bytes@.subrange(0, i as int)),
        decreases bytes@.len() - i,
    {
        proof {
            lemma_be_value_bound(bytes@.subrange(0, i as int));
            reveal_with_fuel(pow256, 9);
            assert(pow256(i as nat) <= pow256(7));
            assert(pow256(7) == 0x100_0000_0000_0000);
            assert(bytes@.subrange(0, i + 1).drop_last() =~= bytes@.subrange(0, i as int));
        }
        value = value * 256 + bytes[i] as u64;
        i += 1;
    }
    assert(bytes@.subrange(0, i as int) =~= bytes@);
    value
}

impl Program {
    /// The 32-byte identifier that the program holds.
    pub fn as_identifier(&self) -> (id: Option<Bytes32>)
        ensures
            optional_bytes(id) == identifier(self@),
    {
        match self {
            Program::Atom(bytes) => to_bytes32(bytes.as_slice()),
            Program::Pair(_, _) => None,
        }
    }

    /// The identifier that the program holds, or none for the empty atom; the
    /// outer `None` where the program is neither.
    pub fn as_optional_identifier(&self) -> (id: Option<Option<Bytes32>>)
        ensures
            match optional_identifier(self@) {
                Some(found) => id is Some && optional_bytes(id.unwrap()) == found,
                None => id is None,
            },
    {
        match self {
            Program::Atom(bytes) => {
                if bytes.len() == 0 {
                    Some(None)
                } else {
                    match to_bytes32(bytes.as_slice()) {
                        Some(found) => Some(Some(found)),
                        None => None,
                    }
                }
            },
            Program::Pair(_, _) => None,
        }
    }

    /// The unsigned number of at most `width` bytes that the program holds.
    pub fn as_unsigned(&self, width: usize) -> (value: Option<u64>)
        requires
            1 <= width <= 8,
        ensures
            match unsigned(self@, width as nat) {
                Some(found) => value == Some(found as u64) && found <= u64::MAX,
                None => value is None,
            },
    {
        match self {
            Program::Atom(bytes) => {
                let len: usize = bytes.len();
                if len <= width {
                    proof {
                        lemma_be_value_bound(bytes@);
                        reveal_with_fuel(pow256, 9);
                    }
                    Some(read_be(bytes.as_slice()))
                } else if bytes[0] == 0 {
                    proof {
                        lemma_be_value_bound(bytes@.skip(len - width));
                        reveal_with_fuel(pow256, 9);
                    }
                    assert(bytes@.subrange(len - width, len as int) =~= bytes@.skip(len - width));
                    Some(read_be(slice_subrange(bytes.as_slice(), len - width, len)))
                } else {
                    None
                }
            },
            Program::Pair(_, _) => None,
        }
    }

    /// The text that the program holds.
    pub fn as_text(&self) -> (found: Option<String>)
        ensures
            match text(self@) {
                Some(chars) => found is Some && found.unwrap()@ == chars,
                None => found is None,
            },
    {
        match self {
            Program::Atom(bytes) => utf8_string(slice_to_vec(bytes.as_slice())),
            Program::Pair(_, _) => None,
        }
    }

    /// The texts that the program holds, as a list.
    pub fn as_text_list(&self) -> (found: Option<Vec<String>>)
        ensures
            match text_list(self@) {
                Some(items) => found is Some && texts(found.unwrap()@) == items,
                None => found is None,
            },
    {
        let mut items: Vec<String> = Vec::new();
        let mut list: &Program = self;
        assert(texts(items@) + Seq::<Seq<char>>::empty() =~= Seq::<Seq<char>>::empty());
        loop
            invariant
                text_list(self@) == match text_list(list@) {
                    Some(others) => Some(texts(items@) + others),
                    None => None,
                },
            decreases size(list@),
        {
            match list.as_pair() {
                None => {
                    assert(list@->Atom_0.len() == 0 ==> list@->Atom_0 =~= Seq::<u8>::empty());
                    if list.is_nil() {
                        assert(texts(items@) + Seq::<Seq<char>>::empty() =~= texts(items@));
                        return Some(items);
                    }
                    return None;
                },
                Some((first, rest)) => {
                    match first.as_text() {
                        None => {
                            return None;
                        },
                        Some(item) => {
                            proof {
                                let others = text_list(rest@);
                                if others is Some {
                                    assert(texts(items@.push(item)) + others.unwrap() =~= texts(
                                        items@,
                                    ) + (seq![item@] + others.unwrap()));
                                }
                            }
                            items.push(item);
                            list = rest;
                        },
                    }
                },
            }
        }
    }
}

} // verus!
