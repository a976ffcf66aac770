//! The binary program tree: atoms (byte strings) and pairs.

use std::rc::Rc;
use vstd::prelude::*;

verus! {

/// The mathematical value of a program: a finite binary tree whose leaves are
/// byte strings.
pub enum Tree {
    Atom(Seq<u8>),
    Pair(Box<Tree>, Box<Tree>),
}

/// An immutable program tree. Sub-trees are reference counted, so a decoder
/// hands an inner program on without copying it.
#[derive(Debug, Clone, PartialEq, Eq, Hash)]
pub enum Program {
    Atom(Vec<u8>),
    Pair(Rc<Program>, Rc<Program>),
}

impl View for Program {
    type V = Tree;

    open spec fn view(&self) -> Tree {
        self.tree()
    }
}

/// The atom that holds the single byte `value`.
pub open spec fn byte_atom(value: u8) -> Tree {
    Tree::Atom(seq![value])
}

/// The empty atom, which ends a list.
pub open spec fn nil() -> Tree {
    Tree::Atom(Seq::empty())
}

/// The number of nodes of a tree.
pub open spec fn size(tree: Tree) -> nat
    decreases tree,
{
    match tree {
        Tree::Atom(_) => 1,
        Tree::Pair(first, rest) => 1 + size(*first) + size(*rest),
    }
}

/// Calls `Rc::clone`, which makes another pointer to the same allocation: the
/// value pointed to is the same.
#[verifier::external_body]
pub(crate) fn share(program: &Rc<Program>) -> (shared: Rc<Program>)
    ensures
        *shared == **program,
{
    Rc::clone(program)
}

/// Byte-wise comparison of two slices.
pub fn bytes_equal(a: &[u8], b: &[u8]) -> (same: bool)
    ensures
        same == (a@ == b@),
{
    if a.len() != b.len() {
        return false;
    }
    let mut i: usize = 0;
    while i < a.len()
        invariant
            a@.len() == b@.len(),
            i <= a@.len(),
            forall|k: int| 0 <= k < i ==> a@[k] == b@[k],
        decreases a@.len() - i,
    {
        if a[i] != b[i] {
            return false;
        }
        i += 1;
    }
    assert(a@ =~= b@);
    true
}

impl Program {
    /// The tree that this program denotes.
    pub open spec fn tree(&self) -> Tree
        decreases self,
    {
        match self {
            Program::Atom(bytes) => Tree::Atom(bytes@),
            Program::Pair(first, rest) => Tree::Pair(
                Box::new((**first).tree()),
                Box::new((**rest).tree()),
            ),
        }
    }

    /// An atom holding `bytes`.
    pub fn atom(bytes: Vec<u8>) -> (program: Program)
        ensures
            program@ == Tree::Atom(bytes@),
    {
        Program::Atom(bytes)
    }

    /// The pair of `first` and `rest`.
    pub fn pair(first: Rc<Program>, rest: Rc<Program>) -> (program: Program)
        ensures
            program@ == Tree::Pair(Box::new(first@), Box::new(rest@)),
    {
        Program::Pair(first, rest)
    }

    /// The bytes of an atom; `None` for a pair.
    pub fn as_atom(&self) -> (bytes: Option<&[u8]>)
        ensures
            match self@ {
                Tree::Atom(b) => bytes is Some && bytes.unwrap()@ == b,
                Tree::Pair(_, _) => bytes is None,
            },
    {
        match self {
            Program::Atom(bytes) => Some(bytes.as_slice()),
            Program::Pair(_, _) => None,
        }
    }

    /// Head and rest of a pair; `None` for an atom.
    pub fn as_pair(&self) -> (parts: Option<(&Rc<Program>, &Rc<Program>)>)
        ensures
            match self@ {
                Tree::Atom(_) => parts is None,
                Tree::Pair(first, rest) => parts is Some && parts.unwrap().0@ == *first
                    && parts.unwrap().1@ == *rest,
            },
    {
        match self {
            Program::Atom(_) => None,
            Program::Pair(first, rest) => Some((first, rest)),
        }
    }

    /// Structural equality: the two programs denote the same tree.
    pub fn same_tree(&self, other: &Program) -> (same: bool)
        ensures
            same == (self@ == other@),
        decreases self,
    {
        match self {
            Program::Atom(a) => match other {
                Program::Atom(b) => bytes_equal(a.as_slice(), b.as_slice()),
                Program::Pair(_, _) => false,
            },
            Program::Pair(first, rest) => match other {
                Program::Atom(_) => false,
                Program::Pair(other_first, other_rest) => {
                    first.same_tree(other_first) && rest.same_tree(other_rest)
                },
            },
        }
    }

    /// Whether the program is the atom that holds the single byte `value`.
    pub fn is_byte(&self, value: u8) -> (same: bool)
        ensures
            same == (self@ == byte_atom(value)),
    {
        match self {
            Program::Atom(bytes) => {
                assert(bytes@ =~= seq![value] <==> bytes@.len() == 1 && bytes@[0] == value);
                bytes.len() == 1 && bytes[0] == value
            },
            Program::Pair(_, _) => false,
        }
    }

    /// Whether the program is the empty atom.
    pub fn is_nil(&self) -> (same: bool)
        ensures
            same == (self@ == nil()),
    {
        match self {
            Program::Atom(bytes) => {
                assert(bytes@ =~= Seq::<u8>::empty() <==> bytes@.len() == 0);
                bytes.len() == 0
            },
            Program::Pair(_, _) => false,
        }
    }
}

} // verus!
