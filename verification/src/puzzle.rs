//! The puzzle classifier: recognises a program that applies a template to
//! arguments fixed at construction time ("curried"), and names the template
//! by its tree hash.
//!
//! A curried program is the list `(2 (1 . template) arguments)`, where the
//! arguments are either the atom `1` (none left) or the list
//! `(4 (1 . argument) more-arguments)`.

use crate::hash::{tree_hash, Bytes32};
use crate::program::{byte_atom, nil, share, size, Program, Tree};
use std::rc::Rc;
use vstd::prelude::*;

verus! {

/// The curried arguments that an argument tree holds, in order, or `None`
/// where the tree is not a chain of `(4 (1 . argument) more)` that ends in
/// the atom `1`.
pub open spec fn curried_args(tree: Tree) -> Option<Seq<Tree>>
    decreases tree,
{
    match tree {
        Tree::Atom(bytes) => if bytes == seq![1u8] {
            Some(Seq::empty())
        } else {
            None
        },
        Tree::Pair(operator, operands) => match *operands {
            Tree::Pair(quoted, tail) => match (*quoted, *tail) {
                (Tree::Pair(quote, argument), Tree::Pair(more, end)) => {
                    if *operator == byte_atom(4) && *quote == byte_atom(1) && *end == nil() {
                        match curried_args(*more) {
                            Some(others) => Some(seq![*argument] + others),
                            None => None,
                        }
                    } else {
                        None
                    }
                },
                _ => None,
            },
            _ => None,
        },
    }
}

/// Takes the list `(operator (1 . quoted) third)` apart, where `operator` is
/// the atom that holds the byte `code`: the quoted tree and the third item.
pub open spec fn application(tree: Tree, code: u8) -> Option<(Tree, Tree)> {
    match tree {
        Tree::Pair(operator, operands) => match *operands {
            Tree::Pair(quoted, tail) => match (*quoted, *tail) {
                (Tree::Pair(quote, inner), Tree::Pair(third, end)) => {
                    if *operator == byte_atom(code) && *quote == byte_atom(1) && *end == nil() {
                        Some((*inner, *third))
                    } else {
                        None
                    }
                },
                _ => None,
            },
            _ => None,
        },
        _ => None,
    }
}

/// The template and the curried arguments of a curried program, or `None`
/// where the program is not curried.
pub open spec fn uncurry(tree: Tree) -> Option<(Tree, Seq<Tree>)> {
    match application(tree, 2) {
        Some((template, arguments)) => match curried_args(arguments) {
            Some(args) => Some((template, args)),
            None => None,
        },
        None => None,
    }
}

/// An argument chain that is a pair is one link followed by a chain.
pub proof fn lemma_curried_args_link(tree: Tree)
    requires
        tree is Pair,
    ensures
        curried_args(tree) == match application(tree, 4) {
            Some((argument, more)) => match curried_args(more) {
                Some(others) => Some(seq![argument] + others),
                None => None,
            },
            None => None,
        },
{
}

/// What `application` hands out is smaller than the tree it came from.
pub proof fn lemma_application_smaller(tree: Tree, code: u8)
    ensures
        application(tree, code) matches Some((inner, third)) ==> size(inner) < size(tree) && size(
            third,
        ) < size(tree),
{
    match tree {
        Tree::Pair(operator, operands) => match *operands {
            Tree::Pair(quoted, tail) => {
                assert(size(*operands) == 1 + size(*quoted) + size(*tail));
                match (*quoted, *tail) {
                    (Tree::Pair(quote, inner), Tree::Pair(third, end)) => {
                        assert(size(*quoted) == 1 + size(*quote) + size(*inner));
                        assert(size(*tail) == 1 + size(*third) + size(*end));
                    },
                    _ => {},
                }
            },
            _ => {},
        },
        _ => {},
    }
}

/// What the classifier found in a program.
pub struct PuzzleView {
    /// The program itself.
    pub program: Tree,
    /// The tree hash of the template, where the program is curried.
    pub mod_hash: Option<Seq<u8>>,
    /// The curried arguments, in order; empty where the program is not
    /// curried.
    pub args: Seq<Tree>,
}

/// The classification of a program.
pub open spec fn classify(tree: Tree) -> PuzzleView {
    match uncurry(tree) {
        Some((template, args)) => PuzzleView {
            program: tree,
            mod_hash: Some(tree_hash(template)),
            args,
        },
        None => PuzzleView { program: tree, mod_hash: None, args: Seq::empty() },
    }
}

/// The trees that a sequence of programs denotes.
pub open spec fn trees(programs: Seq<Rc<Program>>) -> Seq<Tree> {
    Seq::new(programs.len(), |i: int| programs[i]@)
}

/// A program together with what the classifier derived from it. A puzzle
/// that is not curried has no template hash and no arguments.
#[derive(Debug, Clone, PartialEq, Eq)]
pub struct Puzzle {
    pub program: Rc<Program>,
    pub mod_hash: Option<Bytes32>,
    pub args: Vec<Rc<Program>>,
}

impl View for Puzzle {
    type V = PuzzleView;

    open spec fn view(&self) -> PuzzleView {
        PuzzleView {
            program: self.program@,
            mod_hash: match self.mod_hash {
                Some(hash) => Some(hash@),
                None => None,
            },
            args: trees(self.args@),
        }
    }
}

/// Takes the list `(operator (1 . quoted) third)` apart, where `operator` is
/// the atom that holds the byte `code`.
fn quoted_application(program: &Program, code: u8) -> (parts: Option<(&Rc<Program>, &Rc<Program>)>)
    ensures
        match application(program@, code) {
            Some((inner, third)) => parts is Some && parts.unwrap().0@ == inner && parts.unwrap().1@
                == third,
            None => parts is None,
        },
{
    if let Some((operator, operands)) = program.as_pair() {
        if let Some((quoted, tail)) = operands.as_pair() {
            if let Some((quote, inner)) = quoted.as_pair() {
                if let Some((third, end)) = tail.as_pair() {
                    if operator.is_byte(code) && quote.is_byte(1) && end.is_nil() {
                        return Some((inner, third));
                    }
                }
            }
        }
    }
    None
}

impl Puzzle {
    /// Classifies a program. This never fails: a program that does not have
    /// the curried shape is a puzzle without a template hash.
    pub fn parse(program: &Rc<Program>) -> (puzzle: Puzzle)
        ensures
            puzzle@ == classify(program@),
    {
        let uncurried = Puzzle { program: share(program), mod_hash: None, args: Vec::new() };
        assert(trees(uncurried.args@) =~= Seq::<Tree>::empty());
        let (template, arguments) = match quoted_application(program, 2) {
            Some(parts) => parts,
            None => {
                return uncurried;
            },
        };
        let mut args: Vec<Rc<Program>> = Vec::new();
        let mut chain: &Program = arguments;
        assert(trees(args@) + Seq::<Tree>::empty() =~= Seq::<Tree>::empty());
        while !chain.is_byte(1)
            invariant
                uncurried@ == (PuzzleView {
                    program: program@,
                    mod_hash: None,
                    args: Seq::empty(),
                }),
                application(program@, 2) == Some((template@, arguments@)),
                curried_args(arguments@) == match curried_args(chain@) {
                    Some(others) => Some(trees(args@) + others),
                    None => None,
                },
            decreases size(chain@),
        {
            proof {
                lemma_application_smaller(chain@, 4);
                if chain@ is Pair {
                    lemma_curried_args_link(chain@);
                } else {
                    assert(chain@->Atom_0 != seq![1u8]);
                }
            }
            match quoted_application(chain, 4) {
                None => {
                    assert(curried_args(chain@) is None);
                    return uncurried;
                },
                Some((argument, more)) => {
                    proof {
                        let others = curried_args(more@);
                        if others is Some {
                            assert(trees(args@.push(*argument)) + others.unwrap() =~= trees(args@)
                                + (seq![argument@] + others.unwrap()));
                        }
                    }
                    args.push(share(argument));
                    chain = more;
                },
            }
        }
        assert(curried_args(chain@) == Some(Seq::<Tree>::empty()));
        assert(trees(args@) + Seq::<Tree>::empty() =~= trees(args@));
        let hash = template.tree_hash();
        Puzzle { program: share(program), mod_hash: Some(hash), args }
    }

    /// Whether the classifier found the curried shape.
    pub fn is_curried(&self) -> (curried: bool)
        ensures
            curried == (self@.mod_hash is Some),
    {
        self.mod_hash.is_some()
    }
}

} // verus!
