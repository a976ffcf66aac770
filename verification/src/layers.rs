//! The layer decoders. Each one looks at a classified puzzle and either
//! recognises its own template, with arguments of the right number and
//! types, or answers `None`. None of them fails on a puzzle of another
//! shape; only metadata that breaks the schema is an error.

use crate::error::DecodeError;
use crate::hash::{
    hash_is, Bytes32, OWNERSHIP_LAYER_HASH, ROYALTY_TRANSFER_HASH, SINGLETON_LAUNCHER_HASH,
    SINGLETON_TOP_LAYER_HASH, STATE_LAYER_HASH,
};
use crate::metadata::{metadata_spec, MetadataView, NftMetadata};
use crate::program::{share, Program, Tree};
use crate::puzzle::{Puzzle, PuzzleView};
use crate::values::{identifier, optional_bytes, optional_identifier, unsigned};
use std::rc::Rc;
use vstd::prelude::*;

verus! {

/// The launcher id of a singleton struct: the pair
/// `(template hash . (launcher id . launcher puzzle hash))`, whose first and
/// last items are the hashes of the singleton template and of the launcher.
pub open spec fn singleton_struct(tree: Tree) -> Option<Seq<u8>> {
    match tree {
        Tree::Pair(template, tail) => match *tail {
            Tree::Pair(launcher_id, launcher_puzzle) => {
                if identifier(*template) == Some(SINGLETON_TOP_LAYER_HASH@) && identifier(
                    *launcher_puzzle,
                ) == Some(SINGLETON_LAUNCHER_HASH@) {
                    identifier(*launcher_id)
                } else {
                    None
                }
            },
            Tree::Atom(_) => None,
        },
        Tree::Atom(_) => None,
    }
}

/// What the singleton decoder yields.
pub struct SingletonView {
    pub launcher_id: Seq<u8>,
    pub inner_puzzle: Tree,
}

/// The singleton layer of a puzzle: the singleton template, curried with a
/// singleton struct and the inner puzzle.
pub open spec fn singleton_spec(puzzle: PuzzleView) -> Option<SingletonView> {
    if puzzle.mod_hash == Some(SINGLETON_TOP_LAYER_HASH@) && puzzle.args.len() == 2 {
        match singleton_struct(puzzle.args[0]) {
            Some(launcher_id) => Some(SingletonView { launcher_id, inner_puzzle: puzzle.args[1] }),
            None => None,
        }
    } else {
        None
    }
}

/// What the state layer decoder yields.
pub struct StateView {
    pub metadata: MetadataView,
    pub metadata_updater_puzzle_hash: Seq<u8>,
    pub inner_puzzle: Tree,
}

/// Whether a puzzle has the shape of the state layer: the state layer
/// template, curried with its own hash, a metadata blob, the hash of the
/// metadata updater and the inner puzzle.
pub open spec fn state_shape(puzzle: PuzzleView) -> bool {
    puzzle.mod_hash == Some(STATE_LAYER_HASH@) && puzzle.args.len() == 4 && identifier(
        puzzle.args[0],
    ) == Some(STATE_LAYER_HASH@) && identifier(puzzle.args[2]) is Some
}

/// The state layer of a puzzle. A puzzle of the right shape whose metadata
/// does not follow the schema is an error, not a mismatch.
pub open spec fn state_spec(puzzle: PuzzleView) -> Result<Option<StateView>, DecodeError> {
    if state_shape(puzzle) {
        match metadata_spec(puzzle.args[1]) {
            Some(metadata) => Ok(
                Some(
                    StateView {
                        metadata,
                        metadata_updater_puzzle_hash: identifier(puzzle.args[2]).unwrap(),
                        inner_puzzle: puzzle.args[3],
                    },
                ),
            ),
            None => Err(DecodeError::MetadataSchemaError),
        }
    } else {
        Ok(None)
    }
}

/// What the ownership layer decoder yields.
pub struct OwnershipView {
    pub current_owner: Option<Seq<u8>>,
    pub transfer_program: Tree,
    pub inner_puzzle: Tree,
}

/// The ownership layer of a puzzle: the ownership template, curried with
/// its own hash, the current owner (or the empty atom), the transfer program
/// and the inner puzzle.
pub open spec fn ownership_spec(puzzle: PuzzleView) -> Option<OwnershipView> {
    if puzzle.mod_hash == Some(OWNERSHIP_LAYER_HASH@) && puzzle.args.len() == 4 && identifier(
        puzzle.args[0],
    ) == Some(OWNERSHIP_LAYER_HASH@) {
        match optional_identifier(puzzle.args[1]) {
            Some(current_owner) => Some(
                OwnershipView {
                    current_owner,
                    transfer_program: puzzle.args[2],
                    inner_puzzle: puzzle.args[3],
                },
            ),
            None => None,
        }
    } else {
        None
    }
}

/// What the royalty transfer decoder yields.
pub struct RoyaltyView {
    pub launcher_id: Seq<u8>,
    pub royalty_puzzle_hash: Seq<u8>,
    pub royalty_ten_thousandths: nat,
}

/// The royalty transfer program of a puzzle: the royalty transfer template,
/// curried with a singleton struct, the hash of the puzzle that receives
/// royalties, and the royalty in ten-thousandths.
pub open spec fn royalty_spec(puzzle: PuzzleView) -> Option<RoyaltyView> {
    if puzzle.mod_hash == Some(ROYALTY_TRANSFER_HASH@) && puzzle.args.len() == 3 {
        match (
            singleton_struct(puzzle.args[0]),
            identifier(puzzle.args[1]),
            unsigned(puzzle.args[2], 2),
        ) {
            (Some(launcher_id), Some(royalty_puzzle_hash), Some(royalty_ten_thousandths)) => Some(
                RoyaltyView { launcher_id, royalty_puzzle_hash, royalty_ten_thousandths },
            ),
            _ => None,
        }
    } else {
        None
    }
}

/// The singleton layer: it makes a coin unique, known by its launcher id.
#[derive(Debug, Clone, PartialEq, Eq)]
pub struct SingletonLayer {
    pub launcher_id: Bytes32,
    pub inner_puzzle: Rc<Program>,
}

impl View for SingletonLayer {
    type V = SingletonView;

    open spec fn view(&self) -> SingletonView {
        SingletonView { launcher_id: self.launcher_id@, inner_puzzle: self.inner_puzzle@ }
    }
}

/// The state layer: it carries the metadata and says how it may change.
#[derive(Debug, Clone, PartialEq, Eq)]
pub struct NftStateLayer {
    pub metadata: NftMetadata,
    pub metadata_updater_puzzle_hash: Bytes32,
    pub inner_puzzle: Rc<Program>,
}

impl View for NftStateLayer {
    type V = StateView;

    open spec fn view(&self) -> StateView {
        StateView {
            metadata: self.metadata@,
            metadata_updater_puzzle_hash: self.metadata_updater_puzzle_hash@,
            inner_puzzle: self.inner_puzzle@,
        }
    }
}

/// The ownership layer: it records the current owner and the program that
/// transfers ownership.
#[derive(Debug, Clone, PartialEq, Eq)]
pub struct NftOwnershipLayer {
    pub current_owner: Option<Bytes32>,
    pub transfer_program: Rc<Program>,
    pub inner_puzzle: Rc<Program>,
}

impl View for NftOwnershipLayer {
    type V = OwnershipView;

    open spec fn view(&self) -> OwnershipView {
        OwnershipView {
            current_owner: optional_bytes(self.current_owner),
            transfer_program: self.transfer_program@,
            inner_puzzle: self.inner_puzzle@,
        }
    }
}

/// The royalty transfer program: on a transfer it pays a share to the
/// royalty puzzle.
#[derive(Debug, Clone, Copy, PartialEq, Eq)]
pub struct RoyaltyTransferLayer {
    pub launcher_id: Bytes32,
    pub royalty_puzzle_hash: Bytes32,
    pub royalty_ten_thousandths: u16,
}

impl View for RoyaltyTransferLayer {
    type V = RoyaltyView;

    open spec fn view(&self) -> RoyaltyView {
        RoyaltyView {
            launcher_id: self.launcher_id@,
            royalty_puzzle_hash: self.royalty_puzzle_hash@,
            royalty_ten_thousandths: self.royalty_ten_thousandths as nat,
        }
    }
}

/// Whether a program is the identifier `expected`.
fn is_identifier(program: &Program, expected: &Bytes32) -> (same: bool)
    ensures
        same == (identifier(program@) == Some(expected@)),
{
    let found = program.as_identifier();
    hash_is(&found, expected)
}

/// Reads the launcher id out of a singleton struct.
fn read_singleton_struct(program: &Program) -> (launcher_id: Option<Bytes32>)
    ensures
        optional_bytes(launcher_id) == singleton_struct(program@),
{
    let (template, tail) = program.as_pair()?;
    let (launcher_id, launcher_puzzle) = tail.as_pair()?;
    if is_identifier(template, &SINGLETON_TOP_LAYER_HASH) && is_identifier(
        launcher_puzzle,
        &SINGLETON_LAUNCHER_HASH,
    ) {
        launcher_id.as_identifier()
    } else {
        None
    }
}

impl SingletonLayer {
    /// Decodes the singleton layer of a puzzle; `None` where the puzzle is
    /// not a singleton.
    pub fn parse_puzzle(puzzle: &Puzzle) -> (layer: Option<SingletonLayer>)
        ensures
            match singleton_spec(puzzle@) {
                Some(expected) => layer is Some && layer.unwrap()@ == expected,
                None => layer is None,
            },
    {
        if !hash_is(&puzzle.mod_hash, &SINGLETON_TOP_LAYER_HASH) || puzzle.args.len() != 2 {
            return None;
        }
        let launcher_id = read_singleton_struct(&puzzle.args[0])?;
        Some(SingletonLayer { launcher_id, inner_puzzle: share(&puzzle.args[1]) })
    }
}

impl NftStateLayer {
    /// Decodes the state layer of a puzzle; `Ok(None)` where the puzzle is
    /// not a state layer, `MetadataSchemaError` where it is one and its
    /// metadata does not follow the schema.
    pub fn parse_puzzle(puzzle: &Puzzle) -> (layer: Result<Option<NftStateLayer>, DecodeError>)
        ensures
            match state_spec(puzzle@) {
                Ok(Some(expected)) => layer matches Ok(Some(found)) && found@ == expected,
                Ok(None) => layer matches Ok(None),
                Err(error) => layer matches Err(e) && e == error,
            },
    {
        if !hash_is(&puzzle.mod_hash, &STATE_LAYER_HASH) || puzzle.args.len() != 4 {
            return Ok(None);
        }
        if !is_identifier(&puzzle.args[0], &STATE_LAYER_HASH) {
            return Ok(None);
        }
        let metadata_updater_puzzle_hash = match puzzle.args[2].as_identifier() {
            Some(hash) => hash,
            None => {
                return Ok(None);
            },
        };
        match NftMetadata::decode(&puzzle.args[1]) {
            Some(metadata) => Ok(
                Some(
                    NftStateLayer {
                        metadata,
                        metadata_updater_puzzle_hash,
                        inner_puzzle: share(&puzzle.args[3]),
                    },
                ),
            ),
            None => Err(DecodeError::MetadataSchemaError),
        }
    }
}

impl NftOwnershipLayer {
    /// Decodes the ownership layer of a puzzle; `None` where the puzzle is
    /// not an ownership layer.
    pub fn parse_puzzle(puzzle: &Puzzle) -> (layer: Option<NftOwnershipLayer>)
        ensures
            match ownership_spec(puzzle@) {
                Some(expected) => layer is Some && layer.unwrap()@ == expected,
                None => layer is None,
            },
    {
        if !hash_is(&puzzle.mod_hash, &OWNERSHIP_LAYER_HASH) || puzzle.args.len() != 4 {
            return None;
        }
        if !is_identifier(&puzzle.args[0], &OWNERSHIP_LAYER_HASH) {
            return None;
        }
        let current_owner = puzzle.args[1].as_optional_identifier()?;
        Some(
            NftOwnershipLayer {
                current_owner,
                transfer_program: share(&puzzle.args[2]),
                inner_puzzle: share(&puzzle.args[3]),
            },
        )
    }
}

impl RoyaltyTransferLayer {
    /// Decodes the royalty transfer program of a puzzle; `None` where the
    /// puzzle is not one.
    pub fn parse_puzzle(puzzle: &Puzzle) -> (layer: Option<RoyaltyTransferLayer>)
        ensures
            match royalty_spec(puzzle@) {
                Some(expected) => layer is Some && layer.unwrap()@ == expected,
                None => layer is None,
            },
    {
        if !hash_is(&puzzle.mod_hash, &ROYALTY_TRANSFER_HASH) || puzzle.args.len() != 3 {
            return None;
        }
        let launcher_id = read_singleton_struct(&puzzle.args[0])?;
        let royalty_puzzle_hash = puzzle.args[1].as_identifier()?;
        let royalty = puzzle.args[2].as_unsigned(2)?;
        proof {
            crate::values::lemma_unsigned_bound(puzzle.args[2]@, 2);
            reveal_with_fuel(crate::values::pow256, 3);
            assert(crate::values::pow256(2) == 0x1_0000);
        }
        Some(
            RoyaltyTransferLayer {
                launcher_id,
                royalty_puzzle_hash,
                royalty_ten_thousandths: royalty as u16,
            },
        )
    }
}

} // verus!
