//! The combined decoder: recognises the full nesting of singleton, state
//! layer, ownership layer and royalty transfer program as one token, in one
//! call. It is the composition of the single-layer decoders and nothing
//! else.

use crate::error::DecodeError;
use crate::hash::{tree_hash, Bytes32};
use crate::layers::{
    ownership_spec, royalty_spec, singleton_spec, state_spec, NftOwnershipLayer, NftStateLayer,
    RoyaltyTransferLayer, SingletonLayer,
};
use crate::metadata::{MetadataView, NftMetadata};
use crate::program::Tree;
use crate::puzzle::{classify, Puzzle, PuzzleView};
use crate::values::optional_bytes;
use vstd::prelude::*;

verus! {

/// What is known of a token once all its layers are decoded.
#[derive(Debug, Clone, PartialEq, Eq)]
pub struct NftInfo {
    pub launcher_id: Bytes32,
    pub metadata: NftMetadata,
    pub metadata_updater_puzzle_hash: Bytes32,
    pub current_owner: Option<Bytes32>,
    pub royalty_puzzle_hash: Bytes32,
    pub royalty_ten_thousandths: u16,
    pub p2_puzzle_hash: Bytes32,
}

/// The mathematical value of an `NftInfo`.
pub struct NftInfoView {
    pub launcher_id: Seq<u8>,
    pub metadata: MetadataView,
    pub metadata_updater_puzzle_hash: Seq<u8>,
    pub current_owner: Option<Seq<u8>>,
    pub royalty_puzzle_hash: Seq<u8>,
    pub royalty_ten_thousandths: nat,
    pub p2_puzzle_hash: Seq<u8>,
}

impl View for NftInfo {
    type V = NftInfoView;

    open spec fn view(&self) -> NftInfoView {
        NftInfoView {
            launcher_id: self.launcher_id@,
            metadata: self.metadata@,
            metadata_updater_puzzle_hash: self.metadata_updater_puzzle_hash@,
            current_owner: optional_bytes(self.current_owner),
            royalty_puzzle_hash: self.royalty_puzzle_hash@,
            royalty_ten_thousandths: self.royalty_ten_thousandths as nat,
            p2_puzzle_hash: self.p2_puzzle_hash@,
        }
    }
}

/// The token that a puzzle is, with its innermost puzzle: the singleton
/// decoder applied to the puzzle, the state layer decoder to what is inside
/// the singleton, the ownership layer decoder to what is inside the state
/// layer, and the royalty transfer decoder to the transfer program. Where
/// one of them does not match, the puzzle is no token.
pub open spec fn nft_spec(puzzle: PuzzleView) -> Result<Option<(NftInfoView, Tree)>, DecodeError> {
    match singleton_spec(puzzle) {
        None => Ok(None),
        Some(singleton) => match state_spec(classify(singleton.inner_puzzle)) {
            Err(error) => Err(error),
            Ok(None) => Ok(None),
            Ok(Some(state)) => match ownership_spec(classify(state.inner_puzzle)) {
                None => Ok(None),
                Some(ownership) => match royalty_spec(classify(ownership.transfer_program)) {
                    None => Ok(None),
                    Some(royalty) => Ok(
                        Some(
                            (
                                NftInfoView {
                                    launcher_id: singleton.launcher_id,
                                    metadata: state.metadata,
                                    metadata_updater_puzzle_hash: state.metadata_updater_puzzle_hash,
                                    current_owner: ownership.current_owner,
                                    royalty_puzzle_hash: royalty.royalty_puzzle_hash,
                                    royalty_ten_thousandths: royalty.royalty_ten_thousandths,
                                    p2_puzzle_hash: tree_hash(ownership.inner_puzzle),
                                },
                                ownership.inner_puzzle,
                            ),
                        ),
                    ),
                },
            },
        },
    }
}

impl NftInfo {
    /// Decodes a puzzle as a token: the token's description and its
    /// innermost puzzle, classified. `Ok(None)` where the puzzle is no
    /// token; `MetadataSchemaError` where its state layer holds metadata
    /// that does not follow the schema.
    pub fn parse(puzzle: &Puzzle) -> (found: Result<Option<(NftInfo, Puzzle)>, DecodeError>)
        ensures
            match nft_spec(puzzle@) {
                Ok(Some((info, p2_puzzle))) => found matches Ok(Some(pair)) && pair.0@ == info
                    && pair.1@ == classify(p2_puzzle),
                Ok(None) => found matches Ok(None),
                Err(error) => found matches Err(e) && e == error,
            },
    {
        let singleton = match SingletonLayer::parse_puzzle(puzzle) {
            Some(layer) => layer,
            None => {
                return Ok(None);
            },
        };
        let state_puzzle = Puzzle::parse(&singleton.inner_puzzle);
        let state = match NftStateLayer::parse_puzzle(&state_puzzle) {
            Err(error) => {
                return Err(error);
            },
            Ok(None) => {
                return Ok(None);
            },
            Ok(Some(layer)) => layer,
        };
        let ownership_puzzle = Puzzle::parse(&state.inner_puzzle);
        let ownership = match NftOwnershipLayer::parse_puzzle(&ownership_puzzle) {
            Some(layer) => layer,
            None => {
                return Ok(None);
            },
        };
        let transfer_puzzle = Puzzle::parse(&ownership.transfer_program);
        let royalty = match RoyaltyTransferLayer::parse_puzzle(&transfer_puzzle) {
            Some(layer) => layer,
            None => {
                return Ok(None);
            },
        };
        let p2_puzzle_hash = ownership.inner_puzzle.tree_hash();
        let p2_puzzle = Puzzle::parse(&ownership.inner_puzzle);
        let info = NftInfo {
            launcher_id: singleton.launcher_id,
            metadata: state.metadata,
            metadata_updater_puzzle_hash: state.metadata_updater_puzzle_hash,
            current_owner: ownership.current_owner,
            royalty_puzzle_hash: royalty.royalty_puzzle_hash,
            royalty_ten_thousandths: royalty.royalty_ten_thousandths,
            p2_puzzle_hash,
        };
        Ok(Some((info, p2_puzzle)))
    }
}

} // verus!
