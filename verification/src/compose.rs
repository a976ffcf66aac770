//! Layer composition: peels the layers of a puzzle from the outside in,
//! until a puzzle of no known shape is left or the depth bound is passed.

use crate::error::DecodeError;
use crate::hash::Bytes32;
use crate::layers::{
    ownership_spec, singleton_spec, state_spec, NftOwnershipLayer, NftStateLayer, OwnershipView,
    SingletonLayer, SingletonView, StateView,
};
use crate::metadata::{MetadataView, NftMetadata};
use crate::nft::{nft_spec, NftInfo, NftInfoView};
use crate::program::{share, Program, Tree};
use crate::puzzle::{classify, Puzzle, PuzzleView};
use crate::values::optional_bytes;
use std::rc::Rc;
use vstd::prelude::*;

verus! {

/// The number of layers that may be nested.
pub const MAX_DEPTH: usize = 32;

/// One recognised layer.
pub enum LayerView {
    Singleton(SingletonView),
    State(StateView),
    Ownership(OwnershipView),
}

impl LayerView {
    /// The puzzle inside the layer.
    pub open spec fn inner_puzzle(self) -> Tree {
        match self {
            LayerView::Singleton(layer) => layer.inner_puzzle,
            LayerView::State(layer) => layer.inner_puzzle,
            LayerView::Ownership(layer) => layer.inner_puzzle,
        }
    }
}

/// The outermost layer of a puzzle: the decoders are tried in the order
/// singleton, state layer, ownership layer, and the first that matches
/// decides. `Ok(None)` where none matches.
pub open spec fn peel(puzzle: PuzzleView) -> Result<Option<LayerView>, DecodeError> {
    match singleton_spec(puzzle) {
        Some(layer) => Ok(Some(LayerView::Singleton(layer))),
        None => match state_spec(puzzle) {
            Err(error) => Err(error),
            Ok(Some(layer)) => Ok(Some(LayerView::State(layer))),
            Ok(None) => match ownership_spec(puzzle) {
                Some(layer) => Ok(Some(LayerView::Ownership(layer))),
                None => Ok(None),
            },
        },
    }
}

/// The mathematical value of a nest of layers.
pub enum LayeredView {
    Singleton { launcher_id: Seq<u8>, inner: Box<LayeredView> },
    State { metadata: MetadataView, metadata_updater_puzzle_hash: Seq<u8>, inner: Box<LayeredView> },
    Ownership { current_owner: Option<Seq<u8>>, transfer_program: Tree, inner: Box<LayeredView> },
    Unrecognized(Tree),
}

/// A layer around what was found inside it.
pub open spec fn wrap(layer: LayerView, inner: LayeredView) -> LayeredView {
    match layer {
        LayerView::Singleton(found) => LayeredView::Singleton {
            launcher_id: found.launcher_id,
            inner: Box::new(inner),
        },
        LayerView::State(found) => LayeredView::State {
            metadata: found.metadata,
            metadata_updater_puzzle_hash: found.metadata_updater_puzzle_hash,
            inner: Box::new(inner),
        },
        LayerView::Ownership(found) => LayeredView::Ownership {
            current_owner: found.current_owner,
            transfer_program: found.transfer_program,
            inner: Box::new(inner),
        },
    }
}

/// The nest of layers of a puzzle that sits under `depth` layers already. A
/// puzzle of no known shape is the innermost leaf. Anything else under
/// `MAX_DEPTH` layers is `DepthExceeded`.
pub open spec fn layers_spec(puzzle: PuzzleView, depth: nat) -> Result<LayeredView, DecodeError>
    decreases MAX_DEPTH - depth,
{
    match peel(puzzle) {
        Ok(None) => Ok(LayeredView::Unrecognized(puzzle.program)),
        Ok(Some(layer)) => if depth >= MAX_DEPTH {
            Err(DecodeError::DepthExceeded)
        } else {
            match layers_spec(classify(layer.inner_puzzle()), depth + 1) {
                Ok(inner) => Ok(wrap(layer, inner)),
                Err(error) => Err(error),
            }
        },
        Err(error) => if depth >= MAX_DEPTH {
            Err(DecodeError::DepthExceeded)
        } else {
            Err(error)
        },
    }
}

/// One recognised layer.
#[derive(Debug, Clone, PartialEq, Eq)]
pub enum Layer {
    Singleton(SingletonLayer),
    State(NftStateLayer),
    Ownership(NftOwnershipLayer),
}

impl View for Layer {
    type V = LayerView;

    open spec fn view(&self) -> LayerView {
        match self {
            Layer::Singleton(layer) => LayerView::Singleton(layer@),
            Layer::State(layer) => LayerView::State(layer@),
            Layer::Ownership(layer) => LayerView::Ownership(layer@),
        }
    }
}

impl Layer {
    /// Finds the outermost layer of a puzzle: the decoders are tried in the
    /// order singleton, state layer, ownership layer. `Ok(None)` where none
    /// matches.
    pub fn parse_puzzle(puzzle: &Puzzle) -> (found: Result<Option<Layer>, DecodeError>)
        ensures
            match peel(puzzle@) {
                Ok(Some(expected)) => found matches Ok(Some(layer)) && layer@ == expected,
                Ok(None) => found matches Ok(None),
                Err(error) => found matches Err(e) && e == error,
            },
    {
        if let Some(layer) = SingletonLayer::parse_puzzle(puzzle) {
            return Ok(Some(Layer::Singleton(layer)));
        }
        if let Some(layer) = NftStateLayer::parse_puzzle(puzzle)? {
            return Ok(Some(Layer::State(layer)));
        }
        if let Some(layer) = NftOwnershipLayer::parse_puzzle(puzzle) {
            return Ok(Some(Layer::Ownership(layer)));
        }
        Ok(None)
    }

    /// The puzzle inside the layer.
    pub fn inner_puzzle(&self) -> (inner: &Rc<Program>)
        ensures
            inner@ == self@.inner_puzzle(),
    {
        match self {
            Layer::Singleton(layer) => &layer.inner_puzzle,
            Layer::State(layer) => &layer.inner_puzzle,
            Layer::Ownership(layer) => &layer.inner_puzzle,
        }
    }
}

/// A nest of recognised layers around an innermost puzzle of no known shape.
#[derive(Debug, PartialEq, Eq)]
pub enum Layered {
    Singleton { launcher_id: Bytes32, inner: Box<Layered> },
    State { metadata: NftMetadata, metadata_updater_puzzle_hash: Bytes32, inner: Box<Layered> },
    Ownership { current_owner: Option<Bytes32>, transfer_program: Rc<Program>, inner: Box<Layered> },
    Unrecognized(Rc<Program>),
}

impl Layered {
    /// The value of the nest.
    pub open spec fn model(&self) -> LayeredView
        decreases self,
    {
        match self {
            Layered::Singleton { launcher_id, inner } => LayeredView::Singleton {
                launcher_id: launcher_id@,
                inner: Box::new((**inner).model()),
            },
            Layered::State {
                metadata,
                metadata_updater_puzzle_hash,
                inner,
            } => LayeredView::State {
                metadata: metadata@,
                metadata_updater_puzzle_hash: metadata_updater_puzzle_hash@,
                inner: Box::new((**inner).model()),
            },
            Layered::Ownership { current_owner, transfer_program, inner } => LayeredView::Ownership {
                current_owner: optional_bytes(*current_owner),
                transfer_program: transfer_program@,
                inner: Box::new((**inner).model()),
            },
            Layered::Unrecognized(program) => LayeredView::Unrecognized(program@),
        }
    }
}

impl Layered {
    /// A layer around what was found inside it.
    pub fn wrap(layer: Layer, inner: Layered) -> (nest: Layered)
        ensures
            nest@ == wrap(layer@, inner@),
    {
        match layer {
            Layer::Singleton(found) => Layered::Singleton {
                launcher_id: found.launcher_id,
                inner: Box::new(inner),
            },
            Layer::State(found) => Layered::State {
                metadata: found.metadata,
                metadata_updater_puzzle_hash: found.metadata_updater_puzzle_hash,
                inner: Box::new(inner),
            },
            Layer::Ownership(found) => Layered::Ownership {
                current_owner: found.current_owner,
                transfer_program: found.transfer_program,
                inner: Box::new(inner),
            },
        }
    }
}

impl View for Layered {
    type V = LayeredView;

    open spec fn view(&self) -> LayeredView {
        self.model()
    }
}

/// What decoding a puzzle in full yields, tagged by the path that matched.
#[derive(Debug, PartialEq, Eq)]
pub enum Decoded {
    /// The combined decoder recognised a token.
    Nft { info: NftInfo, p2_puzzle: Puzzle },
    /// The layers, peeled one by one.
    Layers(Layered),
}

/// The mathematical value of a `Decoded`.
pub enum DecodedView {
    Nft { info: NftInfoView, p2_puzzle: PuzzleView },
    Layers(LayeredView),
}

impl View for Decoded {
    type V = DecodedView;

    open spec fn view(&self) -> DecodedView {
        match self {
            Decoded::Nft { info, p2_puzzle } => DecodedView::Nft {
                info: info@,
                p2_puzzle: p2_puzzle@,
            },
            Decoded::Layers(layers) => DecodedView::Layers(layers@),
        }
    }
}

/// What decoding a puzzle in full yields: the token, where the combined
/// decoder matches; else the nest of layers.
pub open spec fn decode_full_spec(puzzle: PuzzleView) -> Result<DecodedView, DecodeError> {
    match nft_spec(puzzle) {
        Err(error) => Err(error),
        Ok(Some((info, p2_puzzle))) => Ok(
            DecodedView::Nft { info, p2_puzzle: classify(p2_puzzle) },
        ),
        Ok(None) => match layers_spec(puzzle, 0) {
            Ok(layers) => Ok(DecodedView::Layers(layers)),
            Err(error) => Err(error),
        },
    }
}

/// Peels the layers of a puzzle that sits under `depth` layers already.
pub fn decode_layers(puzzle: &Puzzle, depth: usize) -> (found: Result<Layered, DecodeError>)
    ensures
        match layers_spec(puzzle@, depth as nat) {
            Ok(layers) => found matches Ok(nest) && nest@ == layers,
            Err(error) => found matches Err(e) && e == error,
        },
    decreases MAX_DEPTH - depth,
{
    match Layer::parse_puzzle(puzzle) {
        Ok(None) => Ok(Layered::Unrecognized(share(&puzzle.program))),
        Ok(Some(layer)) => {
            if depth >= MAX_DEPTH {
                return Err(DecodeError::DepthExceeded);
            }
            let inner = decode_layers(&Puzzle::parse(layer.inner_puzzle()), depth + 1)?;
            Ok(Layered::wrap(layer, inner))
        },
        Err(error) => {
            if depth >= MAX_DEPTH {
                return Err(DecodeError::DepthExceeded);
            }
            Err(error)
        },
    }
}

/// Decodes a puzzle in full. The combined decoder is tried first; where it
/// does not match, the layers are peeled one by one, down to a puzzle of no
/// known shape. More than `MAX_DEPTH` nested layers are `DepthExceeded`.
pub fn decode_full(puzzle: &Puzzle) -> (found: Result<Decoded, DecodeError>)
    ensures
        match decode_full_spec(puzzle@) {
            Ok(decoded) => found matches Ok(value) && value@ == decoded,
            Err(error) => found matches Err(e) && e == error,
        },
{
    match NftInfo::parse(puzzle) {
        Err(error) => Err(error),
        Ok(Some((info, p2_puzzle))) => Ok(Decoded::Nft { info, p2_puzzle }),
        Ok(None) => match decode_layers(puzzle, 0) {
            Ok(layers) => Ok(Decoded::Layers(layers)),
            Err(error) => Err(error),
        },
    }
}

} // verus!
