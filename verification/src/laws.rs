//! Laws that relate the decoders to each other.

use crate::compose::{
    decode_full_spec, layers_spec, peel, Decoded, DecodedView, LayerView, LayeredView, MAX_DEPTH,
};
use crate::encoding::{decode_spec, encodable, law_decode_inverts_serialize, serialize};
use crate::error::DecodeError;
use crate::hash::{
    OWNERSHIP_LAYER_HASH, ROYALTY_TRANSFER_HASH, SINGLETON_TOP_LAYER_HASH, STATE_LAYER_HASH,
};
use crate::layers::{ownership_spec, royalty_spec, singleton_spec, state_shape, state_spec};
use crate::nft::nft_spec;
use crate::program::{byte_atom, Tree};
use crate::puzzle::{classify, uncurry, PuzzleView};
use crate::record::outcome_is;
use vstd::prelude::*;

verus! {

/// Classification survives a round trip: a program that is curried with
/// template hash `mod_hash` and arguments `args` is classified in the same
/// way, with the same arguments in the same order, after it is serialized
/// and decoded again.
pub proof fn law_classification_survives_round_trip(
    tree: Tree,
    mod_hash: Seq<u8>,
    args: Seq<Tree>,
)
    requires
        encodable(tree),
        classify(tree).mod_hash == Some(mod_hash),
        classify(tree).args == args,
    ensures
        decode_spec(serialize(tree)) is Ok,
        classify(decode_spec(serialize(tree))->Ok_0).mod_hash == Some(mod_hash),
        classify(decode_spec(serialize(tree))->Ok_0).args == args,
{
    law_decode_inverts_serialize(tree);
}

/// Decoding is a function of the puzzle: two outcomes of decoding the same
/// puzzle in full are equal, value for value.
pub proof fn law_decoding_twice_agrees(
    puzzle: PuzzleView,
    first: Result<Decoded, DecodeError>,
    second: Result<Decoded, DecodeError>,
)
    requires
        outcome_is(first, decode_full_spec(puzzle)),
        outcome_is(second, decode_full_spec(puzzle)),
    ensures
        match (first, second) {
            (Ok(a), Ok(b)) => a@ == b@,
            (Err(a), Err(b)) => a == b,
            _ => false,
        },
{
}

/// A program that is an atom, or a pair whose head is not the atom `2`, is
/// not curried.
pub proof fn law_head_decides_uncurried(tree: Tree)
    requires
        match tree {
            Tree::Atom(_) => true,
            Tree::Pair(head, _) => *head != byte_atom(2),
        },
    ensures
        uncurry(tree) is None,
        classify(tree).mod_hash is None,
{
}

/// A puzzle that is not curried matches no layer: every decoder answers "no
/// match", none an error, and decoding it in full yields the puzzle itself
/// as the unrecognised leaf.
pub proof fn law_uncurried_matches_no_layer(puzzle: PuzzleView)
    requires
        puzzle.mod_hash is None,
    ensures
        singleton_spec(puzzle) is None,
        state_spec(puzzle) == Ok::<_, DecodeError>(None::<crate::layers::StateView>),
        ownership_spec(puzzle) is None,
        royalty_spec(puzzle) is None,
        nft_spec(puzzle) == Ok::<_, DecodeError>(None::<(crate::nft::NftInfoView, Tree)>),
        layers_spec(puzzle, 0) == Ok::<_, DecodeError>(LayeredView::Unrecognized(puzzle.program)),
        decode_full_spec(puzzle) == Ok::<_, DecodeError>(
            DecodedView::Layers(LayeredView::Unrecognized(puzzle.program)),
        ),
{
}

/// Whether at least `count` layers are nested in a puzzle, each recognised
/// without error.
pub open spec fn nests_at_least(puzzle: PuzzleView, count: nat) -> bool
    decreases count,
{
    count == 0 || match peel(puzzle) {
        Ok(Some(layer)) => nests_at_least(classify(layer.inner_puzzle()), (count - 1) as nat),
        _ => false,
    }
}

/// Under `depth` layers, a puzzle that nests more layers than the bound
/// leaves room for is `DepthExceeded`.
pub proof fn lemma_depth_guard_at(puzzle: PuzzleView, depth: nat)
    requires
        depth <= MAX_DEPTH,
        nests_at_least(puzzle, (MAX_DEPTH + 1 - depth) as nat),
    ensures
        layers_spec(puzzle, depth) == Err::<LayeredView, _>(DecodeError::DepthExceeded),
    decreases MAX_DEPTH - depth,
{
    if depth < MAX_DEPTH {
        let layer = peel(puzzle)->Ok_0->Some_0;
        lemma_depth_guard_at(classify(layer.inner_puzzle()), depth + 1);
    }
}

/// The depth guard: a puzzle that nests more than `MAX_DEPTH` layers decodes
/// to `DepthExceeded` layer by layer, and so it does in full unless the
/// combined decoder finds a token in it.
pub proof fn law_depth_guard(puzzle: PuzzleView)
    requires
        nests_at_least(puzzle, (MAX_DEPTH + 1) as nat),
    ensures
        layers_spec(puzzle, 0) == Err::<LayeredView, _>(DecodeError::DepthExceeded),
        nft_spec(puzzle) == Ok::<_, DecodeError>(None::<(crate::nft::NftInfoView, Tree)>)
            ==> decode_full_spec(puzzle) == Err::<DecodedView, _>(DecodeError::DepthExceeded),
{
    lemma_depth_guard_at(puzzle, 0);
}

/// The hashes of the four templates are four different values.
pub proof fn lemma_template_hashes_differ()
    ensures
        SINGLETON_TOP_LAYER_HASH@ != STATE_LAYER_HASH@,
        SINGLETON_TOP_LAYER_HASH@ != OWNERSHIP_LAYER_HASH@,
        SINGLETON_TOP_LAYER_HASH@ != ROYALTY_TRANSFER_HASH@,
        STATE_LAYER_HASH@ != OWNERSHIP_LAYER_HASH@,
        STATE_LAYER_HASH@ != ROYALTY_TRANSFER_HASH@,
        OWNERSHIP_LAYER_HASH@ != ROYALTY_TRANSFER_HASH@,
{
    assert(SINGLETON_TOP_LAYER_HASH@[0] == 0x7f);
    assert(STATE_LAYER_HASH@[0] == 0xa0);
    assert(OWNERSHIP_LAYER_HASH@[0] == 0xc5);
    assert(ROYALTY_TRANSFER_HASH@[0] == 0x02);
}

/// At most one decoder matches a puzzle: the templates have different
/// hashes.
pub proof fn law_layers_exclude_each_other(puzzle: PuzzleView)
    ensures
        singleton_spec(puzzle) is Some ==> !state_shape(puzzle) && ownership_spec(puzzle) is None
            && royalty_spec(puzzle) is None,
        state_shape(puzzle) ==> singleton_spec(puzzle) is None && ownership_spec(puzzle) is None
            && royalty_spec(puzzle) is None,
        ownership_spec(puzzle) is Some ==> singleton_spec(puzzle) is None && !state_shape(puzzle)
            && royalty_spec(puzzle) is None,
        royalty_spec(puzzle) is Some ==> singleton_spec(puzzle) is None && !state_shape(puzzle)
            && ownership_spec(puzzle) is None,
{
    lemma_template_hashes_differ();
}

/// The two paths agree: where the combined decoder finds a token, peeling
/// the layers one by one finds a singleton around a state layer around an
/// ownership layer, with the token's fields, around the layers of the
/// token's innermost puzzle.
pub proof fn law_token_is_its_layers(puzzle: PuzzleView)
    requires
        nft_spec(puzzle) matches Ok(Some(_)),
    ensures
        ({
            let (info, p2_puzzle) = nft_spec(puzzle)->Ok_0->Some_0;
            let singleton = singleton_spec(puzzle)->Some_0;
            let state = state_spec(classify(singleton.inner_puzzle))->Ok_0->Some_0;
            let ownership = ownership_spec(classify(state.inner_puzzle))->Some_0;
            layers_spec(puzzle, 0) == match layers_spec(classify(p2_puzzle), 3) {
                Ok(inner) => Ok(
                    LayeredView::Singleton {
                        launcher_id: info.launcher_id,
                        inner: Box::new(
                            LayeredView::State {
                                metadata: info.metadata,
                                metadata_updater_puzzle_hash: info.metadata_updater_puzzle_hash,
                                inner: Box::new(
                                    LayeredView::Ownership {
                                        current_owner: info.current_owner,
                                        transfer_program: ownership.transfer_program,
                                        inner: Box::new(inner),
                                    },
                                ),
                            },
                        ),
                    },
                ),
                Err(error) => Err::<LayeredView, DecodeError>(error),
            }
        }),
{
    let singleton = singleton_spec(puzzle)->Some_0;
    let state_puzzle = classify(singleton.inner_puzzle);
    let state = state_spec(state_puzzle)->Ok_0->Some_0;
    let ownership_puzzle = classify(state.inner_puzzle);
    let ownership = ownership_spec(ownership_puzzle)->Some_0;
    law_layers_exclude_each_other(state_puzzle);
    law_layers_exclude_each_other(ownership_puzzle);
    assert(peel(puzzle) == Ok::<_, DecodeError>(Some(LayerView::Singleton(singleton))));
    assert(peel(state_puzzle) == Ok::<_, DecodeError>(Some(LayerView::State(state))));
    assert(peel(ownership_puzzle) == Ok::<_, DecodeError>(Some(LayerView::Ownership(ownership))));
    reveal_with_fuel(layers_spec, 4);
}

} // verus!
