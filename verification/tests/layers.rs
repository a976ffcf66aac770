use std::rc::Rc;

use puzzle_layers::compose::{decode_full, decode_layers, Decoded, Layer, Layered, MAX_DEPTH};
use puzzle_layers::error::DecodeError;
use puzzle_layers::hash::{
    OWNERSHIP_LAYER_HASH, ROYALTY_TRANSFER_HASH, SINGLETON_LAUNCHER_HASH,
    SINGLETON_TOP_LAYER_HASH, STATE_LAYER_HASH,
};
use puzzle_layers::layers::{
    NftOwnershipLayer, NftStateLayer, RoyaltyTransferLayer, SingletonLayer,
};
use puzzle_layers::metadata::NftMetadata;
use puzzle_layers::nft::NftInfo;
use puzzle_layers::program::Program;
use puzzle_layers::puzzle::Puzzle;

fn atom(bytes: &[u8]) -> Rc<Program> {
    Rc::new(Program::atom(bytes.to_vec()))
}

fn pair(first: Rc<Program>, rest: Rc<Program>) -> Rc<Program> {
    Rc::new(Program::pair(first, rest))
}

fn list(items: Vec<Rc<Program>>) -> Rc<Program> {
    let mut out = atom(&[]);
    for item in items.into_iter().rev() {
        out = pair(item, out);
    }
    out
}

fn quote(program: Rc<Program>) -> Rc<Program> {
    pair(atom(&[1]), program)
}

fn curry(template: Rc<Program>, args: Vec<Rc<Program>>) -> Rc<Program> {
    let mut chain = atom(&[1]);
    for arg in args.into_iter().rev() {
        chain = list(vec![atom(&[4]), quote(arg), chain]);
    }
    list(vec![atom(&[2]), quote(template), chain])
}

fn template(bytes: &[u8]) -> Rc<Program> {
    Rc::new(Program::from_bytes(bytes).expect("a template decodes"))
}

fn singleton_struct(launcher_id: [u8; 32]) -> Rc<Program> {
    pair(
        atom(&SINGLETON_TOP_LAYER_HASH),
        pair(atom(&launcher_id), atom(&SINGLETON_LAUNCHER_HASH)),
    )
}

fn singleton(launcher_id: [u8; 32], inner: Rc<Program>) -> Rc<Program> {
    curry(
        template(&chia_puzzles::SINGLETON_TOP_LAYER_V1_1),
        vec![singleton_struct(launcher_id), inner],
    )
}

fn state(metadata: Rc<Program>, updater: [u8; 32], inner: Rc<Program>) -> Rc<Program> {
    curry(
        template(&chia_puzzles::NFT_STATE_LAYER),
        vec![atom(&STATE_LAYER_HASH), metadata, atom(&updater), inner],
    )
}

fn royalty(launcher_id: [u8; 32], royalty_puzzle_hash: [u8; 32], share: &[u8]) -> Rc<Program> {
    curry(
        template(&chia_puzzles::NFT_OWNERSHIP_TRANSFER_PROGRAM_ONE_WAY_CLAIM_WITH_ROYALTIES),
        vec![singleton_struct(launcher_id), atom(&royalty_puzzle_hash), atom(share)],
    )
}

fn ownership(owner: Option<[u8; 32]>, transfer: Rc<Program>, inner: Rc<Program>) -> Rc<Program> {
    let owner = match owner {
        Some(id) => atom(&id),
        None => atom(&[]),
    };
    curry(
        template(&chia_puzzles::NFT_OWNERSHIP_LAYER),
        vec![atom(&OWNERSHIP_LAYER_HASH), owner, transfer, inner],
    )
}

fn entry(key: &str, value: Rc<Program>) -> Rc<Program> {
    pair(atom(key.as_bytes()), value)
}

fn texts(items: &[&str]) -> Rc<Program> {
    list(items.iter().map(|item| atom(item.as_bytes())).collect())
}

fn example_metadata() -> Rc<Program> {
    list(vec![
        entry("u", texts(&["https://example.com/1.json"])),
        entry("sn", atom(&[1])),
    ])
}

fn example_record() -> NftMetadata {
    let mut expected = NftMetadata::new();
    expected.edition_number = 1;
    expected.data_uris = vec!["https://example.com/1.json".to_string()];
    expected
}

fn innermost() -> Rc<Program> {
    list(vec![atom(&[2]), atom(&[2]), atom(&[3])])
}

#[test]
fn template_hashes_are_the_hashes_of_the_templates() {
    assert_eq!(template(&chia_puzzles::SINGLETON_TOP_LAYER_V1_1).tree_hash(), SINGLETON_TOP_LAYER_HASH);
    assert_eq!(template(&chia_puzzles::SINGLETON_LAUNCHER).tree_hash(), SINGLETON_LAUNCHER_HASH);
    assert_eq!(template(&chia_puzzles::NFT_STATE_LAYER).tree_hash(), STATE_LAYER_HASH);
    assert_eq!(template(&chia_puzzles::NFT_OWNERSHIP_LAYER).tree_hash(), OWNERSHIP_LAYER_HASH);
    assert_eq!(
        template(&chia_puzzles::NFT_OWNERSHIP_TRANSFER_PROGRAM_ONE_WAY_CLAIM_WITH_ROYALTIES)
            .tree_hash(),
        ROYALTY_TRANSFER_HASH
    );
}

#[test]
fn template_hashes_match_the_published_ones() {
    assert_eq!(SINGLETON_TOP_LAYER_HASH, chia_puzzles::SINGLETON_TOP_LAYER_V1_1_HASH);
    assert_eq!(SINGLETON_LAUNCHER_HASH, chia_puzzles::SINGLETON_LAUNCHER_HASH);
    assert_eq!(STATE_LAYER_HASH, chia_puzzles::NFT_STATE_LAYER_HASH);
    assert_eq!(OWNERSHIP_LAYER_HASH, chia_puzzles::NFT_OWNERSHIP_LAYER_HASH);
    assert_eq!(
        ROYALTY_TRANSFER_HASH,
        chia_puzzles::NFT_OWNERSHIP_TRANSFER_PROGRAM_ONE_WAY_CLAIM_WITH_ROYALTIES_HASH
    );
}

#[test]
fn classifies_a_curried_program() {
    let module = atom(b"xyz");
    let program = curry(module.clone(), vec![atom(b"a"), atom(b"b"), atom(b"c")]);
    assert_eq!(
        program.to_bytes().unwrap(),
        hex::decode("ff02ffff018378797affff04ffff0161ffff04ffff0162ffff04ffff0163ff0180808080")
            .unwrap()
    );
    let puzzle = Puzzle::parse(&program);
    assert!(puzzle.is_curried());
    assert_eq!(puzzle.mod_hash, Some(module.tree_hash()));
    assert_eq!(puzzle.args, vec![atom(b"a"), atom(b"b"), atom(b"c")]);
    assert_eq!(puzzle.program, program);
}

#[test]
fn classifies_a_curried_program_without_arguments() {
    let module = pair(atom(&[9]), atom(&[]));
    let puzzle = Puzzle::parse(&curry(module.clone(), vec![]));
    assert_eq!(puzzle.mod_hash, Some(module.tree_hash()));
    assert!(puzzle.args.is_empty());
}

#[test]
fn classification_survives_a_round_trip() {
    let program = curry(atom(b"module"), vec![atom(&[]), innermost(), atom(&[0x80; 40])]);
    let before = Puzzle::parse(&program);
    let bytes = program.to_bytes().unwrap();
    let after = Puzzle::parse(&Rc::new(Program::from_bytes(&bytes).unwrap()));
    assert!(before.is_curried());
    assert_eq!(after.mod_hash, before.mod_hash);
    assert_eq!(after.args, before.args);
    assert_eq!(after, before);
}

#[test]
fn an_atom_is_not_curried() {
    let puzzle = Puzzle::parse(&atom(&[2]));
    assert!(!puzzle.is_curried());
    assert_eq!(puzzle.mod_hash, None);
    assert!(puzzle.args.is_empty());
}

#[test]
fn a_program_headed_by_another_atom_matches_nothing() {
    let program = pair(atom(b"head"), list(vec![quote(atom(b"m")), atom(&[1])]));
    let puzzle = Puzzle::parse(&program);
    assert!(!puzzle.is_curried());
    assert_eq!(SingletonLayer::parse_puzzle(&puzzle), None);
    assert_eq!(NftStateLayer::parse_puzzle(&puzzle), Ok(None));
    assert_eq!(NftOwnershipLayer::parse_puzzle(&puzzle), None);
    assert_eq!(RoyaltyTransferLayer::parse_puzzle(&puzzle), None);
    assert_eq!(NftInfo::parse(&puzzle), Ok(None));
    assert_eq!(
        decode_full(&puzzle),
        Ok(Decoded::Layers(Layered::Unrecognized(program)))
    );
}

#[test]
fn a_malformed_argument_chain_is_not_curried() {
    // The chain ends in the empty atom, not in the atom 1.
    let chain = list(vec![atom(&[4]), quote(atom(b"a")), atom(&[])]);
    let program = list(vec![atom(&[2]), quote(atom(b"m")), chain]);
    assert!(!Puzzle::parse(&program).is_curried());
    // The template is not quoted.
    let program = list(vec![atom(&[2]), atom(b"m"), atom(&[1])]);
    assert!(!Puzzle::parse(&program).is_curried());
    // Something follows the arguments.
    let program = list(vec![atom(&[2]), quote(atom(b"m")), atom(&[1]), atom(&[1])]);
    assert!(!Puzzle::parse(&program).is_curried());
}

#[test]
fn decodes_a_singleton() {
    let inner = innermost();
    let puzzle = Puzzle::parse(&singleton([7; 32], inner.clone()));
    let layer = SingletonLayer::parse_puzzle(&puzzle).expect("a singleton");
    assert_eq!(layer.launcher_id, [7; 32]);
    assert_eq!(layer.inner_puzzle, inner);
    assert_eq!(NftStateLayer::parse_puzzle(&puzzle), Ok(None));
    assert_eq!(NftOwnershipLayer::parse_puzzle(&puzzle), None);
}

#[test]
fn a_singleton_with_a_wrong_argument_count_does_not_match() {
    let module = template(&chia_puzzles::SINGLETON_TOP_LAYER_V1_1);
    let one = curry(module.clone(), vec![singleton_struct([7; 32])]);
    let three = curry(module, vec![singleton_struct([7; 32]), innermost(), innermost()]);
    assert_eq!(SingletonLayer::parse_puzzle(&Puzzle::parse(&one)), None);
    assert_eq!(SingletonLayer::parse_puzzle(&Puzzle::parse(&three)), None);
}

#[test]
fn a_singleton_with_a_wrong_struct_does_not_match() {
    let module = template(&chia_puzzles::SINGLETON_TOP_LAYER_V1_1);
    let short_id = pair(
        atom(&SINGLETON_TOP_LAYER_HASH),
        pair(atom(&[7; 31]), atom(&SINGLETON_LAUNCHER_HASH)),
    );
    let other_launcher = pair(
        atom(&SINGLETON_TOP_LAYER_HASH),
        pair(atom(&[7; 32]), atom(&[9; 32])),
    );
    for wrong in [short_id, other_launcher, atom(&[7; 32])] {
        let program = curry(module.clone(), vec![wrong, innermost()]);
        assert_eq!(SingletonLayer::parse_puzzle(&Puzzle::parse(&program)), None);
    }
}

#[test]
fn another_template_is_no_singleton() {
    let program = curry(atom(b"module"), vec![singleton_struct([7; 32]), innermost()]);
    assert_eq!(SingletonLayer::parse_puzzle(&Puzzle::parse(&program)), None);
}

#[test]
fn decodes_a_state_layer() {
    let inner = innermost();
    let puzzle = Puzzle::parse(&state(example_metadata(), [5; 32], inner.clone()));
    let layer = NftStateLayer::parse_puzzle(&puzzle).expect("no error").expect("a state layer");
    assert_eq!(layer.metadata, example_record());
    assert_eq!(layer.metadata_updater_puzzle_hash, [5; 32]);
    assert_eq!(layer.inner_puzzle, inner);
    assert_eq!(SingletonLayer::parse_puzzle(&puzzle), None);
}

#[test]
fn bad_metadata_is_an_error_of_its_own() {
    let not_a_list = atom(&[1, 2, 3]);
    let puzzle = Puzzle::parse(&state(not_a_list, [5; 32], innermost()));
    assert_eq!(NftStateLayer::parse_puzzle(&puzzle), Err(DecodeError::MetadataSchemaError));
    assert_eq!(decode_full(&puzzle), Err(DecodeError::MetadataSchemaError));
}

#[test]
fn a_state_layer_of_another_shape_does_not_match() {
    let module = template(&chia_puzzles::NFT_STATE_LAYER);
    let three = curry(module.clone(), vec![atom(&STATE_LAYER_HASH), example_metadata(), atom(&[5; 32])]);
    assert_eq!(NftStateLayer::parse_puzzle(&Puzzle::parse(&three)), Ok(None));
    let short_hash = curry(
        module,
        vec![atom(&STATE_LAYER_HASH), atom(&[1, 2, 3]), atom(&[5; 31]), innermost()],
    );
    assert_eq!(NftStateLayer::parse_puzzle(&Puzzle::parse(&short_hash)), Ok(None));
}

#[test]
fn decodes_an_ownership_layer() {
    let transfer = royalty([7; 32], [8; 32], &[0x01, 0x2c]);
    let inner = innermost();
    let owned = Puzzle::parse(&ownership(Some([3; 32]), transfer.clone(), inner.clone()));
    let layer = NftOwnershipLayer::parse_puzzle(&owned).expect("an ownership layer");
    assert_eq!(layer.current_owner, Some([3; 32]));
    assert_eq!(layer.transfer_program, transfer);
    assert_eq!(layer.inner_puzzle, inner);
    let free = Puzzle::parse(&ownership(None, transfer, inner));
    assert_eq!(NftOwnershipLayer::parse_puzzle(&free).expect("a layer").current_owner, None);
}

#[test]
fn decodes_a_royalty_transfer_program() {
    let puzzle = Puzzle::parse(&royalty([7; 32], [8; 32], &[0x01, 0x2c]));
    assert_eq!(
        RoyaltyTransferLayer::parse_puzzle(&puzzle),
        Some(RoyaltyTransferLayer {
            launcher_id: [7; 32],
            royalty_puzzle_hash: [8; 32],
            royalty_ten_thousandths: 300,
        })
    );
    let too_wide = Puzzle::parse(&royalty([7; 32], [8; 32], &[1, 0, 0]));
    assert_eq!(RoyaltyTransferLayer::parse_puzzle(&too_wide), None);
}

#[test]
fn decodes_a_token_in_one_pass() {
    let p2 = innermost();
    let program = singleton(
        [7; 32],
        state(
            example_metadata(),
            [5; 32],
            ownership(Some([3; 32]), royalty([7; 32], [8; 32], &[0x01, 0x2c]), p2.clone()),
        ),
    );
    let (info, p2_puzzle) = NftInfo::parse(&Puzzle::parse(&program))
        .expect("no error")
        .expect("a token");
    assert_eq!(
        info,
        NftInfo {
            launcher_id: [7; 32],
            metadata: example_record(),
            metadata_updater_puzzle_hash: [5; 32],
            current_owner: Some([3; 32]),
            royalty_puzzle_hash: [8; 32],
            royalty_ten_thousandths: 300,
            p2_puzzle_hash: p2.tree_hash(),
        }
    );
    assert_eq!(p2_puzzle, Puzzle::parse(&p2));
}

#[test]
fn the_two_paths_agree_on_a_token() {
    let p2 = innermost();
    let transfer = royalty([7; 32], [8; 32], &[0x01, 0x2c]);
    let program = singleton(
        [7; 32],
        state(example_metadata(), [5; 32], ownership(None, transfer.clone(), p2.clone())),
    );
    let puzzle = Puzzle::parse(&program);
    let (info, p2_puzzle) = NftInfo::parse(&puzzle).unwrap().unwrap();
    assert_eq!(
        decode_full(&puzzle),
        Ok(Decoded::Nft { info: info.clone(), p2_puzzle: p2_puzzle.clone() })
    );
    assert_eq!(
        decode_layers(&puzzle, 0),
        Ok(Layered::Singleton {
            launcher_id: info.launcher_id,
            inner: Box::new(Layered::State {
                metadata: info.metadata,
                metadata_updater_puzzle_hash: info.metadata_updater_puzzle_hash,
                inner: Box::new(Layered::Ownership {
                    current_owner: info.current_owner,
                    transfer_program: transfer,
                    inner: Box::new(Layered::Unrecognized(p2_puzzle.program)),
                }),
            }),
        })
    );
}

#[test]
fn a_token_needs_a_royalty_transfer_program() {
    let program = singleton(
        [7; 32],
        state(example_metadata(), [5; 32], ownership(None, atom(b"other"), innermost())),
    );
    let puzzle = Puzzle::parse(&program);
    assert_eq!(NftInfo::parse(&puzzle), Ok(None));
    match decode_full(&puzzle) {
        Ok(Decoded::Layers(Layered::Singleton { .. })) => {}
        other => panic!("unexpected outcome {other:?}"),
    }
}

#[test]
fn singleton_around_state_layer_is_decoded_in_full() {
    let leaf = innermost();
    let program = singleton([7; 32], state(example_metadata(), [5; 32], leaf.clone()));
    let decoded = decode_full(&Puzzle::parse(&program)).expect("decodes");
    match decoded {
        Decoded::Layers(Layered::Singleton { launcher_id, inner }) => {
            assert_eq!(launcher_id, [7; 32]);
            match *inner {
                Layered::State { metadata, metadata_updater_puzzle_hash, inner } => {
                    assert_eq!(metadata.edition_number, 1);
                    assert_eq!(metadata.data_uris, vec!["https://example.com/1.json".to_string()]);
                    assert_eq!(metadata, example_record());
                    assert_eq!(metadata_updater_puzzle_hash, [5; 32]);
                    assert_eq!(*inner, Layered::Unrecognized(leaf));
                }
                other => panic!("unexpected layer {other:?}"),
            }
        }
        other => panic!("unexpected outcome {other:?}"),
    }
}

#[test]
fn decoding_twice_gives_equal_results() {
    let program = singleton([7; 32], state(example_metadata(), [5; 32], innermost()));
    let puzzle = Puzzle::parse(&program);
    assert_eq!(decode_full(&puzzle), decode_full(&puzzle));
    assert_eq!(Puzzle::parse(&program), puzzle);
    assert_eq!(SingletonLayer::parse_puzzle(&puzzle), SingletonLayer::parse_puzzle(&puzzle));
}

fn nest(count: usize) -> Rc<Program> {
    let mut program = innermost();
    for level in 0..count {
        program = singleton([level as u8; 32], program);
    }
    program
}

fn depth_of(layers: &Layered) -> usize {
    match layers {
        Layered::Singleton { inner, .. } => 1 + depth_of(inner),
        Layered::State { inner, .. } => 1 + depth_of(inner),
        Layered::Ownership { inner, .. } => 1 + depth_of(inner),
        Layered::Unrecognized(_) => 0,
    }
}

#[test]
fn forty_nested_singletons_exceed_the_depth() {
    let puzzle = Puzzle::parse(&nest(40));
    assert_eq!(decode_full(&puzzle), Err(DecodeError::DepthExceeded));
    assert_eq!(decode_layers(&puzzle, 0), Err(DecodeError::DepthExceeded));
}

#[test]
fn the_depth_bound_is_thirty_two_layers() {
    assert_eq!(MAX_DEPTH, 32);
    match decode_full(&Puzzle::parse(&nest(32))) {
        Ok(Decoded::Layers(layers)) => assert_eq!(depth_of(&layers), 32),
        other => panic!("unexpected outcome {other:?}"),
    }
    assert_eq!(decode_full(&Puzzle::parse(&nest(33))), Err(DecodeError::DepthExceeded));
}

#[test]
fn layers_under_other_layers_count_towards_the_depth() {
    let puzzle = Puzzle::parse(&nest(3));
    match decode_layers(&puzzle, 29) {
        Ok(layers) => assert_eq!(depth_of(&layers), 3),
        other => panic!("unexpected outcome {other:?}"),
    }
    assert_eq!(decode_layers(&puzzle, 30), Err(DecodeError::DepthExceeded));
    assert_eq!(
        decode_layers(&Puzzle::parse(&innermost()), 32),
        Ok(Layered::Unrecognized(innermost()))
    );
}

#[test]
fn the_outermost_layer_is_found_by_the_first_decoder_that_matches() {
    let leaf = innermost();
    let inside = state(example_metadata(), [5; 32], leaf.clone());
    let outer = Puzzle::parse(&singleton([7; 32], inside.clone()));
    let found = Layer::parse_puzzle(&outer).expect("no error").expect("a layer");
    assert_eq!(
        found,
        Layer::Singleton(SingletonLayer { launcher_id: [7; 32], inner_puzzle: inside.clone() })
    );
    assert_eq!(found.inner_puzzle(), &inside);
    match Layer::parse_puzzle(&Puzzle::parse(&inside)) {
        Ok(Some(Layer::State(layer))) => assert_eq!(layer.inner_puzzle, leaf),
        other => panic!("unexpected layer {other:?}"),
    }
    let owned = ownership(None, atom(b"transfer"), leaf.clone());
    match Layer::parse_puzzle(&Puzzle::parse(&owned)) {
        Ok(Some(Layer::Ownership(layer))) => assert_eq!(layer.transfer_program, atom(b"transfer")),
        other => panic!("unexpected layer {other:?}"),
    }
    assert_eq!(Layer::parse_puzzle(&Puzzle::parse(&leaf)), Ok(None));
    let broken = state(atom(&[9]), [5; 32], leaf);
    assert_eq!(
        Layer::parse_puzzle(&Puzzle::parse(&broken)),
        Err(DecodeError::MetadataSchemaError)
    );
}

#[test]
fn a_layer_wraps_what_is_inside_it() {
    let layer = Layer::Singleton(SingletonLayer { launcher_id: [7; 32], inner_puzzle: innermost() });
    assert_eq!(
        Layered::wrap(layer, Layered::Unrecognized(innermost())),
        Layered::Singleton {
            launcher_id: [7; 32],
            inner: Box::new(Layered::Unrecognized(innermost())),
        }
    );
}

#[test]
fn bad_metadata_under_the_depth_bound_is_depth_exceeded() {
    let broken = Puzzle::parse(&state(atom(&[9]), [5; 32], innermost()));
    assert_eq!(decode_layers(&broken, 31), Err(DecodeError::MetadataSchemaError));
    assert_eq!(decode_layers(&broken, 32), Err(DecodeError::DepthExceeded));
    assert_eq!(decode_layers(&broken, 1000), Err(DecodeError::DepthExceeded));
}
