use std::rc::Rc;

use puzzle_layers::error::DecodeError;
use puzzle_layers::program::Program;

fn atom(bytes: &[u8]) -> Rc<Program> {
    Rc::new(Program::atom(bytes.to_vec()))
}

fn pair(first: Rc<Program>, rest: Rc<Program>) -> Rc<Program> {
    Rc::new(Program::pair(first, rest))
}

fn round_trip(bytes: &[u8]) {
    let program = Program::from_bytes(bytes).expect("decodes");
    assert_eq!(program.to_bytes().expect("encodes"), bytes.to_vec());
}

#[test]
fn decodes_the_empty_atom() {
    assert_eq!(Program::from_bytes(&[0x80]), Ok(Program::atom(vec![])));
}

#[test]
fn decodes_a_one_byte_atom() {
    assert_eq!(Program::from_bytes(&[0x00]), Ok(Program::atom(vec![0x00])));
    assert_eq!(Program::from_bytes(&[0x7f]), Ok(Program::atom(vec![0x7f])));
}

#[test]
fn decodes_an_atom_with_a_one_byte_prefix() {
    assert_eq!(Program::from_bytes(&[0x81, 0x80]), Ok(Program::atom(vec![0x80])));
    assert_eq!(
        Program::from_bytes(&[0x83, 0x78, 0x79, 0x7a]),
        Ok(Program::atom(vec![0x78, 0x79, 0x7a]))
    );
}

#[test]
fn decodes_a_pair() {
    let expected = Program::pair(atom(&[1]), atom(&[]));
    assert_eq!(Program::from_bytes(&[0xff, 0x01, 0x80]), Ok(expected));
}

#[test]
fn decodes_a_list() {
    // (1 2 "b" 4)
    let bytes = hex::decode("ff01ff02ff62ff0480").unwrap();
    let expected = pair(
        atom(&[1]),
        pair(atom(&[2]), pair(atom(&[0x62]), pair(atom(&[4]), atom(&[])))),
    );
    assert_eq!(Program::from_bytes(&bytes), Ok((*expected).clone()));
    round_trip(&bytes);
}

#[test]
fn encodes_each_prefix_width() {
    let cases: Vec<(usize, Vec<u8>)> = vec![
        (0, vec![0x80]),
        (2, vec![0x82]),
        (0x3f, vec![0xbf]),
        (0x40, vec![0xc0, 0x40]),
        (0x1fff, vec![0xdf, 0xff]),
        (0x2000, vec![0xe0, 0x20, 0x00]),
        (0xf_ffff, vec![0xef, 0xff, 0xff]),
        (0x10_0000, vec![0xf0, 0x10, 0x00, 0x00]),
    ];
    for (len, prefix) in cases {
        let body = vec![0xaa_u8; len];
        let encoded = Program::atom(body.clone()).to_bytes().expect("encodes");
        let mut expected = prefix.clone();
        expected.extend_from_slice(&body);
        assert_eq!(encoded, expected, "length {len}");
        assert_eq!(Program::from_bytes(&encoded), Ok(Program::atom(body)));
    }
}

#[test]
fn a_one_byte_atom_of_a_high_byte_has_a_prefix() {
    assert_eq!(Program::atom(vec![0x7f]).to_bytes(), Some(vec![0x7f]));
    assert_eq!(Program::atom(vec![0x80]).to_bytes(), Some(vec![0x81, 0x80]));
    assert_eq!(Program::atom(vec![0xff]).to_bytes(), Some(vec![0x81, 0xff]));
}

#[test]
fn encodes_a_pair_with_its_tag() {
    let program = Program::pair(atom(&[1]), atom(&[]));
    assert_eq!(program.to_bytes(), Some(vec![0xff, 0x01, 0x80]));
}

#[test]
fn round_trip_of_well_formed_buffers() {
    round_trip(&[0x80]);
    round_trip(&[0x05]);
    round_trip(&[0x81, 0x85]);
    round_trip(&[0xff, 0xff, 0x01, 0x02, 0xff, 0x83, 1, 2, 3, 0x80]);
    round_trip(&hex::decode("ff02ffff018378797affff04ffff0161ffff04ffff0162ffff04ffff0163ff0180808080").unwrap());
}

#[test]
fn decode_inverts_encode() {
    let program = pair(
        pair(atom(&[]), atom(&[0x80; 70])),
        pair(atom(b"hello"), atom(&[0])),
    );
    let bytes = program.to_bytes().expect("encodes");
    assert_eq!(Program::from_bytes(&bytes), Ok((*program).clone()));
}

#[test]
fn a_longer_prefix_than_needed_is_read_but_not_written() {
    // One byte, 0x05, behind a length prefix that it does not need.
    let program = Program::from_bytes(&[0x81, 0x05]).expect("decodes");
    assert_eq!(program, Program::atom(vec![0x05]));
    assert_eq!(program.to_bytes(), Some(vec![0x05]));
    // A two-byte prefix for a length that fits in one.
    let program = Program::from_bytes(&[0xc0, 0x02, 0xaa, 0xbb]).expect("decodes");
    assert_eq!(program, Program::atom(vec![0xaa, 0xbb]));
    assert_eq!(program.to_bytes(), Some(vec![0x82, 0xaa, 0xbb]));
}

#[test]
fn rejects_an_empty_buffer() {
    assert_eq!(Program::from_bytes(&[]), Err(DecodeError::MalformedEncoding));
}

#[test]
fn rejects_a_truncated_atom() {
    assert_eq!(Program::from_bytes(&[0x83, 1, 2]), Err(DecodeError::MalformedEncoding));
    assert_eq!(Program::from_bytes(&[0xc0]), Err(DecodeError::MalformedEncoding));
    assert_eq!(Program::from_bytes(&[0xc0, 0x40, 1, 2, 3]), Err(DecodeError::MalformedEncoding));
}

#[test]
fn rejects_a_truncated_pair() {
    assert_eq!(Program::from_bytes(&[0xff]), Err(DecodeError::MalformedEncoding));
    assert_eq!(Program::from_bytes(&[0xff, 0x01]), Err(DecodeError::MalformedEncoding));
    assert_eq!(Program::from_bytes(&[0xff, 0xff, 0x01, 0x02]), Err(DecodeError::MalformedEncoding));
}

#[test]
fn rejects_an_invalid_length_prefix() {
    assert_eq!(
        Program::from_bytes(&[0xfe, 0, 0, 0, 0, 0, 0, 0]),
        Err(DecodeError::MalformedEncoding)
    );
    // Six prefix bytes that announce a length at the limit.
    assert_eq!(
        Program::from_bytes(&[0xfc, 0x04, 0, 0, 0, 0]),
        Err(DecodeError::MalformedEncoding)
    );
}

#[test]
fn rejects_trailing_bytes() {
    assert_eq!(Program::from_bytes(&[0x80, 0x80]), Err(DecodeError::MalformedEncoding));
    assert_eq!(
        Program::from_bytes(&[0xff, 0x01, 0x80, 0x00]),
        Err(DecodeError::MalformedEncoding)
    );
}

#[test]
fn equality_is_structural() {
    let a = pair(atom(&[1, 2]), atom(&[]));
    let b = pair(atom(&[1, 2]), atom(&[]));
    let c = pair(atom(&[1, 2]), atom(&[0]));
    assert!(a.same_tree(&b));
    assert!(!a.same_tree(&c));
    assert_eq!(a, b);
    assert_ne!(a, c);
}

#[test]
fn traversal_gives_head_and_rest_or_bytes() {
    let program = Program::pair(atom(&[7]), atom(&[8, 9]));
    let (head, rest) = program.as_pair().expect("a pair");
    assert_eq!(head.as_atom(), Some(&[7_u8][..]));
    assert_eq!(rest.as_atom(), Some(&[8_u8, 9][..]));
    assert!(program.as_atom().is_none());
    assert!(head.as_pair().is_none());
}

#[test]
fn tree_hash_of_known_atoms() {
    assert_eq!(
        hex::encode(Program::atom(vec![]).tree_hash()),
        "4bf5122f344554c53bde2ebb8cd2b7e3d1600ad631c385a5d7cce23c7785459a"
    );
    assert_eq!(
        hex::encode(Program::atom(vec![1]).tree_hash()),
        "9dcf97a184f32623d11a73124ceb99a5709b083721e878a16d78f596718ba7b2"
    );
}

#[test]
fn tree_hash_tells_a_pair_from_its_halves() {
    let left = atom(&[1]);
    let right = atom(&[2]);
    let both = Program::pair(left.clone(), right.clone());
    let swapped = Program::pair(right.clone(), left.clone());
    assert_ne!(both.tree_hash(), left.tree_hash());
    assert_ne!(both.tree_hash(), right.tree_hash());
    assert_ne!(both.tree_hash(), swapped.tree_hash());
}
