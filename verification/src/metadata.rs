//! The metadata schema of the state layer: a list of `(key . value)` entries
//! with known keys for the edition, the content locations and their hashes.

use crate::hash::Bytes32;
use crate::program::{size, Program, Tree};
use crate::values::{optional_bytes, optional_identifier, text_list, texts, unsigned};
use vstd::prelude::*;
use vstd::utf8::*;

verus! {

/// The metadata of a token, as the state layer carries it.
#[derive(Debug, Clone, PartialEq, Eq)]
pub struct NftMetadata {
    pub edition_number: u64,
    pub edition_total: u64,
    pub data_uris: Vec<String>,
    pub data_hash: Option<Bytes32>,
    pub metadata_uris: Vec<String>,
    pub metadata_hash: Option<Bytes32>,
    pub license_uris: Vec<String>,
    pub license_hash: Option<Bytes32>,
}

/// The mathematical value of a metadata record.
pub struct MetadataView {
    pub edition_number: nat,
    pub edition_total: nat,
    pub data_uris: Seq<Seq<char>>,
    pub data_hash: Option<Seq<u8>>,
    pub metadata_uris: Seq<Seq<char>>,
    pub metadata_hash: Option<Seq<u8>>,
    pub license_uris: Seq<Seq<char>>,
    pub license_hash: Option<Seq<u8>>,
}

impl View for NftMetadata {
    type V = MetadataView;

    open spec fn view(&self) -> MetadataView {
        MetadataView {
            edition_number: self.edition_number as nat,
            edition_total: self.edition_total as nat,
            data_uris: texts(self.data_uris@),
            data_hash: optional_bytes(self.data_hash),
            metadata_uris: texts(self.metadata_uris@),
            metadata_hash: optional_bytes(self.metadata_hash),
            license_uris: texts(self.license_uris@),
            license_hash: optional_bytes(self.license_hash),
        }
    }
}

/// The key `sn`: the edition number.
pub open spec fn key_edition_number() -> Seq<u8> {
    seq![0x73u8, 0x6eu8]
}

/// The key `st`: the edition total.
pub open spec fn key_edition_total() -> Seq<u8> {
    seq![0x73u8, 0x74u8]
}

/// The key `u`: the data locations.
pub open spec fn key_data_uris() -> Seq<u8> {
    seq![0x75u8]
}

/// The key `h`: the data hash.
pub open spec fn key_data_hash() -> Seq<u8> {
    seq![0x68u8]
}

/// The key `mu`: the metadata locations.
pub open spec fn key_metadata_uris() -> Seq<u8> {
    seq![0x6du8, 0x75u8]
}

/// The key `mh`: the metadata hash.
pub open spec fn key_metadata_hash() -> Seq<u8> {
    seq![0x6du8, 0x68u8]
}

/// The key `lu`: the license locations.
pub open spec fn key_license_uris() -> Seq<u8> {
    seq![0x6cu8, 0x75u8]
}

/// The key `lh`: the license hash.
pub open spec fn key_license_hash() -> Seq<u8> {
    seq![0x6cu8, 0x68u8]
}

/// The record before any entry is read: edition 1 of 1, nothing else.
pub open spec fn default_metadata() -> MetadataView {
    MetadataView {
        edition_number: 1,
        edition_total: 1,
        data_uris: Seq::empty(),
        data_hash: None,
        metadata_uris: Seq::empty(),
        metadata_hash: None,
        license_uris: Seq::empty(),
        license_hash: None,
    }
}

/// The record after one entry: a known key sets its field, where the value
/// has the field's type; an unknown key changes nothing. `None` where the
/// value of a known key has the wrong type.
pub open spec fn apply_entry(key: Seq<u8>, value: Tree, record: MetadataView) -> Option<
    MetadataView,
> {
    if key == key_edition_number() {
        match unsigned(value, 8) {
            Some(number) => Some(MetadataView { edition_number: number, ..record }),
            None => None,
        }
    } else if key == key_edition_total() {
        match unsigned(value, 8) {
            Some(number) => Some(MetadataView { edition_total: number, ..record }),
            None => None,
        }
    } else if key == key_data_uris() {
        match text_list(value) {
            Some(uris) => Some(MetadataView { data_uris: uris, ..record }),
            None => None,
        }
    } else if key == key_data_hash() {
        match optional_identifier(value) {
            Some(hash) => Some(MetadataView { data_hash: hash, ..record }),
            None => None,
        }
    } else if key == key_metadata_uris() {
        match text_list(value) {
            Some(uris) => Some(MetadataView { metadata_uris: uris, ..record }),
            None => None,
        }
    } else if key == key_metadata_hash() {
        match optional_identifier(value) {
            Some(hash) => Some(MetadataView { metadata_hash: hash, ..record }),
            None => None,
        }
    } else if key == key_license_uris() {
        match text_list(value) {
            Some(uris) => Some(MetadataView { license_uris: uris, ..record }),
            None => None,
        }
    } else if key == key_license_hash() {
        match optional_identifier(value) {
            Some(hash) => Some(MetadataView { license_hash: hash, ..record }),
            None => None,
        }
    } else {
        Some(record)
    }
}

/// The key and the value of one entry: a pair whose head is an atom of valid
/// UTF-8.
pub open spec fn entry(tree: Tree) -> Option<(Seq<u8>, Tree)> {
    match tree {
        Tree::Pair(key, value) => match *key {
            Tree::Atom(name) => if valid_utf8(name) {
                Some((name, *value))
            } else {
                None
            },
            Tree::Pair(_, _) => None,
        },
        Tree::Atom(_) => None,
    }
}

/// The record after the entries of a list, read in order, so that a later
/// entry overrides an earlier one with the same key. `None` where the tree is
/// not a list of entries ended by the empty atom, or an entry does not apply.
pub open spec fn apply_entries(list: Tree, record: MetadataView) -> Option<MetadataView>
    decreases list,
{
    match list {
        Tree::Atom(bytes) => if bytes.len() == 0 {
            Some(record)
        } else {
            None
        },
        Tree::Pair(first, rest) => match entry(*first) {
            Some((key, value)) => match apply_entry(key, value, record) {
                Some(next) => apply_entries(*rest, next),
                None => None,
            },
            None => None,
        },
    }
}

/// The metadata that a tree holds under the schema.
pub open spec fn metadata_spec(tree: Tree) -> Option<MetadataView> {
    apply_entries(tree, default_metadata())
}

/// Whether a key is the given single byte.
fn key_is_1(key: &[u8], a: u8) -> (same: bool)
    ensures
        same == (key@ == seq![a]),
{
    assert(key@ =~= seq![a] <==> key@.len() == 1 && key@[0] == a);
    key.len() == 1 && key[0] == a
}

/// Whether a key is the given two bytes.
fn key_is_2(key: &[u8], a: u8, b: u8) -> (same: bool)
    ensures
        same == (key@ == seq![a, b]),
{
    assert(key@ =~= seq![a, b] <==> key@.len() == 2 && key@[0] == a && key@[1] == b);
    key.len() == 2 && key[0] == a && key[1] == b
}

/// Applies one entry to a record.
fn apply(key: &[u8], value: &Program, record: NftMetadata) -> (next: Option<NftMetadata>)
    ensures
        match apply_entry(key@, value@, record@) {
            Some(expected) => next is Some && next.unwrap()@ == expected,
            None => next is None,
        },
{
    let mut record = record;
    if key_is_2(key, 0x73, 0x6e) {
        record.edition_number = value.as_unsigned(8)?;
    } else if key_is_2(key, 0x73, 0x74) {
        record.edition_total = value.as_unsigned(8)?;
    } else if key_is_1(key, 0x75) {
        record.data_uris = value.as_text_list()?;
    } else if key_is_1(key, 0x68) {
        record.data_hash = value.as_optional_identifier()?;
    } else if key_is_2(key, 0x6d, 0x75) {
        record.metadata_uris = value.as_text_list()?;
    } else if key_is_2(key, 0x6d, 0x68) {
        record.metadata_hash = value.as_optional_identifier()?;
    } else if key_is_2(key, 0x6c, 0x75) {
        record.license_uris = value.as_text_list()?;
    } else if key_is_2(key, 0x6c, 0x68) {
        record.license_hash = value.as_optional_identifier()?;
    }
    Some(record)
}

impl NftMetadata {
    /// The record before any entry is read.
    pub fn new() -> (record: NftMetadata)
        ensures
            record@ == default_metadata(),
    {
        let record = NftMetadata {
            edition_number: 1,
            edition_total: 1,
            data_uris: Vec::new(),
            data_hash: None,
            metadata_uris: Vec::new(),
            metadata_hash: None,
            license_uris: Vec::new(),
            license_hash: None,
        };
        assert(texts(record.data_uris@) =~= Seq::<Seq<char>>::empty());
        assert(texts(record.metadata_uris@) =~= Seq::<Seq<char>>::empty());
        assert(texts(record.license_uris@) =~= Seq::<Seq<char>>::empty());
        record
    }

    /// Decodes a metadata blob against the schema. `None` where the blob does
    /// not follow it.
    pub fn decode(blob: &Program) -> (decoded: Option<NftMetadata>)
        ensures
            match metadata_spec(blob@) {
                Some(expected) => decoded is Some && decoded.unwrap()@ == expected,
                None => decoded is None,
            },
    {
        let mut record = NftMetadata::new();
        let mut list: &Program = blob;
        loop
            invariant
                metadata_spec(blob@) == apply_entries(list@, record@),
            decreases size(list@),
        {
            match list.as_pair() {
                None => {
                    assert(list@->Atom_0.len() == 0 ==> list@->Atom_0 =~= Seq::<u8>::empty());
                    if list.is_nil() {
                        return Some(record);
                    }
                    return None;
                },
                Some((first, rest)) => {
                    let (key, value) = match first.as_pair() {
                        Some(parts) => parts,
                        None => {
                            return None;
                        },
                    };
                    let name = match key.as_atom() {
                        Some(name) => name,
                        None => {
                            return None;
                        },
                    };
                    if key.as_text().is_none() {
                        return None;
                    }
                    match apply(name, value, record) {
                        Some(next) => {
                            record = next;
                            list = rest;
                        },
                        None => {
                            return None;
                        },
                    }
                },
            }
        }
    }
}

} // verus!
