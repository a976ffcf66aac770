//! Coin-spend records: from the text fields of an input record to the
//! decoded layers of its puzzle.

use crate::compose::{decode_full, decode_full_spec, Decoded, DecodedView};
use crate::encoding::decode_spec;
use crate::error::DecodeError;
use crate::hash::Bytes32;
use crate::hexstr::{decode_hex, decode_hex32, hex32_field, hex_field};
use crate::program::Program;
use crate::puzzle::{classify, Puzzle};
use std::rc::Rc;
use vstd::prelude::*;

verus! {

/// The coin of an input record, its identifiers still hexadecimal text.
#[derive(Debug, Clone, PartialEq, Eq)]
pub struct CoinJson {
    pub parent_coin_info: String,
    pub puzzle_hash: String,
    pub amount: u64,
}

/// One input record: a coin with the puzzle that was revealed and the
/// solution that was given, both hexadecimal text.
#[derive(Debug, Clone, PartialEq, Eq)]
pub struct BlockSpend {
    pub coin: CoinJson,
    pub puzzle_reveal: String,
    pub solution: String,
}

/// The identity of a coin.
#[derive(Debug, Clone, Copy, PartialEq, Eq)]
pub struct Coin {
    pub parent_coin_info: Bytes32,
    pub puzzle_hash: Bytes32,
    pub amount: u64,
}

/// A coin with its serialized puzzle and solution.
#[derive(Debug, Clone, PartialEq, Eq)]
pub struct CoinSpend {
    pub coin: Coin,
    pub puzzle_reveal: Vec<u8>,
    pub solution: Vec<u8>,
}

/// The mathematical value of an input record.
pub struct BlockSpendView {
    pub parent_coin_info: Seq<char>,
    pub puzzle_hash: Seq<char>,
    pub amount: u64,
    pub puzzle_reveal: Seq<char>,
    pub solution: Seq<char>,
}

impl View for BlockSpend {
    type V = BlockSpendView;

    open spec fn view(&self) -> BlockSpendView {
        BlockSpendView {
            parent_coin_info: self.coin.parent_coin_info@,
            puzzle_hash: self.coin.puzzle_hash@,
            amount: self.coin.amount,
            puzzle_reveal: self.puzzle_reveal@,
            solution: self.solution@,
        }
    }
}

/// The mathematical value of a coin spend.
pub struct CoinSpendView {
    pub parent_coin_info: Seq<u8>,
    pub puzzle_hash: Seq<u8>,
    pub amount: u64,
    pub puzzle_reveal: Seq<u8>,
    pub solution: Seq<u8>,
}

impl View for CoinSpend {
    type V = CoinSpendView;

    open spec fn view(&self) -> CoinSpendView {
        CoinSpendView {
            parent_coin_info: self.coin.parent_coin_info@,
            puzzle_hash: self.coin.puzzle_hash@,
            amount: self.coin.amount,
            puzzle_reveal: self.puzzle_reveal@,
            solution: self.solution@,
        }
    }
}

/// The coin spend that a record spells. The fields are read in the order
/// parent, puzzle hash, puzzle, solution, and the first that fails decides
/// the error.
pub open spec fn coin_spend_spec(record: BlockSpendView) -> Result<CoinSpendView, DecodeError> {
    match hex32_field(record.parent_coin_info) {
        Err(error) => Err(error),
        Ok(parent_coin_info) => match hex32_field(record.puzzle_hash) {
            Err(error) => Err(error),
            Ok(puzzle_hash) => match hex_field(record.puzzle_reveal) {
                Err(error) => Err(error),
                Ok(puzzle_reveal) => match hex_field(record.solution) {
                    Err(error) => Err(error),
                    Ok(solution) => Ok(
                        CoinSpendView {
                            parent_coin_info,
                            puzzle_hash,
                            amount: record.amount,
                            puzzle_reveal,
                            solution,
                        },
                    ),
                },
            },
        },
    }
}

/// What the puzzle of a coin spend decodes to.
pub open spec fn analyse_spec(spend: CoinSpendView) -> Result<DecodedView, DecodeError> {
    match decode_spec(spend.puzzle_reveal) {
        Err(error) => Err(error),
        Ok(tree) => decode_full_spec(classify(tree)),
    }
}

/// What a record decodes to.
pub open spec fn process_spec(record: BlockSpendView) -> Result<DecodedView, DecodeError> {
    match coin_spend_spec(record) {
        Err(error) => Err(error),
        Ok(spend) => analyse_spec(spend),
    }
}

/// Whether an outcome is the given result, value for value.
pub open spec fn outcome_is(
    outcome: Result<Decoded, DecodeError>,
    expected: Result<DecodedView, DecodeError>,
) -> bool {
    match expected {
        Ok(decoded) => outcome matches Ok(value) && value@ == decoded,
        Err(error) => outcome matches Err(e) && e == error,
    }
}

impl CoinSpend {
    /// Reads the text fields of a record.
    pub fn from_record(record: &BlockSpend) -> (spend: Result<CoinSpend, DecodeError>)
        ensures
            match coin_spend_spec(record@) {
                Ok(expected) => spend is Ok && spend.unwrap()@ == expected,
                Err(error) => spend matches Err(e) && e == error,
            },
    {
        let parent_coin_info = decode_hex32(record.coin.parent_coin_info.as_str())?;
        let puzzle_hash = decode_hex32(record.coin.puzzle_hash.as_str())?;
        let puzzle_reveal = decode_hex(record.puzzle_reveal.as_str())?;
        let solution = decode_hex(record.solution.as_str())?;
        Ok(
            CoinSpend {
                coin: Coin { parent_coin_info, puzzle_hash, amount: record.coin.amount },
                puzzle_reveal,
                solution,
            },
        )
    }

    /// Decodes the puzzle of the spend and its layers.
    pub fn analyse(&self) -> (outcome: Result<Decoded, DecodeError>)
        ensures
            outcome_is(outcome, analyse_spec(self@)),
    {
        let program = Program::from_bytes(self.puzzle_reveal.as_slice())?;
        let puzzle = Puzzle::parse(&Rc::new(program));
        decode_full(&puzzle)
    }
}

/// Decodes one record: its fields, its puzzle and the puzzle's layers.
pub fn process_record(record: &BlockSpend) -> (outcome: Result<Decoded, DecodeError>)
    ensures
        outcome_is(outcome, process_spec(record@)),
{
    let spend = CoinSpend::from_record(record)?;
    spend.analyse()
}

/// The number of records that a run reads: all of them where the run is
/// resilient, else those up to and including the first that fails.
pub open spec fn records_read(records: Seq<BlockSpend>, resilient: bool) -> int
    decreases records.len(),
{
    if records.len() == 0 {
        0
    } else if !resilient && process_spec(records[0]@) is Err {
        1
    } else {
        1 + records_read(records.skip(1), resilient)
    }
}

/// Decodes the records of a batch in order, one outcome a record. A record
/// that fails does not touch the outcome of any other. A resilient run goes
/// on after a failure; a run that is not stops with the first failure as its
/// last outcome.
pub fn process_batch(records: &Vec<BlockSpend>, resilient: bool) -> (outcomes: Vec<
    Result<Decoded, DecodeError>,
>)
    ensures
        outcomes@.len() == records_read(records@, resilient),
        outcomes@.len() <= records@.len(),
        resilient ==> outcomes@.len() == records@.len(),
        forall|i: int|
            0 <= i < outcomes@.len() ==> outcome_is(
                #[trigger] outcomes@[i],
                process_spec(records@[i]@),
            ),
{
    let mut outcomes: Vec<Result<Decoded, DecodeError>> = Vec::new();
    let mut i: usize = 0;
    assert(records@.skip(0) =~= records@);
    proof {
        lemma_resilient_reads_all(records@);
    }
    while i < records.len()
        invariant
            i <= records@.len(),
            outcomes@.len() == i,
            records_read(records@, resilient) == i + records_read(records@.skip(i as int), resilient),
            resilient ==> records_read(records@.skip(i as int), resilient) == records@.len() - i,
            forall|k: int|
                0 <= k < i ==> outcome_is(#[trigger] outcomes@[k], process_spec(records@[k]@)),
        decreases records@.len() - i,
    {
        let ghost rest = records@.skip(i as int);
        assert(rest[0] == records@[i as int]);
        assert(rest.skip(1) =~= records@.skip(i + 1));
        let outcome = process_record(&records[i]);
        let failed = outcome.is_err();
        outcomes.push(outcome);
        if failed && !resilient {
            return outcomes;
        }
        proof {
            lemma_resilient_reads_all(records@.skip(i + 1));
        }
        i += 1;
    }
    outcomes
}

/// A resilient run reads every record.
pub proof fn lemma_resilient_reads_all(records: Seq<BlockSpend>)
    ensures
        records_read(records, true) == records.len(),
    decreases records.len(),
{
    if records.len() > 0 {
        lemma_resilient_reads_all(records.skip(1));
    }
}

} // verus!
