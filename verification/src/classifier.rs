//! Classification of program log lines.

use vstd::prelude::*;
use crate::scan::{
    first_match, is_first_match, lemma_first_match, lemma_first_match_is, lemma_first_match_none,
};
use crate::text::{same_text, texts};

verus! {

/// The instruction that a log line of the watched program announces.
#[derive(Clone, Copy, Debug, PartialEq, Eq, Structural)]
pub enum InstructionKind {
    Create,
    Buy,
    Sell,
    /// Any line that is none of the three markers.
    Other,
}

/// The line the program logs when it runs its create instruction.
pub const CREATE_MARKER: &'static str = "Program log: Instruction: Create";

/// The line the program logs when it runs its buy instruction.
pub const BUY_MARKER: &'static str = "Program log: Instruction: Buy";

/// The line the program logs when it runs its sell instruction.
pub const SELL_MARKER: &'static str = "Program log: Instruction: Sell";

/// The kind a line stands for: a marker's kind when the line is that marker,
/// character for character, and `Other` for every other line.
pub open spec fn classification(line: Seq<char>) -> InstructionKind {
    if line == CREATE_MARKER@ {
        InstructionKind::Create
    } else if line == BUY_MARKER@ {
        InstructionKind::Buy
    } else if line == SELL_MARKER@ {
        InstructionKind::Sell
    } else {
        InstructionKind::Other
    }
}

/// The three markers differ from one another, so each classifies as its own
/// kind, and a line classifies as `Other` exactly when it is none of them.
pub proof fn lemma_classification_is_exact(line: Seq<char>)
    ensures
        classification(line) == InstructionKind::Create <==> line == CREATE_MARKER@,
        classification(line) == InstructionKind::Buy <==> line == BUY_MARKER@,
        classification(line) == InstructionKind::Sell <==> line == SELL_MARKER@,
        classification(line) == InstructionKind::Other <==> line != CREATE_MARKER@ && line
            != BUY_MARKER@ && line != SELL_MARKER@,
{
    reveal_strlit("Program log: Instruction: Create");
    reveal_strlit("Program log: Instruction: Buy");
    reveal_strlit("Program log: Instruction: Sell");
    assert(CREATE_MARKER@.len() == 32);
    assert(BUY_MARKER@.len() == 29);
    assert(SELL_MARKER@.len() == 30);
}

/// Classifies one log line.
pub fn classify(line: &str) -> (kind: InstructionKind)
    ensures
        kind == classification(line@),
{
    if same_text(line, CREATE_MARKER) {
        InstructionKind::Create
    } else if same_text(line, BUY_MARKER) {
        InstructionKind::Buy
    } else if same_text(line, SELL_MARKER) {
        InstructionKind::Sell
    } else {
        InstructionKind::Other
    }
}

/// Whether a line is one of the three markers.
pub open spec fn is_recognized(line: Seq<char>) -> bool {
    classification(line) != InstructionKind::Other
}

/// `is_recognized`, as a condition to search by.
pub open spec fn recognized() -> spec_fn(Seq<char>) -> bool {
    |line: Seq<char>| is_recognized(line)
}

/// The kind of the first line that is one of the markers, and `Other` where no
/// line is. Lines after that one play no part.
pub open spec fn first_kind(lines: Seq<Seq<char>>) -> InstructionKind {
    match first_match(lines, recognized()) {
        Some(index) => classification(lines[index]),
        None => InstructionKind::Other,
    }
}

/// The first kind found in a batch is the classification of its first
/// recognized line, whatever follows that line; it is `Other` exactly when
/// no line of the batch is recognized.
pub proof fn lemma_first_kind(lines: Seq<Seq<char>>)
    ensures
        forall|index: int|
            is_first_match(lines, recognized(), index) ==> first_kind(lines) == classification(
                lines[index],
            ),
        first_kind(lines) == InstructionKind::Other <==> forall|j: int|
            0 <= j < lines.len() ==> !is_recognized(#[trigger] lines[j]),
{
    lemma_first_match(lines, recognized());
    assert forall|index: int| is_first_match(lines, recognized(), index) implies first_kind(lines)
        == classification(lines[index]) by {
        lemma_first_match_is(lines, recognized(), index);
    }
    if forall|j: int| 0 <= j < lines.len() ==> !is_recognized(#[trigger] lines[j]) {
        lemma_first_match_none(lines, recognized());
    }
}

/// Scans the lines of one batch in delivery order and stops at the first one
/// that is a marker.
pub fn first_recognized(lines: &Vec<String>) -> (kind: InstructionKind)
    ensures
        kind == first_kind(texts(lines@)),
{
    let ghost all = texts(lines@);
    let mut index: usize = 0;
    while index < lines.len()
        invariant
            index <= lines.len(),
            all == texts(lines@),
            forall|j: int| 0 <= j < index ==> !is_recognized(#[trigger] all[j]),
        decreases lines.len() - index,
    {
        let kind = classify(lines[index].as_str());
        if kind != InstructionKind::Other {
            proof {
                lemma_first_match_is(all, recognized(), index as int);
            }
            return kind;
        }
        index += 1;
    }
    proof {
        lemma_first_match_none(all, recognized());
    }
    InstructionKind::Other
}

} // verus!
