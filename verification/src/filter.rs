//! The watch filter: which address, if any, a resolved transaction reports
//! for the configured target.
//!
//! The log stream carries no instruction arguments, so the mint is picked out
//! of the account keys by convention. The create, buy and sell instructions of
//! the watched program all list the mint as their second account. Mints that
//! the program generates have an address that ends in a fixed suffix. Both
//! conventions belong to the current version of the program and are kept in
//! this module alone.

use vstd::prelude::*;
use crate::classifier::InstructionKind;
use crate::scan::{
    first_match, is_first_match, lemma_first_match, lemma_first_match_is, lemma_first_match_none,
};
use crate::text::{ends_with, has_suffix, text_of, texts};

verus! {

/// What a run watches for. Fixed for the lifetime of a run.
#[derive(Clone, Debug, PartialEq, Eq)]
pub enum WatchTarget {
    /// Every token that the program creates.
    AnyCreation,
    /// Buys and sells of the token with this mint address.
    Token(String),
    /// Buys and sells that involve the wallet with this address.
    Wallet(String),
}

/// The mathematical form of a `WatchTarget`.
pub enum TargetView {
    AnyCreation,
    Token(Seq<char>),
    Wallet(Seq<char>),
}

impl View for WatchTarget {
    type V = TargetView;

    open spec fn view(&self) -> TargetView {
        match self {
            WatchTarget::AnyCreation => TargetView::AnyCreation,
            WatchTarget::Token(mint) => TargetView::Token(mint@),
            WatchTarget::Wallet(wallet) => TargetView::Wallet(wallet@),
        }
    }
}

/// Position of the mint among the account keys of a create, buy or sell
/// instruction of the watched program.
pub const MINT_POSITION: usize = 1;

/// The ending of the mint addresses that the watched program generates.
pub const MINT_SUFFIX: &'static str = "pump";

/// Whether a target asks for instructions of the given kind: a creation watch
/// for creations, a token or wallet watch for buys and sells.
pub open spec fn watches(target: TargetView, kind: InstructionKind) -> bool {
    match target {
        TargetView::AnyCreation => kind == InstructionKind::Create,
        _ => kind == InstructionKind::Buy || kind == InstructionKind::Sell,
    }
}

/// The address at the mint's conventional position, if the list is that long.
pub open spec fn candidate(keys: Seq<Seq<char>>) -> Option<Seq<char>> {
    if keys.len() > MINT_POSITION {
        Some(keys[MINT_POSITION as int])
    } else {
        None
    }
}

/// Whether an address has the ending of a generated mint address.
pub open spec fn is_mint_like(address: Seq<char>) -> bool {
    ends_with(address, MINT_SUFFIX@)
}

/// An address is mint-like exactly when it has four characters or more and
/// the last four spell the suffix.
pub proof fn lemma_mint_like_spelled_out(address: Seq<char>)
    ensures
        is_mint_like(address) <==> {
            &&& address.len() >= 4
            &&& address[address.len() - 4] == 'p'
            &&& address[address.len() - 3] == 'u'
            &&& address[address.len() - 2] == 'm'
            &&& address[address.len() - 1] == 'p'
        },
{
    reveal_strlit("pump");
    let suffix = MINT_SUFFIX@;
    if address.len() >= 4 {
        let tail = address.subrange(address.len() - 4, address.len() as int);
        assert(suffix[0] == 'p' && suffix[1] == 'u' && suffix[2] == 'm' && suffix[3] == 'p');
        if address[address.len() - 4] == 'p' && address[address.len() - 3] == 'u' && address[address.len()
            - 2] == 'm' && address[address.len() - 1] == 'p' {
            assert(tail =~= suffix);
        }
    }
}

/// `is_mint_like`, as a condition to search by.
pub open spec fn mint_like() -> spec_fn(Seq<char>) -> bool {
    |address: Seq<char>| is_mint_like(address)
}

/// The address that the account keys of a transaction report for a target.
///
/// A creation watch reports the candidate. A token watch reports the
/// candidate where it is the watched mint. A wallet watch reports the first
/// mint-like address of the list where the list holds the wallet.
pub open spec fn reported(keys: Seq<Seq<char>>, target: TargetView) -> Option<Seq<char>> {
    match target {
        TargetView::AnyCreation => candidate(keys),
        TargetView::Token(mint) => if candidate(keys) == Some(mint) {
            Some(mint)
        } else {
            None
        },
        TargetView::Wallet(wallet) => if keys.contains(wallet) {
            match first_match(keys, mint_like()) {
                Some(index) => Some(keys[index]),
                None => None,
            }
        } else {
            None
        },
    }
}

/// Whether a target asks for instructions of the given kind.
pub fn is_watched(target: &WatchTarget, kind: InstructionKind) -> (watched: bool)
    ensures
        watched == watches(target@, kind),
{
    match target {
        WatchTarget::AnyCreation => kind == InstructionKind::Create,
        _ => kind == InstructionKind::Buy || kind == InstructionKind::Sell,
    }
}

/// Whether the list holds the given address.
fn holds_address(keys: &Vec<String>, address: &String) -> (found: bool)
    ensures
        found == texts(keys@).contains(address@),
{
    let ghost all = texts(keys@);
    let mut index: usize = 0;
    while index < keys.len()
        invariant
            index <= keys.len(),
            all == texts(keys@),
            forall|j: int| 0 <= j < index ==> all[j] != address@,
        decreases keys.len() - index,
    {
        if keys[index] == *address {
            assert(all[index as int] == address@);
            return true;
        }
        index += 1;
    }
    false
}

/// The first address of the list that has the ending of a generated mint.
fn first_mint_like(keys: &Vec<String>) -> (found: Option<String>)
    ensures
        text_of(found) == match first_match(texts(keys@), mint_like()) {
            Some(index) => Some(texts(keys@)[index]),
            None => None,
        },
{
    let ghost all = texts(keys@);
    let mut index: usize = 0;
    while index < keys.len()
        invariant
            index <= keys.len(),
            all == texts(keys@),
            forall|j: int| 0 <= j < index ==> !is_mint_like(#[trigger] all[j]),
        decreases keys.len() - index,
    {
        if has_suffix(keys[index].as_str(), MINT_SUFFIX) {
            proof {
                lemma_first_match_is(all, mint_like(), index as int);
            }
            return Some(keys[index].clone());
        }
        index += 1;
    }
    proof {
        lemma_first_match_none(all, mint_like());
    }
    None
}

/// Decides which address the account keys of a resolved transaction report
/// for the target, or that they report none.
pub fn evaluate(keys: &Vec<String>, target: &WatchTarget) -> (address: Option<String>)
    ensures
        text_of(address) == reported(texts(keys@), target@),
{
    match target {
        WatchTarget::AnyCreation => {
            if keys.len() > MINT_POSITION {
                Some(keys[MINT_POSITION].clone())
            } else {
                None
            }
        },
        WatchTarget::Token(mint) => {
            if keys.len() > MINT_POSITION && keys[MINT_POSITION] == *mint {
                Some(keys[MINT_POSITION].clone())
            } else {
                None
            }
        },
        WatchTarget::Wallet(wallet) => {
            if holds_address(keys, wallet) {
                first_mint_like(keys)
            } else {
                None
            }
        },
    }
}

/// A creation watch reports exactly the second address of a list of two or
/// more, and nothing for a shorter list.
pub proof fn lemma_any_creation_reports_second(keys: Seq<Seq<char>>)
    ensures
        keys.len() >= 2 ==> reported(keys, TargetView::AnyCreation) == Some(keys[1]),
        keys.len() < 2 ==> reported(keys, TargetView::AnyCreation) is None,
{
}

/// A token watch reports the second address exactly when that address is,
/// character for character, the watched mint; otherwise it reports nothing.
pub proof fn lemma_token_reports_on_equality(keys: Seq<Seq<char>>, mint: Seq<char>)
    ensures
        keys.len() >= 2 && keys[1] == mint ==> reported(keys, TargetView::Token(mint)) == Some(
            keys[1],
        ),
        keys.len() < 2 || keys[1] != mint ==> reported(keys, TargetView::Token(mint)) is None,
{
}

/// A wallet watch reports nothing for a list without the wallet, and nothing
/// for a list without a mint-like address. For a list that holds the wallet
/// and a mint-like address it reports the first mint-like address of the list.
pub proof fn lemma_wallet_reports_first_mint_like(keys: Seq<Seq<char>>, wallet: Seq<char>)
    ensures
        !keys.contains(wallet) ==> reported(keys, TargetView::Wallet(wallet)) is None,
        (forall|j: int| 0 <= j < keys.len() ==> !is_mint_like(#[trigger] keys[j])) ==> reported(
            keys,
            TargetView::Wallet(wallet),
        ) is None,
        forall|index: int|
            keys.contains(wallet) && is_first_match(keys, mint_like(), index) ==> reported(
                keys,
                TargetView::Wallet(wallet),
            ) == Some(keys[index]),
        keys.contains(wallet) && (exists|j: int| 0 <= j < keys.len() && is_mint_like(#[trigger] keys[j]))
            ==> reported(keys, TargetView::Wallet(wallet)) is Some,
{
    lemma_first_match(keys, mint_like());
    if forall|j: int| 0 <= j < keys.len() ==> !is_mint_like(#[trigger] keys[j]) {
        lemma_first_match_none(keys, mint_like());
    }
    assert forall|index: int|
        keys.contains(wallet) && is_first_match(keys, mint_like(), index) implies reported(
        keys,
        TargetView::Wallet(wallet),
    ) == Some(keys[index]) by {
        lemma_first_match_is(keys, mint_like(), index);
    }
}

} // verus!
