//! The chain selector: which formatting the derived keys and address follow.
use crate::primitives::{lowercase_of, to_lowercase};
use crate::text::same_text;
use vstd::prelude::*;

verus! {

/// The target chain of a derivation. Every chain uses the same secp256k1 key; only
/// Ethereum has its own public-key and address format.
#[derive(Clone, Copy, Debug, PartialEq, Eq, Structural)]
pub enum ChainSelector {
    Ethereum,
    Polkadot,
    Kusama,
    Unrecognized,
}

pub open spec fn ethereum_name() -> Seq<char> {
    seq!['e', 't', 'h', 'e', 'r', 'e', 'u', 'm']
}

pub open spec fn polkadot_name() -> Seq<char> {
    seq!['p', 'o', 'l', 'k', 'a', 'd', 'o', 't']
}

pub open spec fn kusama_name() -> Seq<char> {
    seq!['k', 'u', 's', 'a', 'm', 'a']
}

/// The selector of a chain name, given the name and its lower-case form: the empty name
/// means Ethereum, and otherwise the lower-case form is matched.
pub open spec fn chain_of_lowered(name: Seq<char>, lower: Seq<char>) -> ChainSelector {
    if name.len() == 0 || lower == ethereum_name() {
        ChainSelector::Ethereum
    } else if lower == polkadot_name() {
        ChainSelector::Polkadot
    } else if lower == kusama_name() {
        ChainSelector::Kusama
    } else {
        ChainSelector::Unrecognized
    }
}

/// The selector that a chain name denotes: names are compared after lower-casing, and
/// the empty name means Ethereum.
pub open spec fn chain_of(name: Seq<char>) -> ChainSelector {
    chain_of_lowered(name, lowercase_of(name))
}

/// Resolves a chain name to its selector, given the name's lower-case form.
pub fn chain_from_lowered(name: &str, lower: &str) -> (r: ChainSelector)
    ensures
        r == chain_of_lowered(name@, lower@),
{
    proof {
        reveal_strlit("ethereum");
        reveal_strlit("polkadot");
        reveal_strlit("kusama");
        assert("ethereum"@ =~= ethereum_name());
        assert("polkadot"@ =~= polkadot_name());
        assert("kusama"@ =~= kusama_name());
    }
    if name.is_empty() || same_text(lower, "ethereum") {
        ChainSelector::Ethereum
    } else if same_text(lower, "polkadot") {
        ChainSelector::Polkadot
    } else if same_text(lower, "kusama") {
        ChainSelector::Kusama
    } else {
        ChainSelector::Unrecognized
    }
}

/// Resolves a chain name to its selector.
pub fn parse_chain(name: &str) -> (r: ChainSelector)
    ensures
        r == chain_of(name@),
{
    let lower = to_lowercase(name);
    chain_from_lowered(name, lower.as_str())
}

} // verus!
