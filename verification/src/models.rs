//! Core data model: the discovered-token record, its source tag, and the
//! event handed to the downstream sink.
//!
//! On-chain values that outside crates represent with their own types are
//! held here as plain values: timestamps as unix seconds, public keys as
//! base58 strings, supplies as integers.

use vstd::prelude::*;
use crate::strutil::{lower_seq, eq_ignore_ascii_case};

verus! {

/// Where a discovered token was first seen.
#[derive(Clone, Copy, Debug, PartialEq, Eq, Structural)]
pub enum TokenSource {
    Pumpfun,
    OnChain,
}

/// A coarse risk grade; the discovery core never assigns one.
#[derive(Clone, Copy, Debug, PartialEq, Eq, Structural)]
pub enum RiskLevel {
    Low,
    Medium,
    High,
}

/// Failure to read a [`TokenSource`] from a string.
#[derive(Clone, Debug)]
pub enum TokenSourceParseError {
    InvalidSource(String),
}

/// The native wrapped-asset placeholder mint; never reported as a token.
pub open spec fn wrapped_native_mint() -> Seq<char> {
    "So11111111111111111111111111111111111111112"@
}

/// The native wrapped-asset placeholder mint address.
pub fn wrapped_native_mint_str() -> (r: &'static str)
    ensures
        r@ == wrapped_native_mint(),
{
    "So11111111111111111111111111111111111111112"
}

impl TokenSource {
    /// The fixed display name of the variant.
    pub fn label(&self) -> (r: &'static str)
        ensures
            self is Pumpfun ==> r@ == "Pumpfun"@,
            self is OnChain ==> r@ == "Onchain"@,
    {
        match self {
            TokenSource::Pumpfun => "Pumpfun",
            TokenSource::OnChain => "Onchain",
        }
    }

    /// Reads a source tag, ASCII-case-insensitively.  `"pumpfun"` parses to
    /// [`TokenSource::Pumpfun`]; `"onchain"` and the alias `"on-chain"` parse
    /// to [`TokenSource::OnChain`]; everything else is rejected with the
    /// offending string.
    pub fn from_str(s: &str) -> (r: Result<TokenSource, TokenSourceParseError>)
        ensures
            lower_seq(s@) == "pumpfun"@ ==> r == Ok::<TokenSource, TokenSourceParseError>(
                TokenSource::Pumpfun,
            ),
            lower_seq(s@) == "onchain"@ || lower_seq(s@) == "on-chain"@ ==> r == Ok::<
                TokenSource,
                TokenSourceParseError,
            >(TokenSource::OnChain),
            !(lower_seq(s@) == "pumpfun"@ || lower_seq(s@) == "onchain"@ || lower_seq(s@)
                == "on-chain"@) ==> (r matches Err(TokenSourceParseError::InvalidSource(t))
                && t@ == s@),
    {
        proof {
            reveal_strlit("pumpfun");
            reveal_strlit("onchain");
            reveal_strlit("on-chain");
            assert("pumpfun"@[0] == 'p');
            assert("onchain"@[0] == 'o');
            assert("pumpfun"@.len() == 7);
            assert("on-chain"@.len() == 8);
        }
        if eq_ignore_ascii_case(s, "pumpfun") {
            Ok(TokenSource::Pumpfun)
        } else if eq_ignore_ascii_case(s, "onchain") {
            Ok(TokenSource::OnChain)
        } else if eq_ignore_ascii_case(s, "on-chain") {
            Ok(TokenSource::OnChain)
        } else {
            Err(TokenSourceParseError::InvalidSource(s.to_owned()))
        }
    }
}

impl RiskLevel {
    /// The fixed display name of the grade.
    pub fn label(&self) -> (r: &'static str)
        ensures
            self is Low ==> r@ == "Low"@,
            self is Medium ==> r@ == "Medium"@,
            self is High ==> r@ == "High"@,
    {
        match self {
            RiskLevel::Low => "Low",
            RiskLevel::Medium => "Medium",
            RiskLevel::High => "High",
        }
    }
}

/// The discovered-token record.
///
/// Timestamps are unix seconds; pool addresses are base58 strings; the
/// total supply is the raw on-chain integer amount.  The enrichment fields
/// (holders, liquidity, pools, score, risk) are populated by later pipeline
/// stages and default to absent or zero here.
#[derive(Clone, Debug)]
pub struct Token {
    pub mint_address: String,
    pub created_at: i64,
    pub discovered_at: i64,
    pub source: TokenSource,
    pub name: Option<String>,
    pub symbol: Option<String>,
    pub decimals: u8,
    pub total_supply: u64,
    pub holder_count: Option<u32>,
    pub top_10_holder_percentage: Option<u64>,
    pub liquidity_sol: Option<u64>,
    pub liquidity_locked: Option<bool>,
    pub lp_burned: Option<bool>,
    pub mint_authority_disabled: bool,
    pub freeze_authority_disabled: bool,
    pub raydium_pool: Option<String>,
    pub pump_fun_bonding_curve: Option<String>,
    pub orca_pool: Option<String>,
    pub meteora_pool: Option<String>,
    pub four_meme_pool: Option<String>,
    pub base_pair: Option<String>,
    pub bsc_pair: Option<String>,
    pub score: Option<i32>,
    pub risk_level: Option<RiskLevel>,
}

impl Token {
    /// Well-formedness: the mint address is non-empty and is never the
    /// native wrapped-asset placeholder.
    pub open spec fn wf(self) -> bool {
        self.mint_address@.len() > 0 && self.mint_address@ != wrapped_native_mint()
    }
}

/// What the pipeline hands to the event sink; discovery is the only
/// variant this core produces.
#[derive(Clone, Debug)]
pub enum Event {
    TokenDiscovered(Token),
}

} // verus!
