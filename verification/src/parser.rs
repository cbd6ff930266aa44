//! Resolution of a creation event into a token record.
//!
//! Given a fetched transaction's parsed instruction list, the parser
//! extracts the candidate mint from the first associated-token-account
//! "create idempotent" instruction, rejects the native wrapped-asset
//! placeholder, resolves a best-effort creation time, decodes the mint
//! account, and assembles the token record.  Every step has a defined
//! short-circuit to "no token"; none raises an error.

use vstd::prelude::*;
use std::str::FromStr;
use crate::strutil::str_eq;
use crate::models::{Token, TokenSource, wrapped_native_mint, wrapped_native_mint_str};
use crate::mint::{MintInfo, TokenInfo, decode_mint_account, mint_layout_ok, legacy_token_program_id, token_2022_program_id, le_u64_val, coption_some_tag};

verus! {

/// One instruction of a fetched transaction, as the JSON-parsed encoding
/// presents it: the owning program's human name and base58 identifier,
/// the instruction's stated type tag, and its "info.mint" field where
/// the parsed form has one.
#[derive(Clone, Debug)]
pub struct ParsedInstruction {
    pub program: String,
    pub program_id: String,
    pub kind: String,
    pub mint: Option<String>,
}

/// The base58 identifier of the associated-token-account program.
pub open spec fn ata_program_id() -> Seq<char> {
    "ATokenGPvbdGVxr1b2hvZbsiqW5xWH25efTNsLJA8knL"@
}

/// The associated-token-account program's identifier.
pub fn ata_program_id_str() -> (r: &'static str)
    ensures
        r@ == ata_program_id(),
{
    "ATokenGPvbdGVxr1b2hvZbsiqW5xWH25efTNsLJA8knL"
}

/// Whether a string is a well-formed base58-encoded 32-byte key depends
/// on the string alone.
pub uninterp spec fn pubkey_valid(s: Seq<char>) -> bool;

/// Relies on `solana_program::pubkey::Pubkey::from_str`: it accepts
/// exactly the base58 strings that decode to 32 bytes, a property of the
/// string alone.
#[verifier::external_body]
pub fn is_valid_pubkey(s: &str) -> (r: bool)
    ensures
        r == pubkey_valid(s@),
{
    solana_program::pubkey::Pubkey::from_str(s).is_ok()
}

/// The instruction names the candidate mint of a creation event: an
/// associated-token-account "create idempotent" instruction, stated by
/// the matching program, whose parsed form carries a well-formed mint.
pub open spec fn yields_mint(pi: ParsedInstruction) -> bool {
    &&& pi.program@ == "spl-associated-token-account"@
    &&& pi.program_id@ == ata_program_id()
    &&& pi.kind@ == "createIdempotent"@
    &&& pi.mint is Some
    &&& pi.mint->Some_0@.len() > 0
    &&& pubkey_valid(pi.mint->Some_0@)
}

/// The mint named by the first instruction that yields one.
pub open spec fn spec_extract_mint(instrs: Seq<ParsedInstruction>) -> Option<Seq<char>>
    decreases instrs.len(),
{
    if instrs.len() == 0 {
        None
    } else if yields_mint(instrs[0]) {
        Some(instrs[0].mint->Some_0@)
    } else {
        spec_extract_mint(instrs.drop_first())
    }
}

/// Law: no instruction yields a mint exactly when extraction comes up
/// empty — a notification without a create-idempotent entry resolves to
/// no token.
pub proof fn lemma_extract_mint_none(instrs: Seq<ParsedInstruction>)
    ensures
        spec_extract_mint(instrs) is None <==> (forall|i: int|
            0 <= i < instrs.len() ==> !yields_mint(instrs[i])),
    decreases instrs.len(),
{
    if instrs.len() > 0 {
        lemma_extract_mint_none(instrs.drop_first());
        assert forall|i: int| 1 <= i < instrs.len() implies instrs.drop_first()[i - 1]
            == instrs[i] by {}
    }
}

/// Law: when extraction yields a mint, it is the mint of an instruction
/// in the list that yields one, and no earlier instruction does — the
/// first match wins.
pub proof fn lemma_extract_mint_first(instrs: Seq<ParsedInstruction>)
    requires
        spec_extract_mint(instrs) is Some,
    ensures
        exists|i: int|
            0 <= i < instrs.len() && yields_mint(instrs[i]) && spec_extract_mint(instrs) == Some(
                instrs[i].mint->Some_0@,
            ) && (forall|j: int| 0 <= j < i ==> !yields_mint(instrs[j])),
    decreases instrs.len(),
{
    if yields_mint(instrs[0]) {
        assert(0 <= 0 < instrs.len() && yields_mint(instrs[0]) && spec_extract_mint(instrs)
            == Some(instrs[0].mint->Some_0@) && (forall|j: int|
            0 <= j < 0 ==> !yields_mint(instrs[j])));
    } else {
        lemma_extract_mint_first(instrs.drop_first());
        let i0 = choose|i: int|
            0 <= i < instrs.drop_first().len() && yields_mint(instrs.drop_first()[i])
                && spec_extract_mint(instrs.drop_first()) == Some(
                instrs.drop_first()[i].mint->Some_0@,
            ) && (forall|j: int| 0 <= j < i ==> !yields_mint(instrs.drop_first()[j]));
        assert(instrs.drop_first()[i0] == instrs[i0 + 1]);
        assert forall|j: int| 0 <= j < i0 + 1 implies !yields_mint(instrs[j]) by {
            if j > 0 {
                assert(instrs.drop_first()[j - 1] == instrs[j]);
            }
        }
        assert(0 <= i0 + 1 < instrs.len() && yields_mint(instrs[i0 + 1]) && spec_extract_mint(
            instrs,
        ) == Some(instrs[i0 + 1].mint->Some_0@) && (forall|j: int|
            0 <= j < i0 + 1 ==> !yields_mint(instrs[j])));
    }
}

/// Does this instruction yield a candidate mint, and which?
fn instr_mint(pi: &ParsedInstruction) -> (r: Option<String>)
    ensures
        r is Some <==> yields_mint(*pi),
        r matches Some(m) ==> m@ == pi.mint->Some_0@,
{
    if str_eq(pi.program.as_str(), "spl-associated-token-account") && str_eq(
        pi.program_id.as_str(),
        ata_program_id_str(),
    ) && str_eq(pi.kind.as_str(), "createIdempotent") {
        match &pi.mint {
            Some(m) => if !m.as_str().is_empty() && is_valid_pubkey(m.as_str()) {
                Some(m.clone())
            } else {
                None
            },
            None => None,
        }
    } else {
        None
    }
}

/// Scans the parsed instruction list for the first associated-token-
/// account "create idempotent" instruction and extracts its mint; first
/// match wins, absence of any match yields `None`.
pub fn extract_mint_address(instrs: &Vec<ParsedInstruction>) -> (r: Option<String>)
    ensures
        r is Some <==> spec_extract_mint(instrs@) is Some,
        r matches Some(m) ==> spec_extract_mint(instrs@) == Some(m@) && m@.len() > 0,
{
    let n = instrs.len();
    let mut i: usize = 0;
    proof {
        assert(instrs@.skip(0) =~= instrs@);
    }
    while i < n
        invariant
            i <= n,
            n == instrs@.len(),
            spec_extract_mint(instrs@.skip(i as int)) == spec_extract_mint(instrs@),
        decreases n - i,
    {
        proof {
            assert(instrs@.skip(i as int)[0] == instrs@[i as int]);
            assert(instrs@.skip(i as int).drop_first() =~= instrs@.skip(i as int + 1));
        }
        match instr_mint(&instrs[i]) {
            Some(m) => {
                return Some(m);
            },
            None => {},
        }
        i = i + 1;
    }
    proof {
        assert(instrs@.skip(n as int) =~= Seq::<ParsedInstruction>::empty());
    }
    None
}

/// Is this mint the native wrapped-asset placeholder?
pub fn is_wrapped_native(mint: &str) -> (r: bool)
    ensures
        r == (mint@ == wrapped_native_mint()),
{
    str_eq(mint, wrapped_native_mint_str())
}

/// The candidate mint of a creation transaction: the first extracted
/// mint, unless it is the native wrapped-asset placeholder, which is
/// never reported.
pub fn candidate_mint(instrs: &Vec<ParsedInstruction>) -> (r: Option<String>)
    ensures
        spec_extract_mint(instrs@) is None ==> r is None,
        (spec_extract_mint(instrs@) matches Some(m) && m == wrapped_native_mint()) ==> r is None,
        spec_extract_mint(instrs@) is Some && spec_extract_mint(instrs@)->Some_0
            != wrapped_native_mint() ==> (r matches Some(s) && s@ == spec_extract_mint(
            instrs@,
        )->Some_0),
        r matches Some(s) ==> s@.len() > 0 && s@ != wrapped_native_mint(),
{
    match extract_mint_address(instrs) {
        Some(m) => {
            if is_wrapped_native(m.as_str()) {
                None
            } else {
                Some(m)
            }
        },
        None => None,
    }
}

/// The creation time: the creation transaction's block time where one
/// was resolved, else the current wall-clock time — best effort, never
/// blocking discovery.
pub fn resolve_created_at(block_time: Option<i64>, now: i64) -> (r: i64)
    ensures
        block_time matches Some(t) ==> r == t,
        block_time is None ==> r == now,
{
    match block_time {
        Some(t) => t,
        None => now,
    }
}

/// The oldest entry of a signature history listed newest first: its last
/// element.
pub fn oldest_signature(sigs: &Vec<String>) -> (r: Option<String>)
    ensures
        sigs@.len() == 0 ==> r is None,
        sigs@.len() > 0 ==> (r matches Some(s) && s@ == sigs@[sigs@.len() - 1]@),
{
    if sigs.len() == 0 {
        None
    } else {
        Some(sigs[sigs.len() - 1].clone())
    }
}

/// Assembles the token record of one discovery.  Supply and decimals
/// come from the decoded mint; an absent authority means the matching
/// "disabled" flag is set; the enrichment fields of later pipeline
/// stages default to absent or zero.
pub fn assemble_token(
    mint_address: String,
    created_at: i64,
    discovered_at: i64,
    mi: &MintInfo,
    info: &TokenInfo,
) -> (t: Token)
    requires
        mint_address@.len() > 0,
        mint_address@ != wrapped_native_mint(),
    ensures
        t.mint_address@ == mint_address@,
        t.created_at == created_at,
        t.discovered_at == discovered_at,
        t.source == TokenSource::Pumpfun,
        t.name matches Some(n) && n@ == info.name@,
        t.symbol matches Some(s) && s@ == info.symbol@,
        t.decimals == mi.decimals,
        t.total_supply == mi.supply,
        t.mint_authority_disabled == (mi.mint_authority is None),
        t.freeze_authority_disabled == (mi.freeze_authority is None),
        t.holder_count == Some(0u32),
        t.top_10_holder_percentage == Some(0u64),
        t.liquidity_sol == Some(0u64),
        t.liquidity_locked == Some(false),
        t.lp_burned == Some(false),
        t.raydium_pool is None,
        t.pump_fun_bonding_curve is None,
        t.orca_pool is None,
        t.meteora_pool is None,
        t.four_meme_pool is None,
        t.base_pair is None,
        t.bsc_pair is None,
        t.score is None,
        t.risk_level is None,
        t.wf(),
{
    Token {
        mint_address,
        created_at,
        discovered_at,
        source: TokenSource::Pumpfun,
        name: Some(info.name.clone()),
        symbol: Some(info.symbol.clone()),
        decimals: mi.decimals,
        total_supply: mi.supply,
        holder_count: Some(0u32),
        top_10_holder_percentage: Some(0u64),
        liquidity_sol: Some(0u64),
        liquidity_locked: Some(false),
        lp_burned: Some(false),
        mint_authority_disabled: matches!(mi.mint_authority, None),
        freeze_authority_disabled: matches!(mi.freeze_authority, None),
        raydium_pool: None,
        pump_fun_bonding_curve: None,
        orca_pool: None,
        meteora_pool: None,
        four_meme_pool: None,
        base_pair: None,
        bsc_pair: None,
        score: None,
        risk_level: None,
    }
}

/// Finishes a creation resolution once the candidate mint, its account's
/// owner and bytes, its best-effort block time, and its display metadata
/// are at hand.  An account that does not decode as a supported mint
/// yields no token; otherwise the assembled record is returned.
pub fn finish_creation(
    mint_address: String,
    owner: &str,
    account_data: &[u8],
    block_time: Option<i64>,
    now: i64,
    info: &TokenInfo,
) -> (r: Option<Token>)
    requires
        mint_address@.len() > 0,
        mint_address@ != wrapped_native_mint(),
    ensures
        r is Some <==> ((owner@ == legacy_token_program_id() || owner@
            == token_2022_program_id()) && mint_layout_ok(account_data@)),
        r matches Some(t) ==> {
            &&& t.mint_address@ == mint_address@
            &&& t.created_at == (if block_time is Some {
                block_time->Some_0
            } else {
                now
            })
            &&& t.discovered_at == now
            &&& t.source == TokenSource::Pumpfun
            &&& t.name matches Some(n) && n@ == info.name@
            &&& t.symbol matches Some(s) && s@ == info.symbol@
            &&& t.decimals == account_data@[44]
            &&& t.total_supply == le_u64_val(account_data@.subrange(36, 44))
            &&& t.mint_authority_disabled == !coption_some_tag(account_data@.subrange(0, 4))
            &&& t.freeze_authority_disabled == !coption_some_tag(account_data@.subrange(46, 50))
            &&& t.wf()
        },
{
    let mi = match decode_mint_account(owner, account_data) {
        Some(mi) => mi,
        None => {
            return None;
        },
    };
    let created_at = resolve_created_at(block_time, now);
    let info_token = assemble_token(mint_address, created_at, now, &mi, info);
    Some(info_token)
}

} // verus!
