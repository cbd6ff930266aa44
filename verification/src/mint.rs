//! The dual-format mint-account decoder.
//!
//! A mint account is decoded by dispatching on its owning program: the
//! legacy token program and the extended token program each use the same
//! fixed 82-byte layout, unpacked by the owning program's own crate.  Any
//! other owner, and any unpack failure, yields "no mint" — never an error.

use vstd::prelude::*;
use solana_program::program_pack::Pack;
use crate::strutil::str_eq;

verus! {

/// Which known program owns a decoded mint account.
#[derive(Clone, Copy, Debug, PartialEq, Eq, Structural)]
pub enum MintProgramType {
    /// The legacy token program.
    Token,
    /// The extended (2022) token program.
    Token2022,
}

/// A decoded mint account: owning program, decimals, raw supply, and the
/// two optional authorities as 32-byte keys.
#[derive(Clone, Copy, Debug, PartialEq, Eq)]
pub struct MintInfo {
    pub program: MintProgramType,
    pub decimals: u8,
    pub supply: u64,
    pub mint_authority: Option<[u8; 32]>,
    pub freeze_authority: Option<[u8; 32]>,
}

/// The fields one unpack call yields, before the owning program is known.
#[derive(Clone, Copy, Debug)]
pub struct RawMint {
    pub decimals: u8,
    pub supply: u64,
    pub mint_authority: Option<[u8; 32]>,
    pub freeze_authority: Option<[u8; 32]>,
}

/// The base58 identifier of the legacy token program.
pub open spec fn legacy_token_program_id() -> Seq<char> {
    "TokenkegQfeZyiNwAJbNbGKPFXCWuBvf9Ss623VQ5DA"@
}

/// The base58 identifier of the extended token program.
pub open spec fn token_2022_program_id() -> Seq<char> {
    "TokenzQdBNbLqP5VEhdkAS6EPFLC1PHnBqCXEpPxuEb"@
}

/// The legacy token program's identifier.
pub fn legacy_token_program_id_str() -> (r: &'static str)
    ensures
        r@ == legacy_token_program_id(),
{
    "TokenkegQfeZyiNwAJbNbGKPFXCWuBvf9Ss623VQ5DA"
}

/// The extended token program's identifier.
pub fn token_2022_program_id_str() -> (r: &'static str)
    ensures
        r@ == token_2022_program_id(),
{
    "TokenzQdBNbLqP5VEhdkAS6EPFLC1PHnBqCXEpPxuEb"
}

/// The little-endian value of an 8-byte sequence.
pub open spec fn le_u64_val(s: Seq<u8>) -> int
    recommends
        s.len() == 8,
{
    s[0] + s[1] * 0x100 + s[2] * 0x1_0000 + s[3] * 0x100_0000 + s[4] * 0x1_0000_0000 + s[5]
        * 0x100_0000_0000 + s[6] * 0x1_0000_0000_0000 + s[7] * 0x100_0000_0000_0000
}

/// A 4-byte optional-field tag holding "absent".
pub open spec fn coption_none_tag(s: Seq<u8>) -> bool
    recommends
        s.len() == 4,
{
    s[0] == 0 && s[1] == 0 && s[2] == 0 && s[3] == 0
}

/// A 4-byte optional-field tag holding "present".
pub open spec fn coption_some_tag(s: Seq<u8>) -> bool
    recommends
        s.len() == 4,
{
    s[0] == 1 && s[1] == 0 && s[2] == 0 && s[3] == 0
}

/// The bytes form a well-formed, initialized mint account: exactly 82
/// bytes, a valid tag on each optional authority, and the
/// initialized-flag byte set to one.
pub open spec fn mint_layout_ok(d: Seq<u8>) -> bool {
    &&& d.len() == 82
    &&& (coption_none_tag(d.subrange(0, 4)) || coption_some_tag(d.subrange(0, 4)))
    &&& d[45] == 1
    &&& (coption_none_tag(d.subrange(46, 50)) || coption_some_tag(d.subrange(46, 50)))
}

/// `raw` holds exactly what the 82-byte layout `d` encodes: decimals at
/// byte 44, the little-endian supply at bytes 36..44, the mint authority
/// tagged at bytes 0..4 with its key at 4..36, and the freeze authority
/// tagged at 46..50 with its key at 50..82.
pub open spec fn raw_mint_matches(raw: RawMint, d: Seq<u8>) -> bool {
    &&& raw.decimals == d[44]
    &&& raw.supply == le_u64_val(d.subrange(36, 44))
    &&& (raw.mint_authority is Some <==> coption_some_tag(d.subrange(0, 4)))
    &&& (raw.mint_authority matches Some(k) ==> k@ == d.subrange(4, 36))
    &&& (raw.freeze_authority is Some <==> coption_some_tag(d.subrange(46, 50)))
    &&& (raw.freeze_authority matches Some(k) ==> k@ == d.subrange(50, 82))
}

/// Relies on `spl_token::state::Mint::unpack`: it succeeds exactly on an
/// 82-byte buffer with valid optional-authority tags whose
/// initialized-flag byte is one, and reads the fields of the fixed
/// layout (decimals, little-endian supply, the two optional 32-byte
/// authorities).
#[verifier::external_body]
fn unpack_legacy_mint(data: &[u8]) -> (r: Option<RawMint>)
    ensures
        r is Some <==> mint_layout_ok(data@),
        r matches Some(raw) ==> raw_mint_matches(raw, data@),
{
    match spl_token::state::Mint::unpack(data) {
        Ok(m) => Some(RawMint {
            decimals: m.decimals,
            supply: m.supply,
            mint_authority: Option::from(m.mint_authority).map(|k: solana_program::pubkey::Pubkey| k.to_bytes()),
            freeze_authority: Option::from(m.freeze_authority).map(|k: solana_program::pubkey::Pubkey| k.to_bytes()),
        }),
        Err(_) => None,
    }
}

/// Relies on `spl_token_2022::state::Mint::unpack`: the extended token
/// program's base mint layout is the same fixed 82-byte layout as the
/// legacy one, and unpack succeeds and reads fields exactly as there.
#[verifier::external_body]
fn unpack_token_2022_mint(data: &[u8]) -> (r: Option<RawMint>)
    ensures
        r is Some <==> mint_layout_ok(data@),
        r matches Some(raw) ==> raw_mint_matches(raw, data@),
{
    match spl_token_2022::state::Mint::unpack(data) {
        Ok(m) => Some(RawMint {
            decimals: m.decimals,
            supply: m.supply,
            mint_authority: Option::from(m.mint_authority).map(|k: solana_program::pubkey::Pubkey| k.to_bytes()),
            freeze_authority: Option::from(m.freeze_authority).map(|k: solana_program::pubkey::Pubkey| k.to_bytes()),
        }),
        Err(_) => None,
    }
}

/// `mi` is the decoded record of an account of program `program` whose
/// raw bytes are `d`.
pub open spec fn mint_info_matches(mi: MintInfo, program: MintProgramType, d: Seq<u8>) -> bool {
    &&& mi.program == program
    &&& raw_mint_matches(
        RawMint {
            decimals: mi.decimals,
            supply: mi.supply,
            mint_authority: mi.mint_authority,
            freeze_authority: mi.freeze_authority,
        },
        d,
    )
}

/// Decodes a mint account from its owning program's identifier and its
/// raw bytes.  Only the two known token programs are recognized; any
/// other owner, or any unpack failure against the matched layout, yields
/// `None` — the account is presumed not to be a supported mint.
pub fn decode_mint_account(owner: &str, data: &[u8]) -> (r: Option<MintInfo>)
    ensures
        owner@ != legacy_token_program_id() && owner@ != token_2022_program_id() ==> r is None,
        owner@ == legacy_token_program_id() ==> (r is Some <==> mint_layout_ok(data@)),
        owner@ == legacy_token_program_id() ==> (r matches Some(mi) ==> mint_info_matches(
            mi,
            MintProgramType::Token,
            data@,
        )),
        owner@ == token_2022_program_id() ==> (r is Some <==> mint_layout_ok(data@)),
        owner@ == token_2022_program_id() ==> (r matches Some(mi) ==> mint_info_matches(
            mi,
            MintProgramType::Token2022,
            data@,
        )),
{
    proof {
        reveal_strlit("TokenkegQfeZyiNwAJbNbGKPFXCWuBvf9Ss623VQ5DA");
        reveal_strlit("TokenzQdBNbLqP5VEhdkAS6EPFLC1PHnBqCXEpPxuEb");
        assert(legacy_token_program_id()[5] == 'k');
        assert(token_2022_program_id()[5] == 'z');
    }
    if str_eq(owner, legacy_token_program_id_str()) {
        match unpack_legacy_mint(data) {
            Some(raw) => Some(
                MintInfo {
                    program: MintProgramType::Token,
                    decimals: raw.decimals,
                    supply: raw.supply,
                    mint_authority: raw.mint_authority,
                    freeze_authority: raw.freeze_authority,
                },
            ),
            None => None,
        }
    } else if str_eq(owner, token_2022_program_id_str()) {
        match unpack_token_2022_mint(data) {
            Some(raw) => Some(
                MintInfo {
                    program: MintProgramType::Token2022,
                    decimals: raw.decimals,
                    supply: raw.supply,
                    mint_authority: raw.mint_authority,
                    freeze_authority: raw.freeze_authority,
                },
            ),
            None => None,
        }
    } else {
        None
    }
}

/// Off-chain display metadata for one mint, as far as the metadata
/// collaborator knows it.
#[derive(Clone, Debug)]
pub struct TokenInfo {
    pub name: String,
    pub symbol: String,
}

/// Builds the display metadata from a best-effort lookup's fields: absent
/// values fall back to the fixed placeholders.
pub fn token_info_from_lookup(name: Option<String>, symbol: Option<String>) -> (r: TokenInfo)
    ensures
        name matches Some(n) ==> r.name@ == n@,
        name is None ==> r.name@ == "Unknown"@,
        symbol matches Some(s) ==> r.symbol@ == s@,
        symbol is None ==> r.symbol@ == "UNK"@,
{
    let n = match name {
        Some(n) => n,
        None => "Unknown".to_owned(),
    };
    let s = match symbol {
        Some(s) => s,
        None => "UNK".to_owned(),
    };
    TokenInfo { name: n, symbol: s }
}

} // verus!
