//! Mint decoding, creation parsing, and the end-to-end discovery path.

use pumpfun_ingestion::classifier::{notification_action, NotificationAction};
use pumpfun_ingestion::mint::{
    decode_mint_account, legacy_token_program_id_str, token_2022_program_id_str,
    token_info_from_lookup, MintProgramType,
};
use pumpfun_ingestion::models::TokenSource;
use pumpfun_ingestion::parser::{
    candidate_mint, extract_mint_address, finish_creation, is_valid_pubkey, is_wrapped_native,
    oldest_signature, ParsedInstruction,
};

/// Builds an 82-byte mint account: optional authorities as 32-byte keys,
/// little-endian supply, decimals, initialized flag set.
fn mint_bytes(
    mint_authority: Option<[u8; 32]>,
    supply: u64,
    decimals: u8,
    freeze_authority: Option<[u8; 32]>,
) -> Vec<u8> {
    let mut d = vec![0u8; 82];
    if let Some(k) = mint_authority {
        d[0] = 1;
        d[4..36].copy_from_slice(&k);
    }
    d[36..44].copy_from_slice(&supply.to_le_bytes());
    d[44] = decimals;
    d[45] = 1;
    if let Some(k) = freeze_authority {
        d[46] = 1;
        d[50..82].copy_from_slice(&k);
    }
    d
}

fn ata_instruction(mint: &str) -> ParsedInstruction {
    ParsedInstruction {
        program: "spl-associated-token-account".to_string(),
        program_id: "ATokenGPvbdGVxr1b2hvZbsiqW5xWH25efTNsLJA8knL".to_string(),
        kind: "createIdempotent".to_string(),
        mint: Some(mint.to_string()),
    }
}

fn valid_mint_string(seed: u8) -> String {
    solana_program::pubkey::Pubkey::new_from_array([seed; 32]).to_string()
}

#[test]
fn decode_legacy_mint() {
    let data = mint_bytes(None, 1_000_000, 6, None);
    let mi = decode_mint_account(legacy_token_program_id_str(), &data).expect("a mint");
    assert_eq!(mi.program, MintProgramType::Token);
    assert_eq!(mi.decimals, 6);
    assert_eq!(mi.supply, 1_000_000);
    assert!(mi.mint_authority.is_none());
    assert!(mi.freeze_authority.is_none());
}

#[test]
fn decode_token_2022_mint_with_authorities() {
    let auth = [7u8; 32];
    let freeze = [9u8; 32];
    let data = mint_bytes(Some(auth), 123_456_789, 9, Some(freeze));
    let mi = decode_mint_account(token_2022_program_id_str(), &data).expect("a mint");
    assert_eq!(mi.program, MintProgramType::Token2022);
    assert_eq!(mi.decimals, 9);
    assert_eq!(mi.supply, 123_456_789);
    assert_eq!(mi.mint_authority, Some(auth));
    assert_eq!(mi.freeze_authority, Some(freeze));
}

#[test]
fn unknown_owner_no_mint() {
    let data = mint_bytes(None, 1_000_000, 6, None);
    assert!(decode_mint_account("BPFLoaderUpgradeab1e11111111111111111111111", &data).is_none());
    assert!(decode_mint_account("", &data).is_none());
}

#[test]
fn malformed_mint_bytes_no_mint() {
    let owner = legacy_token_program_id_str();
    // Wrong length.
    assert!(decode_mint_account(owner, &[0u8; 81]).is_none());
    assert!(decode_mint_account(owner, &[0u8; 83]).is_none());
    // Uninitialized flag.
    let mut d = mint_bytes(None, 5, 2, None);
    d[45] = 0;
    assert!(decode_mint_account(owner, &d).is_none());
    // Invalid authority tag.
    let mut d = mint_bytes(None, 5, 2, None);
    d[0] = 2;
    assert!(decode_mint_account(owner, &d).is_none());
}

#[test]
fn no_create_idempotent_no_token() {
    let instrs = vec![
        ParsedInstruction {
            program: "system".to_string(),
            program_id: "11111111111111111111111111111111".to_string(),
            kind: "transfer".to_string(),
            mint: None,
        },
        ParsedInstruction {
            program: "spl-token".to_string(),
            program_id: "TokenkegQfeZyiNwAJbNbGKPFXCWuBvf9Ss623VQ5DA".to_string(),
            kind: "transferChecked".to_string(),
            mint: Some(valid_mint_string(3)),
        },
    ];
    assert!(extract_mint_address(&instrs).is_none());
    assert!(candidate_mint(&instrs).is_none());
}

#[test]
fn extract_first_match_wins() {
    let first = valid_mint_string(1);
    let second = valid_mint_string(2);
    let instrs = vec![ata_instruction(&first), ata_instruction(&second)];
    assert_eq!(extract_mint_address(&instrs), Some(first));
}

#[test]
fn extract_skips_invalid_mint_strings() {
    let good = valid_mint_string(4);
    let instrs = vec![ata_instruction("not-base58!"), ata_instruction(&good)];
    assert_eq!(extract_mint_address(&instrs), Some(good));
    assert!(is_valid_pubkey(&valid_mint_string(5)));
    assert!(!is_valid_pubkey("not-base58!"));
    assert!(!is_valid_pubkey("M"));
}

#[test]
fn wrapped_native_rejected() {
    let wrapped = "So11111111111111111111111111111111111111112";
    assert!(is_wrapped_native(wrapped));
    assert!(!is_wrapped_native("So11111111111111111111111111111111111111111"));
    let instrs = vec![ata_instruction(wrapped)];
    assert_eq!(extract_mint_address(&instrs), Some(wrapped.to_string()));
    assert!(candidate_mint(&instrs).is_none());
}

#[test]
fn oldest_signature_is_last() {
    let sigs: Vec<String> = vec!["newest".to_string(), "middle".to_string(), "oldest".to_string()];
    assert_eq!(oldest_signature(&sigs), Some("oldest".to_string()));
    assert!(oldest_signature(&Vec::new()).is_none());
}

#[test]
fn metadata_lookup_defaults() {
    let info = token_info_from_lookup(None, None);
    assert_eq!(info.name, "Unknown");
    assert_eq!(info.symbol, "UNK");
    let info = token_info_from_lookup(Some("Foo".to_string()), Some("FOO".to_string()));
    assert_eq!(info.name, "Foo");
    assert_eq!(info.symbol, "FOO");
}

#[test]
fn finish_creation_unsupported_owner_no_token() {
    let mint = valid_mint_string(6);
    let data = mint_bytes(None, 10, 0, None);
    let info = token_info_from_lookup(None, None);
    let r = finish_creation(mint, "SysvarRent111111111111111111111111111111111", &data, None, 50, &info);
    assert!(r.is_none());
}

#[test]
fn end_to_end_discovery() {
    // A synthetic notification with a creation signal...
    let logs: Vec<String> = vec![
        "Program log: Instruction: Create".to_string(),
        "Program 6EF8rrecthR5Dkzon8Nwu78hRvfCKubJ14M5uBEwF6P success".to_string(),
    ];
    assert_eq!(notification_action(&logs), NotificationAction::ParseCreation);

    // ...whose transaction carries a create-idempotent instruction for mint M...
    let m = valid_mint_string(42);
    let instrs = vec![ata_instruction(&m)];
    let mint = candidate_mint(&instrs).expect("a candidate mint");
    assert_eq!(mint, m);

    // ...whose account decodes as a legacy mint with 9 decimals and a
    // supply of five billion, and whose metadata lookup names it Foo/FOO.
    let data = mint_bytes(None, 5_000_000_000, 9, None);
    let info = token_info_from_lookup(Some("Foo".to_string()), Some("FOO".to_string()));
    let now = 1_800_000_000i64;
    let token = finish_creation(mint, legacy_token_program_id_str(), &data, Some(1_700_000_000), now, &info)
        .expect("a token");

    assert_eq!(token.mint_address, m);
    assert_eq!(token.decimals, 9);
    assert_eq!(token.total_supply, 5_000_000_000);
    assert_eq!(token.name.as_deref(), Some("Foo"));
    assert_eq!(token.symbol.as_deref(), Some("FOO"));
    assert_eq!(token.source, TokenSource::Pumpfun);
    assert!(token.mint_authority_disabled);
    assert!(token.freeze_authority_disabled);
    assert_eq!(token.created_at, 1_700_000_000);
    assert_eq!(token.discovered_at, now);
    assert_eq!(token.holder_count, Some(0));
    assert_eq!(token.liquidity_sol, Some(0));
    assert!(token.raydium_pool.is_none());
    assert!(token.score.is_none());
    assert!(token.risk_level.is_none());
}
