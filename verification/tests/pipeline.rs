//! Classifier, fetcher, listener, processor, and model behavior.

use pumpfun_ingestion::classifier::{classify_logs, notification_action, NotificationAction};
use pumpfun_ingestion::config::{
    ApiConfig, Config, DatabaseConfig, IngestionConfig, NetworkConfig, ProgramsConfig,
};
use pumpfun_ingestion::fetcher::{
    error_kind, FetchErrorKind, FetchSession, FetchState, VersionAcceptance,
};
use pumpfun_ingestion::listener::{
    mentions_program, ListenerEvent, ListenerState, PumpFunListener,
};
use pumpfun_ingestion::models::{Event, RiskLevel, TokenSource, TokenSourceParseError};
use pumpfun_ingestion::parser::{assemble_token, resolve_created_at};
use pumpfun_ingestion::mint::{MintInfo, MintProgramType, TokenInfo};
use pumpfun_ingestion::processor::Processor;

fn strings(v: &[&str]) -> Vec<String> {
    v.iter().map(|s| s.to_string()).collect()
}

fn test_config() -> Config {
    Config {
        network: NetworkConfig {
            rpc_http_url: "http://localhost:8899".to_string(),
            rpc_wss_url: "ws://localhost:8900".to_string(),
            commitment: "confirmed".to_string(),
        },
        database: DatabaseConfig { redis_url: "redis://localhost".to_string() },
        programs: ProgramsConfig {
            pump_fun: "6EF8rrecthR5Dkzon8Nwu78hRvfCKubJ14M5uBEwF6P".to_string(),
            token_program: "TokenkegQfeZyiNwAJbNbGKPFXCWuBvf9Ss623VQ5DA".to_string(),
        },
        ingestion: IngestionConfig { min_tx_count_for_active_pair: 5 },
        api: ApiConfig { host: "127.0.0.1".to_string(), port: 8080 },
    }
}

#[test]
fn no_success_marker_discards() {
    let logs = strings(&[
        "Program 6EF8rrecthR5Dkzon8Nwu78hRvfCKubJ14M5uBEwF6P invoke [1]",
        "Program log: Instruction: Create",
        "Program failed: custom program error",
    ]);
    let c = classify_logs(&logs);
    assert!(!c.success);
    assert_eq!(notification_action(&logs), NotificationAction::Discard);
}

#[test]
fn create_and_success_classify() {
    let logs = strings(&["Instruction: Create", "Program log: success"]);
    let c = classify_logs(&logs);
    assert!(c.is_create);
    assert!(c.success);
    assert_eq!(notification_action(&logs), NotificationAction::ParseCreation);
}

#[test]
fn success_without_create_skips() {
    let logs = strings(&["Program log: Instruction: Buy", "Program log: success"]);
    let c = classify_logs(&logs);
    assert!(c.success);
    assert!(c.is_buy);
    assert!(!c.is_create);
    assert_eq!(notification_action(&logs), NotificationAction::Skip);
}

#[test]
fn classifier_marker_set() {
    for marker in [
        "InitializeMint",
        "InitializeMint2",
        "CreateMetadataAccount",
        "CreateMetadataAccountV3",
        "Instruction: Create",
        "master_edition",
        "InitializeAccount3",
    ] {
        let logs = strings(&[&format!("Program log: {}", marker)]);
        assert!(classify_logs(&logs).is_create, "marker {} must classify as create", marker);
    }
    let logs = strings(&["Program log: Transfer"]);
    assert!(!classify_logs(&logs).is_create);
}

#[test]
fn classifier_buy_sell_swap() {
    let logs = strings(&[
        "Program log: Instruction: Sell",
        "Program log: SwapEvent { amount: 3 }",
        "Program log: success",
    ]);
    let c = classify_logs(&logs);
    assert!(c.is_sell);
    assert!(!c.is_buy);
    assert!(c.is_swap);
    let swap2 = strings(&["Instruction: SwapTob"]);
    assert!(classify_logs(&swap2).is_swap);
}

#[test]
fn mentions_program_filter() {
    let program = "6EF8rrecthR5Dkzon8Nwu78hRvfCKubJ14M5uBEwF6P";
    let hit = strings(&["Program 6EF8rrecthR5Dkzon8Nwu78hRvfCKubJ14M5uBEwF6P invoke [1]"]);
    let miss = strings(&["Program SomethingElse invoke [1]"]);
    assert!(mentions_program(&hit, program));
    assert!(!mentions_program(&miss, program));
}

#[test]
fn fetch_version_mismatch_then_success() {
    let mut s = FetchSession::begin();
    assert_eq!(s.state, FetchState::Attempt1);
    assert_eq!(s.state.acceptance(), VersionAcceptance::DefaultOnly);
    s.on_error("Transaction version (0) is not supported by the requesting client");
    assert_eq!(s.state, FetchState::Attempt2);
    assert_eq!(s.state.acceptance(), VersionAcceptance::Version0);
    assert!(s.permit_held);
    s.on_success();
    assert_eq!(s.state, FetchState::Succeeded(2));
    assert!(!s.permit_held);
    assert_eq!(s.releases, 1);
}

#[test]
fn fetch_all_mismatch_unavailable() {
    let mut s = FetchSession::begin();
    s.on_error("Transaction version (0) is not supported by the requesting client");
    s.on_error("Transaction version (0) is not supported by the requesting client");
    assert_eq!(s.state, FetchState::Attempt3);
    assert_eq!(s.state.acceptance(), VersionAcceptance::DefaultOnly);
    assert!(s.permit_held);
    assert_eq!(s.releases, 0);
    s.on_error("Transaction version (0) is not supported by the requesting client");
    assert_eq!(s.state, FetchState::Unavailable);
    assert!(!s.permit_held);
    assert_eq!(s.releases, 1);
}

#[test]
fn empty_logs_discarded() {
    let logs: Vec<String> = Vec::new();
    let c = classify_logs(&logs);
    assert!(!c.success && !c.is_buy && !c.is_sell && !c.is_create && !c.is_swap);
    assert_eq!(notification_action(&logs), NotificationAction::Discard);
}

#[test]
fn fetch_mismatch_then_other_error_stops() {
    let mut s = FetchSession::begin();
    s.on_error("Transaction version (0) is not supported by the requesting client");
    assert_eq!(s.state, FetchState::Attempt2);
    s.on_error("connection timed out");
    assert_eq!(s.state, FetchState::Unavailable);
    assert!(!s.permit_held);
    assert_eq!(s.releases, 1);
}

#[test]
fn fetch_other_error_stops_at_once() {
    let mut s = FetchSession::begin();
    s.on_error("connection refused");
    assert_eq!(s.state, FetchState::Unavailable);
    assert!(!s.permit_held);
    assert_eq!(s.releases, 1);
}

#[test]
fn fetch_not_finalized_stops_at_once() {
    let mut s = FetchSession::begin();
    s.on_error("invalid type: null, expected struct EncodedConfirmedTransactionWithStatusMeta");
    assert_eq!(s.state, FetchState::Unavailable);
    assert_eq!(s.releases, 1);
}

#[test]
fn fetch_error_kinds() {
    assert_eq!(
        error_kind("Transaction version (0) is not supported by the requesting client"),
        FetchErrorKind::VersionMismatch
    );
    assert_eq!(error_kind("feature not supported by the requesting client"), FetchErrorKind::VersionMismatch);
    assert_eq!(error_kind("invalid type: null"), FetchErrorKind::NotFinalized);
    assert_eq!(error_kind("connection reset by peer"), FetchErrorKind::Other);
}

#[test]
fn listener_lifecycle() {
    let config = test_config();
    let processor = Processor::new(config.clone());
    let mut l = PumpFunListener::new(config, processor);
    assert_eq!(l.state, ListenerState::Disconnected);
    assert!(!l.on_event(ListenerEvent::SubscribeOk));
    assert_eq!(l.state, ListenerState::Subscribed);
    assert!(!l.on_event(ListenerEvent::MessageReceived));
    assert_eq!(l.state, ListenerState::Streaming);
    assert!(l.on_event(ListenerEvent::StreamError));
    assert_eq!(l.state, ListenerState::Disconnected);
    assert!(l.on_event(ListenerEvent::SubscribeFailed));
    assert_eq!(l.state, ListenerState::Disconnected);
    assert!(!l.on_event(ListenerEvent::SubscribeOk));
    assert!(!l.on_event(ListenerEvent::StreamEnded));
    assert_eq!(l.state, ListenerState::Disconnected);
}

#[test]
fn processor_discovery_event() {
    let config = test_config();
    let processor = Processor::new(config);
    let mi = MintInfo {
        program: MintProgramType::Token,
        decimals: 6,
        supply: 42,
        mint_authority: None,
        freeze_authority: None,
    };
    let info = TokenInfo { name: "Foo".to_string(), symbol: "FOO".to_string() };
    let token = assemble_token(
        "ATokenGPvbdGVxr1b2hvZbsiqW5xWH25efTNsLJA8knL".to_string(),
        10,
        20,
        &mi,
        &info,
    );
    let Event::TokenDiscovered(t) = processor.discovery_event(token);
    assert_eq!(t.mint_address, "ATokenGPvbdGVxr1b2hvZbsiqW5xWH25efTNsLJA8knL");
    assert_eq!(t.total_supply, 42);
}

#[test]
fn processor_graduation_never_fails() {
    let processor = Processor::new(test_config());
    assert!(processor
        .process_token_graduated("mint111".to_string(), "pair111".to_string())
        .is_ok());
}

#[test]
fn token_source_parse_and_labels() {
    assert!(matches!(TokenSource::from_str("pumpfun"), Ok(TokenSource::Pumpfun)));
    assert!(matches!(TokenSource::from_str("PumpFun"), Ok(TokenSource::Pumpfun)));
    assert!(matches!(TokenSource::from_str("onchain"), Ok(TokenSource::OnChain)));
    assert!(matches!(TokenSource::from_str("on-chain"), Ok(TokenSource::OnChain)));
    assert!(matches!(TokenSource::from_str("ON-CHAIN"), Ok(TokenSource::OnChain)));
    match TokenSource::from_str("airdrop") {
        Err(TokenSourceParseError::InvalidSource(s)) => assert_eq!(s, "airdrop"),
        other => panic!("expected rejection, got {:?}", other),
    }
    assert_eq!(TokenSource::Pumpfun.label(), "Pumpfun");
    assert_eq!(TokenSource::OnChain.label(), "Onchain");
    assert_eq!(RiskLevel::Low.label(), "Low");
    assert_eq!(RiskLevel::Medium.label(), "Medium");
    assert_eq!(RiskLevel::High.label(), "High");
}

#[test]
fn created_at_fallback() {
    assert_eq!(resolve_created_at(Some(1700000000), 1800000000), 1700000000);
    assert_eq!(resolve_created_at(None, 1800000000), 1800000000);
}
