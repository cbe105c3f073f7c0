use near_cli::args::CliArgs;
use near_cli::cli::CliNode;
use near_cli::commands::{CliTopLevelCommand, CliTopLevelCommandDiscriminants};
use near_cli::view::{
    CliBlockId, CliBlockIdDiscriminants, CliBlockIdHeight, CliContract, CliDownloadMode,
    CliDownloadModeDiscriminants,
};

fn argv(words: &[&str]) -> Vec<String> {
    words.iter().map(|w| w.to_string()).collect()
}

#[test]
fn view_at_height_round_trip() {
    let words = argv(&[
        "./near-cli",
        "view",
        "account-summary",
        "network",
        "mainnet",
        "send-to",
        "contract.near",
        "hash",
        "at-block-height",
        "18446744073709551615",
    ]);
    let args = CliArgs::from_cli_args(&words).expect("flags parse");
    assert!(args.is_resolved());
    assert_eq!(args.to_cli_args(), words);
    assert!(args.console_command().ends_with("at-block-height 18446744073709551615"));
}

#[test]
fn block_height_is_decimal() {
    let h = CliBlockIdHeight { block_id_height: Some(1200) };
    assert_eq!(h.to_cli_args(), vec!["1200".to_string()]);
    let zero = CliBlockIdHeight { block_id_height: Some(0) };
    assert_eq!(zero.to_cli_args(), vec!["0".to_string()]);
    let parsed = CliBlockIdHeight::from_cli_args(&argv(&["+42"]), 0).unwrap();
    assert_eq!(parsed.block_id_height, Some(42));
    assert!(CliBlockIdHeight::from_cli_args(&argv(&["18446744073709551616"]), 0).is_none());
    assert!(CliBlockIdHeight::from_cli_args(&argv(&["12a"]), 0).is_none());
    assert!(CliBlockIdHeight::from_cli_args(&argv(&[""]), 0).is_none());
}

#[test]
fn block_id_variants_parse() {
    let b = CliBlockId::from_cli_args(&argv(&["at-final-block"]), 0).unwrap();
    assert!(matches!(b, CliBlockId::AtFinalBlock));
    let b = CliBlockId::from_cli_args(&argv(&["at-block-hash", "Hx1"]), 0).unwrap();
    assert!(matches!(&b, CliBlockId::AtBlockHash(h) if h.block_id_hash.as_deref() == Some("Hx1")));
    assert!(CliBlockId::from_cli_args(&argv(&["at-final-block", "extra"]), 0).is_none());
    assert!(CliBlockId::from_cli_args(&argv(&["at-some-block"]), 0).is_none());
}

#[test]
fn contract_without_mode() {
    let c = CliContract::from_cli_args(&argv(&["x", "y", "download"]), 1).unwrap();
    assert_eq!(c.contract_id.as_deref(), Some("y"));
    assert!(matches!(&c.download_mode, Some(CliDownloadMode::Download(f)) if f.selected_block_id.is_none()));
    assert_eq!(c.to_cli_args(), argv(&["y", "download"]));
    assert!(!c.is_resolved());
}

#[test]
fn selector_tags_in_declaration_order() {
    assert_eq!(
        CliBlockIdDiscriminants::iter_all(),
        vec![
            CliBlockIdDiscriminants::AtFinalBlock,
            CliBlockIdDiscriminants::AtBlockHeight,
            CliBlockIdDiscriminants::AtBlockHash,
        ]
    );
    let messages: Vec<String> =
        CliBlockIdDiscriminants::iter_all().iter().map(|t| t.get_message()).collect();
    assert_eq!(messages, vec!["At final block", "At block height", "At block hash"]);
    assert_eq!(
        CliDownloadModeDiscriminants::iter_all(),
        vec![CliDownloadModeDiscriminants::Download, CliDownloadModeDiscriminants::Hash]
    );
    assert_eq!(
        CliTopLevelCommandDiscriminants::iter_all(),
        vec![
            CliTopLevelCommandDiscriminants::DeleteAccessKey,
            CliTopLevelCommandDiscriminants::SendSignedTransaction,
            CliTopLevelCommandDiscriminants::View,
        ]
    );
    let m = CliDownloadMode::prompt_input(CliDownloadModeDiscriminants::Hash);
    assert_eq!(m.to_cli_args(), vec!["hash".to_string()]);
    let b = CliBlockId::prompt_input(CliBlockIdDiscriminants::AtBlockHeight);
    assert_eq!(b.to_cli_args(), vec!["at-block-height".to_string()]);
    let c = CliTopLevelCommand::prompt_input(CliTopLevelCommandDiscriminants::View);
    assert_eq!(c.to_cli_args(), argv(&["view", "account-summary"]));
}
