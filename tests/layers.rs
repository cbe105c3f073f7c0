use near_cli::account::{AccountDecision, AccountSource, AccountStep, Sender};
use near_cli::args::CliArgs;
use near_cli::broadcast::{
    BroadcastAction, BroadcastEvent, BroadcastState, RpcTransactionErrorKind, RETRY_DELAY_MS,
};
use near_cli::cli::{CliMode, CliNetworkArgs, CliNode, CliOperationMode, CliSendTo, CliServer};
use near_cli::commands::{CliDeleteAccessKeyType, CliTopLevelCommand, CliTransaction};
use near_cli::network::{
    CliSelectServer, ConnectionConfig, DeleteAccessKeyCommandNetworkContext, SelectServer,
    SelectServerContext, SelectServerDiscriminants,
};
use near_cli::transaction::{Action, DeleteAccessKeyType, UnsignedTransaction};

const KEY: &str = "ed25519:5nUZ6kpwvSHG4JyZMj3o1ZWbMJXNxsAbZpavJVBM4GBQ1fAhRwXJWwQnC4DDPndzTh2ErJXsWcNaZYF1BmqMYRUL";

fn argv(words: &[&str]) -> Vec<String> {
    words.iter().map(|w| w.to_string()).collect()
}

fn full_delete_argv() -> Vec<String> {
    argv(&[
        "./near-cli",
        "delete-access-key",
        "network",
        "testnet",
        "send-to",
        "alice.testnet",
        KEY,
    ])
}

fn leaf_of(args: &CliArgs) -> CliDeleteAccessKeyType {
    match args.top_level_command.clone() {
        Some(CliTopLevelCommand::DeleteAccessKey(CliOperationMode {
            mode: Some(CliMode::Network(CliNetworkArgs { selected_server: Some(server) })),
        })) => match server {
            CliSelectServer::Testnet(CliServer { send_to: Some(CliSendTo::SendTo(leaf)) }) => leaf,
            other => panic!("unexpected server {:?}", other),
        },
        other => panic!("unexpected command {:?}", other),
    }
}

#[test]
fn full_flags_resolve_without_prompts_and_replay() {
    let words = full_delete_argv();
    let args = CliArgs::from_cli_args(&words).expect("flags parse");
    // every field is present: nothing is left to ask for
    assert!(args.is_resolved());
    let leaf = leaf_of(&args);
    assert_eq!(leaf.sender_account_id.as_deref(), Some("alice.testnet"));
    assert_eq!(leaf.public_key.as_deref(), Some(KEY));
    assert_eq!(args.to_cli_args(), words);

    let tx = UnsignedTransaction::new(
        "alice.testnet".to_string(),
        KEY.to_string(),
        7,
        "alice.testnet".to_string(),
        vec![0u8; 32],
    );
    let tx = DeleteAccessKeyType { public_key: leaf.public_key.unwrap() }.process(tx);
    assert_eq!(tx.actions.len(), 1);
    match &tx.actions[0] {
        Action::DeleteKey { public_key } => assert_eq!(public_key, KEY),
        other => panic!("unexpected action {:?}", other),
    }
}

#[test]
fn partial_flags_take_the_entered_account() {
    let words = argv(&["./near-cli", "delete-access-key", "network", "testnet", "send-to"]);
    let args = CliArgs::from_cli_args(&words).expect("flags parse");
    let leaf = leaf_of(&args);
    assert_eq!(leaf.sender_account_id, None);
    assert!(!args.is_resolved());
    // the one missing identifier is asked for and found remotely
    let decision = Sender::decide(AccountSource::Prompt, "bob.testnet".to_string(), true);
    let entered = match decision {
        AccountDecision::Accept(id) => id,
        other => panic!("unexpected decision {:?}", other),
    };
    let completed = CliArgs {
        top_level_command: Some(CliTopLevelCommand::DeleteAccessKey(CliOperationMode {
            mode: Some(CliMode::Network(CliNetworkArgs {
                selected_server: Some(CliSelectServer::Testnet(CliServer {
                    send_to: Some(CliSendTo::SendTo(CliDeleteAccessKeyType {
                        sender_account_id: Some(entered),
                        public_key: Some(KEY.to_string()),
                    })),
                })),
            })),
        })),
    };
    assert!(completed.is_resolved());
    let out = completed.to_cli_args();
    assert!(out.contains(&"testnet".to_string()));
    assert!(out.contains(&"network".to_string()));
    assert!(out.contains(&"bob.testnet".to_string()));
    assert_eq!(CliArgs::from_cli_args(&out).unwrap().to_cli_args(), out);
}

#[test]
fn round_trip_send_signed_transaction() {
    let words = argv(&[
        "./near-cli",
        "send-signed-transaction",
        "network",
        "custom",
        "send-to",
        "AAAABBBB",
    ]);
    let args = CliArgs::from_cli_args(&words).expect("flags parse");
    match &args.top_level_command {
        Some(CliTopLevelCommand::SendSignedTransaction(CliOperationMode {
            mode: Some(CliMode::Network(CliNetworkArgs {
                selected_server: Some(CliSelectServer::Custom(server)),
            })),
        })) => match &server.send_to {
            Some(CliSendTo::SendTo(CliTransaction { signed_transaction })) => {
                assert_eq!(signed_transaction.as_deref(), Some("AAAABBBB"))
            }
            other => panic!("unexpected child {:?}", other),
        },
        other => panic!("unexpected command {:?}", other),
    }
    let again = CliArgs::from_cli_args(&args.to_cli_args()).unwrap();
    assert_eq!(again.to_cli_args(), words);
}

#[test]
fn unknown_subcommand_is_refused() {
    let words = argv(&["./near-cli", "delete-access-key", "network", "devnet", "send-to"]);
    assert!(CliArgs::from_cli_args(&words).is_none());
    let words = argv(&["./near-cli", "delete-access-key", "network", "testnet", "send-to", "a", "b", "c"]);
    assert!(CliArgs::from_cli_args(&words).is_none());
}

#[test]
fn empty_command_line_has_no_command() {
    let args = CliArgs::from_cli_args(&argv(&["./near-cli"])).unwrap();
    assert!(args.top_level_command.is_none());
    assert_eq!(args.to_cli_args(), argv(&["./near-cli"]));
    let args = CliArgs::from_cli_args(&Vec::new()).unwrap();
    assert!(args.top_level_command.is_none());
}

#[test]
fn console_command_quotes_words() {
    let args = CliArgs {
        top_level_command: Some(CliTopLevelCommand::SendSignedTransaction(CliOperationMode {
            mode: Some(CliMode::Network(CliNetworkArgs {
                selected_server: Some(CliSelectServer::Mainnet(CliServer {
                    send_to: Some(CliSendTo::SendTo(CliTransaction {
                        signed_transaction: Some("a b".to_string()),
                    })),
                })),
            })),
        })),
    };
    assert_eq!(
        args.console_command(),
        "./near-cli send-signed-transaction network mainnet send-to 'a b'"
    );
}

#[test]
fn server_tags_in_declaration_order() {
    let tags = SelectServerDiscriminants::iter_all();
    assert_eq!(
        tags,
        vec![
            SelectServerDiscriminants::Testnet,
            SelectServerDiscriminants::Mainnet,
            SelectServerDiscriminants::Betanet,
            SelectServerDiscriminants::Custom,
        ]
    );
    let messages: Vec<String> = tags.iter().map(|t| t.get_message()).collect();
    assert_eq!(messages, vec!["Testnet", "Mainnet", "Betanet", "Custom"]);
}

#[test]
fn prompt_input_gives_unresolved_variant() {
    let s: CliSelectServer<CliTransaction> =
        CliSelectServer::prompt_input(SelectServerDiscriminants::Betanet);
    assert_eq!(s.discriminant(), SelectServerDiscriminants::Betanet);
    assert_eq!(s.to_cli_args(), vec!["betanet".to_string()]);
    let m: CliMode<CliTransaction> = CliMode::prompt_input();
    assert_eq!(m.to_cli_args(), vec!["network".to_string()]);
    let t: CliSendTo<CliTransaction> = CliSendTo::prompt_input();
    assert_eq!(t.to_cli_args(), vec!["send-to".to_string()]);
}

#[test]
fn context_derivation_is_repeatable() {
    for tag in [
        SelectServerDiscriminants::Testnet,
        SelectServerDiscriminants::Mainnet,
        SelectServerDiscriminants::Betanet,
    ] {
        let a = DeleteAccessKeyCommandNetworkContext::from_select_server_context(
            SelectServerContext::from_previous_context((), &tag),
        );
        let b = DeleteAccessKeyCommandNetworkContext::from_select_server_context(
            SelectServerContext::from_previous_context((), &tag),
        );
        assert_eq!(a, b);
    }
    let c = DeleteAccessKeyCommandNetworkContext::from_select_server_context(SelectServerContext {
        selected_server: SelectServerDiscriminants::Mainnet,
    });
    assert_eq!(c.connection_config, Some(ConnectionConfig::Mainnet));
}

#[test]
fn endpoints_of_each_network() {
    assert_eq!(ConnectionConfig::Testnet.rpc_url(), "https://rpc.testnet.near.org");
    assert_eq!(ConnectionConfig::Mainnet.rpc_url(), "https://rpc.mainnet.near.org");
    assert_eq!(ConnectionConfig::Betanet.rpc_url(), "https://rpc.betanet.near.org");
    assert_eq!(SelectServer::Betanet.connection_config(), Some(ConnectionConfig::Betanet));
    assert_eq!(SelectServer::Custom.connection_config(), None);
    assert_eq!(SelectServer::Custom.discriminant(), SelectServerDiscriminants::Custom);
}

#[test]
fn actions_keep_their_order() {
    let tx = UnsignedTransaction::new("a".to_string(), "k".to_string(), 1, "b".to_string(), vec![1, 2]);
    let tx = tx.extend(Action::FunctionCall {
        method_name: "m".to_string(),
        args: vec![],
        gas: 10,
        deposit: 0,
    });
    let tx = tx.extend(Action::DeleteKey { public_key: "k2".to_string() });
    assert_eq!(tx.actions.len(), 2);
    assert!(matches!(&tx.actions[0], Action::FunctionCall { method_name, .. } if method_name == "m"));
    assert!(matches!(&tx.actions[1], Action::DeleteKey { public_key } if public_key == "k2"));
    assert_eq!(tx.signer_id, "a");
    assert_eq!(tx.nonce, 1);
    assert_eq!(tx.block_hash, vec![1, 2]);
}

#[test]
fn recoverable_twice_then_success() {
    let mut state = BroadcastState::Submitting;
    let outcomes = [
        BroadcastEvent::Failed(RpcTransactionErrorKind::UnknownTransaction),
        BroadcastEvent::Failed(RpcTransactionErrorKind::TimeoutError),
        BroadcastEvent::Succeeded,
    ];
    let mut retrying = 0;
    let mut confirmed = 0;
    let mut i = 0;
    while !state.is_terminal() {
        match state.action() {
            BroadcastAction::Submit => {
                state = state.next(outcomes[i]);
                i += 1;
            }
            BroadcastAction::Sleep(ms) => {
                assert_eq!(ms, RETRY_DELAY_MS);
                state = state.next(BroadcastEvent::DelayElapsed);
            }
            other => panic!("unexpected action {:?}", other),
        }
        match state {
            BroadcastState::Retrying => retrying += 1,
            BroadcastState::Confirmed => confirmed += 1,
            BroadcastState::Fatal(_) => panic!("error surfaced"),
            BroadcastState::Submitting => {}
        }
    }
    assert_eq!(retrying, 2);
    assert_eq!(confirmed, 1);
    assert_eq!(state.action(), BroadcastAction::ReportOutcome);
}

#[test]
fn fatal_failure_never_retries() {
    for k in [
        RpcTransactionErrorKind::InvalidTransaction,
        RpcTransactionErrorKind::DoesNotTrackShard,
        RpcTransactionErrorKind::RequestRouted,
        RpcTransactionErrorKind::HandlerInternalError,
        RpcTransactionErrorKind::RequestValidationError,
        RpcTransactionErrorKind::NonContextualError,
    ] {
        let s = BroadcastState::Submitting.next(BroadcastEvent::Failed(k));
        assert_eq!(s, BroadcastState::Fatal(k));
        assert_eq!(s.action(), BroadcastAction::ReportError(k));
        assert_eq!(s.next(BroadcastEvent::DelayElapsed), s);
    }
    for k in [
        RpcTransactionErrorKind::TransportError,
        RpcTransactionErrorKind::TimeoutError,
        RpcTransactionErrorKind::UnknownTransaction,
        RpcTransactionErrorKind::ServerInternalError,
    ] {
        assert_eq!(BroadcastState::Submitting.next(BroadcastEvent::Failed(k)), BroadcastState::Retrying);
    }
}

#[test]
fn missing_accounts_are_reported_by_source() {
    match Sender::decide(AccountSource::Flag, "x.near".to_string(), false) {
        AccountDecision::Reprompt(line) => assert_eq!(line, "Contract <x.near> doesn't exist"),
        other => panic!("unexpected decision {:?}", other),
    }
    match Sender::decide(AccountSource::Prompt, "y.near".to_string(), false) {
        AccountDecision::Reprompt(line) => assert_eq!(line, "Account <y.near> doesn't exist"),
        other => panic!("unexpected decision {:?}", other),
    }
    for _ in 0..2 {
        match Sender::decide(AccountSource::Flag, "z.near".to_string(), true) {
            AccountDecision::Accept(id) => assert_eq!(id, "z.near"),
            other => panic!("unexpected decision {:?}", other),
        }
    }
    assert!(matches!(
        Sender::from_cli(Some("q".to_string())),
        AccountStep::Check(AccountSource::Flag, id) if id == "q"
    ));
    assert!(matches!(Sender::from_cli(None), AccountStep::Ask));
    assert_eq!(Sender::accept("q".to_string()).sender_account_id, "q");
}

#[test]
fn default_layers_have_no_subcommand() {
    assert!(CliServer::<CliTransaction>::default().send_to.is_none());
    assert!(near_cli::cli::CliCustomServer::<CliTransaction>::default().send_to.is_none());
    assert!(CliNetworkArgs::<CliTransaction>::default().selected_server.is_none());
    assert!(CliOperationMode::<CliTransaction>::default().mode.is_none());
    assert!(CliServer::<CliTransaction>::default().to_cli_args().is_empty());
}
