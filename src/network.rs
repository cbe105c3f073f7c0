use vstd::prelude::*;
use crate::cli::{
    CliCustomServer, CliNode, CliSendTo, CliServer, lemma_tagged_round_trip, tagged_from_cli_args,
    tagged_parse, tagged_to_cli_args, words,
};

verus! {

/// A resolved connection to one of the well-known RPC endpoints.
#[derive(Clone, Copy, Debug, PartialEq, Eq, Structural)]
pub enum ConnectionConfig {
    Testnet,
    Mainnet,
    Betanet,
}

pub open spec fn rpc_url_spec(c: ConnectionConfig) -> Seq<char> {
    match c {
        ConnectionConfig::Testnet => "https://rpc.testnet.near.org"@,
        ConnectionConfig::Mainnet => "https://rpc.mainnet.near.org"@,
        ConnectionConfig::Betanet => "https://rpc.betanet.near.org"@,
    }
}

impl ConnectionConfig {
    /// The RPC endpoint of this network.
    pub fn rpc_url(&self) -> (r: String)
        ensures
            r@ == rpc_url_spec(*self),
    {
        match self {
            ConnectionConfig::Testnet => String::from_str("https://rpc.testnet.near.org"),
            ConnectionConfig::Mainnet => String::from_str("https://rpc.mainnet.near.org"),
            ConnectionConfig::Betanet => String::from_str("https://rpc.betanet.near.org"),
        }
    }
}

/// The tag of each server choice, in declaration order.
#[derive(Clone, Copy, Debug, PartialEq, Eq, Structural)]
pub enum SelectServerDiscriminants {
    Testnet,
    Mainnet,
    Betanet,
    Custom,
}

/// The tags offered by the server selector, in the order the variants are declared.
pub open spec fn server_tags_spec() -> Seq<SelectServerDiscriminants> {
    seq![
        SelectServerDiscriminants::Testnet,
        SelectServerDiscriminants::Mainnet,
        SelectServerDiscriminants::Betanet,
        SelectServerDiscriminants::Custom,
    ]
}

pub open spec fn server_message_spec(t: SelectServerDiscriminants) -> Seq<char> {
    match t {
        SelectServerDiscriminants::Testnet => "Testnet"@,
        SelectServerDiscriminants::Mainnet => "Mainnet"@,
        SelectServerDiscriminants::Betanet => "Betanet"@,
        SelectServerDiscriminants::Custom => "Custom"@,
    }
}

/// The fixed endpoint that a tag stands for; the custom server has none.
pub open spec fn connection_of_tag(t: SelectServerDiscriminants) -> Option<ConnectionConfig> {
    match t {
        SelectServerDiscriminants::Testnet => Some(ConnectionConfig::Testnet),
        SelectServerDiscriminants::Mainnet => Some(ConnectionConfig::Mainnet),
        SelectServerDiscriminants::Betanet => Some(ConnectionConfig::Betanet),
        SelectServerDiscriminants::Custom => None,
    }
}

impl SelectServerDiscriminants {
    /// Every tag, in declaration order.
    pub fn iter_all() -> (r: Vec<SelectServerDiscriminants>)
        ensures
            r@ == server_tags_spec(),
    {
        let r = vec![
            SelectServerDiscriminants::Testnet,
            SelectServerDiscriminants::Mainnet,
            SelectServerDiscriminants::Betanet,
            SelectServerDiscriminants::Custom,
        ];
        assert(r@ =~= server_tags_spec());
        r
    }

    /// The human-readable label shown for this tag.
    pub fn get_message(&self) -> (r: String)
        ensures
            r@ == server_message_spec(*self),
    {
        match self {
            SelectServerDiscriminants::Testnet => String::from_str("Testnet"),
            SelectServerDiscriminants::Mainnet => String::from_str("Mainnet"),
            SelectServerDiscriminants::Betanet => String::from_str("Betanet"),
            SelectServerDiscriminants::Custom => String::from_str("Custom"),
        }
    }
}

/// The server selector offers every tag exactly once, in declaration order.
pub proof fn lemma_server_tags_exhaustive(t: SelectServerDiscriminants)
    ensures
        server_tags_spec().contains(t),
        server_tags_spec().no_duplicates(),
        server_tags_spec().len() == 4,
        server_tags_spec()[0] == SelectServerDiscriminants::Testnet,
        server_tags_spec()[1] == SelectServerDiscriminants::Mainnet,
        server_tags_spec()[2] == SelectServerDiscriminants::Betanet,
        server_tags_spec()[3] == SelectServerDiscriminants::Custom,
{
    let s = server_tags_spec();
    let i: int = match t {
        SelectServerDiscriminants::Testnet => 0,
        SelectServerDiscriminants::Mainnet => 1,
        SelectServerDiscriminants::Betanet => 2,
        SelectServerDiscriminants::Custom => 3,
    };
    assert(s[i] == t);
}

/// The resolved server choice of the delete-access-key command.
#[derive(Clone, Copy, Debug, PartialEq, Eq, Structural)]
pub enum SelectServer {
    Testnet,
    Mainnet,
    Betanet,
    Custom,
}

pub open spec fn select_server_tag(s: SelectServer) -> SelectServerDiscriminants {
    match s {
        SelectServer::Testnet => SelectServerDiscriminants::Testnet,
        SelectServer::Mainnet => SelectServerDiscriminants::Mainnet,
        SelectServer::Betanet => SelectServerDiscriminants::Betanet,
        SelectServer::Custom => SelectServerDiscriminants::Custom,
    }
}

impl SelectServer {
    /// The tag of this choice.
    pub fn discriminant(&self) -> (r: SelectServerDiscriminants)
        ensures
            r == select_server_tag(*self),
    {
        match self {
            SelectServer::Testnet => SelectServerDiscriminants::Testnet,
            SelectServer::Mainnet => SelectServerDiscriminants::Mainnet,
            SelectServer::Betanet => SelectServerDiscriminants::Betanet,
            SelectServer::Custom => SelectServerDiscriminants::Custom,
        }
    }

    /// The connection that processing under this choice uses: a fixed endpoint,
    /// or none for the custom server, which brings its own.
    pub fn connection_config(&self) -> (r: Option<ConnectionConfig>)
        ensures
            r == connection_of_tag(select_server_tag(*self)),
    {
        match self {
            SelectServer::Testnet => Some(ConnectionConfig::Testnet),
            SelectServer::Mainnet => Some(ConnectionConfig::Mainnet),
            SelectServer::Betanet => Some(ConnectionConfig::Betanet),
            SelectServer::Custom => None,
        }
    }
}

/// The context that the server selector hands to the layer below it.
#[derive(Clone, Copy, Debug, PartialEq, Eq, Structural)]
pub struct SelectServerContext {
    pub selected_server: SelectServerDiscriminants,
}

impl SelectServerContext {
    /// Derives the context from the (empty) incoming context and the chosen tag.
    pub fn from_previous_context(previous_context: (), scope: &SelectServerDiscriminants) -> (r: Self)
        ensures
            r.selected_server == *scope,
    {
        SelectServerContext { selected_server: *scope }
    }
}

/// The context of the delete-access-key command once a network is fixed.
#[derive(Clone, Copy, Debug, PartialEq, Eq, Structural)]
pub struct DeleteAccessKeyCommandNetworkContext {
    pub connection_config: Option<ConnectionConfig>,
}

pub open spec fn network_context_spec(item: SelectServerContext) -> DeleteAccessKeyCommandNetworkContext {
    DeleteAccessKeyCommandNetworkContext { connection_config: connection_of_tag(item.selected_server) }
}

impl DeleteAccessKeyCommandNetworkContext {
    /// Derives the network context from a well-known server choice. The custom
    /// server never reaches this layer.
    pub fn from_select_server_context(item: SelectServerContext) -> (r: Self)
        requires
            item.selected_server != SelectServerDiscriminants::Custom,
        ensures
            r == network_context_spec(item),
            r.connection_config.is_some(),
    {
        let connection_config = match item.selected_server {
            SelectServerDiscriminants::Testnet => ConnectionConfig::Testnet,
            SelectServerDiscriminants::Mainnet => ConnectionConfig::Mainnet,
            SelectServerDiscriminants::Betanet => ConnectionConfig::Betanet,
            SelectServerDiscriminants::Custom => vstd::pervasive::unreached(),
        };
        DeleteAccessKeyCommandNetworkContext { connection_config: Some(connection_config) }
    }
}

/// Deriving a context depends on the parent value and incoming context alone:
/// equal inputs give equal contexts, at both derivation steps.
pub proof fn lemma_context_derivation_deterministic(
    scope1: SelectServerDiscriminants,
    scope2: SelectServerDiscriminants,
)
    requires
        scope1 == scope2,
    ensures
        (SelectServerContext { selected_server: scope1 }) == (SelectServerContext {
            selected_server: scope2,
        }),
        network_context_spec(SelectServerContext { selected_server: scope1 })
            == network_context_spec(SelectServerContext { selected_server: scope2 }),
{
}

pub open spec fn server_name_spec(t: SelectServerDiscriminants) -> Seq<char> {
    match t {
        SelectServerDiscriminants::Testnet => "testnet"@,
        SelectServerDiscriminants::Mainnet => "mainnet"@,
        SelectServerDiscriminants::Betanet => "betanet"@,
        SelectServerDiscriminants::Custom => "custom"@,
    }
}

/// Each server's subcommand name differs from the others (their first letters do).
pub proof fn lemma_server_names_distinct()
    ensures
        forall|a: SelectServerDiscriminants, b: SelectServerDiscriminants|
            a != b ==> server_name_spec(a) != server_name_spec(b),
{
    reveal_strlit("testnet");
    reveal_strlit("mainnet");
    reveal_strlit("betanet");
    reveal_strlit("custom");
    assert forall|a: SelectServerDiscriminants, b: SelectServerDiscriminants|
        a != b implies server_name_spec(a) != server_name_spec(b) by {
        assert(server_name_spec(a)[0] != server_name_spec(b)[0]);
    }
}

/// The server choice as flags: a subcommand per server, then what to send.
#[derive(Clone, Debug)]
pub enum CliSelectServer<T> {
    Testnet(CliServer<CliSendTo<T>>),
    Mainnet(CliServer<CliSendTo<T>>),
    Betanet(CliServer<CliSendTo<T>>),
    Custom(CliCustomServer<CliSendTo<T>>),
}

pub open spec fn cli_select_server_tag<T>(s: CliSelectServer<T>) -> SelectServerDiscriminants {
    match s {
        CliSelectServer::Testnet(_) => SelectServerDiscriminants::Testnet,
        CliSelectServer::Mainnet(_) => SelectServerDiscriminants::Mainnet,
        CliSelectServer::Betanet(_) => SelectServerDiscriminants::Betanet,
        CliSelectServer::Custom(_) => SelectServerDiscriminants::Custom,
    }
}

impl<T: CliNode> CliSelectServer<T> {
    /// The variant of the chosen tag, with nothing below it supplied yet.
    pub fn prompt_input(tag: SelectServerDiscriminants) -> (r: Self)
        ensures
            r.model() == (tag, None::<T::Model>),
    {
        match tag {
            SelectServerDiscriminants::Testnet => CliSelectServer::Testnet(CliServer { send_to: None }),
            SelectServerDiscriminants::Mainnet => CliSelectServer::Mainnet(CliServer { send_to: None }),
            SelectServerDiscriminants::Betanet => CliSelectServer::Betanet(CliServer { send_to: None }),
            SelectServerDiscriminants::Custom => CliSelectServer::Custom(
                CliCustomServer { send_to: None },
            ),
        }
    }

    /// The tag of this choice.
    pub fn discriminant(&self) -> (r: SelectServerDiscriminants)
        ensures
            r == cli_select_server_tag(*self),
    {
        match self {
            CliSelectServer::Testnet(_) => SelectServerDiscriminants::Testnet,
            CliSelectServer::Mainnet(_) => SelectServerDiscriminants::Mainnet,
            CliSelectServer::Betanet(_) => SelectServerDiscriminants::Betanet,
            CliSelectServer::Custom(_) => SelectServerDiscriminants::Custom,
        }
    }
}

/// A server choice as flags is a tag and, below it, what is sent.
pub open spec fn cli_select_server_model<T: CliNode>(s: CliSelectServer<T>) -> (SelectServerDiscriminants, Option<T::Model>) {
    match s {
        CliSelectServer::Testnet(s) => (SelectServerDiscriminants::Testnet, s.model()),
        CliSelectServer::Mainnet(s) => (SelectServerDiscriminants::Mainnet, s.model()),
        CliSelectServer::Betanet(s) => (SelectServerDiscriminants::Betanet, s.model()),
        CliSelectServer::Custom(s) => (SelectServerDiscriminants::Custom, s.model()),
    }
}

impl<T: CliNode> CliNode for CliSelectServer<T> {
    type Model = (SelectServerDiscriminants, Option<T::Model>);

    open spec fn model(&self) -> (SelectServerDiscriminants, Option<T::Model>) {
        cli_select_server_model(*self)
    }

    open spec fn tokens_of(m: (SelectServerDiscriminants, Option<T::Model>)) -> Seq<Seq<char>> {
        seq![server_name_spec(m.0)] + CliServer::<CliSendTo<T>>::tokens_of(m.1)
    }

    open spec fn resolved_model(m: (SelectServerDiscriminants, Option<T::Model>)) -> bool {
        CliServer::<CliSendTo<T>>::resolved_model(m.1)
    }

    open spec fn parse_spec(toks: Seq<Seq<char>>) -> Option<(SelectServerDiscriminants, Option<T::Model>)> {
        if toks.len() > 0 && toks[0] == server_name_spec(SelectServerDiscriminants::Testnet) {
            match tagged_parse::<CliServer<CliSendTo<T>>>(toks[0], toks) {
                Some(s) => Some((SelectServerDiscriminants::Testnet, s)),
                None => None,
            }
        } else if toks.len() > 0 && toks[0] == server_name_spec(SelectServerDiscriminants::Mainnet) {
            match tagged_parse::<CliServer<CliSendTo<T>>>(toks[0], toks) {
                Some(s) => Some((SelectServerDiscriminants::Mainnet, s)),
                None => None,
            }
        } else if toks.len() > 0 && toks[0] == server_name_spec(SelectServerDiscriminants::Betanet) {
            match tagged_parse::<CliServer<CliSendTo<T>>>(toks[0], toks) {
                Some(s) => Some((SelectServerDiscriminants::Betanet, s)),
                None => None,
            }
        } else {
            match tagged_parse::<CliCustomServer<CliSendTo<T>>>(
                server_name_spec(SelectServerDiscriminants::Custom),
                toks,
            ) {
                Some(s) => Some((SelectServerDiscriminants::Custom, s)),
                None => None,
            }
        }
    }

    open spec fn unresolved_model() -> (SelectServerDiscriminants, Option<T::Model>) {
        (SelectServerDiscriminants::Testnet, None)
    }

    fn to_cli_args(&self) -> (r: Vec<String>) {
        proof {
            reveal_strlit("testnet");
            reveal_strlit("mainnet");
            reveal_strlit("betanet");
            reveal_strlit("custom");
        }
        match self {
            CliSelectServer::Testnet(s) => tagged_to_cli_args("testnet", s),
            CliSelectServer::Mainnet(s) => tagged_to_cli_args("mainnet", s),
            CliSelectServer::Betanet(s) => tagged_to_cli_args("betanet", s),
            CliSelectServer::Custom(s) => tagged_to_cli_args("custom", s),
        }
    }

    fn from_cli_args(toks: &Vec<String>, start: usize) -> (r: Option<Self>) {
        let ghost w = words(toks@).skip(start as int);
        proof {
            reveal_strlit("testnet");
            reveal_strlit("mainnet");
            reveal_strlit("betanet");
            reveal_strlit("custom");
        }
        if start < toks.len() && crate::cli::is_word(&toks[start], "testnet") {
            assert(w[0] == toks@[start as int]@);
            match tagged_from_cli_args::<CliServer<CliSendTo<T>>>("testnet", toks, start) {
                Some(s) => Some(CliSelectServer::Testnet(s)),
                None => None,
            }
        } else if start < toks.len() && crate::cli::is_word(&toks[start], "mainnet") {
            assert(w[0] == toks@[start as int]@);
            match tagged_from_cli_args::<CliServer<CliSendTo<T>>>("mainnet", toks, start) {
                Some(s) => Some(CliSelectServer::Mainnet(s)),
                None => None,
            }
        } else if start < toks.len() && crate::cli::is_word(&toks[start], "betanet") {
            assert(w[0] == toks@[start as int]@);
            match tagged_from_cli_args::<CliServer<CliSendTo<T>>>("betanet", toks, start) {
                Some(s) => Some(CliSelectServer::Betanet(s)),
                None => None,
            }
        } else {
            assert(start < toks@.len() ==> w[0] == toks@[start as int]@);
            match tagged_from_cli_args::<CliCustomServer<CliSendTo<T>>>("custom", toks, start) {
                Some(s) => Some(CliSelectServer::Custom(s)),
                None => None,
            }
        }
    }

    fn unresolved() -> (r: Self) {
        CliSelectServer::Testnet(CliServer { send_to: None })
    }

    fn is_resolved(&self) -> (r: bool) {
        match self {
            CliSelectServer::Testnet(s) => s.is_resolved(),
            CliSelectServer::Mainnet(s) => s.is_resolved(),
            CliSelectServer::Betanet(s) => s.is_resolved(),
            CliSelectServer::Custom(s) => s.is_resolved(),
        }
    }

    proof fn lemma_round_trip(m: (SelectServerDiscriminants, Option<T::Model>)) {
        lemma_server_names_distinct();
        if m.0 == SelectServerDiscriminants::Custom {
            lemma_tagged_round_trip::<CliCustomServer<CliSendTo<T>>>(server_name_spec(m.0), m.1);
        } else {
            lemma_tagged_round_trip::<CliServer<CliSendTo<T>>>(server_name_spec(m.0), m.1);
        }
    }
}

} // verus!
