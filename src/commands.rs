use vstd::prelude::*;
use crate::cli::{
    CliMode, CliNetworkArgs, CliNode, CliOperationMode, concat_args, is_word, lemma_tagged_round_trip,
    tagged_from_cli_args, tagged_parse, tagged_to_cli_args, words,
};
use crate::network::CliSelectServer;
use crate::view::CliQueryRequest;

verus! {

pub open spec fn opt_word(o: Option<Seq<char>>) -> Seq<Seq<char>> {
    match o {
        Some(w) => seq![w],
        None => Seq::empty(),
    }
}

pub open spec fn opt_view(o: Option<String>) -> Option<Seq<char>> {
    match o {
        Some(s) => Some(s@),
        None => None,
    }
}

/// The positional value of an optional field, as a token sequence.
pub fn opt_word_args(o: &Option<String>) -> (r: Vec<String>)
    ensures
        words(r@) == opt_word(opt_view(*o)),
{
    let r = match o {
        Some(s) => vec![s.clone()],
        None => Vec::new(),
    };
    assert(words(r@) =~= opt_word(opt_view(*o)));
    r
}

/// The delete-access-key operation as flags: the signer's account and the
/// public key of the access key to delete, both positional.
#[derive(Clone, Debug)]
pub struct CliDeleteAccessKeyType {
    pub sender_account_id: Option<String>,
    pub public_key: Option<String>,
}

impl CliNode for CliDeleteAccessKeyType {
    type Model = (Option<Seq<char>>, Option<Seq<char>>);

    open spec fn model(&self) -> (Option<Seq<char>>, Option<Seq<char>>) {
        (opt_view(self.sender_account_id), opt_view(self.public_key))
    }

    open spec fn tokens_of(m: (Option<Seq<char>>, Option<Seq<char>>)) -> Seq<Seq<char>> {
        opt_word(m.0) + opt_word(m.1)
    }

    open spec fn resolved_model(m: (Option<Seq<char>>, Option<Seq<char>>)) -> bool {
        m.0 is Some && m.1 is Some
    }

    open spec fn parse_spec(toks: Seq<Seq<char>>) -> Option<(Option<Seq<char>>, Option<Seq<char>>)> {
        if toks.len() == 0 {
            Some((None, None))
        } else if toks.len() == 1 {
            Some((Some(toks[0]), None))
        } else if toks.len() == 2 {
            Some((Some(toks[0]), Some(toks[1])))
        } else {
            None
        }
    }

    open spec fn unresolved_model() -> (Option<Seq<char>>, Option<Seq<char>>) {
        (None, None)
    }

    fn to_cli_args(&self) -> (r: Vec<String>) {
        concat_args(opt_word_args(&self.sender_account_id), opt_word_args(&self.public_key))
    }

    fn from_cli_args(toks: &Vec<String>, start: usize) -> (r: Option<Self>) {
        let n = toks.len() - start;
        let ghost w = words(toks@).skip(start as int);
        if n == 0 {
            Some(CliDeleteAccessKeyType { sender_account_id: None, public_key: None })
        } else if n == 1 {
            assert(w[0] == toks@[start as int]@);
            Some(CliDeleteAccessKeyType {
                sender_account_id: Some(toks[start].clone()),
                public_key: None,
            })
        } else if n == 2 {
            assert(w[0] == toks@[start as int]@);
            assert(w[1] == toks@[start + 1]@);
            Some(CliDeleteAccessKeyType {
                sender_account_id: Some(toks[start].clone()),
                public_key: Some(toks[start + 1].clone()),
            })
        } else {
            None
        }
    }

    fn unresolved() -> (r: Self) {
        CliDeleteAccessKeyType { sender_account_id: None, public_key: None }
    }

    fn is_resolved(&self) -> (r: bool) {
        self.sender_account_id.is_some() && self.public_key.is_some()
    }

    proof fn lemma_round_trip(m: (Option<Seq<char>>, Option<Seq<char>>)) {
        let t = Self::tokens_of(m);
        assert(t =~= seq![m.0.unwrap(), m.1.unwrap()]);
    }
}

/// Sending an already signed transaction, as flags: the transaction in its
/// base64 text form, positional.
#[derive(Clone, Debug)]
pub struct CliTransaction {
    pub signed_transaction: Option<String>,
}

impl CliNode for CliTransaction {
    type Model = Option<Seq<char>>;

    open spec fn model(&self) -> Option<Seq<char>> {
        opt_view(self.signed_transaction)
    }

    open spec fn tokens_of(m: Option<Seq<char>>) -> Seq<Seq<char>> {
        opt_word(m)
    }

    open spec fn resolved_model(m: Option<Seq<char>>) -> bool {
        m is Some
    }

    open spec fn parse_spec(toks: Seq<Seq<char>>) -> Option<Option<Seq<char>>> {
        if toks.len() == 0 {
            Some(None)
        } else if toks.len() == 1 {
            Some(Some(toks[0]))
        } else {
            None
        }
    }

    open spec fn unresolved_model() -> Option<Seq<char>> {
        None
    }

    fn to_cli_args(&self) -> (r: Vec<String>) {
        opt_word_args(&self.signed_transaction)
    }

    fn from_cli_args(toks: &Vec<String>, start: usize) -> (r: Option<Self>) {
        let n = toks.len() - start;
        let ghost w = words(toks@).skip(start as int);
        if n == 0 {
            Some(CliTransaction { signed_transaction: None })
        } else if n == 1 {
            assert(w[0] == toks@[start as int]@);
            Some(CliTransaction { signed_transaction: Some(toks[start].clone()) })
        } else {
            None
        }
    }

    fn unresolved() -> (r: Self) {
        CliTransaction { signed_transaction: None }
    }

    fn is_resolved(&self) -> (r: bool) {
        self.signed_transaction.is_some()
    }

    proof fn lemma_round_trip(m: Option<Seq<char>>) {
    }
}

/// The full layer stack above a leaf operation: operation mode, network,
/// server, and where the data is sent.
pub type OnlineStack<T> = CliOperationMode<CliMode<CliNetworkArgs<CliSelectServer<T>>>>;

/// The top-level commands as flags.
#[derive(Clone, Debug)]
pub enum CliTopLevelCommand {
    DeleteAccessKey(OnlineStack<CliDeleteAccessKeyType>),
    SendSignedTransaction(OnlineStack<CliTransaction>),
    View(CliQueryRequest),
}

/// What a top-level command holds: the command chosen and the model below it.
pub enum TopLevelModel<A, B, C> {
    DeleteAccessKey(A),
    SendSignedTransaction(B),
    View(C),
}

pub open spec fn delete_access_key_name() -> Seq<char> {
    "delete-access-key"@
}

pub open spec fn send_signed_transaction_name() -> Seq<char> {
    "send-signed-transaction"@
}

pub open spec fn view_name() -> Seq<char> {
    "view"@
}

pub proof fn lemma_top_level_names_distinct()
    ensures
        delete_access_key_name() != send_signed_transaction_name(),
        delete_access_key_name() != view_name(),
        view_name() != send_signed_transaction_name(),
{
    reveal_strlit("delete-access-key");
    reveal_strlit("send-signed-transaction");
    reveal_strlit("view");
    assert(delete_access_key_name()[0] != send_signed_transaction_name()[0]);
    assert(delete_access_key_name()[0] != view_name()[0]);
    assert(view_name()[0] != send_signed_transaction_name()[0]);
}

impl CliNode for CliTopLevelCommand {
    type Model = TopLevelModel<
        <OnlineStack<CliDeleteAccessKeyType> as CliNode>::Model,
        <OnlineStack<CliTransaction> as CliNode>::Model,
        <CliQueryRequest as CliNode>::Model,
    >;

    open spec fn model(&self) -> Self::Model {
        match self {
            CliTopLevelCommand::DeleteAccessKey(c) => TopLevelModel::DeleteAccessKey(c.model()),
            CliTopLevelCommand::SendSignedTransaction(c) => TopLevelModel::SendSignedTransaction(
                c.model(),
            ),
            CliTopLevelCommand::View(c) => TopLevelModel::View(c.model()),
        }
    }

    open spec fn tokens_of(m: Self::Model) -> Seq<Seq<char>> {
        match m {
            TopLevelModel::DeleteAccessKey(c) => seq![delete_access_key_name()]
                + OnlineStack::<CliDeleteAccessKeyType>::tokens_of(c),
            TopLevelModel::SendSignedTransaction(c) => seq![send_signed_transaction_name()]
                + OnlineStack::<CliTransaction>::tokens_of(c),
            TopLevelModel::View(c) => seq![view_name()] + CliQueryRequest::tokens_of(c),
        }
    }

    open spec fn resolved_model(m: Self::Model) -> bool {
        match m {
            TopLevelModel::DeleteAccessKey(c) => OnlineStack::<
                CliDeleteAccessKeyType,
            >::resolved_model(c),
            TopLevelModel::SendSignedTransaction(c) => OnlineStack::<
                CliTransaction,
            >::resolved_model(c),
            TopLevelModel::View(c) => CliQueryRequest::resolved_model(c),
        }
    }

    open spec fn parse_spec(toks: Seq<Seq<char>>) -> Option<Self::Model> {
        if toks.len() > 0 && toks[0] == delete_access_key_name() {
            match tagged_parse::<OnlineStack<CliDeleteAccessKeyType>>(toks[0], toks) {
                Some(c) => Some(TopLevelModel::DeleteAccessKey(c)),
                None => None,
            }
        } else if toks.len() > 0 && toks[0] == view_name() {
            match tagged_parse::<CliQueryRequest>(toks[0], toks) {
                Some(c) => Some(TopLevelModel::View(c)),
                None => None,
            }
        } else {
            match tagged_parse::<OnlineStack<CliTransaction>>(send_signed_transaction_name(), toks) {
                Some(c) => Some(TopLevelModel::SendSignedTransaction(c)),
                None => None,
            }
        }
    }

    open spec fn unresolved_model() -> Self::Model {
        TopLevelModel::DeleteAccessKey(None)
    }

    fn to_cli_args(&self) -> (r: Vec<String>) {
        match self {
            CliTopLevelCommand::DeleteAccessKey(c) => tagged_to_cli_args("delete-access-key", c),
            CliTopLevelCommand::SendSignedTransaction(c) => tagged_to_cli_args(
                "send-signed-transaction",
                c,
            ),
            CliTopLevelCommand::View(c) => tagged_to_cli_args("view", c),
        }
    }

    fn from_cli_args(toks: &Vec<String>, start: usize) -> (r: Option<Self>) {
        let ghost w = words(toks@).skip(start as int);
        if start < toks.len() && is_word(&toks[start], "delete-access-key") {
            assert(w[0] == toks@[start as int]@);
            match tagged_from_cli_args::<OnlineStack<CliDeleteAccessKeyType>>(
                "delete-access-key",
                toks,
                start,
            ) {
                Some(c) => Some(CliTopLevelCommand::DeleteAccessKey(c)),
                None => None,
            }
        } else if start < toks.len() && is_word(&toks[start], "view") {
            assert(w[0] == toks@[start as int]@);
            match tagged_from_cli_args::<CliQueryRequest>("view", toks, start) {
                Some(c) => Some(CliTopLevelCommand::View(c)),
                None => None,
            }
        } else {
            assert(start < toks@.len() ==> w[0] == toks@[start as int]@);
            match tagged_from_cli_args::<OnlineStack<CliTransaction>>(
                "send-signed-transaction",
                toks,
                start,
            ) {
                Some(c) => Some(CliTopLevelCommand::SendSignedTransaction(c)),
                None => None,
            }
        }
    }

    fn unresolved() -> (r: Self) {
        CliTopLevelCommand::DeleteAccessKey(CliOperationMode { mode: None })
    }

    fn is_resolved(&self) -> (r: bool) {
        match self {
            CliTopLevelCommand::DeleteAccessKey(c) => c.is_resolved(),
            CliTopLevelCommand::SendSignedTransaction(c) => c.is_resolved(),
            CliTopLevelCommand::View(c) => c.is_resolved(),
        }
    }

    proof fn lemma_round_trip(m: Self::Model) {
        lemma_top_level_names_distinct();
        match m {
            TopLevelModel::DeleteAccessKey(c) => {
                lemma_tagged_round_trip::<OnlineStack<CliDeleteAccessKeyType>>(
                    delete_access_key_name(),
                    c,
                );
            },
            TopLevelModel::SendSignedTransaction(c) => {
                lemma_tagged_round_trip::<OnlineStack<CliTransaction>>(
                    send_signed_transaction_name(),
                    c,
                );
            },
            TopLevelModel::View(c) => {
                lemma_tagged_round_trip::<CliQueryRequest>(view_name(), c);
            },
        }
    }
}

/// The tag of each top-level command, in declaration order.
#[derive(Clone, Copy, Debug, PartialEq, Eq, Structural)]
pub enum CliTopLevelCommandDiscriminants {
    DeleteAccessKey,
    SendSignedTransaction,
    View,
}

/// The tags offered by the command selector, in the order the variants are declared.
pub open spec fn command_tags_spec() -> Seq<CliTopLevelCommandDiscriminants> {
    seq![
        CliTopLevelCommandDiscriminants::DeleteAccessKey,
        CliTopLevelCommandDiscriminants::SendSignedTransaction,
        CliTopLevelCommandDiscriminants::View,
    ]
}

pub open spec fn command_message_spec(t: CliTopLevelCommandDiscriminants) -> Seq<char> {
    match t {
        CliTopLevelCommandDiscriminants::DeleteAccessKey => "Delete an access key"@,
        CliTopLevelCommandDiscriminants::SendSignedTransaction => "Send a signed transaction"@,
        CliTopLevelCommandDiscriminants::View => "View an account or a contract"@,
    }
}

pub open spec fn command_tag<A, B, C>(m: TopLevelModel<A, B, C>) -> CliTopLevelCommandDiscriminants {
    match m {
        TopLevelModel::DeleteAccessKey(_) => CliTopLevelCommandDiscriminants::DeleteAccessKey,
        TopLevelModel::SendSignedTransaction(_) => CliTopLevelCommandDiscriminants::SendSignedTransaction,
        TopLevelModel::View(_) => CliTopLevelCommandDiscriminants::View,
    }
}

impl CliTopLevelCommandDiscriminants {
    /// Every tag, in declaration order.
    pub fn iter_all() -> (r: Vec<CliTopLevelCommandDiscriminants>)
        ensures
            r@ == command_tags_spec(),
    {
        let r = vec![
            CliTopLevelCommandDiscriminants::DeleteAccessKey,
            CliTopLevelCommandDiscriminants::SendSignedTransaction,
            CliTopLevelCommandDiscriminants::View,
        ];
        assert(r@ =~= command_tags_spec());
        r
    }

    /// The human-readable label shown for this tag.
    pub fn get_message(&self) -> (r: String)
        ensures
            r@ == command_message_spec(*self),
    {
        match self {
            CliTopLevelCommandDiscriminants::DeleteAccessKey => String::from_str("Delete an access key"),
            CliTopLevelCommandDiscriminants::SendSignedTransaction => String::from_str(
                "Send a signed transaction",
            ),
            CliTopLevelCommandDiscriminants::View => String::from_str("View an account or a contract"),
        }
    }
}

/// The command selector offers every tag exactly once, in declaration order.
pub proof fn lemma_command_tags_exhaustive(t: CliTopLevelCommandDiscriminants)
    ensures
        command_tags_spec().contains(t),
        command_tags_spec().no_duplicates(),
        command_tags_spec().len() == 3,
        command_tags_spec()[0] == CliTopLevelCommandDiscriminants::DeleteAccessKey,
        command_tags_spec()[1] == CliTopLevelCommandDiscriminants::SendSignedTransaction,
        command_tags_spec()[2] == CliTopLevelCommandDiscriminants::View,
{
    let i: int = match t {
        CliTopLevelCommandDiscriminants::DeleteAccessKey => 0,
        CliTopLevelCommandDiscriminants::SendSignedTransaction => 1,
        CliTopLevelCommandDiscriminants::View => 2,
    };
    assert(command_tags_spec()[i] == t);
}

impl CliTopLevelCommand {
    /// The command of the chosen tag, with nothing below it supplied yet.
    pub fn prompt_input(tag: CliTopLevelCommandDiscriminants) -> (r: Self)
        ensures
            command_tag(r.model()) == tag,
            match r.model() {
                TopLevelModel::DeleteAccessKey(c) => c is None,
                TopLevelModel::SendSignedTransaction(c) => c is None,
                TopLevelModel::View(c) => c is None,
            },
    {
        match tag {
            CliTopLevelCommandDiscriminants::DeleteAccessKey => CliTopLevelCommand::DeleteAccessKey(
                CliOperationMode { mode: None },
            ),
            CliTopLevelCommandDiscriminants::SendSignedTransaction => CliTopLevelCommand::SendSignedTransaction(
                CliOperationMode { mode: None },
            ),
            CliTopLevelCommandDiscriminants::View => CliTopLevelCommand::View(
                CliQueryRequest::AccountSummary(CliOperationMode { mode: None }),
            ),
        }
    }
}

} // verus!
