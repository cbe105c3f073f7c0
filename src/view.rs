use vstd::prelude::*;
use crate::cli::{
    CliMode, CliNetworkArgs, CliNode, CliOperationMode, concat_args, is_word, lemma_opt_round_trip,
    lemma_skip_cons, lemma_tagged_round_trip, opt_from_cli_args, opt_parse, opt_resolved,
    opt_to_cli_args, opt_tokens, single, tagged_from_cli_args, tagged_parse, tagged_to_cli_args, words,
};
use crate::commands::{opt_view, opt_word, opt_word_args};
use crate::decimal::{decimal_spec, lemma_parse_u64_of_decimal, parse_u64, parse_u64_spec, u64_to_string};
use crate::network::CliSelectServer;

verus! {

/// A block chosen by its height, as flags: the height, positional.
#[derive(Clone, Debug, Default)]
pub struct CliBlockIdHeight {
    pub block_id_height: Option<u64>,
}

impl CliNode for CliBlockIdHeight {
    type Model = Option<u64>;

    open spec fn model(&self) -> Option<u64> {
        self.block_id_height
    }

    open spec fn tokens_of(m: Option<u64>) -> Seq<Seq<char>> {
        match m {
            Some(h) => seq![decimal_spec(h as nat)],
            None => Seq::empty(),
        }
    }

    open spec fn resolved_model(m: Option<u64>) -> bool {
        m is Some
    }

    open spec fn parse_spec(toks: Seq<Seq<char>>) -> Option<Option<u64>> {
        if toks.len() == 0 {
            Some(None)
        } else if toks.len() == 1 {
            match parse_u64_spec(toks[0]) {
                Some(h) => Some(Some(h)),
                None => None,
            }
        } else {
            None
        }
    }

    open spec fn unresolved_model() -> Option<u64> {
        None
    }

    fn to_cli_args(&self) -> (r: Vec<String>) {
        let r = match self.block_id_height {
            Some(h) => vec![u64_to_string(h)],
            None => Vec::new(),
        };
        assert(words(r@) =~= Self::tokens_of(self.model()));
        r
    }

    fn from_cli_args(toks: &Vec<String>, start: usize) -> (r: Option<Self>) {
        let n = toks.len() - start;
        let ghost w = words(toks@).skip(start as int);
        if n == 0 {
            Some(CliBlockIdHeight { block_id_height: None })
        } else if n == 1 {
            assert(w[0] == toks@[start as int]@);
            match parse_u64(&toks[start]) {
                Some(h) => Some(CliBlockIdHeight { block_id_height: Some(h) }),
                None => None,
            }
        } else {
            None
        }
    }

    fn unresolved() -> (r: Self) {
        CliBlockIdHeight { block_id_height: None }
    }

    fn is_resolved(&self) -> (r: bool) {
        self.block_id_height.is_some()
    }

    proof fn lemma_round_trip(m: Option<u64>) {
        lemma_parse_u64_of_decimal(m.unwrap());
    }
}

/// A block chosen by its hash, as flags: the hash in its base58 text, positional.
#[derive(Clone, Debug, Default)]
pub struct CliBlockIdHash {
    pub block_id_hash: Option<String>,
}

impl CliNode for CliBlockIdHash {
    type Model = Option<Seq<char>>;

    open spec fn model(&self) -> Option<Seq<char>> {
        opt_view(self.block_id_hash)
    }

    open spec fn tokens_of(m: Option<Seq<char>>) -> Seq<Seq<char>> {
        opt_word(m)
    }

    open spec fn resolved_model(m: Option<Seq<char>>) -> bool {
        m is Some
    }

    open spec fn parse_spec(toks: Seq<Seq<char>>) -> Option<Option<Seq<char>>> {
        if toks.len() == 0 {
            Some(None)
        } else if toks.len() == 1 {
            Some(Some(toks[0]))
        } else {
            None
        }
    }

    open spec fn unresolved_model() -> Option<Seq<char>> {
        None
    }

    fn to_cli_args(&self) -> (r: Vec<String>) {
        opt_word_args(&self.block_id_hash)
    }

    fn from_cli_args(toks: &Vec<String>, start: usize) -> (r: Option<Self>) {
        let n = toks.len() - start;
        let ghost w = words(toks@).skip(start as int);
        if n == 0 {
            Some(CliBlockIdHash { block_id_hash: None })
        } else if n == 1 {
            assert(w[0] == toks@[start as int]@);
            Some(CliBlockIdHash { block_id_hash: Some(toks[start].clone()) })
        } else {
            None
        }
    }

    fn unresolved() -> (r: Self) {
        CliBlockIdHash { block_id_hash: None }
    }

    fn is_resolved(&self) -> (r: bool) {
        self.block_id_hash.is_some()
    }

    proof fn lemma_round_trip(m: Option<Seq<char>>) {
    }
}

/// The block at which to view, as flags.
#[derive(Clone, Debug)]
pub enum CliBlockId {
    AtFinalBlock,
    AtBlockHeight(CliBlockIdHeight),
    AtBlockHash(CliBlockIdHash),
}

/// The tag of each block choice, in declaration order.
#[derive(Clone, Copy, Debug, PartialEq, Eq, Structural)]
pub enum CliBlockIdDiscriminants {
    AtFinalBlock,
    AtBlockHeight,
    AtBlockHash,
}

pub enum BlockIdModel {
    AtFinalBlock,
    AtBlockHeight(Option<u64>),
    AtBlockHash(Option<Seq<char>>),
}

pub open spec fn final_block_name() -> Seq<char> {
    "at-final-block"@
}

pub open spec fn block_height_name() -> Seq<char> {
    "at-block-height"@
}

pub open spec fn block_hash_name() -> Seq<char> {
    "at-block-hash"@
}

pub proof fn lemma_block_id_names_distinct()
    ensures
        final_block_name() != block_height_name(),
        final_block_name() != block_hash_name(),
        block_height_name() != block_hash_name(),
{
    reveal_strlit("at-final-block");
    reveal_strlit("at-block-height");
    reveal_strlit("at-block-hash");
    assert(final_block_name()[3] != block_height_name()[3]);
    assert(final_block_name()[3] != block_hash_name()[3]);
    assert(block_height_name()[10] != block_hash_name()[10]);
}

pub open spec fn block_id_tags_spec() -> Seq<CliBlockIdDiscriminants> {
    seq![
        CliBlockIdDiscriminants::AtFinalBlock,
        CliBlockIdDiscriminants::AtBlockHeight,
        CliBlockIdDiscriminants::AtBlockHash,
    ]
}

pub open spec fn block_id_message_spec(t: CliBlockIdDiscriminants) -> Seq<char> {
    match t {
        CliBlockIdDiscriminants::AtFinalBlock => "At final block"@,
        CliBlockIdDiscriminants::AtBlockHeight => "At block height"@,
        CliBlockIdDiscriminants::AtBlockHash => "At block hash"@,
    }
}

impl CliBlockIdDiscriminants {
    /// Every tag, in declaration order.
    pub fn iter_all() -> (r: Vec<CliBlockIdDiscriminants>)
        ensures
            r@ == block_id_tags_spec(),
    {
        let r = vec![
            CliBlockIdDiscriminants::AtFinalBlock,
            CliBlockIdDiscriminants::AtBlockHeight,
            CliBlockIdDiscriminants::AtBlockHash,
        ];
        assert(r@ =~= block_id_tags_spec());
        r
    }

    /// The human-readable label shown for this tag.
    pub fn get_message(&self) -> (r: String)
        ensures
            r@ == block_id_message_spec(*self),
    {
        match self {
            CliBlockIdDiscriminants::AtFinalBlock => String::from_str("At final block"),
            CliBlockIdDiscriminants::AtBlockHeight => String::from_str("At block height"),
            CliBlockIdDiscriminants::AtBlockHash => String::from_str("At block hash"),
        }
    }
}

/// The block selector offers every tag exactly once, in declaration order.
pub proof fn lemma_block_id_tags_exhaustive(t: CliBlockIdDiscriminants)
    ensures
        block_id_tags_spec().contains(t),
        block_id_tags_spec().no_duplicates(),
        block_id_tags_spec().len() == 3,
{
    let i: int = match t {
        CliBlockIdDiscriminants::AtFinalBlock => 0,
        CliBlockIdDiscriminants::AtBlockHeight => 1,
        CliBlockIdDiscriminants::AtBlockHash => 2,
    };
    assert(block_id_tags_spec()[i] == t);
}

impl CliBlockId {
    /// The variant of the chosen tag, with nothing below it supplied yet.
    pub fn prompt_input(tag: CliBlockIdDiscriminants) -> (r: Self)
        ensures
            r.model() == (match tag {
                CliBlockIdDiscriminants::AtFinalBlock => BlockIdModel::AtFinalBlock,
                CliBlockIdDiscriminants::AtBlockHeight => BlockIdModel::AtBlockHeight(None),
                CliBlockIdDiscriminants::AtBlockHash => BlockIdModel::AtBlockHash(None),
            }),
    {
        match tag {
            CliBlockIdDiscriminants::AtFinalBlock => CliBlockId::AtFinalBlock,
            CliBlockIdDiscriminants::AtBlockHeight => CliBlockId::AtBlockHeight(
                CliBlockIdHeight { block_id_height: None },
            ),
            CliBlockIdDiscriminants::AtBlockHash => CliBlockId::AtBlockHash(
                CliBlockIdHash { block_id_hash: None },
            ),
        }
    }
}

impl CliNode for CliBlockId {
    type Model = BlockIdModel;

    open spec fn model(&self) -> BlockIdModel {
        match self {
            CliBlockId::AtFinalBlock => BlockIdModel::AtFinalBlock,
            CliBlockId::AtBlockHeight(h) => BlockIdModel::AtBlockHeight(h.model()),
            CliBlockId::AtBlockHash(h) => BlockIdModel::AtBlockHash(h.model()),
        }
    }

    open spec fn tokens_of(m: BlockIdModel) -> Seq<Seq<char>> {
        match m {
            BlockIdModel::AtFinalBlock => seq![final_block_name()],
            BlockIdModel::AtBlockHeight(h) => seq![block_height_name()] + CliBlockIdHeight::tokens_of(h),
            BlockIdModel::AtBlockHash(h) => seq![block_hash_name()] + CliBlockIdHash::tokens_of(h),
        }
    }

    open spec fn resolved_model(m: BlockIdModel) -> bool {
        match m {
            BlockIdModel::AtFinalBlock => true,
            BlockIdModel::AtBlockHeight(h) => CliBlockIdHeight::resolved_model(h),
            BlockIdModel::AtBlockHash(h) => CliBlockIdHash::resolved_model(h),
        }
    }

    open spec fn parse_spec(toks: Seq<Seq<char>>) -> Option<BlockIdModel> {
        if toks.len() == 1 && toks[0] == final_block_name() {
            Some(BlockIdModel::AtFinalBlock)
        } else if toks.len() > 0 && toks[0] == block_height_name() {
            match tagged_parse::<CliBlockIdHeight>(block_height_name(), toks) {
                Some(h) => Some(BlockIdModel::AtBlockHeight(h)),
                None => None,
            }
        } else {
            match tagged_parse::<CliBlockIdHash>(block_hash_name(), toks) {
                Some(h) => Some(BlockIdModel::AtBlockHash(h)),
                None => None,
            }
        }
    }

    open spec fn unresolved_model() -> BlockIdModel {
        BlockIdModel::AtFinalBlock
    }

    fn to_cli_args(&self) -> (r: Vec<String>) {
        match self {
            CliBlockId::AtFinalBlock => single("at-final-block"),
            CliBlockId::AtBlockHeight(h) => tagged_to_cli_args("at-block-height", h),
            CliBlockId::AtBlockHash(h) => tagged_to_cli_args("at-block-hash", h),
        }
    }

    fn from_cli_args(toks: &Vec<String>, start: usize) -> (r: Option<Self>) {
        let ghost w = words(toks@).skip(start as int);
        if toks.len() - start == 1 && is_word(&toks[start], "at-final-block") {
            assert(w[0] == toks@[start as int]@);
            Some(CliBlockId::AtFinalBlock)
        } else if start < toks.len() && is_word(&toks[start], "at-block-height") {
            assert(w[0] == toks@[start as int]@);
            match tagged_from_cli_args::<CliBlockIdHeight>("at-block-height", toks, start) {
                Some(h) => Some(CliBlockId::AtBlockHeight(h)),
                None => None,
            }
        } else {
            assert(start < toks@.len() ==> w[0] == toks@[start as int]@);
            match tagged_from_cli_args::<CliBlockIdHash>("at-block-hash", toks, start) {
                Some(h) => Some(CliBlockId::AtBlockHash(h)),
                None => None,
            }
        }
    }

    fn unresolved() -> (r: Self) {
        CliBlockId::AtFinalBlock
    }

    fn is_resolved(&self) -> (r: bool) {
        match self {
            CliBlockId::AtFinalBlock => true,
            CliBlockId::AtBlockHeight(h) => h.is_resolved(),
            CliBlockId::AtBlockHash(h) => h.is_resolved(),
        }
    }

    proof fn lemma_round_trip(m: BlockIdModel) {
        lemma_block_id_names_distinct();
        match m {
            BlockIdModel::AtFinalBlock => {},
            BlockIdModel::AtBlockHeight(h) => {
                lemma_tagged_round_trip::<CliBlockIdHeight>(block_height_name(), h);
                crate::decimal::lemma_decimal_not_empty(h.unwrap() as nat);
            },
            BlockIdModel::AtBlockHash(h) => {
                lemma_tagged_round_trip::<CliBlockIdHash>(block_hash_name(), h);
            },
        }
    }
}

/// Viewing the hash of a contract, as flags: the block to view it at.
#[derive(Clone, Debug, Default)]
pub struct CliContractHash {
    pub selected_block_id: Option<CliBlockId>,
}

impl CliNode for CliContractHash {
    type Model = Option<BlockIdModel>;

    open spec fn model(&self) -> Option<BlockIdModel> {
        crate::cli::opt_model(self.selected_block_id)
    }

    open spec fn tokens_of(m: Option<BlockIdModel>) -> Seq<Seq<char>> {
        opt_tokens::<CliBlockId>(m)
    }

    open spec fn resolved_model(m: Option<BlockIdModel>) -> bool {
        opt_resolved::<CliBlockId>(m)
    }

    open spec fn parse_spec(toks: Seq<Seq<char>>) -> Option<Option<BlockIdModel>> {
        opt_parse::<CliBlockId>(toks)
    }

    open spec fn unresolved_model() -> Option<BlockIdModel> {
        None
    }

    fn to_cli_args(&self) -> (r: Vec<String>) {
        opt_to_cli_args(&self.selected_block_id)
    }

    fn from_cli_args(toks: &Vec<String>, start: usize) -> (r: Option<Self>) {
        match opt_from_cli_args::<CliBlockId>(toks, start) {
            Some(o) => Some(CliContractHash { selected_block_id: o }),
            None => None,
        }
    }

    fn unresolved() -> (r: Self) {
        CliContractHash { selected_block_id: None }
    }

    fn is_resolved(&self) -> (r: bool) {
        crate::cli::opt_is_resolved(&self.selected_block_id)
    }

    proof fn lemma_round_trip(m: Option<BlockIdModel>) {
        lemma_opt_round_trip::<CliBlockId>(m);
    }
}

/// Downloading the code of a contract, as flags: the block to read it at.
#[derive(Clone, Debug, Default)]
pub struct CliContractFile {
    pub selected_block_id: Option<CliBlockId>,
}

impl CliNode for CliContractFile {
    type Model = Option<BlockIdModel>;

    open spec fn model(&self) -> Option<BlockIdModel> {
        crate::cli::opt_model(self.selected_block_id)
    }

    open spec fn tokens_of(m: Option<BlockIdModel>) -> Seq<Seq<char>> {
        opt_tokens::<CliBlockId>(m)
    }

    open spec fn resolved_model(m: Option<BlockIdModel>) -> bool {
        opt_resolved::<CliBlockId>(m)
    }

    open spec fn parse_spec(toks: Seq<Seq<char>>) -> Option<Option<BlockIdModel>> {
        opt_parse::<CliBlockId>(toks)
    }

    open spec fn unresolved_model() -> Option<BlockIdModel> {
        None
    }

    fn to_cli_args(&self) -> (r: Vec<String>) {
        opt_to_cli_args(&self.selected_block_id)
    }

    fn from_cli_args(toks: &Vec<String>, start: usize) -> (r: Option<Self>) {
        match opt_from_cli_args::<CliBlockId>(toks, start) {
            Some(o) => Some(CliContractFile { selected_block_id: o }),
            None => None,
        }
    }

    fn unresolved() -> (r: Self) {
        CliContractFile { selected_block_id: None }
    }

    fn is_resolved(&self) -> (r: bool) {
        crate::cli::opt_is_resolved(&self.selected_block_id)
    }

    proof fn lemma_round_trip(m: Option<BlockIdModel>) {
        lemma_opt_round_trip::<CliBlockId>(m);
    }
}

/// What to do with a contract, as flags.
#[derive(Clone, Debug)]
pub enum CliDownloadMode {
    Download(CliContractFile),
    Hash(CliContractHash),
}

/// The tag of each contract mode, in declaration order.
#[derive(Clone, Copy, Debug, PartialEq, Eq, Structural)]
pub enum CliDownloadModeDiscriminants {
    Download,
    Hash,
}

pub open spec fn download_mode_tags_spec() -> Seq<CliDownloadModeDiscriminants> {
    seq![CliDownloadModeDiscriminants::Download, CliDownloadModeDiscriminants::Hash]
}

pub open spec fn download_mode_message_spec(t: CliDownloadModeDiscriminants) -> Seq<char> {
    match t {
        CliDownloadModeDiscriminants::Download => "Download a contract file"@,
        CliDownloadModeDiscriminants::Hash => "View a contract hash"@,
    }
}

impl CliDownloadModeDiscriminants {
    /// Every tag, in declaration order.
    pub fn iter_all() -> (r: Vec<CliDownloadModeDiscriminants>)
        ensures
            r@ == download_mode_tags_spec(),
    {
        let r = vec![CliDownloadModeDiscriminants::Download, CliDownloadModeDiscriminants::Hash];
        assert(r@ =~= download_mode_tags_spec());
        r
    }

    /// The human-readable label shown for this tag.
    pub fn get_message(&self) -> (r: String)
        ensures
            r@ == download_mode_message_spec(*self),
    {
        match self {
            CliDownloadModeDiscriminants::Download => String::from_str("Download a contract file"),
            CliDownloadModeDiscriminants::Hash => String::from_str("View a contract hash"),
        }
    }
}

/// The contract-mode selector offers every tag exactly once, in declaration order.
pub proof fn lemma_download_mode_tags_exhaustive(t: CliDownloadModeDiscriminants)
    ensures
        download_mode_tags_spec().contains(t),
        download_mode_tags_spec().no_duplicates(),
        download_mode_tags_spec().len() == 2,
{
    let i: int = match t {
        CliDownloadModeDiscriminants::Download => 0,
        CliDownloadModeDiscriminants::Hash => 1,
    };
    assert(download_mode_tags_spec()[i] == t);
}

pub enum DownloadModeModel {
    Download(Option<BlockIdModel>),
    Hash(Option<BlockIdModel>),
}

pub open spec fn download_name() -> Seq<char> {
    "download"@
}

pub open spec fn hash_name() -> Seq<char> {
    "hash"@
}

impl CliDownloadMode {
    /// The variant of the chosen tag, with nothing below it supplied yet.
    pub fn prompt_input(tag: CliDownloadModeDiscriminants) -> (r: Self)
        ensures
            r.model() == (match tag {
                CliDownloadModeDiscriminants::Download => DownloadModeModel::Download(None),
                CliDownloadModeDiscriminants::Hash => DownloadModeModel::Hash(None),
            }),
    {
        match tag {
            CliDownloadModeDiscriminants::Download => CliDownloadMode::Download(
                CliContractFile { selected_block_id: None },
            ),
            CliDownloadModeDiscriminants::Hash => CliDownloadMode::Hash(
                CliContractHash { selected_block_id: None },
            ),
        }
    }
}

impl CliNode for CliDownloadMode {
    type Model = DownloadModeModel;

    open spec fn model(&self) -> DownloadModeModel {
        match self {
            CliDownloadMode::Download(f) => DownloadModeModel::Download(f.model()),
            CliDownloadMode::Hash(h) => DownloadModeModel::Hash(h.model()),
        }
    }

    open spec fn tokens_of(m: DownloadModeModel) -> Seq<Seq<char>> {
        match m {
            DownloadModeModel::Download(b) => seq![download_name()] + CliContractFile::tokens_of(b),
            DownloadModeModel::Hash(b) => seq![hash_name()] + CliContractHash::tokens_of(b),
        }
    }

    open spec fn resolved_model(m: DownloadModeModel) -> bool {
        match m {
            DownloadModeModel::Download(b) => CliContractFile::resolved_model(b),
            DownloadModeModel::Hash(b) => CliContractHash::resolved_model(b),
        }
    }

    open spec fn parse_spec(toks: Seq<Seq<char>>) -> Option<DownloadModeModel> {
        if toks.len() > 0 && toks[0] == download_name() {
            match tagged_parse::<CliContractFile>(download_name(), toks) {
                Some(b) => Some(DownloadModeModel::Download(b)),
                None => None,
            }
        } else {
            match tagged_parse::<CliContractHash>(hash_name(), toks) {
                Some(b) => Some(DownloadModeModel::Hash(b)),
                None => None,
            }
        }
    }

    open spec fn unresolved_model() -> DownloadModeModel {
        DownloadModeModel::Download(None)
    }

    fn to_cli_args(&self) -> (r: Vec<String>) {
        match self {
            CliDownloadMode::Download(f) => tagged_to_cli_args("download", f),
            CliDownloadMode::Hash(h) => tagged_to_cli_args("hash", h),
        }
    }

    fn from_cli_args(toks: &Vec<String>, start: usize) -> (r: Option<Self>) {
        let ghost w = words(toks@).skip(start as int);
        if start < toks.len() && is_word(&toks[start], "download") {
            assert(w[0] == toks@[start as int]@);
            match tagged_from_cli_args::<CliContractFile>("download", toks, start) {
                Some(f) => Some(CliDownloadMode::Download(f)),
                None => None,
            }
        } else {
            assert(start < toks@.len() ==> w[0] == toks@[start as int]@);
            match tagged_from_cli_args::<CliContractHash>("hash", toks, start) {
                Some(h) => Some(CliDownloadMode::Hash(h)),
                None => None,
            }
        }
    }

    fn unresolved() -> (r: Self) {
        CliDownloadMode::Download(CliContractFile { selected_block_id: None })
    }

    fn is_resolved(&self) -> (r: bool) {
        match self {
            CliDownloadMode::Download(f) => f.is_resolved(),
            CliDownloadMode::Hash(h) => h.is_resolved(),
        }
    }

    proof fn lemma_round_trip(m: DownloadModeModel) {
        reveal_strlit("download");
        reveal_strlit("hash");
        assert(download_name()[0] != hash_name()[0]);
        match m {
            DownloadModeModel::Download(b) => {
                lemma_tagged_round_trip::<CliContractFile>(download_name(), b);
            },
            DownloadModeModel::Hash(b) => {
                lemma_tagged_round_trip::<CliContractHash>(hash_name(), b);
            },
        }
    }
}

/// A contract to view, as flags: its account, positional, then what to do with it.
#[derive(Clone, Debug, Default)]
pub struct CliContract {
    pub contract_id: Option<String>,
    pub download_mode: Option<CliDownloadMode>,
}

impl CliNode for CliContract {
    type Model = (Option<Seq<char>>, Option<DownloadModeModel>);

    open spec fn model(&self) -> (Option<Seq<char>>, Option<DownloadModeModel>) {
        (opt_view(self.contract_id), crate::cli::opt_model(self.download_mode))
    }

    open spec fn tokens_of(m: (Option<Seq<char>>, Option<DownloadModeModel>)) -> Seq<Seq<char>> {
        opt_word(m.0) + opt_tokens::<CliDownloadMode>(m.1)
    }

    open spec fn resolved_model(m: (Option<Seq<char>>, Option<DownloadModeModel>)) -> bool {
        m.0 is Some && opt_resolved::<CliDownloadMode>(m.1)
    }

    /// The first token, if any, is the contract; the rest is the mode.
    open spec fn parse_spec(toks: Seq<Seq<char>>) -> Option<(Option<Seq<char>>, Option<DownloadModeModel>)> {
        if toks.len() == 0 {
            Some((None, None))
        } else {
            match opt_parse::<CliDownloadMode>(toks.skip(1)) {
                Some(mode) => Some((Some(toks[0]), mode)),
                None => None,
            }
        }
    }

    open spec fn unresolved_model() -> (Option<Seq<char>>, Option<DownloadModeModel>) {
        (None, None)
    }

    fn to_cli_args(&self) -> (r: Vec<String>) {
        concat_args(opt_word_args(&self.contract_id), opt_to_cli_args(&self.download_mode))
    }

    fn from_cli_args(toks: &Vec<String>, start: usize) -> (r: Option<Self>) {
        if start == toks.len() {
            return Some(CliContract { contract_id: None, download_mode: None });
        }
        proof {
            crate::cli::lemma_skip_skip(words(toks@), start as int);
        }
        match opt_from_cli_args::<CliDownloadMode>(toks, start + 1) {
            Some(mode) => Some(CliContract { contract_id: Some(toks[start].clone()), download_mode: mode }),
            None => None,
        }
    }

    fn unresolved() -> (r: Self) {
        CliContract { contract_id: None, download_mode: None }
    }

    fn is_resolved(&self) -> (r: bool) {
        self.contract_id.is_some() && crate::cli::opt_is_resolved(&self.download_mode)
    }

    proof fn lemma_round_trip(m: (Option<Seq<char>>, Option<DownloadModeModel>)) {
        lemma_opt_round_trip::<CliDownloadMode>(m.1);
        lemma_skip_cons(m.0.unwrap(), opt_tokens::<CliDownloadMode>(m.1));
    }
}

/// The view queries, as flags.
#[derive(Clone, Debug)]
pub enum CliQueryRequest {
    AccountSummary(CliOperationMode<CliMode<CliNetworkArgs<CliSelectServer<CliContract>>>>),
}

pub open spec fn account_summary_name() -> Seq<char> {
    "account-summary"@
}

impl CliNode for CliQueryRequest {
    type Model = <CliOperationMode<CliMode<CliNetworkArgs<CliSelectServer<CliContract>>>> as CliNode>::Model;

    open spec fn model(&self) -> Self::Model {
        match self {
            CliQueryRequest::AccountSummary(c) => c.model(),
        }
    }

    open spec fn tokens_of(m: Self::Model) -> Seq<Seq<char>> {
        seq![account_summary_name()] + CliOperationMode::<
            CliMode<CliNetworkArgs<CliSelectServer<CliContract>>>,
        >::tokens_of(m)
    }

    open spec fn resolved_model(m: Self::Model) -> bool {
        CliOperationMode::<CliMode<CliNetworkArgs<CliSelectServer<CliContract>>>>::resolved_model(m)
    }

    open spec fn parse_spec(toks: Seq<Seq<char>>) -> Option<Self::Model> {
        tagged_parse::<CliOperationMode<CliMode<CliNetworkArgs<CliSelectServer<CliContract>>>>>(
            account_summary_name(),
            toks,
        )
    }

    open spec fn unresolved_model() -> Self::Model {
        None
    }

    fn to_cli_args(&self) -> (r: Vec<String>) {
        match self {
            CliQueryRequest::AccountSummary(c) => tagged_to_cli_args("account-summary", c),
        }
    }

    fn from_cli_args(toks: &Vec<String>, start: usize) -> (r: Option<Self>) {
        match tagged_from_cli_args::<CliOperationMode<CliMode<CliNetworkArgs<CliSelectServer<CliContract>>>>>(
            "account-summary",
            toks,
            start,
        ) {
            Some(c) => Some(CliQueryRequest::AccountSummary(c)),
            None => None,
        }
    }

    fn unresolved() -> (r: Self) {
        CliQueryRequest::AccountSummary(CliOperationMode { mode: None })
    }

    fn is_resolved(&self) -> (r: bool) {
        match self {
            CliQueryRequest::AccountSummary(c) => c.is_resolved(),
        }
    }

    proof fn lemma_round_trip(m: Self::Model) {
        lemma_tagged_round_trip::<CliOperationMode<CliMode<CliNetworkArgs<CliSelectServer<CliContract>>>>>(
            account_summary_name(),
            m,
        );
    }
}

} // verus!
