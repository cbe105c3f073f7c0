use vstd::prelude::*;

verus! {

/// The text of each token of a flag sequence.
pub open spec fn words(v: Seq<String>) -> Seq<Seq<char>> {
    v.map_values(|s: String| s@)
}

/// A node of the command tree as flags: it can be written out as its canonical
/// token sequence and read back from one. What a node holds is described by its
/// model, over which the token sequence and the parser are stated.
pub trait CliNode: Sized {
    type Model;

    spec fn model(&self) -> Self::Model;

    /// The canonical tokens of a node and everything below it.
    spec fn tokens_of(m: Self::Model) -> Seq<Seq<char>>;

    /// Every optional field of the node and its descendants is present.
    spec fn resolved_model(m: Self::Model) -> bool;

    /// The node that a token sequence denotes, consuming all of it.
    spec fn parse_spec(toks: Seq<Seq<char>>) -> Option<Self::Model>;

    /// The node with nothing supplied yet. A node that must pick a variant
    /// starts at its first declared one, with nothing below it.
    spec fn unresolved_model() -> Self::Model;

    fn to_cli_args(&self) -> (r: Vec<String>)
        ensures
            words(r@) == Self::tokens_of(self.model()),
    ;

    fn from_cli_args(toks: &Vec<String>, start: usize) -> (r: Option<Self>)
        requires
            start <= toks@.len(),
        ensures
            match r {
                Some(n) => Self::parse_spec(words(toks@).skip(start as int)) == Some(n.model()),
                None => Self::parse_spec(words(toks@).skip(start as int)) is None,
            },
    ;

    fn unresolved() -> (r: Self)
        ensures
            r.model() == Self::unresolved_model(),
    ;

    /// Whether nothing is left to ask for.
    fn is_resolved(&self) -> (r: bool)
        ensures
            r == Self::resolved_model(self.model()),
    ;

    /// Reading back the tokens of a resolved node gives the node again.
    proof fn lemma_round_trip(m: Self::Model)
        requires
            Self::resolved_model(m),
        ensures
            Self::parse_spec(Self::tokens_of(m)) == Some(m),
            Self::tokens_of(m).len() > 0,
    ;
}

pub open spec fn opt_model<T: CliNode>(o: Option<T>) -> Option<T::Model> {
    match o {
        Some(t) => Some(t.model()),
        None => None,
    }
}

/// Whether a token reads as the given word.
pub fn is_word(tok: &String, w: &str) -> (r: bool)
    ensures
        r == (tok@ == w@),
{
    let s = String::from_str(w);
    *tok == s
}

/// A one-element token sequence.
pub fn single(w: &str) -> (r: Vec<String>)
    ensures
        words(r@) == seq![w@],
{
    let r = vec![String::from_str(w)];
    assert(words(r@) =~= seq![w@]);
    r
}

/// Appends the second token sequence to the first.
pub fn concat_args(front: Vec<String>, back: Vec<String>) -> (r: Vec<String>)
    ensures
        words(r@) == words(front@) + words(back@),
{
    let ghost f = front@;
    let ghost b = back@;
    let mut front = front;
    let mut back = back;
    front.append(&mut back);
    assert(words(front@) =~= words(f) + words(b));
    front
}

pub proof fn lemma_skip_cons(w: Seq<char>, rest: Seq<Seq<char>>)
    ensures
        (seq![w] + rest).skip(1) == rest,
        (seq![w] + rest)[0] == w,
        (seq![w] + rest).len() == rest.len() + 1,
{
    assert((seq![w] + rest).skip(1) =~= rest);
}

pub proof fn lemma_skip_skip(s: Seq<Seq<char>>, a: int)
    requires
        0 <= a < s.len(),
    ensures
        s.skip(a).skip(1) == s.skip(a + 1),
        s.skip(a)[0] == s[a],
        s.skip(a).len() == s.len() - a,
{
    assert(s.skip(a).skip(1) =~= s.skip(a + 1));
}

// ---------------------------------------------------------------------------
// A layer whose only content is one optional subcommand.

pub open spec fn opt_tokens<T: CliNode>(o: Option<T::Model>) -> Seq<Seq<char>> {
    match o {
        Some(m) => T::tokens_of(m),
        None => Seq::empty(),
    }
}

pub open spec fn opt_resolved<T: CliNode>(o: Option<T::Model>) -> bool {
    match o {
        Some(m) => T::resolved_model(m),
        None => false,
    }
}

/// An optional subcommand is absent exactly when no tokens are left.
pub open spec fn opt_parse<T: CliNode>(toks: Seq<Seq<char>>) -> Option<Option<T::Model>> {
    if toks.len() == 0 {
        Some(None)
    } else {
        match T::parse_spec(toks) {
            Some(m) => Some(Some(m)),
            None => None,
        }
    }
}

pub fn opt_to_cli_args<T: CliNode>(o: &Option<T>) -> (r: Vec<String>)
    ensures
        words(r@) == opt_tokens::<T>(opt_model(*o)),
{
    match o {
        Some(t) => t.to_cli_args(),
        None => {
            let r: Vec<String> = Vec::new();
            assert(words(r@) =~= Seq::empty());
            r
        },
    }
}

pub fn opt_from_cli_args<T: CliNode>(toks: &Vec<String>, start: usize) -> (r: Option<Option<T>>)
    requires
        start <= toks@.len(),
    ensures
        match r {
            Some(o) => opt_parse::<T>(words(toks@).skip(start as int)) == Some(opt_model(o)),
            None => opt_parse::<T>(words(toks@).skip(start as int)) is None,
        },
{
    if start == toks.len() {
        Some(None)
    } else {
        match T::from_cli_args(toks, start) {
            Some(t) => Some(Some(t)),
            None => None,
        }
    }
}

pub fn opt_is_resolved<T: CliNode>(o: &Option<T>) -> (r: bool)
    ensures
        r == opt_resolved::<T>(opt_model(*o)),
{
    match o {
        Some(t) => t.is_resolved(),
        None => false,
    }
}

pub proof fn lemma_opt_round_trip<T: CliNode>(o: Option<T::Model>)
    requires
        opt_resolved::<T>(o),
    ensures
        opt_parse::<T>(opt_tokens::<T>(o)) == Some(o),
        opt_tokens::<T>(o).len() > 0,
{
    T::lemma_round_trip(o.unwrap());
}

/// The network layer: its subcommand selects the server.
#[derive(Clone, Debug)]
pub struct CliNetworkArgs<T> {
    pub selected_server: Option<T>,
}

/// The server layer of a well-known endpoint: its subcommand says what to send.
#[derive(Clone, Debug)]
pub struct CliServer<T> {
    pub send_to: Option<T>,
}

/// The server layer of a manually specified endpoint.
#[derive(Clone, Debug)]
pub struct CliCustomServer<T> {
    pub send_to: Option<T>,
}

/// The operation-mode layer: its subcommand picks the mode.
#[derive(Clone, Debug)]
pub struct CliOperationMode<T> {
    pub mode: Option<T>,
}

impl<T> Default for CliServer<T> {
    /// The layer with its subcommand not chosen yet, whatever the child type.
    fn default() -> (r: Self)
        ensures
            r.send_to is None,
    {
        CliServer { send_to: None }
    }
}

impl<T> Default for CliCustomServer<T> {
    /// The layer with its subcommand not chosen yet, whatever the child type.
    fn default() -> (r: Self)
        ensures
            r.send_to is None,
    {
        CliCustomServer { send_to: None }
    }
}

impl<T> Default for CliNetworkArgs<T> {
    /// The layer with its subcommand not chosen yet, whatever the child type.
    fn default() -> (r: Self)
        ensures
            r.selected_server is None,
    {
        CliNetworkArgs { selected_server: None }
    }
}

impl<T> Default for CliOperationMode<T> {
    /// The layer with its subcommand not chosen yet, whatever the child type.
    fn default() -> (r: Self)
        ensures
            r.mode is None,
    {
        CliOperationMode { mode: None }
    }
}

impl<T: CliNode> CliNode for CliNetworkArgs<T> {
    type Model = Option<T::Model>;

    open spec fn model(&self) -> Option<T::Model> {
        opt_model(self.selected_server)
    }

    open spec fn tokens_of(m: Option<T::Model>) -> Seq<Seq<char>> {
        opt_tokens::<T>(m)
    }

    open spec fn resolved_model(m: Option<T::Model>) -> bool {
        opt_resolved::<T>(m)
    }

    open spec fn parse_spec(toks: Seq<Seq<char>>) -> Option<Option<T::Model>> {
        opt_parse::<T>(toks)
    }

    open spec fn unresolved_model() -> Option<T::Model> {
        None
    }

    fn to_cli_args(&self) -> (r: Vec<String>) {
        opt_to_cli_args(&self.selected_server)
    }

    fn from_cli_args(toks: &Vec<String>, start: usize) -> (r: Option<Self>) {
        match opt_from_cli_args::<T>(toks, start) {
            Some(o) => Some(CliNetworkArgs { selected_server: o }),
            None => None,
        }
    }

    fn unresolved() -> (r: Self) {
        CliNetworkArgs { selected_server: None }
    }

    fn is_resolved(&self) -> (r: bool) {
        opt_is_resolved(&self.selected_server)
    }

    proof fn lemma_round_trip(m: Option<T::Model>) {
        lemma_opt_round_trip::<T>(m);
    }
}

impl<T: CliNode> CliNode for CliServer<T> {
    type Model = Option<T::Model>;

    open spec fn model(&self) -> Option<T::Model> {
        opt_model(self.send_to)
    }

    open spec fn tokens_of(m: Option<T::Model>) -> Seq<Seq<char>> {
        opt_tokens::<T>(m)
    }

    open spec fn resolved_model(m: Option<T::Model>) -> bool {
        opt_resolved::<T>(m)
    }

    open spec fn parse_spec(toks: Seq<Seq<char>>) -> Option<Option<T::Model>> {
        opt_parse::<T>(toks)
    }

    open spec fn unresolved_model() -> Option<T::Model> {
        None
    }

    fn to_cli_args(&self) -> (r: Vec<String>) {
        opt_to_cli_args(&self.send_to)
    }

    fn from_cli_args(toks: &Vec<String>, start: usize) -> (r: Option<Self>) {
        match opt_from_cli_args::<T>(toks, start) {
            Some(o) => Some(CliServer { send_to: o }),
            None => None,
        }
    }

    fn unresolved() -> (r: Self) {
        CliServer { send_to: None }
    }

    fn is_resolved(&self) -> (r: bool) {
        opt_is_resolved(&self.send_to)
    }

    proof fn lemma_round_trip(m: Option<T::Model>) {
        lemma_opt_round_trip::<T>(m);
    }
}

impl<T: CliNode> CliNode for CliCustomServer<T> {
    type Model = Option<T::Model>;

    open spec fn model(&self) -> Option<T::Model> {
        opt_model(self.send_to)
    }

    open spec fn tokens_of(m: Option<T::Model>) -> Seq<Seq<char>> {
        opt_tokens::<T>(m)
    }

    open spec fn resolved_model(m: Option<T::Model>) -> bool {
        opt_resolved::<T>(m)
    }

    open spec fn parse_spec(toks: Seq<Seq<char>>) -> Option<Option<T::Model>> {
        opt_parse::<T>(toks)
    }

    open spec fn unresolved_model() -> Option<T::Model> {
        None
    }

    fn to_cli_args(&self) -> (r: Vec<String>) {
        opt_to_cli_args(&self.send_to)
    }

    fn from_cli_args(toks: &Vec<String>, start: usize) -> (r: Option<Self>) {
        match opt_from_cli_args::<T>(toks, start) {
            Some(o) => Some(CliCustomServer { send_to: o }),
            None => None,
        }
    }

    fn unresolved() -> (r: Self) {
        CliCustomServer { send_to: None }
    }

    fn is_resolved(&self) -> (r: bool) {
        opt_is_resolved(&self.send_to)
    }

    proof fn lemma_round_trip(m: Option<T::Model>) {
        lemma_opt_round_trip::<T>(m);
    }
}

impl<T: CliNode> CliNode for CliOperationMode<T> {
    type Model = Option<T::Model>;

    open spec fn model(&self) -> Option<T::Model> {
        opt_model(self.mode)
    }

    open spec fn tokens_of(m: Option<T::Model>) -> Seq<Seq<char>> {
        opt_tokens::<T>(m)
    }

    open spec fn resolved_model(m: Option<T::Model>) -> bool {
        opt_resolved::<T>(m)
    }

    open spec fn parse_spec(toks: Seq<Seq<char>>) -> Option<Option<T::Model>> {
        opt_parse::<T>(toks)
    }

    open spec fn unresolved_model() -> Option<T::Model> {
        None
    }

    fn to_cli_args(&self) -> (r: Vec<String>) {
        opt_to_cli_args(&self.mode)
    }

    fn from_cli_args(toks: &Vec<String>, start: usize) -> (r: Option<Self>) {
        match opt_from_cli_args::<T>(toks, start) {
            Some(o) => Some(CliOperationMode { mode: o }),
            None => None,
        }
    }

    fn unresolved() -> (r: Self) {
        CliOperationMode { mode: None }
    }

    fn is_resolved(&self) -> (r: bool) {
        opt_is_resolved(&self.mode)
    }

    proof fn lemma_round_trip(m: Option<T::Model>) {
        lemma_opt_round_trip::<T>(m);
    }
}

// ---------------------------------------------------------------------------
// Layers that name a subcommand before the tokens of their child.

/// The child that follows a leading subcommand name, if the tokens start with it.
pub open spec fn tagged_parse<T: CliNode>(name: Seq<char>, toks: Seq<Seq<char>>) -> Option<T::Model> {
    if toks.len() > 0 && toks[0] == name {
        T::parse_spec(toks.skip(1))
    } else {
        None
    }
}

pub fn tagged_to_cli_args<T: CliNode>(name: &str, t: &T) -> (r: Vec<String>)
    ensures
        words(r@) == seq![name@] + T::tokens_of(t.model()),
{
    concat_args(single(name), t.to_cli_args())
}

pub fn tagged_from_cli_args<T: CliNode>(name: &str, toks: &Vec<String>, start: usize) -> (r: Option<T>)
    requires
        start <= toks@.len(),
    ensures
        opt_model(r) == tagged_parse::<T>(name@, words(toks@).skip(start as int)),
{
    proof {
        if start < toks@.len() {
            lemma_skip_skip(words(toks@), start as int);
        }
    }
    if start < toks.len() && is_word(&toks[start], name) {
        T::from_cli_args(toks, start + 1)
    } else {
        None
    }
}

pub proof fn lemma_tagged_round_trip<T: CliNode>(name: Seq<char>, m: T::Model)
    requires
        T::resolved_model(m),
    ensures
        tagged_parse::<T>(name, seq![name] + T::tokens_of(m)) == Some(m),
        (seq![name] + T::tokens_of(m)).len() > 0,
        (seq![name] + T::tokens_of(m))[0] == name,
{
    lemma_skip_cons(name, T::tokens_of(m));
    T::lemma_round_trip(m);
}

pub open spec fn send_to_name() -> Seq<char> {
    "send-to"@
}

pub open spec fn network_name() -> Seq<char> {
    "network"@
}

/// The layer that names where the operation's data goes.
#[derive(Clone, Debug)]
pub enum CliSendTo<T> {
    SendTo(T),
}

/// The layer that picks the operation mode; online is the only one.
#[derive(Clone, Debug)]
pub enum CliMode<T> {
    Network(T),
}

impl<T: CliNode> CliSendTo<T> {
    /// The only variant needs no choice: it starts with an unresolved child.
    pub fn prompt_input() -> (r: Self)
        ensures
            r.model() == T::unresolved_model(),
    {
        CliSendTo::SendTo(T::unresolved())
    }
}

impl<T: CliNode> CliNode for CliSendTo<T> {
    type Model = T::Model;

    open spec fn model(&self) -> T::Model {
        match self {
            CliSendTo::SendTo(t) => t.model(),
        }
    }

    open spec fn tokens_of(m: T::Model) -> Seq<Seq<char>> {
        seq![send_to_name()] + T::tokens_of(m)
    }

    open spec fn resolved_model(m: T::Model) -> bool {
        T::resolved_model(m)
    }

    open spec fn parse_spec(toks: Seq<Seq<char>>) -> Option<T::Model> {
        tagged_parse::<T>(send_to_name(), toks)
    }

    open spec fn unresolved_model() -> T::Model {
        T::unresolved_model()
    }

    fn to_cli_args(&self) -> (r: Vec<String>) {
        match self {
            CliSendTo::SendTo(t) => tagged_to_cli_args("send-to", t),
        }
    }

    fn from_cli_args(toks: &Vec<String>, start: usize) -> (r: Option<Self>) {
        match tagged_from_cli_args::<T>("send-to", toks, start) {
            Some(t) => Some(CliSendTo::SendTo(t)),
            None => None,
        }
    }

    fn unresolved() -> (r: Self) {
        CliSendTo::SendTo(T::unresolved())
    }

    fn is_resolved(&self) -> (r: bool) {
        match self {
            CliSendTo::SendTo(t) => t.is_resolved(),
        }
    }

    proof fn lemma_round_trip(m: T::Model) {
        lemma_tagged_round_trip::<T>(send_to_name(), m);
    }
}

impl<T: CliNode> CliMode<T> {
    /// The only variant needs no choice: it starts with an unresolved child.
    pub fn prompt_input() -> (r: Self)
        ensures
            r.model() == T::unresolved_model(),
    {
        CliMode::Network(T::unresolved())
    }
}

impl<T: CliNode> CliNode for CliMode<T> {
    type Model = T::Model;

    open spec fn model(&self) -> T::Model {
        match self {
            CliMode::Network(t) => t.model(),
        }
    }

    open spec fn tokens_of(m: T::Model) -> Seq<Seq<char>> {
        seq![network_name()] + T::tokens_of(m)
    }

    open spec fn resolved_model(m: T::Model) -> bool {
        T::resolved_model(m)
    }

    open spec fn parse_spec(toks: Seq<Seq<char>>) -> Option<T::Model> {
        tagged_parse::<T>(network_name(), toks)
    }

    open spec fn unresolved_model() -> T::Model {
        T::unresolved_model()
    }

    fn to_cli_args(&self) -> (r: Vec<String>) {
        match self {
            CliMode::Network(t) => tagged_to_cli_args("network", t),
        }
    }

    fn from_cli_args(toks: &Vec<String>, start: usize) -> (r: Option<Self>) {
        match tagged_from_cli_args::<T>("network", toks, start) {
            Some(t) => Some(CliMode::Network(t)),
            None => None,
        }
    }

    fn unresolved() -> (r: Self) {
        CliMode::Network(T::unresolved())
    }

    fn is_resolved(&self) -> (r: bool) {
        match self {
            CliMode::Network(t) => t.is_resolved(),
        }
    }

    proof fn lemma_round_trip(m: T::Model) {
        lemma_tagged_round_trip::<T>(network_name(), m);
    }
}

} // verus!
