use vstd::prelude::*;
use crate::cli::{
    CliNode, concat_args, lemma_opt_round_trip, opt_parse, opt_resolved, opt_to_cli_args, opt_tokens,
    single, words,
};
use crate::commands::CliTopLevelCommand;

verus! {

/// The command line that `shell_words::join` makes of a sequence of words.
pub uninterp spec fn shell_join_of(words: Seq<Seq<char>>) -> Seq<char>;

/// Relies on `shell_words::join`: each word is quoted for a Unix shell and the
/// words are joined with single spaces; no words give an empty line.
#[verifier::external_body]
fn shell_join(args: &Vec<String>) -> (r: String)
    ensures
        r@ == shell_join_of(words(args@)),
        args@.len() == 0 ==> r@.len() == 0,
{
    shell_words::join(args)
}

pub open spec fn program_name() -> Seq<char> {
    "./near-cli"@
}

/// The whole command line as flags.
#[derive(Clone, Debug)]
pub struct CliArgs {
    pub top_level_command: Option<CliTopLevelCommand>,
}

pub type CliArgsModel = Option<<CliTopLevelCommand as CliNode>::Model>;

impl CliArgs {
    pub open spec fn model(&self) -> CliArgsModel {
        match self.top_level_command {
            Some(c) => Some(c.model()),
            None => None,
        }
    }

    /// The program name, then the canonical tokens of the command.
    pub open spec fn tokens_of(m: CliArgsModel) -> Seq<Seq<char>> {
        seq![program_name()] + opt_tokens::<CliTopLevelCommand>(m)
    }

    pub open spec fn resolved_model(m: CliArgsModel) -> bool {
        opt_resolved::<CliTopLevelCommand>(m)
    }

    /// The command that an argument vector denotes; its first word names the program.
    pub open spec fn parse_spec(argv: Seq<Seq<char>>) -> Option<CliArgsModel> {
        if argv.len() == 0 {
            Some(None)
        } else {
            opt_parse::<CliTopLevelCommand>(argv.skip(1))
        }
    }

    /// The canonical command line of this command, program name first.
    pub fn to_cli_args(&self) -> (r: Vec<String>)
        ensures
            words(r@) == Self::tokens_of(self.model()),
    {
        proof {
            reveal_strlit("./near-cli");
        }
        concat_args(single("./near-cli"), opt_to_cli_args(&self.top_level_command))
    }

    /// Reads the command from an argument vector whose first word names the program.
    pub fn from_cli_args(argv: &Vec<String>) -> (r: Option<Self>)
        ensures
            match r {
                Some(a) => Self::parse_spec(words(argv@)) == Some(a.model()),
                None => Self::parse_spec(words(argv@)) is None,
            },
    {
        if argv.len() == 0 {
            return Some(CliArgs { top_level_command: None });
        }
        match crate::cli::opt_from_cli_args::<CliTopLevelCommand>(argv, 1) {
            Some(c) => Some(CliArgs { top_level_command: c }),
            None => None,
        }
    }

    /// Whether the command line supplies everything, so that nothing is asked for.
    pub fn is_resolved(&self) -> (r: bool)
        ensures
            r == Self::resolved_model(self.model()),
    {
        crate::cli::opt_is_resolved(&self.top_level_command)
    }

    /// The command line to echo back: the canonical tokens, quoted for a shell.
    pub fn console_command(&self) -> (r: String)
        ensures
            r@ == shell_join_of(Self::tokens_of(self.model())),
    {
        let args = self.to_cli_args();
        shell_join(&args)
    }
}

/// Writing a resolved command out as flags and reading those flags back gives
/// the same command.
pub proof fn lemma_cli_args_round_trip(m: CliArgsModel)
    requires
        CliArgs::resolved_model(m),
    ensures
        CliArgs::parse_spec(CliArgs::tokens_of(m)) == Some(m),
{
    crate::cli::lemma_skip_cons(program_name(), opt_tokens::<CliTopLevelCommand>(m));
    lemma_opt_round_trip::<CliTopLevelCommand>(m);
}

} // verus!
