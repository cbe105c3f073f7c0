use vstd::prelude::*;

verus! {

/// Where a candidate account identifier came from.
#[derive(Clone, Copy, Debug, PartialEq, Eq, Structural)]
pub enum AccountSource {
    Flag,
    Prompt,
}

/// The next thing to do while resolving an account identifier.
#[derive(Clone, Debug)]
pub enum AccountStep {
    /// Look this candidate up remotely.
    Check(AccountSource, String),
    /// Ask the user for an identifier; it is then checked as coming from a prompt.
    Ask,
}

/// What to do with a candidate account identifier once the remote lookup
/// has answered.
#[derive(Clone, Debug)]
pub enum AccountDecision {
    /// The account exists: take the identifier.
    Accept(String),
    /// The account does not exist: show this line, then ask for an identifier.
    Reprompt(String),
}

pub open spec fn missing_line_spec(source: AccountSource, id: Seq<char>) -> Seq<char> {
    match source {
        AccountSource::Flag => "Contract <"@ + id + "> doesn't exist"@,
        AccountSource::Prompt => "Account <"@ + id + "> doesn't exist"@,
    }
}

/// The line shown when an account was not found.
pub fn missing_line(source: AccountSource, id: &String) -> (r: String)
    ensures
        r@ == missing_line_spec(source, id@),
{
    let mut line = match source {
        AccountSource::Flag => String::from_str("Contract <"),
        AccountSource::Prompt => String::from_str("Account <"),
    };
    line.append(id.as_str());
    line.append("> doesn't exist");
    line
}

/// A decision as plain values: whether it accepts, and the identifier
/// accepted or the line to show.
pub open spec fn decision_view(d: AccountDecision) -> (bool, Seq<char>) {
    match d {
        AccountDecision::Accept(id) => (true, id@),
        AccountDecision::Reprompt(line) => (false, line@),
    }
}

pub open spec fn decide_spec(source: AccountSource, id: Seq<char>, found: bool) -> (bool, Seq<char>) {
    if found {
        (true, id)
    } else {
        (false, missing_line_spec(source, id))
    }
}

/// The account that signed a transaction, resolved and known to exist.
#[derive(Clone, Debug)]
pub struct Sender {
    pub sender_account_id: String,
}

impl Sender {
    /// The first step of resolving the sender: check the identifier given as
    /// a flag, or, without one, ask the user.
    pub fn from_cli(sender_account_id: Option<String>) -> (r: AccountStep)
        ensures
            match sender_account_id {
                Some(id) => r == AccountStep::Check(AccountSource::Flag, id),
                None => r == AccountStep::Ask,
            },
    {
        match sender_account_id {
            Some(id) => AccountStep::Check(AccountSource::Flag, id),
            None => AccountStep::Ask,
        }
    }

    /// Decides on a candidate from the lookup's answer. A found account is
    /// accepted whatever its source; a missing one is reported and asked for again.
    pub fn decide(source: AccountSource, candidate: String, found: bool) -> (r: AccountDecision)
        ensures
            decision_view(r) == decide_spec(source, candidate@, found),
    {
        if found {
            AccountDecision::Accept(candidate)
        } else {
            AccountDecision::Reprompt(missing_line(source, &candidate))
        }
    }

    /// The resolved sender from an accepted identifier.
    pub fn accept(sender_account_id: String) -> (r: Sender)
        ensures
            r.sender_account_id == sender_account_id,
    {
        Sender { sender_account_id }
    }
}

} // verus!
