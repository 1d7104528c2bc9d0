use vstd::prelude::*;
use crate::text::{unquoted, trim_quotes};

verus! {

/// What `str::trim` leaves of a line.
pub uninterp spec fn trimmed(s: Seq<char>) -> Seq<char>;

/// Relies on `str::trim`: the line without its leading and trailing white space,
/// which depends on the characters of the line alone.
#[verifier::external_body]
fn trim_whitespace(s: &str) -> (r: &str)
    ensures
        r@ == trimmed(s@),
{
    s.trim()
}

/// A line split at its first space: the part before it, and the rest after it
/// when there is a space.
pub open spec fn split_at_space(t: Seq<char>) -> (Seq<char>, Option<Seq<char>>)
    decreases t.len(),
{
    if t.len() == 0 {
        (Seq::empty(), None)
    } else if t[0] == ' ' {
        (Seq::empty(), Some(t.drop_first()))
    } else {
        let (verb, rest) = split_at_space(t.drop_first());
        (seq![t[0]] + verb, rest)
    }
}

pub open spec fn reload_verb() -> Seq<char> {
    seq!['r', 'e', 'l', 'o', 'a', 'd']
}

/// One command of the channel: a verb and the text after it.
pub struct Command {
    pub verb: String,
    pub argument: Option<String>,
}

impl View for Command {
    type V = (Seq<char>, Option<Seq<char>>);

    open spec fn view(&self) -> (Seq<char>, Option<Seq<char>>) {
        (
            self.verb@,
            match self.argument {
                Some(a) => Some(a@),
                None => None,
            },
        )
    }
}

/// Why a command was discarded.
pub enum ProtocolError {
    /// `reload` came without a path.
    MissingArgument,
    /// The verb is not one the channel knows.
    UnknownVerb(String),
}

/// What the server does with one command.
pub enum Dispatch {
    /// Reload the payload module from this path.
    Reload(String),
    /// Log the problem and drop the connection.
    Reject(ProtocolError),
}

impl Command {
    /// Splits an already trimmed line at its first space.
    pub fn from_trimmed(t: &str) -> (r: Command)
        ensures
            r@ == split_at_space(t@),
    {
        let n = t.unicode_len();
        let mut k: usize = 0;
        while k < n && t.get_char(k) != ' '
            invariant
                n == t@.len(),
                k <= n,
                forall|j: int| 0 <= j < k ==> t@[j] != ' ',
            decreases n - k,
        {
            k = k + 1;
        }
        proof {
            lemma_split_at_space(t@, k as int);
        }
        let verb = String::from_str(t.substring_char(0, k));
        if k < n {
            Command { verb, argument: Some(String::from_str(t.substring_char(k + 1, n))) }
        } else {
            Command { verb, argument: None }
        }
    }

    /// Reads one received line: white space at both ends is dropped, then the
    /// line is split at its first space.
    pub fn parse(line: &str) -> (r: Command)
        ensures
            r@ == split_at_space(trimmed(line@)),
    {
        Command::from_trimmed(trim_whitespace(line))
    }

    /// Decides what the server does with this command.
    pub fn dispatch(&self) -> (r: Dispatch)
        ensures
            self.verb@ == reload_verb() && self.argument is Some ==> (r matches Dispatch::Reload(
                p,
            ) && p@ == self.argument->0@),
            self.verb@ == reload_verb() && self.argument is None ==> r matches Dispatch::Reject(
                ProtocolError::MissingArgument,
            ),
            self.verb@ != reload_verb() ==> (r matches Dispatch::Reject(
                ProtocolError::UnknownVerb(v),
            ) && v@ == self.verb@),
    {
        let reload = String::from_str("reload");
        proof {
            reveal_strlit("reload");
            assert(reload@ =~= reload_verb());
        }
        if self.verb == reload {
            match &self.argument {
                Some(path) => Dispatch::Reload(path.clone()),
                None => Dispatch::Reject(ProtocolError::MissingArgument),
            }
        } else {
            Dispatch::Reject(ProtocolError::UnknownVerb(self.verb.clone()))
        }
    }
}

pub(crate) proof fn lemma_split_at_space(t: Seq<char>, k: int)
    requires
        0 <= k <= t.len(),
        forall|j: int| 0 <= j < k ==> t[j] != ' ',
        k < t.len() ==> t[k] == ' ',
    ensures
        split_at_space(t) == (t.subrange(0, k), if k < t.len() {
            Some(t.subrange(k + 1, t.len() as int))
        } else {
            None
        }),
    decreases k,
{
    if k > 0 {
        lemma_split_at_space(t.drop_first(), k - 1);
        assert(seq![t[0]] + t.drop_first().subrange(0, k - 1) =~= t.subrange(0, k));
        if k < t.len() {
            assert(t.drop_first().subrange(k, t.len() - 1) =~= t.subrange(k + 1, t.len() as int));
        }
    } else {
        assert(t.subrange(0, 0) =~= Seq::<char>::empty());
        if t.len() > 0 {
            assert(t.drop_first() =~= t.subrange(1, t.len() as int));
        }
    }
}

/// The line a client sends to ask for a reload of the module at `payload_path`:
/// the verb, a space, the path without surrounding quotes, and a line end.
pub fn reload_request(payload_path: &str) -> (r: String)
    ensures
        r@ == reload_verb() + seq![' '] + unquoted(payload_path@) + seq!['\n'],
{
    let mut line = String::from_str("reload ");
    let path = trim_quotes(payload_path);
    line.append(path.as_str());
    line.append("\n");
    proof {
        reveal_strlit("reload ");
        reveal_strlit("\n");
    }
    assert(line@ =~= reload_verb() + seq![' '] + unquoted(payload_path@) + seq!['\n']);
    line
}

/// What an attempt to accept a connection gave.
pub enum AcceptOutcome {
    Connection,
    NothingPending,
    Failed,
}

/// Pause, in milliseconds, before polling again when no connection was pending.
pub const IDLE_POLL_MS: u64 = 100;

/// Pause, in milliseconds, before polling again after an accept error.
pub const ACCEPT_ERROR_PAUSE_MS: u64 = 1000;

/// How long the accept loop sleeps after an attempt: not at all after a
/// connection, briefly when none was pending, longer after an error.
pub fn pause_after(outcome: &AcceptOutcome) -> (ms: u64)
    ensures
        outcome is Connection ==> ms == 0,
        outcome is NothingPending ==> ms == IDLE_POLL_MS,
        outcome is Failed ==> ms == ACCEPT_ERROR_PAUSE_MS,
{
    match outcome {
        AcceptOutcome::Connection => 0,
        AcceptOutcome::NothingPending => IDLE_POLL_MS,
        AcceptOutcome::Failed => ACCEPT_ERROR_PAUSE_MS,
    }
}

} // verus!
