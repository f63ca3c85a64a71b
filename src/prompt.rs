//! The decisions around prompting for values, passwords and owner tokens:
//! when a prompt may be shown, what is kept, cleared or refused, and the
//! failure reported where a prompt is forbidden.

use vstd::prelude::*;
use vstd::string::*;
use crate::answer::{yes_start_of, YesStart};
use crate::hints::{usual_hints, ErrorHints};
use crate::matcher::MainMatcher;
use crate::text::{owned, trim, trimmed};

verus! {

/// An error that ends the program: its message, and the hints printed below it.
#[derive(Debug)]
pub struct Failure {
    pub message: String,
    pub hints: ErrorHints,
}

/// The usual hints with `verbose` off and one switch of the caller's on.
pub open spec fn specific_hints(password: bool, owner: bool, force: bool) -> ErrorHints {
    ErrorHints {
        password,
        owner,
        history: false,
        force,
        verbose: false,
        help: true,
    }
}

/// Whether a prompt may block on the user's input.
pub open spec fn may_prompt(m: MainMatcher) -> bool {
    !m.no_interact
}

/// The message for a value that may not be prompted for.
pub open spec fn prompt_refused_text(msg: Seq<char>) -> Seq<char> {
    "Could not prompt for '"@ + msg + "' in no-interact mode, maybe specify it"@
}

/// The message for a question that may not be asked.
pub open spec fn question_refused_text(msg: Seq<char>) -> Seq<char> {
    "Could not prompt question '"@ + msg + "' in no-interact mode, maybe specify it"@
}

/// The characters of an optional text.
pub open spec fn text_of(o: Option<String>) -> Option<Seq<char>> {
    match o {
        Some(s) => Some(s@),
        None => None,
    }
}

/// The failure for the value `msg` that may not be prompted for.
pub fn prompt_failure(msg: &str) -> (r: Failure)
    ensures
        r.message@ == prompt_refused_text(msg@),
        r.hints == usual_hints(),
{
    let mut s = owned("Could not prompt for '");
    s.append(msg);
    s.append("' in no-interact mode, maybe specify it");
    Failure { message: s, hints: ErrorHints::default() }
}

/// The failure for the question `msg` that may not be asked.
pub fn question_failure(msg: &str) -> (r: Failure)
    ensures
        r.message@ == question_refused_text(msg@),
        r.hints == usual_hints(),
{
    let mut s = owned("Could not prompt question '");
    s.append(msg);
    s.append("' in no-interact mode, maybe specify it");
    Failure { message: s, hints: ErrorHints::default() }
}

/// Whether the value `msg` may be prompted for: an error where prompting
/// is forbidden.
pub fn prompt_gate(msg: &str, m: &MainMatcher) -> (r: Result<(), Failure>)
    ensures
        r is Err <==> !may_prompt(*m),
        r is Err ==> r->Err_0.message@ == prompt_refused_text(msg@) && r->Err_0.hints
            == usual_hints(),
{
    if m.no_interact {
        Err(prompt_failure(msg))
    } else {
        Ok(())
    }
}

/// What the user typed at a prompt, without surrounding white space.
pub fn prompt_reply(input: &str) -> (r: String)
    ensures
        r@ == trimmed(input@),
{
    owned(trim(input))
}

/// Whether a password may be prompted for: an error, with the password
/// hint, where prompting is forbidden.
pub fn password_prompt_gate(m: &MainMatcher) -> (r: Result<(), Failure>)
    ensures
        r is Err <==> !may_prompt(*m),
        r is Err ==> r->Err_0.message@ == "Missing password, must be specified in no-interact mode"@
            && r->Err_0.hints == specific_hints(true, false, false),
{
    if m.no_interact {
        Err(
            Failure {
                message: owned("Missing password, must be specified in no-interact mode"),
                hints: ErrorHints {
                    password: true,
                    owner: false,
                    history: false,
                    force: false,
                    verbose: false,
                    help: true,
                },
            },
        )
    } else {
        Ok(())
    }
}

/// Refuses an empty password unless forced: the web interface does not
/// support one.
pub fn check_empty_password(password: &str, m: &MainMatcher) -> (r: Result<(), Failure>)
    ensures
        r is Err <==> (!m.force && password@.len() == 0),
        r is Err ==> r->Err_0.message@ == "An empty password is not supported by the web interface"@
            && r->Err_0.hints == specific_hints(false, false, true),
{
    if !m.force && password.unicode_len() == 0 {
        Err(
            Failure {
                message: owned("An empty password is not supported by the web interface"),
                hints: ErrorHints {
                    password: false,
                    owner: false,
                    history: false,
                    force: true,
                    verbose: false,
                    help: true,
                },
            },
        )
    } else {
        Ok(())
    }
}

/// What becomes of a password that is needed or not.
#[derive(Clone, Copy, Debug, PartialEq, Eq, Structural)]
pub enum PasswordStep {
    /// The password is there exactly when it is needed.
    Keep,
    /// It is needed and missing: the user is told and prompted.
    Prompt,
    /// It is given but not needed: the user is told, and it was dropped.
    Clear,
}

/// The step for a password that is present or not, and needed or not.
pub open spec fn password_step_of(present: bool, needs: bool) -> PasswordStep {
    if present == needs {
        PasswordStep::Keep
    } else if needs {
        PasswordStep::Prompt
    } else {
        PasswordStep::Clear
    }
}

/// Brings `password` in line with `needs`: a password that is not needed
/// is dropped; one that is needed and missing is left for a prompt.
pub fn ensure_password(password: &mut Option<String>, needs: bool) -> (r: PasswordStep)
    ensures
        r == password_step_of(*old(password) is Some, needs),
        r == PasswordStep::Clear ==> *final(password) is None,
        r != PasswordStep::Clear ==> *final(password) == *old(password),
{
    if password.is_some() == needs {
        PasswordStep::Keep
    } else if needs {
        PasswordStep::Prompt
    } else {
        *password = None;
        PasswordStep::Clear
    }
}

/// The failure for an owner token that is missing where prompting is
/// forbidden.
pub fn owner_token_failure() -> (r: Failure)
    ensures
        r.message@ == "Missing owner token, must be specified in no-interact mode"@,
        r.hints == specific_hints(false, true, false),
{
    Failure {
        message: owned("Missing owner token, must be specified in no-interact mode"),
        hints: ErrorHints {
            password: false,
            owner: true,
            history: false,
            force: false,
            verbose: false,
            help: true,
        },
    }
}

/// Whether the user is told, before anything else, that an owner token is
/// needed: when it is missing and prompting is allowed.
pub fn owner_token_notice(token: &Option<String>, m: &MainMatcher) -> (r: bool)
    ensures
        r == (may_prompt(*m) && token is None),
{
    !m.no_interact && token.is_none()
}

/// One step towards a usable owner token.
#[derive(Clone, Copy, Debug, PartialEq, Eq, Structural)]
pub enum TokenStep {
    /// A non-empty token is there.
    Done,
    /// The token is missing: the user is prompted, then the step is taken again.
    Prompt,
    /// The token was empty and was dropped: the user is warned, then the
    /// step is taken again.
    Reject,
    /// The token is missing and prompting is forbidden: the program fails.
    Refuse,
}

/// The step for an owner token when prompting is forbidden or not.
pub open spec fn token_step_of(token: Option<Seq<char>>, m: MainMatcher) -> TokenStep {
    match token {
        Some(t) => if t.len() == 0 {
            TokenStep::Reject
        } else {
            TokenStep::Done
        },
        None => if may_prompt(m) {
            TokenStep::Prompt
        } else {
            TokenStep::Refuse
        },
    }
}

/// The token after a step: an empty one is dropped, any other is kept.
pub open spec fn token_after(token: Option<Seq<char>>) -> Option<Seq<char>> {
    match token {
        Some(t) => if t.len() == 0 {
            None
        } else {
            token
        },
        None => None,
    }
}

/// Takes one step towards a usable owner token in `token`: an empty one is
/// dropped and reported, a missing one is to be prompted for (or refused
/// where prompting is forbidden), a non-empty one is done.
pub fn ensure_owner_token(token: &mut Option<String>, m: &MainMatcher) -> (r: TokenStep)
    ensures
        r == token_step_of(text_of(*old(token)), *m),
        text_of(*final(token)) == token_after(text_of(*old(token))),
        r != TokenStep::Reject ==> *final(token) == *old(token),
{
    let empty = match token {
        Some(t) => Some(t.unicode_len() == 0),
        None => None,
    };
    match empty {
        Some(true) => {
            *token = None;
            TokenStep::Reject
        },
        Some(false) => TokenStep::Done,
        None => if m.no_interact {
            TokenStep::Refuse
        } else {
            TokenStep::Prompt
        },
    }
}

/// Where prompting is forbidden nothing waits for the user: every prompt
/// gate fails, a question is answered at once or refused, and a missing
/// owner token is refused.
pub proof fn lemma_no_interact_never_prompts(
    m: MainMatcher,
    def: Option<bool>,
    token: Option<Seq<char>>,
)
    requires
        m.no_interact,
    ensures
        !may_prompt(m),
        yes_start_of(def, m) != YesStart::Ask,
        def is None && !m.assume_yes ==> yes_start_of(def, m) == YesStart::Refuse,
        token_step_of(token, m) != TokenStep::Prompt,
        token is None ==> token_step_of(token, m) == TokenStep::Refuse,
{
}

/// An owner token is accepted only when it is not empty: an empty one is
/// dropped, and where prompting is allowed the next step prompts again, so
/// the loop goes on until a non-empty token is typed.
pub proof fn lemma_empty_token_asked_again(token: Option<Seq<char>>, m: MainMatcher)
    ensures
        token_step_of(token, m) == TokenStep::Done <==> (token is Some && token->0.len() > 0),
        token == Some(Seq::<char>::empty()) ==> token_step_of(token, m) == TokenStep::Reject
            && token_after(token) is None,
        token == Some(Seq::<char>::empty()) && may_prompt(m) ==> token_step_of(
            token_after(token),
            m,
        ) == TokenStep::Prompt,
        token_step_of(token, m) != TokenStep::Reject ==> token_after(token) == token,
{
}

} // verus!
