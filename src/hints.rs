//! Remedial hints printed below an error.

use vstd::prelude::*;

verus! {

/// Which remedial hints follow an error report.
#[derive(Clone, Copy, Debug, PartialEq, Eq, Structural)]
pub struct ErrorHints {
    /// Mention the password option.
    pub password: bool,
    /// Mention the owner token option.
    pub owner: bool,
    /// Mention the history file option.
    pub history: bool,
    /// Mention the force flag.
    pub force: bool,
    /// Mention the verbose flag.
    pub verbose: bool,
    /// Mention the help flag.
    pub help: bool,
}

/// One remedial hint.
#[derive(Clone, Copy, Debug, PartialEq, Eq, Structural)]
pub enum Hint {
    Password,
    Owner,
    History,
    Force,
    Verbose,
    Help,
}

/// `h` alone when `on`, else nothing.
pub open spec fn hint_if(on: bool, h: Hint) -> Seq<Hint> {
    if on {
        seq![h]
    } else {
        Seq::empty()
    }
}

/// The hints that `e` asks for, in the order in which they are printed.
pub open spec fn hints_of(e: ErrorHints) -> Seq<Hint> {
    hint_if(e.password, Hint::Password) + hint_if(e.owner, Hint::Owner) + hint_if(
        e.history,
        Hint::History,
    ) + hint_if(e.force, Hint::Force) + hint_if(e.verbose, Hint::Verbose) + hint_if(
        e.help,
        Hint::Help,
    )
}

/// The hints used when nothing more specific is known: verbose and help.
pub open spec fn usual_hints() -> ErrorHints {
    ErrorHints {
        password: false,
        owner: false,
        history: false,
        force: false,
        verbose: true,
        help: true,
    }
}

/// The line of a hint as the text before the option, the option, and the
/// text after it.
pub open spec fn hint_parts(h: Hint) -> (Seq<char>, Seq<char>, Seq<char>) {
    match h {
        Hint::Password => ("Use '"@, "--password <PASSWORD>"@, "' to specify a password"@),
        Hint::Owner => ("Use '"@, "--owner <TOKEN>"@, "' to specify an owner token"@),
        Hint::History => ("Use '"@, "--history <FILE>"@, "' to specify a history file"@),
        Hint::Force => ("Use '"@, "--force"@, "' to force"@),
        Hint::Verbose => ("For detailed errors try '"@, "--verbose"@, "'"@),
        Hint::Help => ("For more information try '"@, "--help"@, "'"@),
    }
}

impl Hint {
    /// The line of this hint: the text before the option, the option to
    /// highlight, and the text after it.
    pub fn parts(&self) -> (r: (&'static str, &'static str, &'static str))
        ensures
            (r.0@, r.1@, r.2@) == hint_parts(*self),
    {
        match self {
            Hint::Password => ("Use '", "--password <PASSWORD>", "' to specify a password"),
            Hint::Owner => ("Use '", "--owner <TOKEN>", "' to specify an owner token"),
            Hint::History => ("Use '", "--history <FILE>", "' to specify a history file"),
            Hint::Force => ("Use '", "--force", "' to force"),
            Hint::Verbose => ("For detailed errors try '", "--verbose", "'"),
            Hint::Help => ("For more information try '", "--help", "'"),
        }
    }
}

impl ErrorHints {
    /// Whether any hint should be printed.
    pub fn any(&self) -> (r: bool)
        ensures
            r == (self.password || self.owner || self.history || self.force || self.verbose
                || self.help),
            r == (hints_of(*self).len() > 0),
    {
        self.password || self.owner || self.history || self.force || self.verbose || self.help
    }

    /// The hints to print, in order: password, owner, history, force,
    /// verbose, help, each one only where asked for.
    pub fn hints(&self) -> (r: Vec<Hint>)
        ensures
            r@ == hints_of(*self),
    {
        let mut r: Vec<Hint> = Vec::new();
        if self.password {
            r.push(Hint::Password);
        }
        if self.owner {
            r.push(Hint::Owner);
        }
        if self.history {
            r.push(Hint::History);
        }
        if self.force {
            r.push(Hint::Force);
        }
        if self.verbose {
            r.push(Hint::Verbose);
        }
        if self.help {
            r.push(Hint::Help);
        }
        assert(r@ =~= hints_of(*self));
        r
    }
}

impl Default for ErrorHints {
    /// Verbose and help hints only.
    fn default() -> (r: ErrorHints)
        ensures
            r == usual_hints(),
    {
        ErrorHints {
            password: false,
            owner: false,
            history: false,
            force: false,
            verbose: true,
            help: true,
        }
    }
}

/// Builds an `ErrorHints` from the usual hints, one switch at a time.
#[derive(Clone, Copy, Debug)]
pub struct ErrorHintsBuilder {
    pub hints: ErrorHints,
}

impl Default for ErrorHintsBuilder {
    /// A builder that starts from the usual hints.
    fn default() -> (r: ErrorHintsBuilder)
        ensures
            r.hints == usual_hints(),
    {
        ErrorHintsBuilder { hints: ErrorHints::default() }
    }
}

impl ErrorHintsBuilder {
    /// Sets the password hint.
    pub fn password(self, on: bool) -> (r: ErrorHintsBuilder)
        ensures
            r.hints == (ErrorHints { password: on, ..self.hints }),
    {
        ErrorHintsBuilder { hints: ErrorHints { password: on, ..self.hints } }
    }

    /// Sets the owner token hint.
    pub fn owner(self, on: bool) -> (r: ErrorHintsBuilder)
        ensures
            r.hints == (ErrorHints { owner: on, ..self.hints }),
    {
        ErrorHintsBuilder { hints: ErrorHints { owner: on, ..self.hints } }
    }

    /// Sets the history hint.
    pub fn history(self, on: bool) -> (r: ErrorHintsBuilder)
        ensures
            r.hints == (ErrorHints { history: on, ..self.hints }),
    {
        ErrorHintsBuilder { hints: ErrorHints { history: on, ..self.hints } }
    }

    /// Sets the force hint.
    pub fn force(self, on: bool) -> (r: ErrorHintsBuilder)
        ensures
            r.hints == (ErrorHints { force: on, ..self.hints }),
    {
        ErrorHintsBuilder { hints: ErrorHints { force: on, ..self.hints } }
    }

    /// Sets the verbose hint.
    pub fn verbose(self, on: bool) -> (r: ErrorHintsBuilder)
        ensures
            r.hints == (ErrorHints { verbose: on, ..self.hints }),
    {
        ErrorHintsBuilder { hints: ErrorHints { verbose: on, ..self.hints } }
    }

    /// Sets the help hint.
    pub fn help(self, on: bool) -> (r: ErrorHintsBuilder)
        ensures
            r.hints == (ErrorHints { help: on, ..self.hints }),
    {
        ErrorHintsBuilder { hints: ErrorHints { help: on, ..self.hints } }
    }

    /// The hints as set; building never fails.
    pub fn build(self) -> (r: Result<ErrorHints, String>)
        ensures
            r == Ok::<ErrorHints, String>(self.hints),
    {
        Ok(self.hints)
    }
}

} // verus!
