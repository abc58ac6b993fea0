//! The command grammar: turns the words typed after the editor command into
//! a typed command, or into an error that says what was wrong.
use vstd::prelude::*;
use crate::text::{has_prefix, views};

verus! {

/// A command of the dispatcher.
#[derive(Clone, Debug, PartialEq, Eq)]
pub enum Command {
    /// Add dependencies: every word after the verb goes to the package manager as it is.
    Add { args: Vec<String> },
    /// Remove the dependency of this name.
    Remove { name: String },
    /// Ask the language tooling to reload the workspace.
    Reload,
    /// Any other subcommand, run in a terminal: every word, the first included.
    Other { args: Vec<String> },
}

/// The commands whose usage a help request can ask for.
#[derive(Clone, Copy, Debug, PartialEq, Eq, Structural)]
pub enum Usage {
    Reload,
    Remove,
}

/// Why the words did not make a command.
#[derive(Clone, Debug, PartialEq, Eq)]
pub enum ParseError {
    /// A help flag was given: usage text is reported, not an error.
    HelpRequested(Usage),
    /// `remove` without the name of a dependency.
    MissingCrate,
    /// A word that the command does not take.
    UnexpectedArgument(String),
}

/// What a command stands for.
pub enum CommandModel {
    Add(Seq<Seq<char>>),
    Remove(Seq<char>),
    Reload,
    Other(Seq<Seq<char>>),
}

/// What a parse error stands for.
pub enum ParseErrorModel {
    HelpRequested(Usage),
    MissingCrate,
    UnexpectedArgument(Seq<char>),
}

impl View for Command {
    type V = CommandModel;

    open spec fn view(&self) -> CommandModel {
        match self {
            Command::Add { args } => CommandModel::Add(views(args@)),
            Command::Remove { name } => CommandModel::Remove(name@),
            Command::Reload => CommandModel::Reload,
            Command::Other { args } => CommandModel::Other(views(args@)),
        }
    }
}

impl View for ParseError {
    type V = ParseErrorModel;

    open spec fn view(&self) -> ParseErrorModel {
        match self {
            ParseError::HelpRequested(u) => ParseErrorModel::HelpRequested(*u),
            ParseError::MissingCrate => ParseErrorModel::MissingCrate,
            ParseError::UnexpectedArgument(t) => ParseErrorModel::UnexpectedArgument(t@),
        }
    }
}

/// The view of a parse result.
pub open spec fn parsed_view(r: Result<Command, ParseError>) -> Result<CommandModel, ParseErrorModel> {
    match r {
        Ok(c) => Ok(c@),
        Err(e) => Err(e@),
    }
}

/// A request for usage text.
pub open spec fn is_help_token(t: Seq<char>) -> bool {
    t == "-h"@ || t == "--help"@
}

/// A word in the shape of a flag. A lone `-` is a plain value.
pub open spec fn is_flag_token(t: Seq<char>) -> bool {
    t.len() >= 2 && t[0] == '-'
}

/// The verbs that the grammar knows.
pub open spec fn is_verb(t: Seq<char>) -> bool {
    t == "add"@ || t == "reload"@ || t == "remove"@ || t == "rm"@
}

/// The words of a `remove` from position `i` on, `name` being the dependency
/// name met before `i`, if any. Words are read in order and the first fault
/// decides the error.
pub open spec fn remove_from(
    toks: Seq<Seq<char>>,
    i: int,
    name: Option<Seq<char>>,
) -> Result<Seq<char>, ParseErrorModel>
    decreases toks.len() - i,
{
    if i >= toks.len() {
        match name {
            Some(n) => Ok(n),
            None => Err(ParseErrorModel::MissingCrate),
        }
    } else if is_help_token(toks[i]) {
        Err(ParseErrorModel::HelpRequested(Usage::Remove))
    } else if is_flag_token(toks[i]) || name is Some {
        Err(ParseErrorModel::UnexpectedArgument(toks[i]))
    } else {
        remove_from(toks, i + 1, Some(toks[i]))
    }
}

/// What the words `toks` parse to.
pub open spec fn parse_spec(toks: Seq<Seq<char>>) -> Result<CommandModel, ParseErrorModel> {
    if toks.len() == 0 || !is_verb(toks[0]) {
        Ok(CommandModel::Other(toks))
    } else if toks[0] == "add"@ {
        Ok(CommandModel::Add(toks.drop_first()))
    } else if toks[0] == "reload"@ {
        if toks.len() == 1 {
            Ok(CommandModel::Reload)
        } else if is_help_token(toks[1]) {
            Err(ParseErrorModel::HelpRequested(Usage::Reload))
        } else {
            Err(ParseErrorModel::UnexpectedArgument(toks[1]))
        }
    } else {
        match remove_from(toks, 1, None) {
            Ok(n) => Ok(CommandModel::Remove(n)),
            Err(e) => Err(e),
        }
    }
}

/// Whether `a` and `b` hold the same text.
fn same_text(a: &str, b: &str) -> (r: bool)
    ensures
        r == (a@ == b@),
{
    let r = a.unicode_len() == b.unicode_len() && has_prefix(a, b);
    proof {
        if a@.len() == b@.len() && b@.is_prefix_of(a@) {
            assert(a@ =~= b@);
        }
    }
    r
}

fn is_help(t: &str) -> (r: bool)
    ensures
        r == is_help_token(t@),
{
    same_text(t, "-h") || same_text(t, "--help")
}

fn is_flag(t: &str) -> (r: bool)
    ensures
        r == is_flag_token(t@),
{
    t.unicode_len() >= 2 && t.get_char(0) == '-'
}

/// Copies of the words from position `from` on.
fn words_from(tokens: &Vec<String>, from: usize) -> (r: Vec<String>)
    requires
        from <= tokens@.len(),
    ensures
        views(r@) == views(tokens@).subrange(from as int, tokens@.len() as int),
{
    let mut out: Vec<String> = Vec::new();
    let mut i: usize = from;
    while i < tokens.len()
        invariant
            from <= i <= tokens@.len(),
            views(out@) == views(tokens@).subrange(from as int, i as int),
        decreases tokens.len() - i,
    {
        let ghost before = out@;
        let t = tokens[i].clone();
        out.push(t);
        assert(out@ == before.push(tokens@[i as int]));
        assert(views(out@) =~= views(before).push(tokens@[i as int]@));
        i = i + 1;
        assert(views(out@) =~= views(tokens@).subrange(from as int, i as int));
    }
    out
}

/// Parses the words of `remove <crate>`, the verb being the first of them.
fn parse_remove(tokens: &Vec<String>) -> (r: Result<Command, ParseError>)
    requires
        tokens@.len() >= 1,
    ensures
        parsed_view(r) == match remove_from(views(tokens@), 1, None) {
            Ok(n) => Ok(CommandModel::Remove(n)),
            Err(e) => Err(e),
        },
{
    let ghost toks = views(tokens@);
    let n = tokens.len();
    let mut found: Option<usize> = None;
    let mut i: usize = 1;
    while i < n
        invariant
            n == tokens@.len(),
            toks == views(tokens@),
            1 <= i <= n,
            found matches Some(k) ==> 1 <= k < i,
            remove_from(toks, 1, None) == remove_from(
                toks,
                i as int,
                match found {
                    Some(k) => Some(toks[k as int]),
                    None => None,
                },
            ),
        decreases n - i,
    {
        let t = tokens[i].as_str();
        if is_help(t) {
            return Err(ParseError::HelpRequested(Usage::Remove));
        }
        if is_flag(t) || found.is_some() {
            return Err(ParseError::UnexpectedArgument(tokens[i].clone()));
        }
        found = Some(i);
        i = i + 1;
    }
    match found {
        Some(k) => Ok(Command::Remove { name: tokens[k].clone() }),
        None => Err(ParseError::MissingCrate),
    }
}

/// Parses the words typed after the editor command.
pub fn parse(tokens: &Vec<String>) -> (r: Result<Command, ParseError>)
    ensures
        parsed_view(r) == parse_spec(views(tokens@)),
{
    let ghost toks = views(tokens@);
    if tokens.len() == 0 {
        let args: Vec<String> = Vec::new();
        assert(views(args@) =~= toks);
        return Ok(Command::Other { args });
    }
    let verb = tokens[0].as_str();
    assert(toks[0] == verb@);
    if same_text(verb, "add") {
        let args = words_from(tokens, 1);
        assert(views(args@) =~= toks.drop_first());
        Ok(Command::Add { args })
    } else if same_text(verb, "reload") {
        if tokens.len() == 1 {
            Ok(Command::Reload)
        } else if is_help(tokens[1].as_str()) {
            Err(ParseError::HelpRequested(Usage::Reload))
        } else {
            Err(ParseError::UnexpectedArgument(tokens[1].clone()))
        }
    } else if same_text(verb, "remove") || same_text(verb, "rm") {
        parse_remove(tokens)
    } else {
        let args = words_from(tokens, 0);
        assert(views(args@) =~= toks);
        Ok(Command::Other { args })
    }
}

/// The usage text of a command.
pub open spec fn usage_spec(u: Usage) -> Seq<char> {
    match u {
        Usage::Reload => "Usage: :Cargo reload"@,
        Usage::Remove => "Usage: :Cargo remove <crate> (alias: rm)"@,
    }
}

/// The text reported for a parse error.
pub open spec fn message_spec(e: ParseErrorModel) -> Seq<char> {
    match e {
        ParseErrorModel::HelpRequested(u) => usage_spec(u),
        ParseErrorModel::MissingCrate => "error: the required argument <crate> was not provided\n"@
            + usage_spec(Usage::Remove),
        ParseErrorModel::UnexpectedArgument(t) => "error: unexpected argument '"@ + t + "'"@,
    }
}

/// The usage text of a command.
pub fn usage(u: Usage) -> (r: String)
    ensures
        r@ == usage_spec(u),
{
    match u {
        Usage::Reload => String::from_str("Usage: :Cargo reload"),
        Usage::Remove => String::from_str("Usage: :Cargo remove <crate> (alias: rm)"),
    }
}

impl ParseError {
    /// Whether this is a help request rather than a fault.
    pub fn is_help(&self) -> (r: bool)
        ensures
            r == (self@ is HelpRequested),
    {
        match self {
            ParseError::HelpRequested(_) => true,
            _ => false,
        }
    }

    /// The text to report.
    pub fn message(&self) -> (r: String)
        ensures
            r@ == message_spec(self@),
    {
        match self {
            ParseError::HelpRequested(u) => usage(*u),
            ParseError::MissingCrate => {
                let mut m = String::from_str("error: the required argument <crate> was not provided\n");
                let u = usage(Usage::Remove);
                m.append(u.as_str());
                m
            },
            ParseError::UnexpectedArgument(t) => {
                let mut m = String::from_str("error: unexpected argument '");
                m.append(t.as_str());
                m.append("'");
                m
            },
        }
    }
}

/// Words whose first is no verb of the grammar, or no words at all, are
/// handed on whole as another subcommand.
pub proof fn law_unknown_verb_is_other(toks: Seq<Seq<char>>)
    requires
        toks.len() == 0 || !is_verb(toks[0]),
    ensures
        parse_spec(toks) == Ok::<CommandModel, ParseErrorModel>(CommandModel::Other(toks)),
{
}

proof fn lemma_remove_from_fails(toks: Seq<Seq<char>>, i: int, name: Option<Seq<char>>)
    requires
        1 <= i <= toks.len(),
        (name is Some && i < toks.len()) || (name is None && toks.len() - i != 1),
    ensures
        remove_from(toks, i, name) is Err,
        (forall|k: int| i <= k < toks.len() ==> !is_help_token(#[trigger] toks[k]))
            ==> !(remove_from(toks, i, name)->Err_0 is HelpRequested),
    decreases toks.len() - i,
{
    if i < toks.len() && !is_help_token(toks[i]) && !is_flag_token(toks[i]) && name is None {
        lemma_remove_from_fails(toks, i + 1, Some(toks[i]));
    }
}

/// `remove` (or `rm`) with no name, or with more than one word after it,
/// never makes a command; unless one of those words asks for help, the
/// error is a fault and no help request.
pub proof fn law_remove_takes_one_name(toks: Seq<Seq<char>>)
    requires
        toks.len() >= 1,
        toks[0] == "remove"@ || toks[0] == "rm"@,
        toks.len() != 2,
    ensures
        parse_spec(toks) is Err,
        (forall|k: int| 1 <= k < toks.len() ==> !is_help_token(#[trigger] toks[k]))
            ==> !(parse_spec(toks)->Err_0 is HelpRequested),
{
    lemma_remove_from_fails(toks, 1, None);
    reveal_strlit("add");
    reveal_strlit("reload");
    reveal_strlit("remove");
    reveal_strlit("rm");
    assert("add"@.len() == 3 && "rm"@.len() == 2 && "remove"@.len() == 6);
    assert("reload"@[2] == 'l' && "remove"@[2] == 'm' && "reload"@.len() == 6);
    assert("add"@ != "remove"@ && "add"@ != "rm"@);
    assert("reload"@ != "remove"@ && "reload"@ != "rm"@);
}

/// `add` takes any words, flags included, and keeps them in order.
pub proof fn law_add_forwards_words(toks: Seq<Seq<char>>)
    requires
        toks.len() >= 1,
        toks[0] == "add"@,
    ensures
        parse_spec(toks) == Ok::<CommandModel, ParseErrorModel>(CommandModel::Add(toks.drop_first())),
{
}

} // verus!
