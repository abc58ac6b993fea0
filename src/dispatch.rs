//! The decisions of one invocation, as a state machine. The caller performs
//! each effect (a probe, a run of the package manager, a notification) and
//! hands back what came of it as the next event.
use vstd::prelude::*;
use crate::grammar::{parse, parse_spec, message_spec, Command, CommandModel};
use crate::output::{
    classify_added, failure_report, failure_spec, summary_spec, warnings_spec,
};
use crate::text::{escape_quotes, escaped_spec, join_spaced, joined_spec, trim, trim_spec, views};

verus! {

/// The level of a notification.
#[derive(Clone, Copy, Debug, PartialEq, Eq, Structural)]
pub enum Level {
    Info,
    Warn,
    Error,
}

/// What a probe found out about the package manager and the subcommand.
#[derive(Clone, Copy, Debug, PartialEq, Eq, Structural)]
pub enum Availability {
    /// The package manager itself could not be started.
    ToolMissing,
    /// The package manager runs, but does not know the subcommand.
    ExtensionMissing,
    /// Both are there.
    Available,
}

/// How a run of the package manager ended, with what it wrote to its error stream.
#[derive(Clone, Debug, PartialEq, Eq)]
pub struct ProcessOutcome {
    pub succeeded: bool,
    pub text: String,
}

/// A change to the dependencies, the part of a command that runs the package manager.
#[derive(Clone, Debug, PartialEq, Eq)]
pub enum Job {
    Add(Vec<String>),
    Remove(String),
}

/// What the caller is asked to do.
#[derive(Clone, Debug, PartialEq, Eq)]
pub enum Effect {
    /// Show a message at a level.
    Notify(Level, String),
    /// Ask the language tooling to reload the workspace; nothing comes back.
    Reload,
    /// Check, at once, that the package manager knows this subcommand.
    Probe(String),
    /// Run the package manager with these arguments and wait for it.
    Run(Vec<String>),
    /// Open a terminal that runs the package manager with this command line.
    Terminal(String),
}

/// Where an invocation stands.
#[derive(Clone, Debug, PartialEq, Eq)]
pub enum Stage {
    /// Nothing received yet.
    Idle,
    /// Waiting for the probe before the job.
    Gating(Job),
    /// Waiting for the package manager to exit.
    Running(Job),
    /// All done.
    Finished,
}

/// What the caller hands back.
#[derive(Clone, Debug, PartialEq, Eq)]
pub enum Event {
    /// The words typed after the editor command.
    Invoked(Vec<String>),
    /// The result of a probe.
    Probed(Availability),
    /// The result of a run.
    Exited(ProcessOutcome),
}

/// What a job stands for.
pub enum JobModel {
    Add(Seq<Seq<char>>),
    Remove(Seq<char>),
}

/// What an effect stands for.
pub enum EffectModel {
    Notify(Level, Seq<char>),
    Reload,
    Probe(Seq<char>),
    Run(Seq<Seq<char>>),
    Terminal(Seq<char>),
}

/// What a stage stands for.
pub enum StageModel {
    Idle,
    Gating(JobModel),
    Running(JobModel),
    Finished,
}

/// What an event stands for: a run's outcome is whether it succeeded and its text.
pub enum EventModel {
    Invoked(Seq<Seq<char>>),
    Probed(Availability),
    Exited(bool, Seq<char>),
}

impl View for Job {
    type V = JobModel;

    open spec fn view(&self) -> JobModel {
        match self {
            Job::Add(a) => JobModel::Add(views(a@)),
            Job::Remove(n) => JobModel::Remove(n@),
        }
    }
}

impl View for Effect {
    type V = EffectModel;

    open spec fn view(&self) -> EffectModel {
        match self {
            Effect::Notify(l, m) => EffectModel::Notify(*l, m@),
            Effect::Reload => EffectModel::Reload,
            Effect::Probe(s) => EffectModel::Probe(s@),
            Effect::Run(a) => EffectModel::Run(views(a@)),
            Effect::Terminal(c) => EffectModel::Terminal(c@),
        }
    }
}

impl View for Stage {
    type V = StageModel;

    open spec fn view(&self) -> StageModel {
        match self {
            Stage::Idle => StageModel::Idle,
            Stage::Gating(j) => StageModel::Gating(j@),
            Stage::Running(j) => StageModel::Running(j@),
            Stage::Finished => StageModel::Finished,
        }
    }
}

impl View for Event {
    type V = EventModel;

    open spec fn view(&self) -> EventModel {
        match self {
            Event::Invoked(t) => EventModel::Invoked(views(t@)),
            Event::Probed(a) => EventModel::Probed(*a),
            Event::Exited(o) => EventModel::Exited(o.succeeded, o.text@),
        }
    }
}

/// The views of a list of effects.
pub open spec fn effects_view(v: Seq<Effect>) -> Seq<EffectModel> {
    v.map_values(|e: Effect| e@)
}

/// The subcommand of the package manager that does a job.
pub open spec fn subcommand_spec(j: JobModel) -> Seq<char> {
    match j {
        JobModel::Add(_) => "add"@,
        JobModel::Remove(_) => "rm"@,
    }
}

/// The arguments of the run that does a job.
pub open spec fn run_args_spec(j: JobModel) -> Seq<Seq<char>> {
    match j {
        JobModel::Add(a) => seq!["add"@] + a,
        JobModel::Remove(n) => seq!["rm"@, n],
    }
}

/// The error reported when a probe for the subcommand `sub` fails.
pub open spec fn unavailable_spec(a: Availability, sub: Seq<char>) -> Seq<char> {
    if a is ToolMissing {
        "command `cargo` is not available, make sure to install `cargo`"@
    } else {
        "command `cargo "@ + sub + "` is not available, make sure to install `cargo-edit`"@
    }
}

/// What follows the words `toks`.
pub open spec fn invoked_spec(toks: Seq<Seq<char>>) -> (StageModel, Seq<EffectModel>) {
    match parse_spec(toks) {
        Err(e) => (StageModel::Finished, seq![EffectModel::Notify(
            if e is HelpRequested { Level::Info } else { Level::Error },
            message_spec(e),
        )]),
        Ok(CommandModel::Reload) => (StageModel::Finished, seq![EffectModel::Reload]),
        Ok(CommandModel::Add(a)) => (
            StageModel::Gating(JobModel::Add(a)),
            seq![EffectModel::Probe("add"@)],
        ),
        Ok(CommandModel::Remove(n)) => (
            StageModel::Gating(JobModel::Remove(n)),
            seq![EffectModel::Probe("rm"@)],
        ),
        Ok(CommandModel::Other(a)) => (
            StageModel::Finished,
            seq![EffectModel::Terminal(escaped_spec(joined_spec(a)))],
        ),
    }
}

/// What follows a probe before job `j`.
pub open spec fn probed_spec(j: JobModel, a: Availability) -> (StageModel, Seq<EffectModel>) {
    if a is Available {
        (StageModel::Running(j), seq![EffectModel::Run(run_args_spec(j))])
    } else {
        (
            StageModel::Finished,
            seq![EffectModel::Notify(Level::Error, unavailable_spec(a, subcommand_spec(j)))],
        )
    }
}

/// What is reported when job `j` has run, ending as `succeeded` says, with output `text`.
pub open spec fn exited_spec(j: JobModel, succeeded: bool, text: Seq<char>) -> Seq<EffectModel> {
    if !succeeded {
        seq![EffectModel::Notify(Level::Error, failure_spec(text))]
    } else {
        match j {
            JobModel::Remove(_) => seq![
                EffectModel::Reload,
                EffectModel::Notify(Level::Info, trim_spec(text)),
            ],
            JobModel::Add(_) => {
                let w = warnings_spec(text);
                seq![EffectModel::Reload] + (if w.len() > 0 {
                    seq![EffectModel::Notify(Level::Warn, w)]
                } else {
                    Seq::empty()
                }) + seq![EffectModel::Notify(Level::Info, summary_spec(text))]
            },
        }
    }
}

/// One step of an invocation. An event that the stage does not wait for
/// changes nothing.
pub open spec fn advance_spec(stage: StageModel, event: EventModel) -> (StageModel, Seq<EffectModel>) {
    match (stage, event) {
        (StageModel::Idle, EventModel::Invoked(toks)) => invoked_spec(toks),
        (StageModel::Gating(j), EventModel::Probed(a)) => probed_spec(j, a),
        (StageModel::Running(j), EventModel::Exited(ok, text)) => (
            StageModel::Finished,
            exited_spec(j, ok, text),
        ),
        _ => (stage, Seq::empty()),
    }
}

fn one(e: Effect) -> (r: Vec<Effect>)
    ensures
        effects_view(r@) == seq![e@],
{
    let mut v: Vec<Effect> = Vec::new();
    v.push(e);
    assert(effects_view(v@) =~= seq![e@]);
    v
}

fn on_invoked(tokens: &Vec<String>) -> (r: (Stage, Vec<Effect>))
    ensures
        (r.0@, effects_view(r.1@)) == invoked_spec(views(tokens@)),
{
    match parse(tokens) {
        Err(e) => {
            let level = if e.is_help() { Level::Info } else { Level::Error };
            (Stage::Finished, one(Effect::Notify(level, e.message())))
        },
        Ok(Command::Reload) => (Stage::Finished, one(Effect::Reload)),
        Ok(Command::Add { args }) => (
            Stage::Gating(Job::Add(args)),
            one(Effect::Probe(String::from_str("add"))),
        ),
        Ok(Command::Remove { name }) => (
            Stage::Gating(Job::Remove(name)),
            one(Effect::Probe(String::from_str("rm"))),
        ),
        Ok(Command::Other { args }) => {
            let line = join_spaced(&args);
            (Stage::Finished, one(Effect::Terminal(escape_quotes(line.as_str()))))
        },
    }
}

fn unavailable(a: Availability, sub: &str) -> (r: String)
    ensures
        r@ == unavailable_spec(a, sub@),
{
    if a == Availability::ToolMissing {
        String::from_str("command `cargo` is not available, make sure to install `cargo`")
    } else {
        let mut m = String::from_str("command `cargo ");
        m.append(sub);
        m.append("` is not available, make sure to install `cargo-edit`");
        m
    }
}

fn on_probed(j: Job, a: Availability) -> (r: (Stage, Vec<Effect>))
    ensures
        (r.0@, effects_view(r.1@)) == probed_spec(j@, a),
{
    if a == Availability::Available {
        let mut args: Vec<String> = Vec::new();
        match &j {
            Job::Add(extra) => {
                args.push(String::from_str("add"));
                let mut i: usize = 0;
                while i < extra.len()
                    invariant
                        i <= extra@.len(),
                        views(args@) == seq!["add"@] + views(extra@).subrange(0, i as int),
                    decreases extra.len() - i,
                {
                    let ghost before = args@;
                    args.push(extra[i].clone());
                    assert(views(args@) =~= views(before).push(extra@[i as int]@));
                    i = i + 1;
                    assert(views(args@) =~= seq!["add"@] + views(extra@).subrange(0, i as int));
                }
                assert(views(extra@).subrange(0, i as int) =~= views(extra@));
            },
            Job::Remove(name) => {
                args.push(String::from_str("rm"));
                args.push(name.clone());
                assert(views(args@) =~= seq!["rm"@, name@]);
            },
        }
        (Stage::Running(j), one(Effect::Run(args)))
    } else {
        let sub = match &j {
            Job::Add(_) => "add",
            Job::Remove(_) => "rm",
        };
        (Stage::Finished, one(Effect::Notify(Level::Error, unavailable(a, sub))))
    }
}

fn on_exited(j: &Job, outcome: &ProcessOutcome) -> (r: Vec<Effect>)
    ensures
        effects_view(r@) == exited_spec(j@, outcome.succeeded, outcome.text@),
{
    let text = outcome.text.as_str();
    if !outcome.succeeded {
        return one(Effect::Notify(Level::Error, failure_report(text)));
    }
    match j {
        Job::Remove(_) => {
            let mut v: Vec<Effect> = Vec::new();
            v.push(Effect::Reload);
            v.push(Effect::Notify(Level::Info, String::from_str(trim(text))));
            assert(effects_view(v@) =~= exited_spec(j@, outcome.succeeded, text@));
            v
        },
        Job::Add(_) => {
            let c = classify_added(text);
            let mut v: Vec<Effect> = Vec::new();
            v.push(Effect::Reload);
            if c.warnings.unicode_len() > 0 {
                v.push(Effect::Notify(Level::Warn, c.warnings));
            }
            v.push(Effect::Notify(Level::Info, c.summary));
            assert(effects_view(v@) =~= exited_spec(j@, outcome.succeeded, text@));
            v
        },
    }
}

/// Takes an invocation one step on: the stage it reaches, and what the
/// caller is to do, in order.
pub fn advance(stage: Stage, event: Event) -> (r: (Stage, Vec<Effect>))
    ensures
        (r.0@, effects_view(r.1@)) == advance_spec(stage@, event@),
{
    match (stage, event) {
        (Stage::Idle, Event::Invoked(tokens)) => on_invoked(&tokens),
        (Stage::Gating(j), Event::Probed(a)) => on_probed(j, a),
        (Stage::Running(j), Event::Exited(outcome)) => {
            let effects = on_exited(&j, &outcome);
            (Stage::Finished, effects)
        },
        (stage, _) => (stage, Vec::new()),
    }
}

/// After a successful `remove` the workspace is reloaded and the whole
/// output, trimmed, is reported once at the informational level: it is not
/// classified, so no warning is split from it.
pub proof fn law_removal_output_is_not_classified(name: Seq<char>, text: Seq<char>)
    ensures
        advance_spec(StageModel::Running(JobModel::Remove(name)), EventModel::Exited(true, text))
            == (
            StageModel::Finished,
            seq![EffectModel::Reload, EffectModel::Notify(Level::Info, trim_spec(text))],
        ),
{
}

/// A failed run reports one error, the trimmed last line of its output,
/// whether it was an `add` or a `remove`.
pub proof fn law_failure_reports_last_line(args: Seq<Seq<char>>, name: Seq<char>, text: Seq<char>)
    ensures
        advance_spec(StageModel::Running(JobModel::Add(args)), EventModel::Exited(false, text))
            == advance_spec(
            StageModel::Running(JobModel::Remove(name)),
            EventModel::Exited(false, text),
        ),
        advance_spec(StageModel::Running(JobModel::Add(args)), EventModel::Exited(false, text)).1
            == seq![EffectModel::Notify(Level::Error, failure_spec(text))],
{
}

} // verus!
