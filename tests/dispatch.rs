use nvim_cargo::dispatch::{advance, Availability, Effect, Event, Job, Level, ProcessOutcome, Stage};

fn words(ws: &[&str]) -> Vec<String> {
    ws.iter().map(|w| w.to_string()).collect()
}

fn invoke(ws: &[&str]) -> (Stage, Vec<Effect>) {
    advance(Stage::Idle, Event::Invoked(words(ws)))
}

fn exited(job: Job, succeeded: bool, text: &str) -> (Stage, Vec<Effect>) {
    advance(
        Stage::Running(job),
        Event::Exited(ProcessOutcome { succeeded, text: text.to_string() }),
    )
}

#[test]
fn other_is_handed_to_a_terminal() {
    let (stage, effects) = invoke(&["build", "--release"]);
    assert_eq!(stage, Stage::Finished);
    assert_eq!(effects, vec![Effect::Terminal("build --release".to_string())]);
}

#[test]
fn terminal_line_escapes_single_quotes() {
    let (_, effects) = invoke(&["run", "--", "it's", "a\\b"]);
    assert_eq!(effects, vec![Effect::Terminal("run -- it\\'s a\\b".to_string())]);
}

#[test]
fn reload_only_signals() {
    let (stage, effects) = invoke(&["reload"]);
    assert_eq!(stage, Stage::Finished);
    assert_eq!(effects, vec![Effect::Reload]);
}

#[test]
fn parse_errors_are_reported_once() {
    let (stage, effects) = invoke(&["remove"]);
    assert_eq!(stage, Stage::Finished);
    assert_eq!(
        effects,
        vec![Effect::Notify(
            Level::Error,
            "error: the required argument <crate> was not provided\nUsage: :Cargo remove <crate> (alias: rm)"
                .to_string()
        )]
    );
    let (_, effects) = invoke(&["reload", "--help"]);
    assert_eq!(effects, vec![Effect::Notify(Level::Info, "Usage: :Cargo reload".to_string())]);
}

#[test]
fn add_is_probed_then_run() {
    let (stage, effects) = invoke(&["add", "serde", "-F", "derive"]);
    assert_eq!(stage, Stage::Gating(Job::Add(words(&["serde", "-F", "derive"]))));
    assert_eq!(effects, vec![Effect::Probe("add".to_string())]);
    let (stage, effects) = advance(stage, Event::Probed(Availability::Available));
    assert_eq!(stage, Stage::Running(Job::Add(words(&["serde", "-F", "derive"]))));
    assert_eq!(effects, vec![Effect::Run(words(&["add", "serde", "-F", "derive"]))]);
}

#[test]
fn remove_is_probed_then_run() {
    let (stage, effects) = invoke(&["rm", "serde"]);
    assert_eq!(stage, Stage::Gating(Job::Remove("serde".to_string())));
    assert_eq!(effects, vec![Effect::Probe("rm".to_string())]);
    let (stage, effects) = advance(stage, Event::Probed(Availability::Available));
    assert_eq!(stage, Stage::Running(Job::Remove("serde".to_string())));
    assert_eq!(effects, vec![Effect::Run(words(&["rm", "serde"]))]);
}

#[test]
fn failed_probe_ends_with_one_error() {
    let (stage, effects) =
        advance(Stage::Gating(Job::Remove("x".to_string())), Event::Probed(Availability::ExtensionMissing));
    assert_eq!(stage, Stage::Finished);
    assert_eq!(
        effects,
        vec![Effect::Notify(
            Level::Error,
            "command `cargo rm` is not available, make sure to install `cargo-edit`".to_string()
        )]
    );
    let (_, effects) =
        advance(Stage::Gating(Job::Add(Vec::new())), Event::Probed(Availability::ToolMissing));
    assert_eq!(
        effects,
        vec![Effect::Notify(
            Level::Error,
            "command `cargo` is not available, make sure to install `cargo`".to_string()
        )]
    );
}

#[test]
fn failure_reports_last_line_for_add_and_remove() {
    let expected = vec![Effect::Notify(Level::Error, "Actual cause".to_string())];
    let (stage, effects) = exited(Job::Add(words(&["x"])), false, "line1\nline2\nActual cause");
    assert_eq!(stage, Stage::Finished);
    assert_eq!(effects, expected);
    let (_, effects) = exited(Job::Remove("x".to_string()), false, "line1\nline2\nActual cause");
    assert_eq!(effects, expected);
}

#[test]
fn removal_output_is_reported_whole() {
    let (stage, effects) =
        exited(Job::Remove("serde".to_string()), true, "  Removing serde\nWarning: unused\n");
    assert_eq!(stage, Stage::Finished);
    assert_eq!(
        effects,
        vec![
            Effect::Reload,
            Effect::Notify(Level::Info, "Removing serde\nWarning: unused".to_string())
        ]
    );
}

#[test]
fn added_output_reports_warnings_then_summary() {
    let (_, effects) = exited(
        Job::Add(words(&["foo"])),
        true,
        "Warning: foo is deprecated\nAdding foo v1.0",
    );
    assert_eq!(
        effects,
        vec![
            Effect::Reload,
            Effect::Notify(Level::Warn, "\nWarning: foo is deprecated".to_string()),
            Effect::Notify(Level::Info, "Adding foo v1.0".to_string()),
        ]
    );
    let (_, effects) = exited(Job::Add(Vec::new()), true, "Updating index\n");
    assert_eq!(effects, vec![Effect::Reload, Effect::Notify(Level::Info, String::new())]);
}

#[test]
fn unexpected_event_changes_nothing() {
    let (stage, effects) = advance(Stage::Finished, Event::Probed(Availability::Available));
    assert_eq!(stage, Stage::Finished);
    assert!(effects.is_empty());
    let (stage, effects) = advance(Stage::Idle, Event::Probed(Availability::Available));
    assert_eq!(stage, Stage::Idle);
    assert!(effects.is_empty());
}
