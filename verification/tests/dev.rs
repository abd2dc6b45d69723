use mobus_operandi::dev::{
    build_status_outcome, initial_outputs, local_url, local_url_text, post_build_outcome,
    try_local_url, BuildError, BuilderState, DevError, FsEventKind, InputEvent, OutputEvent,
    Parent,
};

type Event = InputEvent<u32, String, String>;
type Out = OutputEvent<u32, String, String>;

fn parent() -> Parent<u32, ()> {
    Parent::new(
        "out".to_string(),
        "cargo".to_string(),
        vec!["run".to_string(), "--package".to_string(), "builder".to_string()],
    )
}

#[test]
fn new_parent_awaits_its_first_builder() {
    let p = parent();
    assert!(matches!(p.builder(), BuilderState::AwaitingChild));
    assert_eq!(p.output_dir(), "out");
    assert_eq!(p.builder_command_name(), "cargo");
    assert_eq!(p.builder_args(), &vec!["run".to_string(), "--package".to_string(), "builder".to_string()]);
    assert!(p.post_build_hook().is_none());
}

#[test]
fn post_build_sets_the_hook_only() {
    let p: Parent<u32, u8> = Parent::new("out".to_string(), "b".to_string(), vec![]);
    let p = p.post_build(7);
    assert_eq!(p.post_build_hook(), &Some(7));
    assert_eq!(p.output_dir(), "out");
    assert!(matches!(p.builder(), BuilderState::AwaitingChild));
}

#[test]
fn builder_started_while_awaiting_is_kept() {
    let mut p = parent();
    let out: Option<Out> = p.input_event(Event::BuilderStarted(Ok(1)));
    assert!(out.is_none());
    assert!(matches!(p.builder(), BuilderState::Started(1)));
}

#[test]
fn source_change_kills_running_builder() {
    let mut p = parent();
    let _: Option<Out> = p.input_event(Event::BuilderStarted(Ok(1)));
    let out: Option<Out> = p.input_event(Event::FsChange(Ok(FsEventKind::Modify)));
    assert!(matches!(out, Some(OutputEvent::KillChildProcess(1))));
    assert!(matches!(p.builder(), BuilderState::AwaitingKillResult));
}

#[test]
fn kill_result_runs_builder_again() {
    let mut p = parent();
    let _: Option<Out> = p.input_event(Event::BuilderStarted(Ok(1)));
    let _: Option<Out> = p.input_event(Event::FsChange(Ok(FsEventKind::Create)));
    let out: Option<Out> = p.input_event(Event::BuilderKilled(Ok(())));
    assert!(matches!(out, Some(OutputEvent::RunBuilder)));
    assert!(matches!(p.builder(), BuilderState::AwaitingChild));
}

#[test]
fn source_change_before_builder_arrives_marks_it_obsolete() {
    let mut p = parent();
    let out: Option<Out> = p.input_event(Event::FsChange(Ok(FsEventKind::Remove)));
    assert!(out.is_none());
    assert!(matches!(p.builder(), BuilderState::AwaitingObsoleteChild));
    let out: Option<Out> = p.input_event(Event::FsChange(Ok(FsEventKind::Modify)));
    assert!(out.is_none());
    let out: Option<Out> = p.input_event(Event::BuilderStarted(Ok(5)));
    assert!(matches!(out, Some(OutputEvent::KillChildProcess(5))));
    assert!(matches!(p.builder(), BuilderState::AwaitingKillResult));
}

#[test]
fn second_builder_replaces_running_one() {
    let mut p = parent();
    let _: Option<Out> = p.input_event(Event::BuilderStarted(Ok(1)));
    let out: Option<Out> = p.input_event(Event::BuilderStarted(Ok(2)));
    assert!(matches!(out, Some(OutputEvent::KillChildProcess(1))));
    assert!(matches!(p.builder(), BuilderState::Started(2)));
}

#[test]
fn irrelevant_fs_events_are_ignored() {
    let mut p = parent();
    let _: Option<Out> = p.input_event(Event::BuilderStarted(Ok(1)));
    for kind in [FsEventKind::Any, FsEventKind::Access, FsEventKind::Other] {
        let out: Option<Out> = p.input_event(Event::FsChange(Ok(kind)));
        assert!(out.is_none());
        assert!(matches!(p.builder(), BuilderState::Started(1)));
    }
}

#[test]
fn source_changes_while_killing_are_absorbed() {
    let mut p = parent();
    let _: Option<Out> = p.input_event(Event::BuilderStarted(Ok(1)));
    let _: Option<Out> = p.input_event(Event::FsChange(Ok(FsEventKind::Modify)));
    let out: Option<Out> = p.input_event(Event::FsChange(Ok(FsEventKind::Modify)));
    assert!(out.is_none());
    assert!(matches!(p.builder(), BuilderState::AwaitingKillResult));
}

#[test]
fn failures_are_reported_as_errors() {
    let mut p = parent();
    let out: Option<Out> = p.input_event(Event::BuilderStarted(Err("spawn".to_string())));
    assert!(matches!(out, Some(OutputEvent::Error(DevError::Io(ref e))) if e == "spawn"));
    assert!(matches!(p.builder(), BuilderState::AwaitingChild));
    let out: Option<Out> = p.input_event(Event::FsChange(Err("watch".to_string())));
    assert!(matches!(out, Some(OutputEvent::Error(DevError::Notify(ref e))) if e == "watch"));
    let out: Option<Out> = p.input_event(Event::BuilderKilled(Err("kill".to_string())));
    assert!(matches!(out, Some(OutputEvent::Error(DevError::Io(ref e))) if e == "kill"));
    let out: Option<Out> = p.input_event(Event::BrowserOpened(Err("open".to_string())));
    assert!(matches!(out, Some(OutputEvent::Error(DevError::Io(ref e))) if e == "open"));
    let out: Option<Out> = p.input_event(Event::ServerError("serve".to_string()));
    assert!(matches!(out, Some(OutputEvent::Error(DevError::Io(ref e))) if e == "serve"));
    assert!(matches!(p.builder(), BuilderState::AwaitingChild));
}

#[test]
fn browser_opened_needs_nothing() {
    let mut p = parent();
    let out: Option<Out> = p.input_event(Event::BrowserOpened(Ok(())));
    assert!(out.is_none());
}

#[test]
fn only_one_builder_alive_through_a_session() {
    // runs and kills count what was asked of the drivers and not yet reported.
    let mut p = parent();
    let (mut runs, mut kills) = (1, 0);
    let events = vec![
        Event::FsChange(Ok(FsEventKind::Modify)),
        Event::BuilderStarted(Ok(1)),
        Event::BuilderKilled(Ok(())),
        Event::BuilderStarted(Ok(2)),
        Event::FsChange(Ok(FsEventKind::Create)),
        Event::FsChange(Ok(FsEventKind::Remove)),
        Event::BuilderKilled(Ok(())),
        Event::BuilderStarted(Ok(3)),
    ];
    for event in events {
        match event {
            InputEvent::BuilderStarted(_) => runs -= 1,
            InputEvent::BuilderKilled(_) => kills -= 1,
            _ => {}
        }
        let out: Option<Out> = p.input_event(event);
        match out {
            Some(OutputEvent::RunBuilder) => runs += 1,
            Some(OutputEvent::KillChildProcess(_)) => kills += 1,
            _ => {}
        }
        let started = matches!(p.builder(), BuilderState::Started(_)) as i32;
        assert_eq!(started + runs + kills, 1);
    }
    assert!(matches!(p.builder(), BuilderState::Started(3)));
}

#[test]
fn killing_unchecked_takes_the_child() {
    let mut state: BuilderState<u32> = BuilderState::Started(9);
    let out: Out = state.killing_unchecked();
    assert!(matches!(out, OutputEvent::KillChildProcess(9)));
    assert!(matches!(state, BuilderState::AwaitingKillResult));
}

#[test]
fn default_state_awaits_child() {
    let state: BuilderState<u32> = BuilderState::default();
    assert!(matches!(state, BuilderState::AwaitingChild));
}

#[test]
fn local_url_text_has_port() {
    assert_eq!(local_url_text(8080), "http://localhost:8080");
    assert_eq!(local_url_text(0), "http://localhost:0");
    assert_eq!(local_url_text(65535), "http://localhost:65535");
}

#[test]
fn local_url_is_parsed() {
    assert_eq!(local_url(8080), "http://localhost:8080/");
    assert_eq!(try_local_url(1234), Some("http://localhost:1234/".to_string()));
}

#[test]
fn initial_outputs_run_announce_and_open() {
    let out: Vec<Out> = initial_outputs(true, "http://localhost:1/");
    assert_eq!(out.len(), 3);
    assert!(matches!(out[0], OutputEvent::RunBuilder));
    match &out[1] {
        OutputEvent::Stderr(message) => {
            let plain = "\nServer started at http://localhost:1/\n";
            assert!(message == plain || *message == format!("\x1b[34m{plain}\x1b[0m"));
        }
        _ => panic!("expected a message"),
    }
    assert!(matches!(out[2], OutputEvent::OpenBrowser));
    let out: Vec<Out> = initial_outputs(false, "u");
    assert_eq!(out.len(), 2);
    let out: Vec<Out> = initial_outputs(false, "a\x1b[0mb");
    match &out[1] {
        OutputEvent::Stderr(message) => {
            let plain = "\nServer started at a\x1b[0mb\n";
            let painted = "\x1b[34m\nServer started at a\x1b[0m\x1b[34mb\n\x1b[0m";
            assert!(message == plain || message == painted);
        }
        _ => panic!("expected a message"),
    }
}

#[test]
fn build_outcomes() {
    let ok: Result<(), BuildError<String, String>> = build_status_outcome(Ok((true, None)));
    assert!(ok.is_ok());
    let code: Result<(), BuildError<String, String>> = build_status_outcome(Ok((false, Some(3))));
    assert!(matches!(code, Err(BuildError::ExitCode(3))));
    let none: Result<(), BuildError<String, String>> = build_status_outcome(Ok((false, None)));
    assert!(matches!(none, Err(BuildError::NoExitCode)));
    let io: Result<(), BuildError<String, String>> = build_status_outcome(Err("io".to_string()));
    assert!(matches!(io, Err(BuildError::Io(ref e)) if e == "io"));
    let hook: Result<(), BuildError<String, String>> = post_build_outcome(Some(Err("hook".to_string())));
    assert!(matches!(hook, Err(BuildError::PostBuild(ref e)) if e == "hook"));
    let fine: Result<(), BuildError<String, String>> = post_build_outcome(Some(Ok(())));
    assert!(fine.is_ok());
    let no_hook: Result<(), BuildError<String, String>> = post_build_outcome(None);
    assert!(no_hook.is_ok());
}

#[test]
fn no_free_port_error_exists() {
    let e: DevError<String, String> = DevError::NoFreePort;
    assert!(matches!(e, DevError::NoFreePort));
}
