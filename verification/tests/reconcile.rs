use ruku::desired::DesiredSpec;
use ruku::desired::build_desired;
use ruku::fault::Fault;
use ruku::inspect::Summary;
use ruku::session::EndPhase;
use ruku::session::EndSession;
use ruku::session::Event;
use ruku::session::RunPhase;
use ruku::session::RunSession;
use ruku::session::RuntimeCall;

/// The one container a fake runtime may hold under the managed name.
struct FakeContainer {
    id: String,
    image: String,
    status_label: String,
}

/// An in-memory stand-in for the container runtime: at most one container
/// under the managed name, a record of every call in the order it was
/// performed, and a switch that makes the create call fail.
struct FakeRuntime {
    container: Option<FakeContainer>,
    calls: Vec<String>,
    fail_create: bool,
    next_id: u32,
}

impl FakeRuntime {
    fn empty() -> FakeRuntime {
        FakeRuntime { container: None, calls: Vec::new(), fail_create: false, next_id: 1 }
    }

    fn with_container(id: &str, image: &str, status_label: &str) -> FakeRuntime {
        FakeRuntime {
            container: Some(FakeContainer {
                id: id.to_string(),
                image: image.to_string(),
                status_label: status_label.to_string(),
            }),
            calls: Vec::new(),
            fail_create: false,
            next_id: 1,
        }
    }

    fn perform(&mut self, call: &RuntimeCall, desired: &DesiredSpec) -> Event {
        match call {
            RuntimeCall::List => {
                self.calls.push("list".to_string());
                Event::Listed {
                    found: self.container.as_ref().map(|c| Summary {
                        id: Some(c.id.clone()),
                        status_label: Some(c.status_label.clone()),
                    }),
                }
            }
            RuntimeCall::Stop { id } => {
                self.calls.push("stop".to_string());
                match self.container.as_mut() {
                    Some(c) if c.id == *id => {
                        c.status_label = "exited".to_string();
                        Event::Stopped
                    }
                    _ => Event::CallFailed,
                }
            }
            RuntimeCall::Remove { id } => {
                self.calls.push("remove".to_string());
                match self.container.as_ref() {
                    Some(c) if c.id == *id => {
                        self.container = None;
                        Event::Removed
                    }
                    _ => Event::CallFailed,
                }
            }
            RuntimeCall::Create => {
                self.calls.push("create".to_string());
                if self.fail_create {
                    Event::CallFailed
                } else {
                    let id = format!("c{}", self.next_id);
                    self.next_id += 1;
                    self.container = Some(FakeContainer {
                        id: id.clone(),
                        image: desired.image_reference.clone(),
                        status_label: "created".to_string(),
                    });
                    Event::Created { id }
                }
            }
            RuntimeCall::Start { id } => {
                self.calls.push("start".to_string());
                match self.container.as_mut() {
                    Some(c) if c.id == *id => {
                        c.status_label = "running".to_string();
                        Event::Started
                    }
                    _ => Event::CallFailed,
                }
            }
        }
    }
}

fn desired_spec(name: &str, version: &str, port: u16) -> DesiredSpec {
    build_desired(name, version, port).expect("well-formed configuration")
}

fn drive_run(rt: &mut FakeRuntime, desired: DesiredSpec) -> RunPhase {
    let mut session = RunSession::begin(desired);
    loop {
        match session.pending_call() {
            None => break,
            Some(call) => {
                let event = rt.perform(&call, &session.desired);
                session = session.step(event);
            }
        }
    }
    session.phase
}

fn drive_end(rt: &mut FakeRuntime) -> EndPhase {
    let mut session = EndSession::begin();
    let desired = desired_spec("unused", "0", 1);
    loop {
        match session.pending_call() {
            None => break,
            Some(call) => {
                let event = rt.perform(&call, &desired);
                session = session.step(event);
            }
        }
    }
    session.phase
}

#[test]
fn idempotent_convergence() {
    let mut rt = FakeRuntime::empty();
    let desired = desired_spec("web", "1.0", 8080);

    let first = drive_run(&mut rt, desired.clone());
    assert!(matches!(first, RunPhase::Done { .. }));
    assert!(rt.container.is_some());
    assert_eq!(rt.container.as_ref().unwrap().image, "web:1.0");
    assert_eq!(rt.container.as_ref().unwrap().status_label, "running");
    let first_calls = rt.calls.clone();
    assert_eq!(first_calls, vec!["list", "create", "start"]);

    let second = drive_run(&mut rt, desired);
    assert!(matches!(second, RunPhase::Done { .. }));
    assert!(rt.container.is_some());
    assert_eq!(rt.container.as_ref().unwrap().image, "web:1.0");
    assert_eq!(rt.container.as_ref().unwrap().status_label, "running");
    let second_calls: Vec<String> = rt.calls[first_calls.len()..].to_vec();
    assert_eq!(second_calls, vec!["list", "stop", "remove", "create", "start"]);
}

#[test]
fn version_change_triggers_recreation() {
    let mut rt = FakeRuntime::with_container("old1", "web:1.0", "running");
    let desired = desired_spec("web", "2.0", 8080);

    let phase = drive_run(&mut rt, desired);
    assert!(matches!(phase, RunPhase::Done { .. }));
    assert_eq!(rt.calls, vec!["list", "stop", "remove", "create", "start"]);
    assert_eq!(rt.container.as_ref().unwrap().image, "web:2.0");
    assert_eq!(rt.container.as_ref().unwrap().status_label, "running");
}

#[test]
fn absent_container_fast_path() {
    let mut rt = FakeRuntime::empty();
    let phase = drive_run(&mut rt, desired_spec("web", "1.0", 8080));
    assert!(matches!(phase, RunPhase::Done { .. }));
    assert_eq!(rt.calls, vec!["list", "create", "start"]);
}

#[test]
fn non_active_statuses_skip_stop() {
    for label in ["created", "paused", "exited", "dead"] {
        let mut rt = FakeRuntime::with_container("old1", "web:1.0", label);
        let phase = drive_run(&mut rt, desired_spec("web", "1.0", 8080));
        assert!(matches!(phase, RunPhase::Done { .. }), "label {label}");
        assert_eq!(rt.calls, vec!["list", "remove", "create", "start"], "label {label}");
    }
}

#[test]
fn fall_through_statuses_take_no_corrective_action() {
    for label in ["", "removing"] {
        let mut rt = FakeRuntime::with_container("old1", "web:1.0", label);
        let phase = drive_run(&mut rt, desired_spec("web", "1.0", 8080));
        assert!(matches!(phase, RunPhase::Done { .. }), "label {label:?}");
        assert_eq!(rt.calls, vec!["list", "create", "start"], "label {label:?}");
    }
}

#[test]
fn restarting_is_stopped_like_running() {
    let mut rt = FakeRuntime::with_container("old1", "web:1.0", "restarting");
    let phase = drive_run(&mut rt, desired_spec("web", "1.0", 8080));
    assert!(matches!(phase, RunPhase::Done { .. }));
    assert_eq!(rt.calls, vec!["list", "stop", "remove", "create", "start"]);
}

#[test]
fn teardown_on_absent_target() {
    let mut rt = FakeRuntime::empty();
    let phase = drive_end(&mut rt);
    assert_eq!(phase, EndPhase::NothingRunning);
    assert!(!matches!(phase, EndPhase::Failed { .. }));
    assert_eq!(rt.calls, vec!["list"]);
}

#[test]
fn teardown_on_present_target() {
    let mut rt = FakeRuntime::with_container("old1", "web:1.0", "running");
    let phase = drive_end(&mut rt);
    assert_eq!(phase, EndPhase::Removed { id: "old1".to_string() });
    assert_eq!(rt.calls, vec!["list", "stop", "remove"]);
    assert!(rt.container.is_none());
}

#[test]
fn teardown_stops_even_settled_targets() {
    let mut rt = FakeRuntime::with_container("old1", "web:1.0", "exited");
    let phase = drive_end(&mut rt);
    assert!(matches!(phase, EndPhase::Removed { .. }));
    assert_eq!(rt.calls, vec!["list", "stop", "remove"]);
}

#[test]
fn create_failure_short_circuits_start() {
    let mut rt = FakeRuntime::empty();
    rt.fail_create = true;
    let phase = drive_run(&mut rt, desired_spec("web", "1.0", 8080));
    assert_eq!(phase, RunPhase::Failed { fault: Fault::CreateFailed });
    assert_eq!(rt.calls, vec!["list", "create"]);
    assert!(!rt.calls.iter().any(|c| c == "start"));
}

#[test]
fn stop_failure_aborts_without_remove() {
    let mut rt = FakeRuntime::with_container("old1", "web:1.0", "running");
    let desired = desired_spec("web", "1.0", 8080);
    let mut session = RunSession::begin(desired);
    let event = rt.perform(&session.pending_call().unwrap(), &session.desired);
    session = session.step(event);
    assert!(matches!(session.phase, RunPhase::Stopping { .. }));
    session = session.step(Event::CallFailed);
    assert_eq!(session.phase, RunPhase::Failed { fault: Fault::StopFailed });
    assert_eq!(session.pending_call(), None);
    assert_eq!(rt.calls, vec!["list"]);
}

#[test]
fn remove_failure_aborts_without_create() {
    let mut rt = FakeRuntime::with_container("old1", "web:1.0", "exited");
    let desired = desired_spec("web", "1.0", 8080);
    let mut session = RunSession::begin(desired);
    let event = rt.perform(&session.pending_call().unwrap(), &session.desired);
    session = session.step(event);
    assert!(matches!(session.phase, RunPhase::Removing { .. }));
    session = session.step(Event::CallFailed);
    assert_eq!(session.phase, RunPhase::Failed { fault: Fault::RemoveFailed });
    assert_eq!(session.pending_call(), None);
    assert_eq!(rt.calls, vec!["list"]);
}

#[test]
fn start_failure_leaves_created_container_in_place() {
    let mut rt = FakeRuntime::empty();
    let desired = desired_spec("web", "1.0", 8080);
    let mut session = RunSession::begin(desired);
    loop {
        match session.pending_call() {
            Some(RuntimeCall::Start { .. }) | None => break,
            Some(call) => {
                let event = rt.perform(&call, &session.desired);
                session = session.step(event);
            }
        }
    }
    assert!(matches!(session.phase, RunPhase::Starting { .. }));
    session = session.step(Event::CallFailed);
    assert_eq!(session.phase, RunPhase::Failed { fault: Fault::StartFailed });
    assert_eq!(session.pending_call(), None);
    // no rollback: the created-but-unstarted container stays for inspection
    assert!(rt.container.is_some());
    assert_eq!(rt.container.as_ref().unwrap().status_label, "created");
}

#[test]
fn list_failure_aborts_run() {
    let session = RunSession::begin(desired_spec("web", "1.0", 8080));
    let session = session.step(Event::CallFailed);
    assert_eq!(session.phase, RunPhase::Failed { fault: Fault::ListFailed });
    assert_eq!(session.pending_call(), None);
}

#[test]
fn malformed_summary_is_fatal() {
    let session = RunSession::begin(desired_spec("web", "1.0", 8080));
    let session = session.step(Event::Listed {
        found: Some(Summary { id: None, status_label: Some("running".to_string()) }),
    });
    assert_eq!(session.phase, RunPhase::Failed { fault: Fault::MissingId });

    let session = RunSession::begin(desired_spec("web", "1.0", 8080));
    let session = session.step(Event::Listed {
        found: Some(Summary { id: Some("c1".to_string()), status_label: None }),
    });
    assert_eq!(session.phase, RunPhase::Failed { fault: Fault::MissingStatus });

    let session = RunSession::begin(desired_spec("web", "1.0", 8080));
    let session = session.step(Event::Listed {
        found: Some(Summary {
            id: Some("c1".to_string()),
            status_label: Some("hibernating".to_string()),
        }),
    });
    assert_eq!(session.phase, RunPhase::Failed { fault: Fault::UnknownStatus });
}
