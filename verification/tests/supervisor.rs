use imap_notify::supervisor::{
    do_imap, exit_code, SuperviseError, Supervisor, SupervisorEvent, SupervisorRequest,
};

fn mailboxes(names: &[&str]) -> Vec<String> {
    names.iter().map(|name| name.to_string()).collect()
}

fn drive(mut supervisor: Supervisor, events: Vec<SupervisorEvent>) -> (Supervisor, Vec<SupervisorRequest>) {
    let mut requests = vec![supervisor.request()];
    for event in events {
        supervisor = do_imap(supervisor, event);
        requests.push(supervisor.request());
    }
    (supervisor, requests)
}

fn select(mailbox: &str) -> SupervisorRequest {
    SupervisorRequest::Select { mailbox: mailbox.to_string() }
}

#[test]
fn supervisor_begins_by_connecting() {
    let supervisor = Supervisor::new(mailboxes(&["INBOX"]));
    assert_eq!(supervisor.request(), SupervisorRequest::Connect);
    assert!(!supervisor.is_finished());
}

#[test]
fn every_mailbox_is_tried_before_the_watchers_start() {
    let (supervisor, requests) = drive(
        Supervisor::new(mailboxes(&["INBOX", "Work", "Lists"])),
        vec![
            SupervisorEvent::Connect(Ok(())),
            SupervisorEvent::Select(Ok(())),
            SupervisorEvent::Select(Ok(())),
            SupervisorEvent::Select(Ok(())),
            SupervisorEvent::Launched,
            SupervisorEvent::Logout(Ok(())),
            SupervisorEvent::Joined,
        ],
    );
    assert_eq!(
        requests,
        vec![
            SupervisorRequest::Connect,
            select("INBOX"),
            select("Work"),
            select("Lists"),
            SupervisorRequest::Launch { mailboxes: mailboxes(&["INBOX", "Work", "Lists"]) },
            SupervisorRequest::Logout,
            SupervisorRequest::Join,
            SupervisorRequest::Stop { outcome: Ok(()) },
        ]
    );
    assert!(supervisor.is_finished());
}

#[test]
fn selection_failure_for_one_of_three_stops_before_any_watcher() {
    let (supervisor, requests) = drive(
        Supervisor::new(mailboxes(&["INBOX", "Gone", "Lists"])),
        vec![
            SupervisorEvent::Connect(Ok(())),
            SupervisorEvent::Select(Ok(())),
            SupervisorEvent::Select(Err("no such mailbox".to_string())),
        ],
    );
    let failure = SuperviseError::Selection { mailbox: "Gone".to_string(), reason: "no such mailbox".to_string() };
    assert_eq!(
        requests,
        vec![
            SupervisorRequest::Connect,
            select("INBOX"),
            select("Gone"),
            SupervisorRequest::Stop { outcome: Err(failure.clone()) },
        ]
    );
    for request in &requests {
        assert!(!matches!(request, SupervisorRequest::Launch { .. }));
    }
    assert!(supervisor.is_finished());
    assert_eq!(exit_code(&Err::<(), SuperviseError>(failure)), 1);
}

#[test]
fn selection_failure_of_the_first_or_last_mailbox() {
    let (_, requests) = drive(
        Supervisor::new(mailboxes(&["a", "b"])),
        vec![SupervisorEvent::Connect(Ok(())), SupervisorEvent::Select(Err("denied".to_string()))],
    );
    assert_eq!(
        requests[2],
        SupervisorRequest::Stop {
            outcome: Err(SuperviseError::Selection { mailbox: "a".to_string(), reason: "denied".to_string() }),
        }
    );
    let (_, requests) = drive(
        Supervisor::new(mailboxes(&["a", "b"])),
        vec![
            SupervisorEvent::Connect(Ok(())),
            SupervisorEvent::Select(Ok(())),
            SupervisorEvent::Select(Err("denied".to_string())),
        ],
    );
    assert_eq!(
        requests[3],
        SupervisorRequest::Stop {
            outcome: Err(SuperviseError::Selection { mailbox: "b".to_string(), reason: "denied".to_string() }),
        }
    );
}

#[test]
fn connection_failure_ends_the_run() {
    let (supervisor, requests) = drive(
        Supervisor::new(mailboxes(&["INBOX"])),
        vec![SupervisorEvent::Connect(Err("login rejected".to_string()))],
    );
    assert_eq!(
        requests[1],
        SupervisorRequest::Stop { outcome: Err(SuperviseError::Connection("login rejected".to_string())) }
    );
    assert!(supervisor.is_finished());
}

#[test]
fn logout_failure_ends_the_run_without_waiting() {
    let (_, requests) = drive(
        Supervisor::new(mailboxes(&["INBOX"])),
        vec![
            SupervisorEvent::Connect(Ok(())),
            SupervisorEvent::Select(Ok(())),
            SupervisorEvent::Launched,
            SupervisorEvent::Logout(Err("bye failed".to_string())),
        ],
    );
    assert_eq!(
        requests,
        vec![
            SupervisorRequest::Connect,
            select("INBOX"),
            SupervisorRequest::Launch { mailboxes: mailboxes(&["INBOX"]) },
            SupervisorRequest::Logout,
            SupervisorRequest::Stop { outcome: Err(SuperviseError::Logout("bye failed".to_string())) },
        ]
    );
}

#[test]
fn no_mailbox_nothing_to_try() {
    let (_, requests) = drive(Supervisor::new(Vec::new()), vec![SupervisorEvent::Connect(Ok(()))]);
    assert_eq!(requests[1], SupervisorRequest::Launch { mailboxes: Vec::new() });
}

#[test]
fn supervisor_events_out_of_turn_change_nothing() {
    let events = || {
        vec![
            SupervisorEvent::Connect(Ok(())),
            SupervisorEvent::Select(Ok(())),
            SupervisorEvent::Launched,
            SupervisorEvent::Logout(Ok(())),
            SupervisorEvent::Joined,
        ]
    };
    let mut reached: Vec<SupervisorEvent> = Vec::new();
    for turn in 0..5 {
        for (other, event) in events().into_iter().enumerate() {
            let (supervisor, _) = drive(Supervisor::new(mailboxes(&["INBOX"])), {
                let mut so_far = events();
                so_far.truncate(turn);
                so_far
            });
            let before = supervisor.request();
            let fits = supervisor.awaits(&event);
            assert_eq!(fits, other == turn);
            let after = do_imap(supervisor, event);
            if !fits {
                assert_eq!(after.request(), before);
            } else {
                assert_ne!(after.request(), before);
            }
        }
        reached.push(events().remove(turn));
    }
    let (supervisor, _) = drive(Supervisor::new(mailboxes(&["INBOX"])), reached);
    assert!(supervisor.is_finished());
    for event in events() {
        assert!(!supervisor.awaits(&event));
    }
}

#[test]
fn exit_codes() {
    assert_eq!(exit_code(&Ok::<(), SuperviseError>(())), 0);
    assert_eq!(exit_code(&Err::<(), SuperviseError>(SuperviseError::Connection("x".to_string()))), 1);
    assert_eq!(exit_code(&Err::<(), String>("bad configuration".to_string())), 1);
}

#[test]
fn supervise_errors_have_messages() {
    assert_eq!(SuperviseError::Connection("refused".to_string()).message(), "refused");
    assert_eq!(SuperviseError::Logout("bye failed".to_string()).message(), "bye failed");
    assert_eq!(
        SuperviseError::Selection { mailbox: "Gone".to_string(), reason: "no such mailbox".to_string() }.message(),
        "no such mailbox Gone"
    );
}
