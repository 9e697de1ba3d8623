use background_jobs::email::Email;
use background_jobs::signaling::{shutdown_on, Signal};
use background_jobs::thread_pool::{worker_action, worker_numbers, WorkerAction};
use background_jobs::uds::{
    bind_error_message, check_socket_path, client_action, client_start, emails_from_message, listener_action,
    AcceptEvent, BindFailure, ClientAction, ClientStart, ListenerAction, ReadEvent,
};

fn email(to: &str) -> Email {
    Email { to: to.to_string(), subject: "s".to_string(), content: "c".to_string() }
}

#[test]
fn socket_path_must_name_sock_file() {
    assert!(check_socket_path("/tmp/server_bg_jobs.sock").is_ok());
    assert!(check_socket_path("a.sockets").is_ok());
    assert!(check_socket_path("/tmp/server.socket").is_ok());
    assert_eq!(
        check_socket_path("/tmp/server.sck").unwrap_err(),
        "Invalid format file it should be .sock"
    );
    assert!(check_socket_path("").is_err());
}

#[test]
fn bind_messages() {
    assert_eq!(bind_error_message(BindFailure::AddrInUse), "File path being use");
    assert_eq!(
        bind_error_message(BindFailure::AlreadyExists),
        "Enum already exist file path being use"
    );
    assert_eq!(bind_error_message(BindFailure::Other), "Unknown error");
}

#[test]
fn listener_steps() {
    assert_eq!(listener_action(AcceptEvent::Connected, false), ListenerAction::Serve);
    assert_eq!(listener_action(AcceptEvent::Connected, true), ListenerAction::RefuseAndStop);
    assert_eq!(listener_action(AcceptEvent::WouldBlock, false), ListenerAction::Sleep);
    assert_eq!(listener_action(AcceptEvent::WouldBlock, true), ListenerAction::Stop);
    assert_eq!(listener_action(AcceptEvent::Failed, true), ListenerAction::Report);
}

#[test]
fn client_steps() {
    assert_eq!(client_action(ReadEvent::Closed, false), ClientAction::Stop);
    assert_eq!(client_action(ReadEvent::Received, false), ClientAction::Process);
    assert_eq!(client_action(ReadEvent::Received, true), ClientAction::RefuseData);
    assert_eq!(client_action(ReadEvent::WouldBlock, false), ClientAction::Wait);
    assert_eq!(client_action(ReadEvent::WouldBlock, true), ClientAction::Stop);
    assert_eq!(client_action(ReadEvent::Failed, false), ClientAction::Report);
}

#[test]
fn workers_drain_before_stopping() {
    assert_eq!(worker_action(false, true), WorkerAction::Take);
    assert_eq!(worker_action(false, false), WorkerAction::Take);
    assert_eq!(worker_action(true, false), WorkerAction::Wait);
    assert_eq!(worker_action(true, true), WorkerAction::Stop);
}

#[test]
fn workers_are_numbered_from_one() {
    assert_eq!(worker_numbers(4), vec![1, 2, 3, 4]);
    assert_eq!(worker_numbers(1), vec![1]);
}

#[test]
fn signals() {
    assert!(shutdown_on(Signal::Interrupt));
    assert!(shutdown_on(Signal::Terminate));
    assert!(!shutdown_on(Signal::Other));
}

#[test]
fn message_jobs() {
    let r = emails_from_message(Some(email("a")), Some(vec![email("b"), email("c")]));
    assert_eq!(r.len(), 1);
    assert_eq!(r[0].to, "a");
    let r = emails_from_message(None, Some(vec![email("b"), email("c")]));
    assert_eq!(r.iter().map(|e| e.to.as_str()).collect::<Vec<_>>(), vec!["b", "c"]);
    assert!(emails_from_message(None, None).is_empty());
}

#[test]
fn sending_notice() {
    assert_eq!(email("x@y").sending_notice(), "Email sending to x@y");
}

#[test]
fn client_reads_only_while_not_shutting_down() {
    assert_eq!(client_start(false), ClientStart::Read);
    assert_eq!(client_start(true), ClientStart::RefuseWithoutReading);
    for e in [ReadEvent::Closed, ReadEvent::Received, ReadEvent::WouldBlock, ReadEvent::Failed] {
        assert_ne!(client_action(e, true), ClientAction::Process);
    }
}
