//! The decisions of the Unix-socket server that takes e-mail jobs from clients.

use vstd::prelude::*;

use crate::email::Email;
use crate::text::{contains_chars, contains_text, lemma_contains_inner, to_chars};

verus! {

/// Whether a socket path names a `.sock` file.
pub open spec fn is_socket_path(path: Seq<char>) -> bool {
    contains_text(path, ".sock"@)
}

/// Checks the socket path before binding: a path without `.sock` is refused.
pub fn check_socket_path(path: &str) -> (r: Result<(), String>)
    ensures
        r is Ok <==> is_socket_path(path@),
        r matches Err(e) ==> e@ == "Invalid format file it should be .sock"@,
{
    let p = to_chars(path);
    let sock = to_chars(".sock");
    if !contains_chars(&p, &sock) {
        return Err("Invalid format file it should be .sock".to_owned());
    }
    Ok(())
}

/// Why binding the socket failed.
#[derive(Debug, Clone, Copy, PartialEq, Eq, Structural)]
pub enum BindFailure {
    AddrInUse,
    AlreadyExists,
    Other,
}

/// The message that reports a failed bind.
pub open spec fn bind_message(kind: BindFailure) -> Seq<char> {
    match kind {
        BindFailure::AddrInUse => "File path being use"@,
        BindFailure::AlreadyExists => "Enum already exist file path being use"@,
        BindFailure::Other => "Unknown error"@,
    }
}

/// The message that reports a failed bind.
pub fn bind_error_message(kind: BindFailure) -> (r: String)
    ensures
        r@ == bind_message(kind),
{
    match kind {
        BindFailure::AddrInUse => "File path being use".to_owned(),
        BindFailure::AlreadyExists => "Enum already exist file path being use".to_owned(),
        BindFailure::Other => "Unknown error".to_owned(),
    }
}

/// What came of waiting for a client.
#[derive(Debug, Clone, Copy, PartialEq, Eq, Structural)]
pub enum AcceptEvent {
    Connected,
    WouldBlock,
    Failed,
}

/// What the listener does next.
#[derive(Debug, Clone, Copy, PartialEq, Eq, Structural)]
pub enum ListenerAction {
    /// Tell the client that the server is shutting down, and stop listening.
    RefuseAndStop,
    /// Serve the client on a thread of its own.
    Serve,
    /// Stop listening.
    Stop,
    /// Sleep a little and wait again.
    Sleep,
    /// Report an unexpected error and wait again.
    Report,
}

/// The listener's next step after waiting for a client.
pub open spec fn next_listener_action(event: AcceptEvent, shutting_down: bool) -> ListenerAction {
    match event {
        AcceptEvent::Connected => if shutting_down {
            ListenerAction::RefuseAndStop
        } else {
            ListenerAction::Serve
        },
        AcceptEvent::WouldBlock => if shutting_down {
            ListenerAction::Stop
        } else {
            ListenerAction::Sleep
        },
        AcceptEvent::Failed => ListenerAction::Report,
    }
}

/// The listener's next step after waiting for a client: while a shutdown is
/// asked for, no client is served and the listener stops.
pub fn listener_action(event: AcceptEvent, shutting_down: bool) -> (r: ListenerAction)
    ensures
        r == next_listener_action(event, shutting_down),
{
    match event {
        AcceptEvent::Connected => {
            if shutting_down {
                ListenerAction::RefuseAndStop
            } else {
                ListenerAction::Serve
            }
        },
        AcceptEvent::WouldBlock => {
            if shutting_down {
                ListenerAction::Stop
            } else {
                ListenerAction::Sleep
            }
        },
        AcceptEvent::Failed => ListenerAction::Report,
    }
}

/// What came of reading from a client.
#[derive(Debug, Clone, Copy, PartialEq, Eq, Structural)]
pub enum ReadEvent {
    /// The client closed the connection.
    Closed,
    /// Some bytes arrived.
    Received,
    /// Nothing to read yet.
    WouldBlock,
    /// Reading failed.
    Failed,
}

/// What the handler of a client does next.
#[derive(Debug, Clone, Copy, PartialEq, Eq, Structural)]
pub enum ClientAction {
    /// Leave the connection.
    Stop,
    /// Answer that the server is shutting down instead of taking the data.
    RefuseData,
    /// Decode the data into e-mail jobs, queue them and acknowledge.
    Process,
    /// Read again.
    Wait,
    /// Report the failure and read again.
    Report,
}

/// The handler's next step after a read.
pub open spec fn next_client_action(event: ReadEvent, shutting_down: bool) -> ClientAction {
    match event {
        ReadEvent::Closed => ClientAction::Stop,
        ReadEvent::Received => if shutting_down {
            ClientAction::RefuseData
        } else {
            ClientAction::Process
        },
        ReadEvent::WouldBlock => if shutting_down {
            ClientAction::Stop
        } else {
            ClientAction::Wait
        },
        ReadEvent::Failed => ClientAction::Report,
    }
}

/// The handler's next step after a read; for `WouldBlock`, `shutting_down`
/// is read after the pause that follows it.
pub fn client_action(event: ReadEvent, shutting_down: bool) -> (r: ClientAction)
    ensures
        r == next_client_action(event, shutting_down),
{
    match event {
        ReadEvent::Closed => ClientAction::Stop,
        ReadEvent::Received => {
            if shutting_down {
                ClientAction::RefuseData
            } else {
                ClientAction::Process
            }
        },
        ReadEvent::WouldBlock => {
            if shutting_down {
                ClientAction::Stop
            } else {
                ClientAction::Wait
            }
        },
        ReadEvent::Failed => ClientAction::Report,
    }
}

/// What the handler of a client does at the head of its loop, before reading.
#[derive(Debug, Clone, Copy, PartialEq, Eq, Structural)]
pub enum ClientStart {
    /// Write that the server is shutting down, and do not read.
    RefuseWithoutReading,
    /// Read from the client.
    Read,
}

/// The handler's step at the head of its loop.
pub open spec fn first_client_step(shutting_down: bool) -> ClientStart {
    if shutting_down {
        ClientStart::RefuseWithoutReading
    } else {
        ClientStart::Read
    }
}

/// The handler's step at the head of its loop: while a shutdown is asked for,
/// nothing more is read from the client; it is only told that the server is
/// shutting down.
pub fn client_start(shutting_down: bool) -> (r: ClientStart)
    ensures
        r == first_client_step(shutting_down),
{
    if shutting_down {
        ClientStart::RefuseWithoutReading
    } else {
        ClientStart::Read
    }
}

/// Once a shutdown is asked for, the handler takes no more data from the
/// client: it reads nothing at the head of its loop, and what a read brought
/// is refused rather than decoded.
pub proof fn lemma_shutdown_takes_no_data(event: ReadEvent)
    ensures
        first_client_step(true) == ClientStart::RefuseWithoutReading,
        next_client_action(event, true) != ClientAction::Process,
{
}

/// The jobs that a message from a client carries: the single e-mail it
/// decodes to, or else the batch it decodes to, or else none.
pub fn emails_from_message(single: Option<Email>, batch: Option<Vec<Email>>) -> (r: Vec<Email>)
    ensures
        match single {
            Some(e) => r@ == seq![e],
            None => match batch {
                Some(b) => r@ == b@,
                None => r@.len() == 0,
            },
        },
{
    match single {
        Some(e) => {
            let mut r: Vec<Email> = Vec::new();
            r.push(e);
            assert(r@ =~= seq![e]);
            r
        },
        None => match batch {
            Some(b) => b,
            None => Vec::new(),
        },
    }
}

/// A client is served only when one connected and no shutdown is asked for;
/// during a shutdown a connecting client is told so and the listener stops,
/// and an idle listener stops too.
pub proof fn lemma_listener_serves_only_while_running(event: AcceptEvent, shutting_down: bool)
    ensures
        next_listener_action(event, shutting_down) == ListenerAction::Serve <==> event
            == AcceptEvent::Connected && !shutting_down,
        shutting_down && event == AcceptEvent::Connected ==> next_listener_action(
            event,
            shutting_down,
        ) == ListenerAction::RefuseAndStop,
        shutting_down && event == AcceptEvent::WouldBlock ==> next_listener_action(
            event,
            shutting_down,
        ) == ListenerAction::Stop,
{
}

/// A path is accepted exactly when `.sock` stands somewhere in it.
pub proof fn lemma_sock_paths_accepted(before: Seq<char>, after: Seq<char>, path: Seq<char>)
    ensures
        is_socket_path(before + ".sock"@ + after),
        is_socket_path(path) ==> exists|i: int|
            0 <= i <= path.len() - 5 && #[trigger] path.subrange(i, i + 5) == ".sock"@,
{
    lemma_contains_inner(before, ".sock"@, after);
    reveal_strlit(".sock");
}

} // verus!
