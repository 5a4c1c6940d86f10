use chatr_server::command::Command;
use chatr_server::error::ProtocolError;
use chatr_server::mailbox::MAX_USER_SIZE;
use chatr_server::request::{settle, ProcessError, Request};
use chatr_server::response::Response;
use chatr_server::server::Server;
use tokio::sync::mpsc::{channel, Receiver, Sender};

fn open_mailbox() -> (Sender<Response>, Receiver<Response>) {
    channel(MAX_USER_SIZE)
}

fn say_hello(server: &mut Server, name: &str) -> (Result<(), ProcessError>, Option<Response>, Receiver<Response>) {
    let (tx, rx) = open_mailbox();
    let (req, ack) = Request::new(Command::Hello { username: name.to_string(), private_sender: tx });
    let done = req.process(server);
    (done, ack.try_recv().ok(), rx)
}

fn pushed(rx: &mut Receiver<Response>) -> Vec<Response> {
    let mut got = Vec::new();
    while let Ok(item) = rx.try_recv() {
        got.push(item);
    }
    got
}

#[test]
fn new_request_keeps_the_command() {
    let (req, ack) = Request::new(Command::Quit { username: "alice".to_string() });
    assert!(matches!(&req.cmd, Command::Quit { username } if username == "alice"));
    // Nothing has been answered yet.
    assert!(ack.try_recv().is_err());
}

#[test]
fn new_request_pairs_the_two_ends() {
    let (req, ack) = Request::new(Command::Quit { username: "alice".to_string() });
    assert!(req.respond_to.send(Response::Success).is_ok());
    assert_eq!(ack.try_recv().ok(), Some(Response::Success));
}

#[test]
fn settle_tells_whether_the_answer_was_placed() {
    assert_eq!(settle(true), Ok(()));
    assert_eq!(settle(false), Err(ProcessError::RequesterGone));
}

#[test]
fn hello_is_answered_with_a_welcome() {
    let mut server = Server::new();
    let (done, reply, _rx) = say_hello(&mut server, "alice");
    assert_eq!(done, Ok(()));
    assert_eq!(reply, Some(Response::Welcome { username: "alice".to_string(), user_count: 1 }));
    assert_eq!(server.user_count(), 1);
}

#[test]
fn second_hello_with_the_same_name_is_answered_with_an_error() {
    let mut server = Server::new();
    let (_, _, mut first) = say_hello(&mut server, "alice");
    let (done, reply, mut second) = say_hello(&mut server, "alice");
    assert_eq!(done, Ok(()));
    assert_eq!(reply, Some(Response::Error(ProtocolError::UserExists)));
    assert_eq!(server.user_count(), 1);
    assert_eq!(pushed(&mut first), vec![]);
    assert_eq!(pushed(&mut second), vec![]);
}

#[test]
fn hello_is_announced_to_the_others() {
    let mut server = Server::new();
    let (_, _, mut alice) = say_hello(&mut server, "alice");
    let (_, reply, mut bob) = say_hello(&mut server, "bob");
    assert_eq!(reply, Some(Response::Welcome { username: "bob".to_string(), user_count: 2 }));
    assert_eq!(pushed(&mut alice), vec![Response::Join { username: "bob".to_string() }]);
    assert_eq!(pushed(&mut bob), vec![]);
}

#[test]
fn hello_whose_requester_is_gone_is_registered_but_not_announced() {
    let mut server = Server::new();
    let (_, _, mut alice) = say_hello(&mut server, "alice");
    let (tx, _rx) = open_mailbox();
    let (req, ack) = Request::new(Command::Hello { username: "bob".to_string(), private_sender: tx });
    drop(ack);
    assert_eq!(req.process(&mut server), Err(ProcessError::RequesterGone));
    assert!(server.is_registered("bob"));
    assert_eq!(pushed(&mut alice), vec![]);
}

#[test]
fn message_is_pushed_and_acknowledged() {
    let mut server = Server::new();
    let (_, _, mut alice) = say_hello(&mut server, "alice");
    let (_, _, mut bob) = say_hello(&mut server, "bob");
    pushed(&mut alice);
    let (req, ack) = Request::new(Command::Message { from: "bob".to_string(), body: "hi".to_string() });
    assert_eq!(req.process(&mut server), Ok(()));
    assert_eq!(ack.try_recv().ok(), Some(Response::Success));
    assert_eq!(
        pushed(&mut alice),
        vec![Response::Chat { from: "bob".to_string(), body: "hi".to_string(), is_private: false }]
    );
    assert_eq!(pushed(&mut bob), vec![]);
}

#[test]
fn message_whose_requester_is_gone_is_still_pushed() {
    let mut server = Server::new();
    let (_, _, mut alice) = say_hello(&mut server, "alice");
    let (req, ack) = Request::new(Command::Message { from: "bob".to_string(), body: "hi".to_string() });
    drop(ack);
    assert_eq!(req.process(&mut server), Err(ProcessError::RequesterGone));
    assert_eq!(
        pushed(&mut alice),
        vec![Response::Chat { from: "bob".to_string(), body: "hi".to_string(), is_private: false }]
    );
}

#[test]
fn private_message_is_pushed_to_the_target_and_acknowledged() {
    let mut server = Server::new();
    let (_, _, mut alice) = say_hello(&mut server, "alice");
    let (_, _, mut bob) = say_hello(&mut server, "bob");
    pushed(&mut alice);
    let (req, ack) = Request::new(Command::PrivateMessage {
        from: "alice".to_string(),
        to: "bob".to_string(),
        body: "secret".to_string(),
    });
    assert_eq!(req.process(&mut server), Ok(()));
    assert_eq!(ack.try_recv().ok(), Some(Response::Success));
    assert_eq!(
        pushed(&mut bob),
        vec![Response::Chat {
            from: "alice".to_string(),
            body: "secret".to_string(),
            is_private: true
        }]
    );
    assert_eq!(pushed(&mut alice), vec![]);
}

#[test]
fn private_message_errors_are_answered_and_nothing_is_pushed() {
    let mut server = Server::new();
    let (_, _, mut alice) = say_hello(&mut server, "alice");
    let (req, ack) = Request::new(Command::PrivateMessage {
        from: "alice".to_string(),
        to: "alice".to_string(),
        body: "me".to_string(),
    });
    assert_eq!(req.process(&mut server), Ok(()));
    assert_eq!(ack.try_recv().ok(), Some(Response::Error(ProtocolError::MessageYourself)));
    let (req, ack) = Request::new(Command::PrivateMessage {
        from: "alice".to_string(),
        to: "bob".to_string(),
        body: "you".to_string(),
    });
    assert_eq!(req.process(&mut server), Ok(()));
    assert_eq!(ack.try_recv().ok(), Some(Response::Error(ProtocolError::UserDoesntExists)));
    assert_eq!(pushed(&mut alice), vec![]);
}

#[test]
fn quit_is_not_answered() {
    let mut server = Server::new();
    let (_, _, mut alice) = say_hello(&mut server, "alice");
    let (_, _, mut bob) = say_hello(&mut server, "bob");
    pushed(&mut alice);
    let (req, ack) = Request::new(Command::Quit { username: "bob".to_string() });
    assert_eq!(req.process(&mut server), Ok(()));
    assert!(ack.try_recv().is_err());
    assert!(!server.is_registered("bob"));
    assert_eq!(pushed(&mut alice), vec![Response::Quit { username: "bob".to_string() }]);
    assert_eq!(pushed(&mut bob), vec![]);
}

#[test]
fn quit_whose_requester_is_gone_still_succeeds() {
    let mut server = Server::new();
    let (_, _, _alice) = say_hello(&mut server, "alice");
    let (req, ack) = Request::new(Command::Quit { username: "alice".to_string() });
    drop(ack);
    assert_eq!(req.process(&mut server), Ok(()));
    assert_eq!(server.user_count(), 0);
}
