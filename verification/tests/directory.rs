use chatr_server::command::Command;
use chatr_server::error::ProtocolError;
use chatr_server::mailbox::MAX_USER_SIZE;
use chatr_server::response::Response;
use chatr_server::server::{tally, Audience, Notice, Routing, Server};
use tokio::sync::mpsc::{channel, Receiver, Sender};

fn mailbox() -> (Sender<Response>, Receiver<Response>) {
    channel(MAX_USER_SIZE)
}

fn hello(name: &str, mailbox: Sender<Response>) -> Command {
    Command::Hello { username: name.to_string(), private_sender: mailbox }
}

fn register(server: &mut Server, name: &str) -> Receiver<Response> {
    let (tx, rx) = mailbox();
    let plan = server.route(hello(name, tx));
    assert!(matches!(plan.reply, Some(Response::Welcome { .. })));
    rx
}

fn drain(rx: &mut Receiver<Response>) -> Vec<Response> {
    let mut got = Vec::new();
    while let Ok(item) = rx.try_recv() {
        got.push(item);
    }
    got
}

fn deliver(server: &Server, plan: &Routing) -> usize {
    match &plan.notice {
        Some(notice) => server.fan_out(notice),
        None => 0,
    }
}

#[test]
fn new_directory_is_empty() {
    let server = Server::new();
    assert_eq!(server.user_count(), 0);
    assert!(!server.is_registered("alice"));
}

#[test]
fn mailbox_capacity_is_fifty() {
    assert_eq!(MAX_USER_SIZE, 50);
}

#[test]
fn hello_welcomes_with_the_new_count() {
    let mut server = Server::new();
    let (tx, _rx) = mailbox();
    let plan = server.route(hello("alice", tx));
    assert_eq!(plan.reply, Some(Response::Welcome { username: "alice".to_string(), user_count: 1 }));
    let notice = plan.notice.expect("a hello that is accepted is announced");
    assert_eq!(notice.event, Response::Join { username: "alice".to_string() });
    assert_eq!(notice.audience, Audience::Others("alice".to_string()));
    assert_eq!(server.user_count(), 1);
    assert!(server.is_registered("alice"));
}

#[test]
fn distinct_hellos_count_up_one_by_one() {
    let mut server = Server::new();
    let names = ["alice", "bob", "carol", "dave", "erin", "frank", "grace"];
    let mut kept = Vec::new();
    for (i, name) in names.iter().enumerate() {
        let (tx, rx) = mailbox();
        kept.push(rx);
        let plan = server.route(hello(name, tx));
        assert_eq!(
            plan.reply,
            Some(Response::Welcome { username: name.to_string(), user_count: i as u32 + 1 })
        );
        assert_eq!(server.user_count(), i + 1);
    }
    for name in names {
        assert!(server.is_registered(name));
    }
}

#[test]
fn hello_with_a_taken_name_is_refused() {
    let mut server = Server::new();
    let mut alice = register(&mut server, "alice");
    let mut bob = register(&mut server, "bob");
    let (tx, mut intruder) = mailbox();
    let plan = server.route(hello("alice", tx));
    assert_eq!(plan.reply, Some(Response::Error(ProtocolError::UserExists)));
    assert!(plan.notice.is_none());
    assert_eq!(server.user_count(), 2);
    assert!(server.is_registered("alice"));
    assert!(server.is_registered("bob"));

    // The holder keeps its mailbox: a broadcast still arrives there, and
    // nothing reaches the mailbox that came with the refused hello.
    let plan = server.route(Command::Message { from: "bob".to_string(), body: "hi".to_string() });
    assert_eq!(deliver(&server, &plan), 1);
    assert_eq!(
        drain(&mut alice),
        vec![Response::Chat { from: "bob".to_string(), body: "hi".to_string(), is_private: false }]
    );
    assert_eq!(drain(&mut intruder), vec![]);
    assert_eq!(drain(&mut bob), vec![]);
}

#[test]
fn names_differ_by_case() {
    let mut server = Server::new();
    let _a = register(&mut server, "alice");
    let (tx, _rx) = mailbox();
    let plan = server.route(hello("Alice", tx));
    assert_eq!(plan.reply, Some(Response::Welcome { username: "Alice".to_string(), user_count: 2 }));
}

#[test]
fn join_goes_to_everyone_else() {
    let mut server = Server::new();
    let mut alice = register(&mut server, "alice");
    let mut bob = register(&mut server, "bob");
    let (tx, mut carol) = mailbox();
    let plan = server.route(hello("carol", tx));
    assert_eq!(deliver(&server, &plan), 2);
    let join = Response::Join { username: "carol".to_string() };
    assert_eq!(drain(&mut alice), vec![join.clone()]);
    assert_eq!(drain(&mut bob), vec![join]);
    assert_eq!(drain(&mut carol), vec![]);
}

#[test]
fn message_goes_to_everyone_but_the_sender() {
    let mut server = Server::new();
    let mut alice = register(&mut server, "alice");
    let mut bob = register(&mut server, "bob");
    let mut carol = register(&mut server, "carol");
    let plan = server.route(Command::Message { from: "bob".to_string(), body: "hi".to_string() });
    assert_eq!(plan.reply, Some(Response::Success));
    assert_eq!(server.user_count(), 3);
    assert_eq!(deliver(&server, &plan), 2);
    let chat = Response::Chat { from: "bob".to_string(), body: "hi".to_string(), is_private: false };
    assert_eq!(drain(&mut alice), vec![chat.clone()]);
    assert_eq!(drain(&mut carol), vec![chat]);
    assert_eq!(drain(&mut bob), vec![]);
}

#[test]
fn message_from_an_unregistered_sender_still_succeeds() {
    let mut server = Server::new();
    let mut alice = register(&mut server, "alice");
    let plan = server.route(Command::Message { from: "ghost".to_string(), body: "boo".to_string() });
    assert_eq!(plan.reply, Some(Response::Success));
    assert_eq!(deliver(&server, &plan), 1);
    assert_eq!(
        drain(&mut alice),
        vec![Response::Chat { from: "ghost".to_string(), body: "boo".to_string(), is_private: false }]
    );
}

#[test]
fn message_in_an_empty_directory_reaches_nobody() {
    let mut server = Server::new();
    let plan = server.route(Command::Message { from: "a".to_string(), body: "b".to_string() });
    assert_eq!(plan.reply, Some(Response::Success));
    assert_eq!(deliver(&server, &plan), 0);
}

#[test]
fn private_message_to_oneself_is_refused() {
    let mut server = Server::new();
    let mut alice = register(&mut server, "alice");
    for name in ["alice", "nobody", ""] {
        let plan = server.route(Command::PrivateMessage {
            from: name.to_string(),
            to: name.to_string(),
            body: "x".to_string(),
        });
        assert_eq!(plan.reply, Some(Response::Error(ProtocolError::MessageYourself)));
        assert!(plan.notice.is_none());
    }
    assert_eq!(drain(&mut alice), vec![]);
    assert_eq!(server.user_count(), 1);

    let mut empty = Server::new();
    let plan = empty.route(Command::PrivateMessage {
        from: "x".to_string(),
        to: "x".to_string(),
        body: String::new(),
    });
    assert_eq!(plan.reply, Some(Response::Error(ProtocolError::MessageYourself)));
}

#[test]
fn private_message_to_an_absent_user_is_refused() {
    let mut server = Server::new();
    let mut alice = register(&mut server, "alice");
    let mut bob = register(&mut server, "bob");
    let plan = server.route(Command::PrivateMessage {
        from: "alice".to_string(),
        to: "carol".to_string(),
        body: "psst".to_string(),
    });
    assert_eq!(plan.reply, Some(Response::Error(ProtocolError::UserDoesntExists)));
    assert!(plan.notice.is_none());
    assert_eq!(deliver(&server, &plan), 0);
    assert_eq!(drain(&mut alice), vec![]);
    assert_eq!(drain(&mut bob), vec![]);
}

#[test]
fn private_message_goes_to_its_target_alone() {
    let mut server = Server::new();
    let mut alice = register(&mut server, "alice");
    let mut bob = register(&mut server, "bob");
    let mut carol = register(&mut server, "carol");
    let plan = server.route(Command::PrivateMessage {
        from: "alice".to_string(),
        to: "bob".to_string(),
        body: "secret".to_string(),
    });
    assert_eq!(plan.reply, Some(Response::Success));
    let notice = plan.notice.as_ref().expect("an accepted private message is delivered");
    assert_eq!(notice.audience, Audience::Only("bob".to_string()));
    assert_eq!(deliver(&server, &plan), 1);
    assert_eq!(
        drain(&mut bob),
        vec![Response::Chat {
            from: "alice".to_string(),
            body: "secret".to_string(),
            is_private: true
        }]
    );
    assert_eq!(drain(&mut alice), vec![]);
    assert_eq!(drain(&mut carol), vec![]);
}

#[test]
fn quit_removes_the_user_and_tells_the_others() {
    let mut server = Server::new();
    let mut alice = register(&mut server, "alice");
    let mut bob = register(&mut server, "bob");
    let mut carol = register(&mut server, "carol");
    let plan = server.route(Command::Quit { username: "bob".to_string() });
    assert_eq!(plan.reply, None);
    assert_eq!(server.user_count(), 2);
    assert!(!server.is_registered("bob"));
    assert!(server.is_registered("alice"));
    assert!(server.is_registered("carol"));
    assert_eq!(deliver(&server, &plan), 2);
    let left = Response::Quit { username: "bob".to_string() };
    assert_eq!(drain(&mut alice), vec![left.clone()]);
    assert_eq!(drain(&mut carol), vec![left]);
    assert_eq!(drain(&mut bob), vec![]);
}

#[test]
fn quit_of_an_unknown_user_does_nothing() {
    let mut server = Server::new();
    let mut alice = register(&mut server, "alice");
    let plan = server.route(Command::Quit { username: "bob".to_string() });
    assert_eq!(plan.reply, None);
    assert!(plan.notice.is_none());
    assert_eq!(server.user_count(), 1);
    assert_eq!(drain(&mut alice), vec![]);
}

#[test]
fn quit_frees_the_name_for_a_new_hello() {
    let mut server = Server::new();
    let _alice = register(&mut server, "alice");
    let _bob = register(&mut server, "bob");
    server.route(Command::Quit { username: "alice".to_string() });
    assert!(!server.is_registered("alice"));
    let (tx, _rx) = mailbox();
    let plan = server.route(hello("alice", tx));
    assert_eq!(plan.reply, Some(Response::Welcome { username: "alice".to_string(), user_count: 2 }));
    assert!(server.is_registered("alice"));
}

#[test]
fn quit_keeps_the_order_of_the_others() {
    let mut server = Server::new();
    let (a, mut alice) = mailbox();
    let (b, _bob) = mailbox();
    let (c, mut carol) = mailbox();
    server.route(hello("alice", a));
    server.route(hello("bob", b));
    server.route(hello("carol", c));
    server.route(Command::Quit { username: "bob".to_string() });
    let found = server.mailboxes(&Audience::Others("nobody".to_string()));
    assert_eq!(found.len(), 2);
    assert!(found[0].try_send(Response::Success).is_ok());
    assert_eq!(drain(&mut alice), vec![Response::Success]);
    assert_eq!(drain(&mut carol), vec![]);
    assert!(found[1].try_send(Response::Success).is_ok());
    assert_eq!(drain(&mut carol), vec![Response::Success]);
}

#[test]
fn mailboxes_follow_the_audience() {
    let mut server = Server::new();
    let _alice = register(&mut server, "alice");
    let mut bob = register(&mut server, "bob");
    let _carol = register(&mut server, "carol");
    assert_eq!(server.mailboxes(&Audience::Others("alice".to_string())).len(), 2);
    assert_eq!(server.mailboxes(&Audience::Others("zed".to_string())).len(), 3);
    assert_eq!(server.mailboxes(&Audience::Only("zed".to_string())).len(), 0);
    let only = server.mailboxes(&Audience::Only("bob".to_string()));
    assert_eq!(only.len(), 1);
    assert!(only[0].try_send(Response::Success).is_ok());
    assert_eq!(drain(&mut bob), vec![Response::Success]);
}

#[test]
fn audience_admits_by_name() {
    let others = Audience::Others("alice".to_string());
    let only = Audience::Only("alice".to_string());
    assert!(!others.admits(&"alice".to_string()));
    assert!(others.admits(&"bob".to_string()));
    assert!(only.admits(&"alice".to_string()));
    assert!(!only.admits(&"bob".to_string()));
}

#[test]
fn full_mailbox_drops_the_event_and_the_rest_still_get_it() {
    let mut server = Server::new();
    let (small, mut slow) = channel::<Response>(1);
    server.route(hello("slow", small));
    let mut quick = register(&mut server, "quick");
    assert_eq!(drain(&mut slow), vec![]);

    let first = Notice {
        event: Response::Chat { from: "x".to_string(), body: "one".to_string(), is_private: false },
        audience: Audience::Others("x".to_string()),
    };
    let second = Notice {
        event: Response::Chat { from: "x".to_string(), body: "two".to_string(), is_private: false },
        audience: Audience::Others("x".to_string()),
    };
    assert_eq!(server.fan_out(&first), 2);
    assert_eq!(server.fan_out(&second), 1);
    assert_eq!(drain(&mut slow), vec![first.event.clone()]);
    assert_eq!(drain(&mut quick), vec![first.event, second.event]);
}

#[test]
fn closed_mailbox_is_passed_over() {
    let mut server = Server::new();
    let gone = register(&mut server, "gone");
    let mut here = register(&mut server, "here");
    drop(gone);
    let plan = server.route(Command::Message { from: "x".to_string(), body: "hi".to_string() });
    assert_eq!(deliver(&server, &plan), 1);
    assert_eq!(
        drain(&mut here),
        vec![Response::Chat { from: "x".to_string(), body: "hi".to_string(), is_private: false }]
    );
    // The directory does not notice a dead mailbox by itself.
    assert!(server.is_registered("gone"));
}

#[test]
fn tally_counts_the_pushes_that_were_taken() {
    assert_eq!(tally(&vec![]), 0);
    assert_eq!(tally(&vec![false]), 0);
    assert_eq!(tally(&vec![true]), 1);
    assert_eq!(tally(&vec![true, false, true]), 2);
    assert_eq!(tally(&vec![false, true, true, true, false]), 3);
    assert_eq!(tally(&vec![true; 50]), 50);
}
