//! The directory: the one registry of connected users, and what it decides
//! about each command.

use crate::command::Command;
use crate::directory::{
    distinct_names, lemma_filter_step, law_names_stay_distinct, lemma_without_is_remove,
    recipients, registered, registry_after, routing, AudienceView, NoticeView, RoutingView,
    UserView,
};
use crate::error::ProtocolError;
use crate::mailbox::push;
use crate::response::Response;
use vstd::prelude::*;
use vstd::string::*;

verus! {

/// A registered user: the name, and the send side of the mailbox that the
/// user's connection handler reads.
#[derive(Debug)]
pub struct User {
    pub name: String,
    pub private_sender: tokio::sync::mpsc::Sender<Response>,
}

impl View for User {
    type V = UserView;

    open spec fn view(&self) -> UserView {
        UserView { name: self.name@, private_sender: self.private_sender }
    }
}

/// The users that an event goes to.
#[derive(Debug, PartialEq, Eq)]
pub enum Audience {
    /// Every registered user but the one of this name.
    Others(String),
    /// The user of this name alone.
    Only(String),
}

impl View for Audience {
    type V = AudienceView;

    open spec fn view(&self) -> AudienceView {
        match *self {
            Audience::Others(sender) => AudienceView::Others(sender@),
            Audience::Only(target) => AudienceView::Only(target@),
        }
    }
}

impl Audience {
    /// Whether the user called `name` belongs to the audience.
    pub fn admits(&self, name: &String) -> (admitted: bool)
        ensures
            admitted == self@.admits(name@),
    {
        match self {
            Audience::Others(sender) => *name != *sender,
            Audience::Only(target) => *name == *target,
        }
    }
}

/// An event together with the users that it goes to.
#[derive(Debug)]
pub struct Notice {
    pub event: Response,
    pub audience: Audience,
}

impl View for Notice {
    type V = NoticeView;

    open spec fn view(&self) -> NoticeView {
        NoticeView { event: self.event@, audience: self.audience@ }
    }
}

/// What the directory does about one command, besides changing the
/// registry: the answer to the requester, if the command has one, and the
/// notice to other users, if it causes one.
#[derive(Debug)]
pub struct Routing {
    pub reply: Option<Response>,
    pub notice: Option<Notice>,
}

impl View for Routing {
    type V = RoutingView;

    open spec fn view(&self) -> RoutingView {
        RoutingView {
            reply: match self.reply {
                Some(reply) => Some(reply@),
                None => None,
            },
            notice: match self.notice {
                Some(notice) => Some(notice@),
                None => None,
            },
        }
    }
}

/// The directory. It holds the registered users in the order in which they
/// registered, and no name twice.
pub struct Server {
    connections: Vec<User>,
}

impl View for Server {
    type V = Seq<UserView>;

    closed spec fn view(&self) -> Seq<UserView> {
        self.connections@.map_values(|user: User| user@)
    }
}

impl Server {
    #[verifier::type_invariant]
    spec fn names_are_distinct(self) -> bool {
        distinct_names(self@)
    }

    /// A directory without users.
    pub fn new() -> (server: Self)
        ensures
            server@ == Seq::<UserView>::empty(),
    {
        let server = Server { connections: Vec::new() };
        server
    }

    /// The number of registered users.
    pub fn user_count(&self) -> (count: usize)
        ensures
            count == self@.len(),
    {
        self.connections.len()
    }

    /// The place of the user called `name` in the registry.
    fn find(&self, name: &String) -> (found: Option<usize>)
        ensures
            match found {
                Some(at) => at < self@.len() && self@[at as int].name == name@,
                None => !registered(self@, name@),
            },
    {
        let mut at: usize = 0;
        while at < self.connections.len()
            invariant
                at <= self.connections.len(),
                forall|i: int| 0 <= i < at ==> (#[trigger] self@[i]).name != name@,
            decreases self.connections.len() - at,
        {
            if self.connections[at].name == *name {
                return Some(at);
            }
            at += 1;
        }
        None
    }

    /// Whether a user called `name` is registered.
    pub fn is_registered(&self, name: &str) -> (present: bool)
        ensures
            present == registered(self@, name@),
    {
        self.find(&String::from_str(name)).is_some()
    }

    /// Decides one command: changes the registry as the command asks and
    /// returns the answer for the requester and the notice for other users.
    /// Nothing is sent.
    pub fn route(&mut self, cmd: Command) -> (plan: Routing)
        ensures
            final(self)@ == registry_after(old(self)@, cmd@),
            plan@ == routing(old(self)@, cmd@),
            distinct_names(old(self)@),
            distinct_names(final(self)@),
    {
        proof {
            use_type_invariant(&*self);
            law_names_stay_distinct(self@, cmd@);
        }
        match cmd {
            Command::Hello { username, private_sender } => {
                if self.find(&username).is_some() {
                    Routing {
                        reply: Some(Response::Error(ProtocolError::UserExists)),
                        notice: None,
                    }
                } else {
                    let mut users: Vec<User> = Vec::new();
                    std::mem::swap(&mut users, &mut self.connections);
                    users.push(User { name: username.clone(), private_sender });
                    let count = #[verifier::truncate]
                    (users.len() as u32);
                    assert(users@.map_values(|user: User| user@) =~= registry_after(
                        old(self)@,
                        cmd@,
                    ));
                    self.connections = users;
                    Routing {
                        reply: Some(
                            Response::Welcome { username: username.clone(), user_count: count },
                        ),
                        notice: Some(
                            Notice {
                                event: Response::Join { username: username.clone() },
                                audience: Audience::Others(username),
                            },
                        ),
                    }
                }
            },
            Command::Message { from, body } => Routing {
                reply: Some(Response::Success),
                notice: Some(
                    Notice {
                        event: Response::Chat { from: from.clone(), body, is_private: false },
                        audience: Audience::Others(from),
                    },
                ),
            },
            Command::Quit { username } => {
                match self.find(&username) {
                    Some(at) => {
                        proof {
                            lemma_without_is_remove(self@, at as int);
                        }
                        let mut users: Vec<User> = Vec::new();
                        std::mem::swap(&mut users, &mut self.connections);
                        users.remove(at);
                        assert(users@.map_values(|user: User| user@) =~= old(self)@.remove(
                            at as int,
                        ));
                        self.connections = users;
                        Routing {
                            reply: None,
                            notice: Some(
                                Notice {
                                    event: Response::Quit { username: username.clone() },
                                    audience: Audience::Others(username),
                                },
                            ),
                        }
                    },
                    None => Routing { reply: None, notice: None },
                }
            },
            Command::PrivateMessage { from, to, body } => {
                if from == to {
                    Routing {
                        reply: Some(Response::Error(ProtocolError::MessageYourself)),
                        notice: None,
                    }
                } else if self.find(&to).is_none() {
                    Routing {
                        reply: Some(Response::Error(ProtocolError::UserDoesntExists)),
                        notice: None,
                    }
                } else {
                    Routing {
                        reply: Some(Response::Success),
                        notice: Some(
                            Notice {
                                event: Response::Chat { from, body, is_private: true },
                                audience: Audience::Only(to),
                            },
                        ),
                    }
                }
            },
        }
    }

    /// The mailboxes of the users that belong to `audience`, in the order of
    /// the registry.
    pub fn mailboxes<'a>(&'a self, audience: &Audience) -> (found: Vec<
        &'a tokio::sync::mpsc::Sender<Response>,
    >)
        ensures
            found@.len() == recipients(self@, audience@).len(),
            forall|i: int|
                0 <= i < found@.len() ==> *found@[i] == (#[trigger] recipients(
                    self@,
                    audience@,
                )[i]).private_sender,
    {
        let ghost keep = |user: UserView| audience@.admits(user.name);
        let mut found: Vec<&'a tokio::sync::mpsc::Sender<Response>> = Vec::new();
        let mut at: usize = 0;
        proof {
            reveal(Seq::filter);
        }
        while at < self.connections.len()
            invariant
                at <= self.connections.len(),
                self@.len() == self.connections.len(),
                keep == |user: UserView| audience@.admits(user.name),
                found@.len() == self@.subrange(0, at as int).filter(keep).len(),
                forall|i: int|
                    0 <= i < found@.len() ==> *found@[i] == (#[trigger] self@.subrange(
                        0,
                        at as int,
                    ).filter(keep)[i]).private_sender,
            decreases self.connections.len() - at,
        {
            let user = &self.connections[at];
            proof {
                let next = self@.subrange(0, at + 1);
                assert(next.drop_last() =~= self@.subrange(0, at as int));
                lemma_filter_step(next, keep);
            }
            if audience.admits(&user.name) {
                found.push(&user.private_sender);
            }
            at += 1;
        }
        assert(self@.subrange(0, at as int) =~= self@);
        found
    }

    /// Pushes the event of `notice` into the mailbox of each user of its
    /// audience, in the order of the registry, and returns how many
    /// mailboxes took it. A mailbox that is full or closed drops the event;
    /// the others still get it.
    ///
    /// Which mailboxes take the event is for their readers to decide, so
    /// the count is bounded and no more: it is the [`tally`] of one push
    /// for each of [`Server::mailboxes`].
    pub fn fan_out(&self, notice: &Notice) -> (taken: usize)
        ensures
            taken <= recipients(self@, notice@.audience).len(),
    {
        let targets = self.mailboxes(&notice.audience);
        let mut outcomes: Vec<bool> = Vec::new();
        let mut at: usize = 0;
        while at < targets.len()
            invariant
                at <= targets.len(),
                outcomes@.len() == at,
            decreases targets.len() - at,
        {
            outcomes.push(push(targets[at], notice.event.clone()));
            at += 1;
        }
        tally(&outcomes)
    }
}

/// How many of `outcomes` are `true`.
pub open spec fn taken_count(outcomes: Seq<bool>) -> nat {
    outcomes.filter(|taken: bool| taken).len()
}

/// Counts the pushes that a mailbox took, given the outcome of each push.
pub fn tally(outcomes: &Vec<bool>) -> (taken: usize)
    ensures
        taken == taken_count(outcomes@),
        taken <= outcomes@.len(),
{
    let ghost keep = |taken: bool| taken;
    let mut taken: usize = 0;
    let mut at: usize = 0;
    proof {
        reveal(Seq::filter);
    }
    while at < outcomes.len()
        invariant
            at <= outcomes.len(),
            keep == |taken: bool| taken,
            taken == outcomes@.subrange(0, at as int).filter(keep).len(),
            taken <= at,
        decreases outcomes.len() - at,
    {
        proof {
            let next = outcomes@.subrange(0, at + 1);
            assert(next.drop_last() =~= outcomes@.subrange(0, at as int));
            lemma_filter_step(next, keep);
        }
        if outcomes[at] {
            taken += 1;
        }
        at += 1;
    }
    assert(outcomes@.subrange(0, at as int) =~= outcomes@);
    taken
}

} // verus!
