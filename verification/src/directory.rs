//! The rules of the directory, as functions on its model.
//!
//! The registry is modelled as the sequence of its users in the order in
//! which they registered. [`registry_after`] says what a command does to the
//! registry and [`routing`] says what the directory answers and whom it
//! notifies; the executable directory is proved against both. The laws at
//! the end of the file are consequences that callers may rely on.

use crate::command::CommandView;
use crate::error::ProtocolError;
use crate::response::{Response, ResponseView};
use vstd::prelude::*;

verus! {

/// The model of a registered user: the name and the send side of the
/// user's mailbox.
pub struct UserView {
    pub name: Seq<char>,
    pub private_sender: tokio::sync::mpsc::Sender<Response>,
}

/// The users that an event goes to.
pub enum AudienceView {
    /// Every registered user but the one of this name.
    Others(Seq<char>),
    /// The user of this name alone.
    Only(Seq<char>),
}

impl AudienceView {
    /// Whether the user called `name` belongs to the audience.
    pub open spec fn admits(self, name: Seq<char>) -> bool {
        match self {
            AudienceView::Others(sender) => name != sender,
            AudienceView::Only(target) => name == target,
        }
    }
}

/// An event together with the users that it goes to.
pub struct NoticeView {
    pub event: ResponseView,
    pub audience: AudienceView,
}

/// What the directory does about one command, besides changing the
/// registry: the answer to the requester, if the command has one, and the
/// notice to other users, if it causes one.
pub struct RoutingView {
    pub reply: Option<ResponseView>,
    pub notice: Option<NoticeView>,
}

/// Whether a user called `name` is in the registry.
pub open spec fn registered(reg: Seq<UserView>, name: Seq<char>) -> bool {
    exists|i: int| 0 <= i < reg.len() && (#[trigger] reg[i]).name == name
}

/// No two users of the registry share a name.
pub open spec fn distinct_names(reg: Seq<UserView>) -> bool {
    forall|i: int, j: int|
        0 <= i < j < reg.len() ==> (#[trigger] reg[i]).name != (#[trigger] reg[j]).name
}

/// The registry without the user called `name`.
pub open spec fn without(reg: Seq<UserView>, name: Seq<char>) -> Seq<UserView> {
    reg.filter(|user: UserView| user.name != name)
}

/// The users of the registry that belong to `audience`, in the order of
/// the registry.
pub open spec fn recipients(reg: Seq<UserView>, audience: AudienceView) -> Seq<UserView> {
    reg.filter(|user: UserView| audience.admits(user.name))
}

/// The number of users that a registry of `len` users reports, in the 32
/// bits that a welcome carries.
pub open spec fn user_count(len: nat) -> u32 {
    len as u32
}

/// The registry after the directory has processed `cmd`.
pub open spec fn registry_after(reg: Seq<UserView>, cmd: CommandView) -> Seq<UserView> {
    match cmd {
        CommandView::Hello { username, private_sender } => if registered(reg, username) {
            reg
        } else {
            reg.push(UserView { name: username, private_sender })
        },
        CommandView::Quit { username } => if registered(reg, username) {
            without(reg, username)
        } else {
            reg
        },
        CommandView::Message { .. } => reg,
        CommandView::PrivateMessage { .. } => reg,
    }
}

/// What the directory answers to `cmd` and whom it notifies of what. The
/// notice goes to its audience among the users of the registry as it is
/// after the command.
pub open spec fn routing(reg: Seq<UserView>, cmd: CommandView) -> RoutingView {
    match cmd {
        CommandView::Hello { username, private_sender } => if registered(reg, username) {
            RoutingView {
                reply: Some(ResponseView::Error(ProtocolError::UserExists)),
                notice: None,
            }
        } else {
            RoutingView {
                reply: Some(
                    ResponseView::Welcome { username, user_count: user_count(reg.len() + 1) },
                ),
                notice: Some(
                    NoticeView {
                        event: ResponseView::Join { username },
                        audience: AudienceView::Others(username),
                    },
                ),
            }
        },
        CommandView::Message { from, body } => RoutingView {
            reply: Some(ResponseView::Success),
            notice: Some(
                NoticeView {
                    event: ResponseView::Chat { from, body, is_private: false },
                    audience: AudienceView::Others(from),
                },
            ),
        },
        CommandView::Quit { username } => RoutingView {
            reply: None,
            notice: if registered(reg, username) {
                Some(
                    NoticeView {
                        event: ResponseView::Quit { username },
                        audience: AudienceView::Others(username),
                    },
                )
            } else {
                None
            },
        },
        CommandView::PrivateMessage { from, to, body } => if from == to {
            RoutingView {
                reply: Some(ResponseView::Error(ProtocolError::MessageYourself)),
                notice: None,
            }
        } else if !registered(reg, to) {
            RoutingView {
                reply: Some(ResponseView::Error(ProtocolError::UserDoesntExists)),
                notice: None,
            }
        } else {
            RoutingView {
                reply: Some(ResponseView::Success),
                notice: Some(
                    NoticeView {
                        event: ResponseView::Chat { from, body, is_private: true },
                        audience: AudienceView::Only(to),
                    },
                ),
            }
        },
    }
}

/// The users that the notice of `cmd` goes to, or none where `cmd` causes
/// no notice.
pub open spec fn notified(reg: Seq<UserView>, cmd: CommandView) -> Seq<UserView> {
    match routing(reg, cmd).notice {
        Some(notice) => recipients(registry_after(reg, cmd), notice.audience),
        None => Seq::empty(),
    }
}

/// The registry after the directory has processed the commands `cmds` one
/// after the other, in their order.
pub open spec fn after_commands(reg: Seq<UserView>, cmds: Seq<CommandView>) -> Seq<UserView>
    decreases cmds.len(),
{
    if cmds.len() == 0 {
        reg
    } else {
        registry_after(after_commands(reg, cmds.drop_last()), cmds.last())
    }
}

/// The registry after the users called `names` have said hello one after
/// the other, each with the mailbox at its place in `mailboxes`.
pub open spec fn after_hellos(
    reg: Seq<UserView>,
    names: Seq<Seq<char>>,
    mailboxes: Seq<tokio::sync::mpsc::Sender<Response>>,
) -> Seq<UserView>
    decreases names.len(),
{
    if names.len() == 0 {
        reg
    } else {
        registry_after(
            after_hellos(reg, names.drop_last(), mailboxes.drop_last()),
            CommandView::Hello { username: names.last(), private_sender: mailboxes.last() },
        )
    }
}

/// Filtering a sequence filters all but its last element, and then keeps
/// the last element or drops it.
pub(crate) proof fn lemma_filter_step<A>(s: Seq<A>, keep: spec_fn(A) -> bool)
    requires
        s.len() > 0,
    ensures
        s.filter(keep) == if keep(s.last()) {
            s.drop_last().filter(keep).push(s.last())
        } else {
            s.drop_last().filter(keep)
        },
{
    reveal(Seq::filter);
}

/// Removing the user at `at` from a registry of distinct names leaves the
/// registry without that user's name.
pub(crate) proof fn lemma_without_is_remove(reg: Seq<UserView>, at: int)
    requires
        distinct_names(reg),
        0 <= at < reg.len(),
    ensures
        without(reg, reg[at].name) == reg.remove(at),
    decreases reg.len(),
{
    let name = reg[at].name;
    let keep = |user: UserView| user.name != name;
    let front = reg.drop_last();
    lemma_filter_step(reg, keep);
    if at == reg.len() - 1 {
        lemma_absent_is_kept(front, name);
        assert(reg.remove(at) =~= front);
    } else {
        lemma_without_is_remove(front, at);
        assert(reg.remove(at) =~= front.remove(at).push(reg.last()));
    }
}

/// A registry that holds no user called `name` is itself without `name`.
pub(crate) proof fn lemma_absent_is_kept(reg: Seq<UserView>, name: Seq<char>)
    requires
        forall|i: int| 0 <= i < reg.len() ==> (#[trigger] reg[i]).name != name,
    ensures
        without(reg, name) == reg,
    decreases reg.len(),
{
    let keep = |user: UserView| user.name != name;
    if reg.len() == 0 {
        reveal(Seq::filter);
    } else {
        lemma_filter_step(reg, keep);
        lemma_absent_is_kept(reg.drop_last(), name);
        assert(reg.drop_last().push(reg.last()) =~= reg);
    }
}

/// What a filter leaves of a registry of distinct names has distinct names
/// again, and each of them is a name of the registry.
proof fn lemma_filter_keeps_distinct(reg: Seq<UserView>, keep: spec_fn(UserView) -> bool)
    requires
        distinct_names(reg),
    ensures
        distinct_names(reg.filter(keep)),
        forall|i: int|
            0 <= i < reg.filter(keep).len() ==> registered(
                reg,
                (#[trigger] reg.filter(keep)[i]).name,
            ),
    decreases reg.len(),
{
    let kept = reg.filter(keep);
    if reg.len() == 0 {
        reveal(Seq::filter);
    } else {
        let front = reg.drop_last();
        let before = front.filter(keep);
        lemma_filter_step(reg, keep);
        lemma_filter_keeps_distinct(front, keep);
        // Each name that the filter left of `front` stands in `front`, so
        // it is a name of `reg` and differs from the last name of `reg`.
        assert forall|i: int| 0 <= i < before.len() implies registered(
            reg,
            (#[trigger] before[i]).name,
        ) && before[i].name != reg.last().name by {
            let k = choose|k: int|
                0 <= k < front.len() && (#[trigger] front[k]).name == before[i].name;
            assert(reg[k].name == before[i].name);
        }
        assert forall|i: int| 0 <= i < kept.len() implies registered(
            reg,
            (#[trigger] kept[i]).name,
        ) by {
            if i < before.len() {
                assert(kept[i] == before[i]);
            } else {
                assert(kept[i] == reg[reg.len() - 1]);
            }
        }
        assert forall|i: int, j: int| 0 <= i < j < kept.len() implies (#[trigger] kept[i]).name != (
        #[trigger] kept[j]).name by {
            assert(kept[i] == before[i]);
            if j < before.len() {
                assert(kept[j] == before[j]);
            }
        }
    }
}

/// No command makes the registry hold a name twice: the names are distinct
/// after it if they were before.
pub proof fn law_names_stay_distinct(reg: Seq<UserView>, cmd: CommandView)
    requires
        distinct_names(reg),
    ensures
        distinct_names(registry_after(reg, cmd)),
{
    match cmd {
        CommandView::Hello { username, private_sender } => {
            if !registered(reg, username) {
                let grown = reg.push(UserView { name: username, private_sender });
                assert forall|i: int, j: int| 0 <= i < j < grown.len() implies (
                #[trigger] grown[i]).name != (#[trigger] grown[j]).name by {
                    assert(grown[i] == reg[i]);
                    if j < reg.len() {
                        assert(grown[j] == reg[j]);
                    }
                }
            }
        },
        CommandView::Quit { username } => {
            lemma_filter_keeps_distinct(reg, |user: UserView| user.name != username);
        },
        _ => {},
    }
}

/// Whatever commands the directory processes, starting without users, its
/// registry never holds a name twice.
pub proof fn law_registry_never_holds_a_name_twice(cmds: Seq<CommandView>)
    ensures
        distinct_names(after_commands(Seq::<UserView>::empty(), cmds)),
    decreases cmds.len(),
{
    if cmds.len() > 0 {
        law_registry_never_holds_a_name_twice(cmds.drop_last());
        law_names_stay_distinct(
            after_commands(Seq::<UserView>::empty(), cmds.drop_last()),
            cmds.last(),
        );
    }
}

/// As long as the names are new to the registry and differ from one
/// another, saying hello adds one user at a time and touches no user that
/// was there before.
proof fn lemma_hellos_extend(
    reg: Seq<UserView>,
    names: Seq<Seq<char>>,
    mailboxes: Seq<tokio::sync::mpsc::Sender<Response>>,
)
    requires
        names.len() == mailboxes.len(),
        forall|i: int, j: int| 0 <= i < j < names.len() ==> names[i] != names[j],
        forall|i: int| 0 <= i < names.len() ==> !registered(reg, #[trigger] names[i]),
    ensures
        after_hellos(reg, names, mailboxes).len() == reg.len() + names.len(),
        forall|i: int| 0 <= i < reg.len() ==> after_hellos(reg, names, mailboxes)[i] == reg[i],
        forall|i: int|
            0 <= i < names.len() ==> (#[trigger] after_hellos(reg, names, mailboxes)[reg.len()
                + i]) == (UserView { name: names[i], private_sender: mailboxes[i] }),
    decreases names.len(),
{
    if names.len() > 0 {
        let front = names.drop_last();
        let before = after_hellos(reg, front, mailboxes.drop_last());
        assert forall|i: int| 0 <= i < front.len() implies !registered(reg, #[trigger] front[i]) by {
            assert(front[i] == names[i]);
        }
        lemma_hellos_extend(reg, front, mailboxes.drop_last());
        // The last name is neither in `reg` nor among the names before it.
        assert(!registered(before, names.last())) by {
            if registered(before, names.last()) {
                let k = choose|k: int|
                    0 <= k < before.len() && (#[trigger] before[k]).name == names.last();
                if k < reg.len() {
                    assert(reg[k].name == names.last());
                } else {
                    assert(before[reg.len() + (k - reg.len())].name == front[k - reg.len()]);
                }
            }
        }
    }
}

/// Hellos with names that are new to the registry and differ from one
/// another all succeed, and each is told a count one above the last: the
/// hello at place `k` finds `k` new users registered and is welcomed as
/// user number `reg.len() + k + 1`. The registry is taken not to outgrow
/// the 32 bits of the count.
pub proof fn law_hellos_count_up(
    reg: Seq<UserView>,
    names: Seq<Seq<char>>,
    mailboxes: Seq<tokio::sync::mpsc::Sender<Response>>,
    k: int,
)
    requires
        names.len() == mailboxes.len(),
        forall|i: int, j: int| 0 <= i < j < names.len() ==> names[i] != names[j],
        forall|i: int| 0 <= i < names.len() ==> !registered(reg, #[trigger] names[i]),
        reg.len() + names.len() <= u32::MAX,
        0 <= k < names.len(),
    ensures
        ({
            let before = after_hellos(reg, names.take(k), mailboxes.take(k));
            let hello = CommandView::Hello { username: names[k], private_sender: mailboxes[k] };
            &&& before.len() == reg.len() + k
            &&& routing(before, hello).reply == Some(
                ResponseView::Welcome { username: names[k], user_count: (reg.len() + k + 1) as u32 },
            )
            &&& registry_after(before, hello) == after_hellos(
                reg,
                names.take(k + 1),
                mailboxes.take(k + 1),
            )
            &&& registry_after(before, hello).len() == before.len() + 1
        }),
{
    let upto = names.take(k + 1);
    let boxes = mailboxes.take(k + 1);
    let front = names.take(k);
    assert forall|i: int| 0 <= i < upto.len() implies !registered(reg, #[trigger] upto[i]) by {
        assert(upto[i] == names[i]);
    }
    assert forall|i: int| 0 <= i < front.len() implies !registered(reg, #[trigger] front[i]) by {
        assert(front[i] == names[i]);
    }
    lemma_hellos_extend(reg, upto, boxes);
    lemma_hellos_extend(reg, front, mailboxes.take(k));
    assert(upto.drop_last() =~= front);
    assert(boxes.drop_last() =~= mailboxes.take(k));
}

/// A hello with a name that is taken is refused as `UserExists`, nobody
/// is notified, and the registry stays as it is: the same users with the
/// same mailboxes.
pub proof fn law_taken_name_changes_nothing(
    reg: Seq<UserView>,
    username: Seq<char>,
    private_sender: tokio::sync::mpsc::Sender<Response>,
)
    requires
        registered(reg, username),
    ensures
        ({
            let hello = CommandView::Hello { username, private_sender };
            &&& routing(reg, hello).reply == Some(ResponseView::Error(ProtocolError::UserExists))
            &&& routing(reg, hello).notice is None
            &&& registry_after(reg, hello) == reg
        }),
{
}

/// A private message to oneself is refused as `MessageYourself`, whoever
/// is registered; nobody is notified and the registry stays as it is.
pub proof fn law_no_private_message_to_oneself(
    reg: Seq<UserView>,
    name: Seq<char>,
    body: Seq<char>,
)
    ensures
        ({
            let cmd = CommandView::PrivateMessage { from: name, to: name, body };
            &&& routing(reg, cmd).reply == Some(
                ResponseView::Error(ProtocolError::MessageYourself),
            )
            &&& routing(reg, cmd).notice is None
            &&& notified(reg, cmd) == Seq::<UserView>::empty()
            &&& registry_after(reg, cmd) == reg
        }),
{
}

/// A private message to another name that is not registered is refused as
/// `UserDoesntExists`, and no event is delivered to anyone.
pub proof fn law_private_message_to_absent_user(
    reg: Seq<UserView>,
    from: Seq<char>,
    to: Seq<char>,
    body: Seq<char>,
)
    requires
        from != to,
        !registered(reg, to),
    ensures
        ({
            let cmd = CommandView::PrivateMessage { from, to, body };
            &&& routing(reg, cmd).reply == Some(
                ResponseView::Error(ProtocolError::UserDoesntExists),
            )
            &&& routing(reg, cmd).notice is None
            &&& notified(reg, cmd) == Seq::<UserView>::empty()
            &&& registry_after(reg, cmd) == reg
        }),
{
}

/// After a user has quit, the name is free: it is not in the registry, and
/// a hello with it is welcomed.
pub proof fn law_quit_frees_the_name(
    reg: Seq<UserView>,
    username: Seq<char>,
    private_sender: tokio::sync::mpsc::Sender<Response>,
)
    ensures
        ({
            let left = registry_after(reg, CommandView::Quit { username });
            let hello = CommandView::Hello { username, private_sender };
            &&& !registered(left, username)
            &&& routing(left, hello).reply == Some(
                ResponseView::Welcome { username, user_count: user_count(left.len() + 1) },
            )
            &&& registered(registry_after(left, hello), username)
        }),
{
    let left = registry_after(reg, CommandView::Quit { username });
    let keep = |user: UserView| user.name != username;
    if registered(reg, username) {
        assert forall|i: int| 0 <= i < left.len() implies (#[trigger] left[i]).name != username by {
            reg.lemma_filter_pred(keep, i);
        }
    }
    let grown = registry_after(left, CommandView::Hello { username, private_sender });
    assert(grown[left.len() as int].name == username);
}

/// Whom a command is about: the user who says hello, sends or quits.
pub open spec fn subject(cmd: CommandView) -> Seq<char> {
    match cmd {
        CommandView::Hello { username, .. } => username,
        CommandView::Message { from, .. } => from,
        CommandView::Quit { username } => username,
        CommandView::PrivateMessage { from, .. } => from,
    }
}

/// The notice that a command causes goes to registered users only, and
/// never to the user whom the command is about: nobody is told of their
/// own hello, message or leaving, and nobody gets their own private
/// message.
pub proof fn law_notice_passes_over_its_subject(reg: Seq<UserView>, cmd: CommandView, i: int)
    requires
        0 <= i < notified(reg, cmd).len(),
    ensures
        notified(reg, cmd)[i].name != subject(cmd),
        registered(registry_after(reg, cmd), notified(reg, cmd)[i].name),
{
    let after = registry_after(reg, cmd);
    let audience = routing(reg, cmd).notice->0.audience;
    let keep = |user: UserView| audience.admits(user.name);
    after.lemma_filter_pred(keep, i);
    after.lemma_filter_contains_rev(keep, notified(reg, cmd)[i]);
    let k = choose|k: int| 0 <= k < after.len() && after[k] == notified(reg, cmd)[i];
    assert(after[k].name == notified(reg, cmd)[i].name);
}

/// A private message that is accepted goes to its target and to nobody
/// else.
pub proof fn law_private_message_reaches_its_target(
    reg: Seq<UserView>,
    from: Seq<char>,
    to: Seq<char>,
    body: Seq<char>,
    i: int,
)
    requires
        from != to,
        registered(reg, to),
        0 <= i < notified(reg, CommandView::PrivateMessage { from, to, body }).len(),
    ensures
        ({
            let cmd = CommandView::PrivateMessage { from, to, body };
            &&& routing(reg, cmd).reply == Some(ResponseView::Success)
            &&& routing(reg, cmd).notice->0.event == ResponseView::Chat {
                from,
                body,
                is_private: true,
            }
            &&& notified(reg, cmd)[i].name == to
        }),
{
    let keep = |user: UserView| AudienceView::Only(to).admits(user.name);
    reg.lemma_filter_pred(keep, i);
}

} // verus!
