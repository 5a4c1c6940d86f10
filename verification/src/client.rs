//! The connection handler's protocol state machine.
//!
//! A handler reads lines from its client, receives answers from the
//! directory and events from its mailbox. The functions here decide what
//! each of the three leads to; reading, submitting, awaiting and writing are
//! left to the caller, which performs the [`Step`] that it is given.

use crate::command::{Command, CommandView};
use crate::error::ProtocolError;
use crate::response::{Response, ResponseView};
use crate::text::{
    is_username_valid, split_command, split_fields, split_line, split_pair, valid_username,
};
use vstd::prelude::*;
use vstd::string::*;

verus! {

/// What a handler knows of its connection: whether a hello has been
/// accepted, and the name that the last hello asked for. The name is the
/// registered one once `validated` holds.
#[derive(Debug)]
pub struct ClientState {
    pub validated: bool,
    pub username: String,
}

/// The model of a [`ClientState`]: the same, with the name as the sequence
/// of its characters.
pub struct ClientStateView {
    pub validated: bool,
    pub username: Seq<char>,
}

impl View for ClientState {
    type V = ClientStateView;

    open spec fn view(&self) -> ClientStateView {
        ClientStateView { validated: self.validated, username: self.username@ }
    }
}

/// The command whose answer a handler is waiting for.
#[derive(Debug, Clone, Copy, PartialEq, Eq, Structural)]
pub enum Pending {
    Hello,
    Message,
    Private,
}

/// What a handler has to do after a read.
#[derive(Debug)]
pub enum Step {
    /// Write `text` to the client.
    Reply { text: String },
    /// Submit `cmd` to the directory, await the answer and hand it to
    /// [`handle_ack`] together with `pending`.
    Submit { cmd: Command, pending: Pending },
    /// Submit `cmd` without awaiting an answer, flush what was written and
    /// close the stream. The connection is over.
    Leave { cmd: Command },
    /// The stream has ended. Submit `farewell` if there is one, whether or
    /// not the directory takes it. The connection is over.
    Stop { farewell: Option<Command> },
}

/// The model of a [`Step`].
pub enum StepView {
    Reply { text: Seq<char> },
    Submit { cmd: CommandView, pending: Pending },
    Leave { cmd: CommandView },
    Stop { farewell: Option<CommandView> },
}

impl View for Step {
    type V = StepView;

    open spec fn view(&self) -> StepView {
        match *self {
            Step::Reply { text } => StepView::Reply { text: text@ },
            Step::Submit { cmd, pending } => StepView::Submit { cmd: cmd@, pending },
            Step::Leave { cmd } => StepView::Leave { cmd: cmd@ },
            Step::Stop { farewell } => StepView::Stop {
                farewell: match farewell {
                    Some(cmd) => Some(cmd@),
                    None => None,
                },
            },
        }
    }
}

impl StepView {
    /// The command that the step hands to the directory, if it hands one.
    pub open spec fn submits(self) -> Option<CommandView> {
        match self {
            StepView::Reply { .. } => None,
            StepView::Submit { cmd, .. } => Some(cmd),
            StepView::Leave { cmd } => Some(cmd),
            StepView::Stop { farewell } => farewell,
        }
    }

    /// Whether the connection is over after the step.
    pub open spec fn ends_connection(self) -> bool {
        self is Leave || self is Stop
    }
}

/// The line that reports the error `kind` to the client.
pub open spec fn error_line(kind: ProtocolError) -> Seq<char> {
    ResponseView::Error(kind).line()
}

/// The line that refuses the unknown verb `verb`: the error, a space, and
/// the verb.
pub open spec fn unknown_verb_line(verb: Seq<char>) -> Seq<char> {
    (ResponseView::Error(ProtocolError::InvalidCommand).text().push(' ') + verb).push('\n')
}

/// What the handler does about the command `verb` with the payload
/// `payload`.
pub open spec fn step_for(
    state: ClientStateView,
    verb: Seq<char>,
    payload: Seq<char>,
    private_sender: tokio::sync::mpsc::Sender<Response>,
) -> StepView {
    let validated = state.validated;
    let username = state.username;
    if verb == "HELLO"@ {
        if validated {
            StepView::Reply { text: error_line(ProtocolError::AlreadyValidated) }
        } else if !valid_username(payload) {
            StepView::Reply { text: error_line(ProtocolError::InvalidUsername) }
        } else {
            StepView::Submit {
                cmd: CommandView::Hello { username: payload, private_sender },
                pending: Pending::Hello,
            }
        }
    } else if verb == "MESSAGE"@ {
        if !validated {
            StepView::Reply { text: error_line(ProtocolError::NotValidated) }
        } else {
            StepView::Submit {
                cmd: CommandView::Message { from: username, body: payload },
                pending: Pending::Message,
            }
        }
    } else if verb == "QUIT"@ {
        if !validated {
            StepView::Reply { text: error_line(ProtocolError::NotValidated) }
        } else {
            StepView::Leave { cmd: CommandView::Quit { username } }
        }
    } else if verb == "PRIVATE"@ {
        if !validated {
            StepView::Reply { text: error_line(ProtocolError::NotValidated) }
        } else {
            match split_pair(payload) {
                Some((to, body)) => StepView::Submit {
                    cmd: CommandView::PrivateMessage { from: username, to, body },
                    pending: Pending::Private,
                },
                None => StepView::Reply { text: error_line(ProtocolError::InvalidFormat) },
            }
        }
    } else {
        StepView::Reply { text: unknown_verb_line(verb) }
    }
}

/// What the handler does after a read of `bytes_read` bytes that left
/// `line` in the buffer. A read of no bytes is the end of the stream.
pub open spec fn next_step(
    state: ClientStateView,
    bytes_read: usize,
    line: Seq<char>,
    private_sender: tokio::sync::mpsc::Sender<Response>,
) -> StepView {
    if bytes_read == 0 {
        StepView::Stop {
            farewell: if state.validated {
                Some(CommandView::Quit { username: state.username })
            } else {
                None
            },
        }
    } else {
        match split_line(line) {
            Some((verb, payload)) => step_for(state, verb, payload, private_sender),
            None => StepView::Reply { text: error_line(ProtocolError::InvalidFormat) },
        }
    }
}

/// The state of the handler after the read. A read never validates a
/// connection. A hello on a connection that is not validated yet puts its
/// payload in the place of the name, whatever becomes of the hello; nothing
/// else touches the name.
pub open spec fn next_state(
    state: ClientStateView,
    bytes_read: usize,
    line: Seq<char>,
) -> ClientStateView {
    if bytes_read == 0 || state.validated {
        state
    } else {
        match split_line(line) {
            Some((verb, payload)) => if verb == "HELLO"@ {
                ClientStateView { validated: false, username: payload }
            } else {
                state
            },
            None => state,
        }
    }
}

/// The line that the handler writes when the answer `answer` to the
/// command `pending` arrives, if it writes one: a welcome answers a hello,
/// a success answers a message, an error answers either.
pub open spec fn ack_line(pending: Pending, answer: ResponseView) -> Option<Seq<char>> {
    match answer {
        ResponseView::Welcome { .. } => if pending == Pending::Hello {
            Some(answer.line())
        } else {
            None
        },
        ResponseView::Success => if pending == Pending::Hello {
            None
        } else {
            Some(answer.line())
        },
        ResponseView::Error(_) => Some(answer.line()),
        _ => None,
    }
}

/// The state of the handler after the answer `answer` to the command
/// `pending` has arrived: a welcome to a hello validates the connection,
/// and nothing else changes.
pub open spec fn acknowledged(
    state: ClientStateView,
    pending: Pending,
    answer: ResponseView,
) -> ClientStateView {
    if pending == Pending::Hello && answer is Welcome {
        ClientStateView { validated: true, username: state.username }
    } else {
        state
    }
}

/// The line that the handler writes for the event `event` from its
/// mailbox, if it writes one. A handler does not tell its client that the
/// client itself has joined or left.
pub open spec fn relayed_line(state: ClientStateView, event: ResponseView) -> Option<Seq<char>> {
    match event {
        ResponseView::Chat { .. } => Some(event.line()),
        ResponseView::Quit { username: who } => if state.validated && who == state.username {
            None
        } else {
            Some(event.line())
        },
        ResponseView::Join { username: who } => if state.validated && who == state.username {
            None
        } else {
            Some(event.line())
        },
        _ => None,
    }
}

/// Whether the executable text `found` stands for the model text `wanted`.
pub open spec fn text_matches(found: Option<String>, wanted: Option<Seq<char>>) -> bool {
    match found {
        Some(text) => wanted == Some(text@),
        None => wanted is None,
    }
}

impl ClientState {
    /// The state of a connection that has just been opened.
    pub fn new() -> (state: Self)
        ensures
            state@ == (ClientStateView { validated: false, username: Seq::<char>::empty() }),
    {
        ClientState { validated: false, username: String::new() }
    }

    pub fn is_validated(&self) -> (validated: bool)
        ensures
            validated == self.validated,
    {
        self.validated
    }

    pub fn validate(&mut self)
        ensures
            final(self).validated,
            final(self).username == old(self).username,
    {
        self.validated = true;
    }

    /// Whether the name that the last hello asked for may be registered.
    pub fn is_username_valid(&self) -> (valid: bool)
        ensures
            valid == valid_username(self.username@),
    {
        is_username_valid(self.username.as_str())
    }

    /// Appends to `out` the line that refuses a command on a connection
    /// that is not validated; on a validated one `out` stays as it is.
    pub fn write_if_not_validated(&self, out: &mut String)
        ensures
            final(out)@ == if self.validated {
                old(out)@
            } else {
                old(out)@ + error_line(ProtocolError::NotValidated)
            },
    {
        if !self.validated {
            let line = Response::Error(ProtocolError::NotValidated).to_line();
            out.append(line.as_str());
        }
    }
}

/// Whether `text` reads `word`.
fn reads(text: &String, word: &str) -> (same: bool)
    ensures
        same == (text@ == word@),
{
    *text == String::from_str(word)
}

/// The line that refuses the unknown verb `verb`.
fn unknown_verb(verb: &String) -> (line: String)
    ensures
        line@ == unknown_verb_line(verb@),
{
    let mut line = Response::Error(ProtocolError::InvalidCommand).to_string();
    proof {
        reveal_strlit(" ");
        reveal_strlit("\n");
    }
    line.append(" ");
    line.append(verb.as_str());
    line.append("\n");
    line
}

/// Decides what a read leads to.
///
/// `bytes_read` is what the read returned and `line` the buffer that it
/// filled; a read error counts as a read of no bytes. `private_sender` is
/// the send side of the mailbox that a hello registers. After a read of
/// at least one byte the buffer is empty again.
///
/// A malformed line, an unknown verb, a hello with an invalid name or on a
/// validated connection, and any other command on a connection that is not
/// validated are answered with an error line and reach the directory in no
/// form.
pub fn handle_read_line(
    bytes_read: usize,
    line: &mut String,
    state: &mut ClientState,
    private_sender: tokio::sync::mpsc::Sender<Response>,
) -> (step: Step)
    ensures
        step@ == next_step(old(state)@, bytes_read, old(line)@, private_sender),
        final(state)@ == next_state(old(state)@, bytes_read, old(line)@),
        final(line)@ == if bytes_read == 0 {
            old(line)@
        } else {
            Seq::<char>::empty()
        },
{
    if bytes_read == 0 {
        let farewell = if state.is_validated() {
            Some(Command::Quit { username: state.username.clone() })
        } else {
            None
        };
        return Step::Stop { farewell };
    }
    let found = split_command(line.as_str());
    *line = String::new();
    let (verb, payload) = match found {
        Some(pair) => pair,
        None => {
            return Step::Reply { text: Response::Error(ProtocolError::InvalidFormat).to_line() };
        },
    };
    if reads(&verb, "HELLO") {
        if state.is_validated() {
            return Step::Reply {
                text: Response::Error(ProtocolError::AlreadyValidated).to_line(),
            };
        }
        state.username = payload.clone();
        if !state.is_username_valid() {
            return Step::Reply { text: Response::Error(ProtocolError::InvalidUsername).to_line() };
        }
        Step::Submit {
            cmd: Command::Hello { username: payload, private_sender },
            pending: Pending::Hello,
        }
    } else if reads(&verb, "MESSAGE") {
        let mut text = String::new();
        state.write_if_not_validated(&mut text);
        if !state.is_validated() {
            return Step::Reply { text };
        }
        Step::Submit {
            cmd: Command::Message { from: state.username.clone(), body: payload },
            pending: Pending::Message,
        }
    } else if reads(&verb, "QUIT") {
        let mut text = String::new();
        state.write_if_not_validated(&mut text);
        if !state.is_validated() {
            return Step::Reply { text };
        }
        Step::Leave { cmd: Command::Quit { username: state.username.clone() } }
    } else if reads(&verb, "PRIVATE") {
        let mut text = String::new();
        state.write_if_not_validated(&mut text);
        if !state.is_validated() {
            return Step::Reply { text };
        }
        match split_fields(payload.as_str()) {
            Some((to, body)) => Step::Submit {
                cmd: Command::PrivateMessage { from: state.username.clone(), to, body },
                pending: Pending::Private,
            },
            None => Step::Reply { text: Response::Error(ProtocolError::InvalidFormat).to_line() },
        }
    } else {
        Step::Reply { text: unknown_verb(&verb) }
    }
}

/// Takes the directory's answer to the command `pending`: a welcome to a
/// hello validates the connection. Returns the line to write to the
/// client, if the answer calls for one.
pub fn handle_ack(state: &mut ClientState, pending: Pending, answer: &Response) -> (text: Option<
    String,
>)
    ensures
        text_matches(text, ack_line(pending, answer@)),
        final(state)@ == acknowledged(old(state)@, pending, answer@),
{
    match answer {
        Response::Welcome { .. } => match pending {
            Pending::Hello => {
                state.validate();
                Some(answer.to_line())
            },
            _ => None,
        },
        Response::Success => match pending {
            Pending::Hello => None,
            _ => Some(answer.to_line()),
        },
        Response::Error(_) => Some(answer.to_line()),
        _ => None,
    }
}

/// Turns an event from the mailbox into the line to write to the client,
/// if the event calls for one.
pub fn relay(state: &ClientState, event: &Response) -> (text: Option<String>)
    ensures
        text_matches(text, relayed_line(state@, event@)),
{
    match event {
        Response::Chat { .. } => Some(event.to_line()),
        Response::Quit { username } => {
            if state.is_validated() && *username == state.username {
                None
            } else {
                Some(event.to_line())
            }
        },
        Response::Join { username } => {
            if state.is_validated() && *username == state.username {
                None
            } else {
                Some(event.to_line())
            }
        },
        _ => None,
    }
}

/// "HELLO" is none of the other verbs.
proof fn lemma_verbs_differ()
    ensures
        "MESSAGE"@ != "HELLO"@,
        "QUIT"@ != "HELLO"@,
        "QUIT"@ != "MESSAGE"@,
        "PRIVATE"@ != "HELLO"@,
        "PRIVATE"@ != "MESSAGE"@,
        "PRIVATE"@ != "QUIT"@,
{
    reveal_strlit("HELLO");
    reveal_strlit("MESSAGE");
    reveal_strlit("QUIT");
    reveal_strlit("PRIVATE");
    assert("QUIT"@.len() == 4);
    assert("PRIVATE"@[0] == 'P');
    assert("MESSAGE"@[0] == 'M');
}

/// A hello with a name that is empty or holds anything but ASCII letters,
/// on a connection that is not validated, is answered with
/// `InvalidUsername` by the handler itself: nothing is submitted to the
/// directory.
pub proof fn law_invalid_name_is_refused_locally(
    state: ClientStateView,
    bytes_read: usize,
    line: Seq<char>,
    payload: Seq<char>,
    private_sender: tokio::sync::mpsc::Sender<Response>,
)
    requires
        !state.validated,
        bytes_read != 0,
        split_line(line) == Some(("HELLO"@, payload)),
        !valid_username(payload),
    ensures
        next_step(state, bytes_read, line, private_sender) == (StepView::Reply {
            text: error_line(ProtocolError::InvalidUsername),
        }),
        next_step(state, bytes_read, line, private_sender).submits() is None,
        !next_state(state, bytes_read, line).validated,
{
}

/// A message on a connection that is not validated is answered with
/// `NotValidated` by the handler itself: nothing is submitted to the
/// directory, so no mailbox ever sees it.
pub proof fn law_message_needs_validation(
    state: ClientStateView,
    bytes_read: usize,
    line: Seq<char>,
    payload: Seq<char>,
    private_sender: tokio::sync::mpsc::Sender<Response>,
)
    requires
        !state.validated,
        bytes_read != 0,
        split_line(line) == Some(("MESSAGE"@, payload)),
    ensures
        next_step(state, bytes_read, line, private_sender) == (StepView::Reply {
            text: error_line(ProtocolError::NotValidated),
        }),
        next_step(state, bytes_read, line, private_sender).submits() is None,
        next_state(state, bytes_read, line) == state,
{
    lemma_verbs_differ();
}

/// Whatever a connection that is not validated reads, the only command
/// that it can submit is a hello with a valid name and the mailbox that
/// the handler was given.
pub proof fn law_only_hello_before_validation(
    state: ClientStateView,
    bytes_read: usize,
    line: Seq<char>,
    private_sender: tokio::sync::mpsc::Sender<Response>,
)
    requires
        !state.validated,
    ensures
        match next_step(state, bytes_read, line, private_sender).submits() {
            Some(CommandView::Hello { username: name, private_sender: mailbox }) => valid_username(
                name,
            ) && mailbox == private_sender,
            Some(_) => false,
            None => true,
        },
{
}

/// A connection ends when its stream ends and when a validated client
/// quits, and at no other time. What leaves a validated connection
/// behind is a quit in its name; a connection that was never validated
/// leaves nothing behind.
pub proof fn law_connection_ends_on_quit_or_end_of_stream(
    state: ClientStateView,
    bytes_read: usize,
    line: Seq<char>,
    private_sender: tokio::sync::mpsc::Sender<Response>,
)
    ensures
        next_step(state, bytes_read, line, private_sender).ends_connection() <==> (bytes_read == 0
            || (state.validated && match split_line(line) {
            Some((verb, _)) => verb == "QUIT"@,
            None => false,
        })),
        next_step(state, bytes_read, line, private_sender).ends_connection() ==> next_step(
            state,
            bytes_read,
            line,
            private_sender,
        ).submits() == if state.validated {
            Some(CommandView::Quit { username: state.username })
        } else {
            None
        },
{
    lemma_verbs_differ();
}

/// A validated connection keeps its name, and every command that it
/// submits is a message, a private message or a quit in that name: a
/// handler never has more than one registered name.
pub proof fn law_validated_name_is_kept(
    state: ClientStateView,
    bytes_read: usize,
    line: Seq<char>,
    private_sender: tokio::sync::mpsc::Sender<Response>,
    pending: Pending,
    answer: ResponseView,
)
    requires
        state.validated,
    ensures
        next_state(state, bytes_read, line) == state,
        acknowledged(state, pending, answer) == state,
        match next_step(state, bytes_read, line, private_sender).submits() {
            Some(CommandView::Hello { .. }) => false,
            Some(CommandView::Message { from, .. }) => from == state.username,
            Some(CommandView::PrivateMessage { from, .. }) => from == state.username,
            Some(CommandView::Quit { username: who }) => who == state.username,
            None => true,
        },
{
}

} // verus!
