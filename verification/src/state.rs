//! The state of the application and its one transition function.
//!
//! Two of the four messages need work done outside before their transition:
//! a directory has to be read, the encoder has to be run. [`request_for`]
//! says which work a message needs, the caller does it, and [`update`] takes
//! the message together with what came of it.

use vstd::prelude::*;
use crate::encoder::{
    outcome_of, plan_rip, planned_command, rip_outcome, CommandView, EncoderCommand, EncoderExit,
};
use crate::listing::{
    directories_first, directories_precede_kept_files, get_files, shown, DirectoryEntry, EntryView,
    FileFilter, FilterView,
};
use crate::paths::parent_of;

verus! {

/// What the user can ask for.
#[derive(Debug, Clone, PartialEq, Eq)]
pub enum Message {
    /// Leave the application.
    Exit,
    /// Go to the directory at this path.
    CD(String),
    /// Write the audio track of the file at this path as mp3.
    JRIP(String),
    /// Put the notification away.
    ClosePopup,
}

/// The mathematical value of a [`Message`].
pub enum MessageView {
    Exit,
    CD(Seq<char>),
    JRIP(Seq<char>),
    ClosePopup,
}

impl View for Message {
    type V = MessageView;

    open spec fn view(&self) -> MessageView {
        match self {
            Message::Exit => MessageView::Exit,
            Message::CD(path) => MessageView::CD(path@),
            Message::JRIP(path) => MessageView::JRIP(path@),
            Message::ClosePopup => MessageView::ClosePopup,
        }
    }
}

/// Work to be done outside before a message's transition.
#[derive(Debug, Clone, PartialEq, Eq)]
pub enum Request {
    /// The transition needs nothing from outside.
    Nothing,
    /// Enumerate the children of the directory at this path.
    ReadDirectory(String),
    /// Run this command line and wait for it to end.
    RunEncoder(EncoderCommand),
}

/// The mathematical value of a [`Request`].
pub enum RequestView {
    Nothing,
    ReadDirectory(Seq<char>),
    RunEncoder(CommandView),
}

impl View for Request {
    type V = RequestView;

    open spec fn view(&self) -> RequestView {
        match self {
            Request::Nothing => RequestView::Nothing,
            Request::ReadDirectory(path) => RequestView::ReadDirectory(path@),
            Request::RunEncoder(command) => RequestView::RunEncoder(command@),
        }
    }
}

/// What came of the work that a [`Request`] asked for.
#[derive(Debug, Clone, PartialEq, Eq)]
pub enum Reply {
    /// No work was done.
    Nothing,
    /// The directory could not be read.
    Unreadable,
    /// The children of the directory, in the order in which the file system
    /// enumerated them.
    Children(Vec<DirectoryEntry>),
    /// The encoder was run, and this is how it ended.
    Encoder(EncoderExit),
}

/// The mathematical value of a [`Reply`].
pub enum ReplyView {
    Nothing,
    Unreadable,
    Children(Seq<EntryView>),
    Encoder(EncoderExit),
}

impl View for Reply {
    type V = ReplyView;

    open spec fn view(&self) -> ReplyView {
        match self {
            Reply::Nothing => ReplyView::Nothing,
            Reply::Unreadable => ReplyView::Unreadable,
            Reply::Children(children) => ReplyView::Children(children.deep_view()),
            Reply::Encoder(exit) => ReplyView::Encoder(*exit),
        }
    }
}

/// What the caller is to do after a transition.
#[derive(Debug, Clone, Copy, PartialEq, Eq, Structural)]
pub enum Effect {
    /// Nothing.
    Nothing,
    /// Close the application's window, which ends the run.
    CloseWindow,
}

/// Where the user is, what is shown of that directory, and the one
/// notification that may be up.
#[derive(Debug, Clone, PartialEq, Eq)]
pub struct AppState {
    pub current_dir: String,
    pub current_files: Vec<DirectoryEntry>,
    pub popup: Option<String>,
}

/// The mathematical value of an [`AppState`].
pub struct StateView {
    pub current_dir: Seq<char>,
    pub current_files: Seq<EntryView>,
    pub popup: Option<Seq<char>>,
}

impl View for AppState {
    type V = StateView;

    open spec fn view(&self) -> StateView {
        StateView {
            current_dir: self.current_dir@,
            current_files: self.current_files.deep_view(),
            popup: self.popup.deep_view(),
        }
    }
}

/// The work that `message` needs done before its transition: a directory
/// read for a change of directory, a run of the encoder for a rip of a file
/// that has a directory to write into, and nothing otherwise.
pub open spec fn request_of(message: MessageView) -> RequestView {
    match message {
        MessageView::CD(path) => RequestView::ReadDirectory(path),
        MessageView::JRIP(source) => match planned_command(source) {
            Some(command) => RequestView::RunEncoder(command),
            None => RequestView::Nothing,
        },
        _ => RequestView::Nothing,
    }
}

/// The children that a reply reports. A directory that could not be read
/// counts as empty, and so does one that nobody read.
pub open spec fn children_of(reply: ReplyView) -> Seq<EntryView> {
    match reply {
        ReplyView::Children(children) => children,
        _ => Seq::empty(),
    }
}

/// The state after `message`, given what came of the work done for it.
///
/// Leaving changes nothing. A change of directory moves to the path and
/// lists it anew from the children reported. A rip puts up the notice of its
/// outcome, over any notice that was up; where no encoder was run, it
/// changes nothing. Putting the notification away leaves none.
pub open spec fn next_state(
    state: StateView,
    message: MessageView,
    reply: ReplyView,
    filter: FilterView,
) -> StateView {
    match message {
        MessageView::Exit => state,
        MessageView::CD(path) => StateView {
            current_dir: path,
            current_files: shown(children_of(reply), filter),
            popup: state.popup,
        },
        MessageView::JRIP(_) => match reply {
            ReplyView::Encoder(exit) => StateView {
                current_dir: state.current_dir,
                current_files: state.current_files,
                popup: Some(outcome_of(exit).notice()),
            },
            _ => state,
        },
        MessageView::ClosePopup => StateView {
            current_dir: state.current_dir,
            current_files: state.current_files,
            popup: None,
        },
    }
}

/// What the caller is to do after the transition of `message`: close the
/// window after [`Message::Exit`], nothing after any other message.
pub open spec fn effect_of(message: MessageView) -> Effect {
    match message {
        MessageView::Exit => Effect::CloseWindow,
        _ => Effect::Nothing,
    }
}

/// The state in which the application starts in the directory `current_dir`.
pub open spec fn initial_state(
    current_dir: Seq<char>,
    reply: ReplyView,
    filter: FilterView,
) -> StateView {
    StateView {
        current_dir,
        current_files: shown(children_of(reply), filter),
        popup: None,
    }
}

/// Lists the directory that `reply` reports on.
fn list_reply(reply: Reply, filter: &FileFilter) -> (listing: Vec<DirectoryEntry>)
    ensures
        listing.deep_view() == shown(children_of(reply@), filter@),
{
    match reply {
        Reply::Children(children) => get_files(&children, filter),
        _ => {
            let nothing: Vec<DirectoryEntry> = Vec::new();
            assert(nothing.deep_view() =~= shown(Seq::empty(), filter@)) by {
                reveal(Seq::filter);
            }
            nothing
        },
    }
}

impl AppState {
    /// Directories stand before files in the listing.
    pub open spec fn wf(&self) -> bool {
        directories_first(self@.current_files)
    }

    /// The state at startup: in `current_dir`, which `reply` reports on, and
    /// with no notification.
    pub fn new(current_dir: String, reply: Reply, filter: &FileFilter) -> (state: AppState)
        ensures
            state@ == initial_state(current_dir@, reply@, filter@),
            state.wf(),
    {
        proof {
            directories_precede_kept_files(children_of(reply@), filter@);
        }
        let current_files = list_reply(reply, filter);
        AppState { current_dir, current_files, popup: None }
    }
}

/// Says which work `message` needs done before [`update`] is called with it.
pub fn request_for(message: &Message) -> (request: Request)
    ensures
        request@ == request_of(message@),
{
    match message {
        Message::CD(path) => Request::ReadDirectory(path.clone()),
        Message::JRIP(source) => match plan_rip(source.as_str()) {
            Some(command) => Request::RunEncoder(command),
            None => Request::Nothing,
        },
        _ => Request::Nothing,
    }
}

/// Makes the transition of `message`, given what came of the work done for
/// it, and says what the caller is to do next.
pub fn update(
    state: &mut AppState,
    message: Message,
    reply: Reply,
    filter: &FileFilter,
) -> (effect: Effect)
    ensures
        final(state)@ == next_state(old(state)@, message@, reply@, filter@),
        effect == effect_of(message@),
        old(state).wf() ==> final(state).wf(),
{
    proof {
        directories_precede_kept_files(children_of(reply@), filter@);
    }
    match message {
        Message::Exit => Effect::CloseWindow,
        Message::CD(path) => {
            state.current_files = list_reply(reply, filter);
            state.current_dir = path;
            Effect::Nothing
        },
        Message::JRIP(_) => {
            match reply {
                Reply::Encoder(exit) => {
                    state.popup = Some(rip_outcome(exit).message());
                },
                _ => {},
            }
            Effect::Nothing
        },
        Message::ClosePopup => {
            state.popup = None;
            Effect::Nothing
        },
    }
}

/// `reply` is of the kind that the work asked for by `request` produces.
pub open spec fn answers(reply: ReplyView, request: RequestView) -> bool {
    match request {
        RequestView::Nothing => reply is Nothing,
        RequestView::ReadDirectory(_) => reply is Children || reply is Unreadable,
        RequestView::RunEncoder(_) => reply is Encoder,
    }
}

/// Going to a directory twice in a row, the file system reporting the same
/// both times, leaves the state that going there once leaves.
pub proof fn navigating_twice_is_navigating_once(
    state: StateView,
    path: Seq<char>,
    reply: ReplyView,
    filter: FilterView,
)
    ensures
        ({
            let once = next_state(state, MessageView::CD(path), reply, filter);
            next_state(once, MessageView::CD(path), reply, filter) == once
        }),
{
}

/// Putting the notification away when none is up changes nothing.
pub proof fn closing_no_popup_changes_nothing(
    state: StateView,
    reply: ReplyView,
    filter: FilterView,
)
    requires
        state.popup is None,
    ensures
        next_state(state, MessageView::ClosePopup, reply, filter) == state,
{
}

/// After a rip for which the encoder was run, the notification is the
/// success text where the encoder ended with exit code 0 and the failure
/// text in every other case, whatever was up before; directory and listing
/// are as they were.
pub proof fn rip_puts_up_its_outcome(
    state: StateView,
    source: Seq<char>,
    exit: EncoderExit,
    filter: FilterView,
)
    ensures
        ({
            let after = next_state(
                state,
                MessageView::JRIP(source),
                ReplyView::Encoder(exit),
                filter,
            );
            &&& exit == EncoderExit::Exited(Some(0i32)) ==> after.popup == Some(
                "audio has been ripped"@,
            )
            &&& exit != EncoderExit::Exited(Some(0i32)) ==> after.popup == Some(
                "failed to RIP audio"@,
            )
            &&& after.current_dir == state.current_dir
            &&& after.current_files == state.current_files
        }),
{
}

/// A rip of a path that has a parent asks for a run of the encoder, and
/// whatever comes of that run, one of the two notices is up afterwards.
pub proof fn rip_with_parent_puts_up_a_notice(
    state: StateView,
    source: Seq<char>,
    reply: ReplyView,
    filter: FilterView,
)
    requires
        parent_of(source) is Some,
        answers(reply, request_of(MessageView::JRIP(source))),
    ensures
        request_of(MessageView::JRIP(source)) is RunEncoder,
        ({
            let after = next_state(state, MessageView::JRIP(source), reply, filter);
            after.popup == Some("audio has been ripped"@) || after.popup == Some(
                "failed to RIP audio"@,
            )
        }),
{
}

/// A rip of a path that has no parent runs no encoder, and changes nothing.
pub proof fn rip_without_parent_changes_nothing(
    state: StateView,
    source: Seq<char>,
    reply: ReplyView,
    filter: FilterView,
)
    requires
        parent_of(source) is None,
        answers(reply, request_of(MessageView::JRIP(source))),
    ensures
        request_of(MessageView::JRIP(source)) == RequestView::Nothing,
        next_state(state, MessageView::JRIP(source), reply, filter) == state,
{
}

/// Leaving changes nothing in the state, and no other message has the window
/// closed.
pub proof fn only_exit_closes_the_window(
    state: StateView,
    message: MessageView,
    reply: ReplyView,
    filter: FilterView,
)
    ensures
        effect_of(message) == Effect::CloseWindow <==> message is Exit,
        message is Exit ==> next_state(state, message, reply, filter) == state,
{
}

/// Directory and listing change together, and only on a change of
/// directory; the listing then is what is shown of the children reported.
pub proof fn only_navigation_changes_the_listing(
    state: StateView,
    message: MessageView,
    reply: ReplyView,
    filter: FilterView,
)
    ensures
        ({
            let after = next_state(state, message, reply, filter);
            &&& !(message is CD) ==> after.current_dir == state.current_dir && after.current_files
                == state.current_files
            &&& message matches MessageView::CD(path) ==> after.current_dir == path
                && after.current_files == shown(children_of(reply), filter)
        }),
{
}

/// A notification goes away only when it is put away, and one comes up or
/// changes only through a rip for which the encoder was run.
pub proof fn notification_changes_only_by_rip_or_dismissal(
    state: StateView,
    message: MessageView,
    reply: ReplyView,
    filter: FilterView,
)
    ensures
        ({
            let after = next_state(state, message, reply, filter);
            &&& state.popup is Some && after.popup is None ==> message is ClosePopup
            &&& after.popup is Some && after.popup != state.popup ==> message is JRIP
                && reply is Encoder
        }),
{
}

/// A listing in which directories stand first stays so through every
/// transition.
pub proof fn listing_stays_directories_first(
    state: StateView,
    message: MessageView,
    reply: ReplyView,
    filter: FilterView,
)
    requires
        directories_first(state.current_files),
    ensures
        directories_first(next_state(state, message, reply, filter).current_files),
{
    directories_precede_kept_files(children_of(reply), filter);
}

} // verus!
