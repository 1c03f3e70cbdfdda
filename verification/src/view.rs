//! What is put on the screen for a state: a column of rows, each control
//! wired to the message that it sends when it is pressed.

use vstd::prelude::*;
use crate::listing::{DirectoryEntry, EntryView, FilterView};
use crate::paths::{join, joined, parent, parent_of};
use crate::state::{next_state, AppState, Message, MessageView, ReplyView, StateView};

verus! {

/// A colour, by its red, green and blue parts.
#[derive(Debug, Clone, Copy, PartialEq, Eq, Structural)]
pub struct Color {
    pub red: u8,
    pub green: u8,
    pub blue: u8,
}

/// How a button is drawn.
#[derive(Debug, Clone, Copy, PartialEq, Eq, Structural)]
pub enum ButtonStyle {
    /// As the theme draws buttons.
    Themed,
    /// Without a background, the label in the given colour.
    Bare { text_color: Color },
}

/// A control that sends a message when it is pressed.
#[derive(Debug, Clone, PartialEq, Eq)]
pub struct Button {
    pub label: String,
    pub on_press: Message,
    pub style: ButtonStyle,
}

/// The mathematical value of a [`Button`].
pub struct ButtonView {
    pub label: Seq<char>,
    pub on_press: MessageView,
    pub style: ButtonStyle,
}

impl View for Button {
    type V = ButtonView;

    open spec fn view(&self) -> ButtonView {
        ButtonView { label: self.label@, on_press: self.on_press@, style: self.style }
    }
}

/// One row of the screen.
#[derive(Debug, Clone, PartialEq, Eq)]
pub enum Row {
    /// The current directory, a control that goes up and one that leaves.
    Header { location: String, up: Button, exit: Button },
    /// The notification, and a control that puts it away.
    Notification { text: String, dismiss: Button },
    /// A directory of the listing: one control that goes into it.
    Directory { open: Button },
    /// A file of the listing: its name, and a control that rips it.
    File { name: String, rip: Button },
}

/// The mathematical value of a [`Row`].
pub enum RowView {
    Header { location: Seq<char>, up: ButtonView, exit: ButtonView },
    Notification { text: Seq<char>, dismiss: ButtonView },
    Directory { open: ButtonView },
    File { name: Seq<char>, rip: ButtonView },
}

impl View for Row {
    type V = RowView;

    open spec fn view(&self) -> RowView {
        match self {
            Row::Header { location, up, exit } => RowView::Header {
                location: location@,
                up: up@,
                exit: exit@,
            },
            Row::Notification { text, dismiss } => RowView::Notification {
                text: text@,
                dismiss: dismiss@,
            },
            Row::Directory { open } => RowView::Directory { open: open@ },
            Row::File { name, rip } => RowView::File { name: name@, rip: rip@ },
        }
    }
}

impl DeepView for Row {
    type V = RowView;

    open spec fn deep_view(&self) -> RowView {
        self@
    }
}

/// The style that sets the control of a directory apart from the rest.
pub open spec fn directory_style() -> ButtonStyle {
    ButtonStyle::Bare { text_color: Color { red: 3, green: 161, blue: 252 } }
}

/// The style of the control of a directory.
pub fn dir_button_style() -> (style: ButtonStyle)
    ensures
        style == directory_style(),
{
    ButtonStyle::Bare { text_color: Color { red: 3, green: 161, blue: 252 } }
}

/// Where the control that goes up leads from `current_dir`, whose parent is
/// `parent`: to the parent, and from a directory that has none to itself.
pub open spec fn up_target(current_dir: Seq<char>, parent: Option<Seq<char>>) -> Seq<char> {
    match parent {
        Some(directory) => directory,
        None => current_dir,
    }
}

/// The header of the directory `current_dir`, whose parent is `parent`.
pub open spec fn header_of(current_dir: Seq<char>, parent: Option<Seq<char>>) -> RowView {
    RowView::Header {
        location: current_dir,
        up: ButtonView {
            label: "Up"@,
            on_press: MessageView::CD(up_target(current_dir, parent)),
            style: ButtonStyle::Themed,
        },
        exit: ButtonView { label: "Exit"@, on_press: MessageView::Exit, style: ButtonStyle::Themed },
    }
}

/// The row of the notification `text`.
pub open spec fn notification_of(text: Seq<char>) -> RowView {
    RowView::Notification {
        text,
        dismiss: ButtonView {
            label: "close"@,
            on_press: MessageView::ClosePopup,
            style: ButtonStyle::Themed,
        },
    }
}

/// The row of `entry`, which lies at `path`.
pub open spec fn row_of(entry: EntryView, path: Seq<char>) -> RowView {
    if entry.is_directory {
        RowView::Directory {
            open: ButtonView {
                label: entry.name,
                on_press: MessageView::CD(path),
                style: directory_style(),
            },
        }
    } else {
        RowView::File {
            name: entry.name,
            rip: ButtonView {
                label: "rip"@,
                on_press: MessageView::JRIP(path),
                style: ButtonStyle::Themed,
            },
        }
    }
}

/// The rows of a listing of the directory `current_dir`, one for each entry
/// and in their order, each entry lying at `current_dir` joined with its name.
pub open spec fn rows_of(current_dir: Seq<char>, entries: Seq<EntryView>) -> Seq<RowView> {
    Seq::new(entries.len(), |i: int| row_of(entries[i], joined(current_dir, entries[i].name)))
}

/// The rows of a notification: one if there is one.
pub open spec fn popup_rows(popup: Option<Seq<char>>) -> Seq<RowView> {
    match popup {
        Some(text) => seq![notification_of(text)],
        None => Seq::empty(),
    }
}

/// The screen of `state`: the header, below it the notification if one is
/// up, below that the listing.
pub open spec fn rendered(state: StateView) -> Seq<RowView> {
    seq![header_of(state.current_dir, parent_of(state.current_dir))] + popup_rows(state.popup)
        + rows_of(state.current_dir, state.current_files)
}

/// Builds the header of the directory `current_dir`, whose parent is `parent`.
pub fn header_row(current_dir: &str, parent: Option<String>) -> (row: Row)
    ensures
        row@ == header_of(current_dir@, parent.deep_view()),
{
    let target = match parent {
        Some(directory) => directory,
        None => current_dir.to_owned(),
    };
    Row::Header {
        location: current_dir.to_owned(),
        up: Button {
            label: "Up".to_owned(),
            on_press: Message::CD(target),
            style: ButtonStyle::Themed,
        },
        exit: Button {
            label: "Exit".to_owned(),
            on_press: Message::Exit,
            style: ButtonStyle::Themed,
        },
    }
}

/// Builds the row of the notification `text`.
pub fn notification_row(text: &str) -> (row: Row)
    ensures
        row@ == notification_of(text@),
{
    Row::Notification {
        text: text.to_owned(),
        dismiss: Button {
            label: "close".to_owned(),
            on_press: Message::ClosePopup,
            style: ButtonStyle::Themed,
        },
    }
}

/// Builds the row of `entry`, which lies at `path`.
pub fn entry_row(entry: &DirectoryEntry, path: String) -> (row: Row)
    ensures
        row@ == row_of(entry@, path@),
{
    if entry.is_directory {
        Row::Directory {
            open: Button {
                label: entry.name.clone(),
                on_press: Message::CD(path),
                style: dir_button_style(),
            },
        }
    } else {
        Row::File {
            name: entry.name.clone(),
            rip: Button {
                label: "rip".to_owned(),
                on_press: Message::JRIP(path),
                style: ButtonStyle::Themed,
            },
        }
    }
}

/// Lays out the screen of `state`.
pub fn view(state: &AppState) -> (rows: Vec<Row>)
    ensures
        rows.deep_view() == rendered(state@),
{
    let current_dir = state.current_dir.as_str();
    let mut rows: Vec<Row> = Vec::new();
    rows.push(header_row(current_dir, parent(current_dir)));
    match &state.popup {
        Some(text) => {
            rows.push(notification_row(text.as_str()));
        },
        None => {},
    }
    let ghost top = rows.deep_view();
    let ghost entries = state.current_files.deep_view();
    assert(top =~= seq![header_of(state@.current_dir, parent_of(state@.current_dir))]
        + popup_rows(state@.popup));
    let mut i: usize = 0;
    while i < state.current_files.len()
        invariant
            i <= state.current_files.len(),
            current_dir@ == state.current_dir@,
            entries == state.current_files.deep_view(),
            rows.deep_view() == top + rows_of(state.current_dir@, entries.take(i as int)),
        decreases state.current_files.len() - i,
    {
        let entry = &state.current_files[i];
        let ghost before = rows.deep_view();
        let ghost row = row_of(entry@, joined(state.current_dir@, entry@.name));
        rows.push(entry_row(entry, join(current_dir, entry.name.as_str())));
        assert(rows.deep_view() =~= before.push(row));
        assert(rows_of(state.current_dir@, entries.take(i + 1)) =~= rows_of(
            state.current_dir@,
            entries.take(i as int),
        ).push(row));
        i += 1;
    }
    assert(entries.take(i as int) =~= entries);
    rows
}

/// The number of rows above the listing: the header, and the notification
/// where one is up.
pub open spec fn rows_above_listing(state: StateView) -> int {
    if state.popup is Some {
        2
    } else {
        1
    }
}

/// The header stands first, whatever the state. A notification stands
/// directly below it. Then comes one row for each entry of the listing, in
/// the listing's order: the row of that entry at the directory joined with
/// its name. A state with no notification and an empty listing shows the
/// header alone.
pub proof fn layout_of_the_screen(state: StateView)
    ensures
        ({
            let screen = rendered(state);
            let header = header_of(state.current_dir, parent_of(state.current_dir));
            let above = rows_above_listing(state);
            let entries = state.current_files;
            &&& screen.len() == above + entries.len()
            &&& screen[0] == header
            &&& state.popup matches Some(text) ==> screen[1] == notification_of(text)
            &&& forall|i: int|
                #![trigger entries[i]]
                0 <= i < entries.len() ==> screen[above + i] == row_of(
                    entries[i],
                    joined(state.current_dir, entries[i].name),
                )
            &&& state.popup is None && entries.len() == 0 ==> screen == seq![header]
        }),
{
    if state.popup is None && state.current_files.len() == 0 {
        assert(rendered(state) =~= seq![
            header_of(state.current_dir, parent_of(state.current_dir)),
        ]);
    }
}

/// The control of a directory's row goes into the directory, carries its
/// name and is drawn in the style of directories, which is not the theme's.
/// The row of a file shows its name beside a control that rips the file.
pub proof fn controls_of_the_listing(entry: EntryView, path: Seq<char>)
    ensures
        entry.is_directory ==> {
            &&& row_of(entry, path) matches RowView::Directory { open }
            &&& open.label == entry.name
            &&& open.on_press == MessageView::CD(path)
            &&& open.style == directory_style()
            &&& open.style != ButtonStyle::Themed
        },
        !entry.is_directory ==> {
            &&& row_of(entry, path) matches RowView::File { name, rip }
            &&& name == entry.name
            &&& rip.on_press == MessageView::JRIP(path)
            &&& rip.style == ButtonStyle::Themed
        },
{
}

/// From a directory that has no parent the control that goes up leads to the
/// directory itself, so that pressing it moves nowhere.
pub proof fn going_up_from_the_top_stays(state: StateView, reply: ReplyView, filter: FilterView)
    requires
        parent_of(state.current_dir) is None,
    ensures
        ({
            &&& rendered(state)[0] matches RowView::Header { up, .. }
            &&& up.on_press == MessageView::CD(state.current_dir)
            &&& next_state(state, up.on_press, reply, filter).current_dir == state.current_dir
        }),
{
}

} // verus!
