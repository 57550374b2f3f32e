//! The event-driven state machine of the configuration launcher UI.
//!
//! The launcher is closed, or shows the list of configurations (select
//! mode), one configuration (view mode) or one configuration for editing
//! (edit mode). Each event gives a [`Plan`]: the work to do on the editor and
//! the configurations, and the state to move to once that work succeeded.
//! The caller does the work and then settles the state with [`Launcher::settle`].

use crate::error::{error_text, Error};
use crate::notify::{LogLevel, _send, notification_text};
use crate::text::{decimal, i32_to_string, int_decimal, usize_to_string};
use vstd::prelude::*;

verus! {

/// The line of the launcher window that shows the first entry.
pub const NAVIGATION_OFFSET: usize = 3;

/// The events that the launcher UI handles.
#[derive(Debug, Clone, Copy, PartialEq, Eq, Structural)]
pub enum Event {
    Add,
    Back,
    Close,
    Copy,
    Delete,
    Edit,
    Help,
    InsertArg,
    Launch,
    Open,
    Redo,
    Save,
    Undo,
    View,
}

/// The name of an event.
pub open spec fn event_name(e: Event) -> Seq<char> {
    match e {
        Event::Add => "Add"@,
        Event::Back => "Back"@,
        Event::Close => "Close"@,
        Event::Copy => "Copy"@,
        Event::Delete => "Delete"@,
        Event::Edit => "Edit"@,
        Event::Help => "Help"@,
        Event::InsertArg => "InsertArg"@,
        Event::Launch => "Launch"@,
        Event::Open => "Open"@,
        Event::Redo => "Redo"@,
        Event::Save => "Save"@,
        Event::Undo => "Undo"@,
        Event::View => "View"@,
    }
}

/// The state of the launcher UI.
///
/// An open launcher shows a buffer in a window, given by their editor
/// handles; view and edit mode show the configuration at `index`.
#[derive(Debug, Clone, Copy, PartialEq, Eq, Structural)]
pub enum Launcher {
    Closed,
    Select { buffer: i32, window: i32 },
    View { buffer: i32, window: i32, index: usize },
    Edit { buffer: i32, window: i32, index: usize, from_select: bool },
}

/// Where the index of the configuration to act on comes from.
#[derive(Debug, Clone, Copy, PartialEq, Eq, Structural)]
pub enum Target {
    /// The entry under the cursor of the launcher window.
    Cursor,
    /// The configuration at this index.
    At(usize),
}

/// The work that an event asks for.
#[derive(Debug, Clone, Copy, PartialEq, Eq, Structural)]
pub enum Action {
    /// Nothing.
    Nothing,
    /// Open the configurations buffer, read the configurations file and
    /// open the launcher window.
    Open,
    /// Close the launcher window and the configurations buffer.
    Close,
    /// Show the help of the current mode.
    ShowHelp,
    /// Warn that there are no task configurations.
    WarnNoConfigs,
    /// Append a new configuration.
    AddConfig,
    /// Append a copy of a configuration.
    CopyConfig(Target),
    /// Delete a configuration and write the file.
    DeleteConfig(Target),
    /// Close the launcher and launch a configuration.
    Launch(Target),
    /// Redo the last undone change; `write` asks to write the file after.
    Redo { write: bool },
    /// Undo the last change; `write` asks to write the file after.
    Undo { write: bool },
    /// Read the configurations file again, dropping unsaved edits.
    Reload,
    /// Write the configurations file.
    Save,
    /// Delete the field under the cursor.
    DeleteField,
    /// Edit the field under the cursor.
    EditField,
    /// Insert an argument before the one under the cursor.
    InsertArg,
}

/// The state to move to once the work of a plan succeeded.
#[derive(Debug, Clone, Copy, PartialEq, Eq, Structural)]
pub enum Next {
    /// Stay in the current state.
    Keep,
    /// The launcher is closed.
    Closed,
    /// Select mode in the window that the work opened.
    Opened,
    /// Select mode in the current window.
    Select,
    /// View mode on a configuration.
    View(Target),
    /// Edit mode on a configuration.
    Edit { at: Target, from_select: bool },
    /// Leave edit mode: back to select mode when editing started there or
    /// when the edited configuration no longer exists, else to view mode.
    LeaveEdit,
}

/// The work that an event asks for and the state that follows it.
#[derive(Debug, Clone, Copy, PartialEq, Eq, Structural)]
pub struct Plan {
    pub action: Action,
    pub next: Next,
}

/// What the work of a plan found out, as needed to settle the next state.
#[derive(Debug, Clone, Copy)]
pub struct Outcome {
    /// The index of the entry under the cursor, when the work read it.
    pub cursor_index: Option<usize>,
    /// The buffer and window that the work opened, if it opened them.
    pub opened: Option<(i32, i32)>,
    /// The number of configurations once the work is done.
    pub num_configs: usize,
}

/// The plan for event `e` in state `s` with `n` configurations, or `None`
/// when the launcher does not support the event in that state.
pub open spec fn transition(s: Launcher, e: Event, n: nat) -> Option<Plan> {
    let plan = |action: Action, next: Next| Some(Plan { action, next });
    match (s, e) {
        (Launcher::Closed, Event::Open) => plan(Action::Open, Next::Opened),
        (Launcher::Closed, Event::Close) => plan(Action::Nothing, Next::Keep),
        (Launcher::Closed, _) => None,
        (_, Event::Close) => plan(Action::Close, Next::Closed),
        (_, Event::Open) => plan(Action::Nothing, Next::Keep),
        (_, Event::Help) => plan(Action::ShowHelp, Next::Keep),
        (Launcher::Select { .. }, e) => {
            if n == 0 && (e == Event::Copy || e == Event::Delete || e == Event::Edit
                || e == Event::Launch || e == Event::View) {
                plan(Action::WarnNoConfigs, Next::Keep)
            } else {
                match e {
                    Event::Add => plan(Action::AddConfig, Next::Edit { at: Target::At(n as usize), from_select: true }),
                    Event::Copy => plan(Action::CopyConfig(Target::Cursor), Next::Edit { at: Target::At(n as usize), from_select: true }),
                    Event::Delete => plan(Action::DeleteConfig(Target::Cursor), Next::Select),
                    Event::Edit => plan(Action::Nothing, Next::Edit { at: Target::Cursor, from_select: true }),
                    Event::Launch => plan(Action::Launch(Target::Cursor), Next::Closed),
                    Event::Redo => plan(Action::Redo { write: true }, Next::Keep),
                    Event::Undo => plan(Action::Undo { write: true }, Next::Keep),
                    Event::View => plan(Action::Nothing, Next::View(Target::Cursor)),
                    _ => None,
                }
            }
        },
        (Launcher::View { index, .. }, e) => match e {
            Event::Back => plan(Action::Nothing, Next::Select),
            Event::Copy => plan(Action::CopyConfig(Target::At(index)), Next::Edit { at: Target::At(n as usize), from_select: false }),
            Event::Delete => plan(Action::DeleteConfig(Target::At(index)), Next::Select),
            Event::Edit => plan(Action::Nothing, Next::Edit { at: Target::At(index), from_select: false }),
            Event::Launch => plan(Action::Launch(Target::At(index)), Next::Closed),
            _ => None,
        },
        (Launcher::Edit { .. }, e) => match e {
            Event::Back => plan(Action::Reload, Next::LeaveEdit),
            Event::Save => plan(Action::Save, Next::LeaveEdit),
            Event::Delete => plan(Action::DeleteField, Next::Keep),
            Event::Edit => plan(Action::EditField, Next::Keep),
            Event::InsertArg => plan(Action::InsertArg, Next::Keep),
            Event::Redo => plan(Action::Redo { write: false }, Next::Keep),
            Event::Undo => plan(Action::Undo { write: false }, Next::Keep),
            _ => None,
        },
    }
}

/// The text that debugging output gives for a state.
pub open spec fn state_text(s: Launcher) -> Seq<char> {
    let handles = |b: i32, w: i32| "buffer: Buffer("@ + int_decimal(b as int) + "), window: Window("@ + int_decimal(w as int) + ")"@;
    match s {
        Launcher::Closed => "Closed"@,
        Launcher::Select { buffer, window } => "Select(Select { "@ + handles(buffer, window) + " })"@,
        Launcher::View { buffer, window, index } => "View(View { "@ + handles(buffer, window) + ", index: "@
            + decimal(index as nat) + " })"@,
        Launcher::Edit { buffer, window, index, from_select } => "Edit(Edit { "@ + handles(buffer, window) + ", index: "@
            + decimal(index as nat) + ", from_select: "@ + (if from_select { "true"@ } else { "false"@ }) + " })"@,
    }
}

/// The message of the error for an unsupported event.
pub open spec fn unsupported_text(s: Launcher, e: Event) -> Seq<char> {
    "Unsupported transition requested: Event::"@ + event_name(e) + " on Launcher::"@ + state_text(s)
}

/// The index that a target stands for, given the entry under the cursor.
pub open spec fn target_index(t: Target, cursor_index: Option<usize>) -> usize {
    match t {
        Target::Cursor => cursor_index.unwrap(),
        Target::At(i) => i,
    }
}

/// Whether the outcome holds what settling `next` from `s` needs.
pub open spec fn outcome_fits(s: Launcher, next: Next, o: Outcome) -> bool {
    match next {
        Next::Opened => o.opened is Some,
        Next::Select => s !is Closed,
        Next::View(t) => s !is Closed && (t is Cursor ==> o.cursor_index is Some),
        Next::Edit { at, .. } => s !is Closed && (at is Cursor ==> o.cursor_index is Some),
        Next::LeaveEdit => s is Edit,
        _ => true,
    }
}

/// The state that `next` stands for, from state `s` with the outcome `o`.
pub open spec fn settled(s: Launcher, next: Next, o: Outcome) -> Launcher {
    let (buffer, window) = match s {
        Launcher::Select { buffer, window } => (buffer, window),
        Launcher::View { buffer, window, .. } => (buffer, window),
        Launcher::Edit { buffer, window, .. } => (buffer, window),
        Launcher::Closed => (0i32, 0i32),
    };
    match next {
        Next::Keep => s,
        Next::Closed => Launcher::Closed,
        Next::Opened => Launcher::Select { buffer: o.opened.unwrap().0, window: o.opened.unwrap().1 },
        Next::Select => Launcher::Select { buffer, window },
        Next::View(t) => Launcher::View { buffer, window, index: target_index(t, o.cursor_index) },
        Next::Edit { at, from_select } => Launcher::Edit {
            buffer,
            window,
            index: target_index(at, o.cursor_index),
            from_select,
        },
        Next::LeaveEdit => match s {
            Launcher::Edit { index, from_select, .. } => {
                if from_select || index == o.num_configs {
                    Launcher::Select { buffer, window }
                } else {
                    Launcher::View { buffer, window, index }
                }
            },
            _ => s,
        },
    }
}

/// Whether doing a plan needs the index of the entry under the cursor: to
/// act on the selected configuration, or to move to a mode that shows it.
pub open spec fn reads_cursor_spec(p: Plan) -> bool {
    let acts_on_cursor = match p.action {
        Action::CopyConfig(t) => t is Cursor,
        Action::DeleteConfig(t) => t is Cursor,
        Action::Launch(t) => t is Cursor,
        _ => false,
    };
    let shows_cursor = match p.next {
        Next::View(t) => t is Cursor,
        Next::Edit { at, .. } => at is Cursor,
        _ => false,
    };
    acts_on_cursor || shows_cursor
}

/// What the launcher window does on entering a new state, besides showing
/// its lines and keys.
#[derive(Debug, Clone, Copy, PartialEq, Eq, Structural)]
pub struct Entry {
    /// Clear the undo history of the configurations buffer first.
    pub clear_undo: bool,
    /// The line to put the cursor on afterwards, if not the first entry.
    pub cursor_line: Option<usize>,
}

/// How the launcher window enters `next` from `prev`, with `n`
/// configurations; `None` when there is no window to set up. Leaving edit or
/// select mode for another mode clears the undo history, except from view
/// mode; back in select mode from edit mode, the cursor goes to the edited
/// configuration (wrapping around the list).
pub open spec fn entry_spec(prev: Launcher, next: Launcher, n: nat) -> Option<Entry> {
    match (prev, next) {
        (_, Launcher::Closed) => None,
        (Launcher::Edit { index, .. }, Launcher::Select { .. }) => Some(
            Entry { clear_undo: true, cursor_line: Some((NAVIGATION_OFFSET + (index as nat) % n) as usize) },
        ),
        (Launcher::Select { .. }, Launcher::View { .. }) => Some(Entry { clear_undo: true, cursor_line: None }),
        (Launcher::Edit { .. }, Launcher::View { .. }) => Some(Entry { clear_undo: true, cursor_line: None }),
        (Launcher::Select { .. }, Launcher::Edit { .. }) => Some(Entry { clear_undo: true, cursor_line: None }),
        _ => Some(Entry { clear_undo: false, cursor_line: None }),
    }
}

/// The warning that select mode gives for an event that needs a
/// configuration when there is none.
pub open spec fn no_configs_text() -> Seq<char> {
    "No task configurations found."@
}

/// The text of the warning for select mode without configurations.
pub fn no_configs_warning() -> (r: String)
    ensures
        r@ == no_configs_text(),
{
    String::from_str("No task configurations found.")
}

/// What follows an undo or a redo in the configurations buffer: whether to
/// write the configurations file (when the change happened and the mode
/// writes, as select mode does), and whether to refresh the window (when the
/// change happened).
pub fn undo_redo_steps(changed: bool, write: bool) -> (r: (bool, bool))
    ensures
        r == (changed && write, changed),
{
    (changed && write, changed)
}

/// The index of the entry under the cursor, given the cursor's line.
pub fn index_from_cursor(row: usize) -> (r: usize)
    requires
        row >= NAVIGATION_OFFSET,
    ensures
        r == row - NAVIGATION_OFFSET,
{
    row - NAVIGATION_OFFSET
}

/// The line to put the cursor on when going back to select mode from
/// editing the configuration at `index`, with `num_configs` configurations.
pub fn select_cursor_line(index: usize, num_configs: usize) -> (r: usize)
    requires
        num_configs > 0,
        index % num_configs + NAVIGATION_OFFSET <= usize::MAX,
    ensures
        r == NAVIGATION_OFFSET + index % num_configs,
{
    NAVIGATION_OFFSET + index % num_configs
}

fn event_text(e: Event) -> (r: &'static str)
    ensures
        r@ == event_name(e),
{
    match e {
        Event::Add => "Add",
        Event::Back => "Back",
        Event::Close => "Close",
        Event::Copy => "Copy",
        Event::Delete => "Delete",
        Event::Edit => "Edit",
        Event::Help => "Help",
        Event::InsertArg => "InsertArg",
        Event::Launch => "Launch",
        Event::Open => "Open",
        Event::Redo => "Redo",
        Event::Save => "Save",
        Event::Undo => "Undo",
        Event::View => "View",
    }
}

fn handles_text(out: &mut String, buffer: i32, window: i32)
    ensures
        final(out)@ == old(out)@ + ("buffer: Buffer("@ + int_decimal(buffer as int) + "), window: Window("@
            + int_decimal(window as int) + ")"@),
{
    out.append("buffer: Buffer(");
    out.append(i32_to_string(buffer).as_str());
    out.append("), window: Window(");
    out.append(i32_to_string(window).as_str());
    out.append(")");
}

impl Plan {
    /// Whether doing this plan needs the index of the entry under the cursor.
    pub fn reads_cursor(&self) -> (r: bool)
        ensures
            r == reads_cursor_spec(*self),
    {
        let acts_on_cursor = match self.action {
            Action::CopyConfig(t) => t == Target::Cursor,
            Action::DeleteConfig(t) => t == Target::Cursor,
            Action::Launch(t) => t == Target::Cursor,
            _ => false,
        };
        let shows_cursor = match self.next {
            Next::View(t) => t == Target::Cursor,
            Next::Edit { at, .. } => at == Target::Cursor,
            _ => false,
        };
        acts_on_cursor || shows_cursor
    }
}

/// How the launcher window enters `next` from `prev`, with `num_configs`
/// configurations; `None` when there is no window to set up.
pub fn entry(prev: Launcher, next: Launcher, num_configs: usize) -> (r: Option<Entry>)
    requires
        (prev is Edit && next is Select) ==> 0 < num_configs <= usize::MAX - NAVIGATION_OFFSET,
    ensures
        r == entry_spec(prev, next, num_configs as nat),
{
    match (prev, next) {
        (_, Launcher::Closed) => None,
        (Launcher::Edit { index, .. }, Launcher::Select { .. }) => {
            assert(index % num_configs < num_configs) by (nonlinear_arith)
                requires
                    num_configs > 0,
            ;
            Some(Entry { clear_undo: true, cursor_line: Some(select_cursor_line(index, num_configs)) })
        },
        (Launcher::Select { .. }, Launcher::View { .. }) => Some(Entry { clear_undo: true, cursor_line: None }),
        (Launcher::Edit { .. }, Launcher::View { .. }) => Some(Entry { clear_undo: true, cursor_line: None }),
        (Launcher::Select { .. }, Launcher::Edit { .. }) => Some(Entry { clear_undo: true, cursor_line: None }),
        _ => Some(Entry { clear_undo: false, cursor_line: None }),
    }
}

/// Whether a failed action closes the launcher, and the notification it sends.
pub struct Failure {
    /// The text of the error notification.
    pub notice: String,
    /// The launcher buffer to delete, when the launcher was open.
    pub close_buffer: Option<i32>,
}

impl Launcher {
    /// The closed launcher.
    pub fn default() -> (r: Launcher)
        ensures
            r == Launcher::Closed,
    {
        Launcher::Closed
    }

    /// The text that debugging output gives for this state.
    pub fn describe(&self) -> (r: String)
        ensures
            r@ == state_text(*self),
    {
        match *self {
            Launcher::Closed => String::from_str("Closed"),
            Launcher::Select { buffer, window } => {
                let mut r = String::from_str("Select(Select { ");
                handles_text(&mut r, buffer, window);
                r.append(" })");
                r
            },
            Launcher::View { buffer, window, index } => {
                let mut r = String::from_str("View(View { ");
                handles_text(&mut r, buffer, window);
                r.append(", index: ");
                r.append(usize_to_string(index).as_str());
                r.append(" })");
                r
            },
            Launcher::Edit { buffer, window, index, from_select } => {
                let mut r = String::from_str("Edit(Edit { ");
                handles_text(&mut r, buffer, window);
                r.append(", index: ");
                r.append(usize_to_string(index).as_str());
                r.append(", from_select: ");
                r.append(if from_select { "true" } else { "false" });
                r.append(" })");
                r
            },
        }
    }

    /// Handles an event: the work to do and the state that follows it, or
    /// an error for an event that the current state does not support.
    ///
    /// `num_configs` is the number of task configurations.
    pub fn on(&self, event: Event, num_configs: usize) -> (r: Result<Plan, Error>)
        ensures
            match transition(*self, event, num_configs as nat) {
                Some(p) => r == Ok::<Plan, Error>(p),
                None => r matches Err(Error::Internal(m)) && m@ == unsupported_text(*self, event),
            },
    {
        let n = num_configs;
        let p = |action: Action, next: Next| -> (r: Result<Plan, Error>)
            ensures r == Ok::<Plan, Error>(Plan { action, next })
        { Ok(Plan { action, next }) };
        match (*self, event) {
            (Launcher::Closed, Event::Open) => return p(Action::Open, Next::Opened),
            (Launcher::Closed, Event::Close) => return p(Action::Nothing, Next::Keep),
            (Launcher::Closed, _) => {},
            (_, Event::Close) => return p(Action::Close, Next::Closed),
            (_, Event::Open) => return p(Action::Nothing, Next::Keep),
            (_, Event::Help) => return p(Action::ShowHelp, Next::Keep),
            (Launcher::Select { .. }, e) => {
                if n == 0 && (e == Event::Copy || e == Event::Delete || e == Event::Edit
                    || e == Event::Launch || e == Event::View) {
                    return p(Action::WarnNoConfigs, Next::Keep);
                }
                match e {
                    Event::Add => return p(Action::AddConfig, Next::Edit { at: Target::At(n), from_select: true }),
                    Event::Copy => return p(Action::CopyConfig(Target::Cursor), Next::Edit { at: Target::At(n), from_select: true }),
                    Event::Delete => return p(Action::DeleteConfig(Target::Cursor), Next::Select),
                    Event::Edit => return p(Action::Nothing, Next::Edit { at: Target::Cursor, from_select: true }),
                    Event::Launch => return p(Action::Launch(Target::Cursor), Next::Closed),
                    Event::Redo => return p(Action::Redo { write: true }, Next::Keep),
                    Event::Undo => return p(Action::Undo { write: true }, Next::Keep),
                    Event::View => return p(Action::Nothing, Next::View(Target::Cursor)),
                    _ => {},
                }
            },
            (Launcher::View { index, .. }, e) => match e {
                Event::Back => return p(Action::Nothing, Next::Select),
                Event::Copy => return p(Action::CopyConfig(Target::At(index)), Next::Edit { at: Target::At(n), from_select: false }),
                Event::Delete => return p(Action::DeleteConfig(Target::At(index)), Next::Select),
                Event::Edit => return p(Action::Nothing, Next::Edit { at: Target::At(index), from_select: false }),
                Event::Launch => return p(Action::Launch(Target::At(index)), Next::Closed),
                _ => {},
            },
            (Launcher::Edit { .. }, e) => match e {
                Event::Back => return p(Action::Reload, Next::LeaveEdit),
                Event::Save => return p(Action::Save, Next::LeaveEdit),
                Event::Delete => return p(Action::DeleteField, Next::Keep),
                Event::Edit => return p(Action::EditField, Next::Keep),
                Event::InsertArg => return p(Action::InsertArg, Next::Keep),
                Event::Redo => return p(Action::Redo { write: false }, Next::Keep),
                Event::Undo => return p(Action::Undo { write: false }, Next::Keep),
                _ => {},
            },
        }
        let mut m = String::from_str("Unsupported transition requested: Event::");
        m.append(event_text(event));
        m.append(" on Launcher::");
        m.append(self.describe().as_str());
        Error::new(m)
    }

    /// The state that follows once the work of a plan succeeded.
    pub fn settle(&self, next: Next, outcome: Outcome) -> (r: Launcher)
        requires
            outcome_fits(*self, next, outcome),
        ensures
            r == settled(*self, next, outcome),
    {
        let (buffer, window) = match *self {
            Launcher::Select { buffer, window } => (buffer, window),
            Launcher::View { buffer, window, .. } => (buffer, window),
            Launcher::Edit { buffer, window, .. } => (buffer, window),
            Launcher::Closed => (0i32, 0i32),
        };
        let pick = |t: Target| -> (r: usize)
            requires t is Cursor ==> outcome.cursor_index is Some,
            ensures r == target_index(t, outcome.cursor_index)
        {
            match t {
                Target::Cursor => match outcome.cursor_index {
                    Some(i) => i,
                    None => 0,
                },
                Target::At(i) => i,
            }
        };
        match next {
            Next::Keep => *self,
            Next::Closed => Launcher::Closed,
            Next::Opened => match outcome.opened {
                Some((b, w)) => Launcher::Select { buffer: b, window: w },
                None => *self,
            },
            Next::Select => Launcher::Select { buffer, window },
            Next::View(t) => Launcher::View { buffer, window, index: pick(t) },
            Next::Edit { at, from_select } => Launcher::Edit { buffer, window, index: pick(at), from_select },
            Next::LeaveEdit => match *self {
                Launcher::Edit { index, from_select, .. } => {
                    if from_select || index == outcome.num_configs {
                        Launcher::Select { buffer, window }
                    } else {
                        Launcher::View { buffer, window, index }
                    }
                },
                _ => *self,
            },
        }
    }

    /// The buffer that the launcher shows, when it is open.
    pub fn buffer(&self) -> (r: Option<i32>)
        ensures
            r == match *self {
                Launcher::Closed => None,
                Launcher::Select { buffer, .. } => Some(buffer),
                Launcher::View { buffer, .. } => Some(buffer),
                Launcher::Edit { buffer, .. } => Some(buffer),
            },
    {
        match *self {
            Launcher::Closed => None,
            Launcher::Select { buffer, .. } => Some(buffer),
            Launcher::View { buffer, .. } => Some(buffer),
            Launcher::Edit { buffer, .. } => Some(buffer),
        }
    }
}

/// Handles the result of a launcher action: an error is reported and closes
/// the launcher, which is then in the closed state.
pub fn result_handler(result: Result<(), Error>, state: &mut Launcher) -> (r: Option<Failure>)
    ensures
        match result {
            Ok(()) => r is None && *final(state) == *old(state),
            Err(e) => r matches Some(f) && f.notice@ == notification_text(LogLevel::Error, error_text(e))
                && f.close_buffer == old(state).buffer_spec() && *final(state) == Launcher::Closed,
        },
{
    match result {
        Ok(()) => None,
        Err(e) => {
            let notice = _send(LogLevel::Error, e.message().as_str());
            let close_buffer = state.buffer();
            *state = Launcher::Closed;
            Some(Failure { notice, close_buffer })
        },
    }
}

impl Launcher {
    /// The buffer that the launcher shows, when it is open.
    pub open spec fn buffer_spec(self) -> Option<i32> {
        match self {
            Launcher::Closed => None,
            Launcher::Select { buffer, .. } => Some(buffer),
            Launcher::View { buffer, .. } => Some(buffer),
            Launcher::Edit { buffer, .. } => Some(buffer),
        }
    }
}

/*---------------------------------- LAWS ------------------------------------*/

/// `Close` closes an open launcher, whatever its mode, and does nothing to
/// a closed one.
pub proof fn lemma_close_closes(s: Launcher, n: nat, o: Outcome)
    ensures
        transition(s, Event::Close, n) == Some(if s is Closed {
            Plan { action: Action::Nothing, next: Next::Keep }
        } else {
            Plan { action: Action::Close, next: Next::Closed }
        }),
        settled(s, transition(s, Event::Close, n).unwrap().next, o) == Launcher::Closed,
{
}

/// `Open` opens a closed launcher in select mode and leaves an open one as
/// it is.
pub proof fn lemma_open_when_closed(s: Launcher, n: nat)
    ensures
        transition(s, Event::Open, n) == Some(if s is Closed {
            Plan { action: Action::Open, next: Next::Opened }
        } else {
            Plan { action: Action::Nothing, next: Next::Keep }
        }),
{
}

/// A closed launcher accepts no event but `Open` and `Close`.
pub proof fn lemma_closed_rejects(e: Event, n: nat)
    requires
        e != Event::Open,
        e != Event::Close,
    ensures
        transition(Launcher::Closed, e, n) is None,
{
}

/// Help is shown in every mode of an open launcher, and changes no state.
pub proof fn lemma_help_keeps_state(s: Launcher, n: nat)
    requires
        s !is Closed,
    ensures
        transition(s, Event::Help, n) == Some(Plan { action: Action::ShowHelp, next: Next::Keep }),
{
}

/// With no configurations, select mode answers the events that need one
/// with a warning, and stays as it is.
pub proof fn lemma_no_configs_warns(buffer: i32, window: i32, e: Event)
    requires
        e == Event::Copy || e == Event::Delete || e == Event::Edit || e == Event::Launch || e == Event::View,
    ensures
        transition(Launcher::Select { buffer, window }, e, 0) == Some(
            Plan { action: Action::WarnNoConfigs, next: Next::Keep },
        ),
{
}

/// Every change of mode of an open launcher keeps its buffer and window;
/// only opening sets them.
pub proof fn lemma_handles_kept(s: Launcher, e: Event, n: nat, o: Outcome)
    requires
        transition(s, e, n) matches Some(p) && p.next != Next::Closed && outcome_fits(s, p.next, o),
    ensures
        ({
            let r = settled(s, transition(s, e, n).unwrap().next, o);
            r.buffer_spec() == (if transition(s, e, n).unwrap().next is Opened {
                Some(o.opened.unwrap().0)
            } else {
                s.buffer_spec()
            })
        }),
{
}

/// Leaving edit mode, with or without saving, goes back to select mode when
/// editing started there or when the edited configuration no longer exists,
/// and to view mode on the same configuration otherwise.
pub proof fn lemma_leave_edit(buffer: i32, window: i32, index: usize, from_select: bool, e: Event, n: nat, o: Outcome)
    requires
        e == Event::Back || e == Event::Save,
    ensures
        ({
            let s = Launcher::Edit { buffer, window, index, from_select };
            let r = settled(s, transition(s, e, n).unwrap().next, o);
            &&& transition(s, e, n).unwrap().next == Next::LeaveEdit
            &&& (from_select || index == o.num_configs) ==> r == Launcher::Select { buffer, window }
            &&& !(from_select || index == o.num_configs) ==> r == Launcher::View { buffer, window, index }
        }),
{
}

/// Edit mode remembers where it was entered from: from select mode, or
/// from view mode.
pub proof fn lemma_edit_origin(s: Launcher, e: Event, n: nat, o: Outcome)
    requires
        transition(s, e, n) matches Some(p) && p.next is Edit && outcome_fits(s, p.next, o),
    ensures
        settled(s, transition(s, e, n).unwrap().next, o) matches Launcher::Edit { from_select, .. }
            && from_select == (s is Select),
{
}

/// Every plan of the launcher can be settled: the work only has to read the
/// entry under the cursor when the plan says so, and to report the window it
/// opened when it opens the launcher.
pub proof fn lemma_plans_settle(s: Launcher, e: Event, n: nat, o: Outcome)
    requires
        transition(s, e, n) matches Some(p) && (reads_cursor_spec(p) ==> o.cursor_index is Some) && (
        p.next is Opened ==> o.opened is Some),
    ensures
        outcome_fits(s, transition(s, e, n).unwrap().next, o),
{
}

/// Adding a configuration in select mode edits the configuration just
/// added: whatever the number `n` of configurations, the work appends one,
/// and once it is done, edit mode opens on the last of the `n + 1`
/// configurations, entered from select mode, in the same window.
pub proof fn lemma_add_edits_new_config(buffer: i32, window: i32, n: nat, o: Outcome)
    requires
        n < usize::MAX,
        o.num_configs == n + 1,
    ensures
        ({
            let s = Launcher::Select { buffer, window };
            let p = transition(s, Event::Add, n).unwrap();
            &&& transition(s, Event::Add, n) is Some
            &&& p.action == Action::AddConfig
            &&& outcome_fits(s, p.next, o)
            &&& settled(s, p.next, o) == Launcher::Edit {
                buffer,
                window,
                index: (o.num_configs - 1) as usize,
                from_select: true,
            }
        }),
{
}

/// Going back from view mode, and deleting the shown configuration, return
/// to select mode in the same window, whatever the configuration shown and
/// however many configurations there are.
pub proof fn lemma_view_back_to_select(buffer: i32, window: i32, index: usize, e: Event, n: nat, o: Outcome)
    requires
        e == Event::Back || e == Event::Delete,
    ensures
        ({
            let s = Launcher::View { buffer, window, index };
            let p = transition(s, e, n).unwrap();
            &&& transition(s, e, n) is Some
            &&& outcome_fits(s, p.next, o)
            &&& settled(s, p.next, o) == Launcher::Select { buffer, window }
        }),
{
}

/// Settling on select mode keeps the window of any open launcher and shows
/// the list of configurations in it.
pub proof fn lemma_settle_select(s: Launcher, o: Outcome)
    requires
        s !is Closed,
    ensures
        settled(s, Next::Select, o) is Select,
        settled(s, Next::Select, o).buffer_spec() == s.buffer_spec(),
        settled(s, Next::Select, o) == (match s {
            Launcher::Select { buffer, window } => Launcher::Select { buffer, window },
            Launcher::View { buffer, window, .. } => Launcher::Select { buffer, window },
            Launcher::Edit { buffer, window, .. } => Launcher::Select { buffer, window },
            Launcher::Closed => Launcher::Closed,
        }),
{
}

} // verus!
