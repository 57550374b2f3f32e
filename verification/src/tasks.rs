//! The tasks that have been launched, and the windows that show them.

use crate::config::{get_checked, out_of_bounds_text};
use crate::contents::task_lines;
use crate::display::{display_from_name_spec, TaskDisplay};
use crate::error::Error;
use crate::task_config::TaskConfig;
use crate::text::{decimal, views};
use vstd::prelude::*;

verus! {

/*-------------------------------- START TIME --------------------------------*/

/// A number below 100 in two digits, with a leading zero below 10.
pub open spec fn two_digits(n: nat) -> Seq<char> {
    if n < 10 {
        seq!['0'] + decimal(n)
    } else {
        decimal(n)
    }
}

/// A time of day as `HH:MM:SS`.
pub open spec fn clock_text(hour: nat, minute: nat, second: nat) -> Seq<char> {
    two_digits(hour) + seq![':'] + two_digits(minute) + seq![':'] + two_digits(second)
}

/// Formats a time of day with `chrono`: `NaiveTime::from_hms_opt` builds the
/// time, and its `format("%T")` writes it.
///
/// Trusted: chrono documents that `from_hms_opt` gives `None` exactly for an
/// hour of 24 or more, or a minute or second of 60 or more, and that `%T` is
/// `%H:%M:%S`, each a number zero-padded to two digits.
#[verifier::external_body]
fn format_clock(hour: u32, minute: u32, second: u32) -> (r: Option<String>)
    ensures
        (hour < 24 && minute < 60 && second < 60) <==> r is Some,
        r matches Some(s) ==> s@ == clock_text(hour as nat, minute as nat, second as nat),
{
    ::chrono::NaiveTime::from_hms_opt(hour, minute, second).map(|t| t.format("%T").to_string())
}

/// The title of a task launched at the given time of day: its name, then
/// the time as `HH:MM:SS` in parentheses.
pub open spec fn title_text(name: Seq<char>, hour: nat, minute: nat, second: nat) -> Seq<char> {
    name + " ("@ + clock_text(hour, minute, second) + ")"@
}

/*-------------------------------- ACTIVE TASK -------------------------------*/

/// A task that has been launched: its title, the buffer of its terminal
/// and its configuration.
pub struct ActiveTask {
    title: String,
    hour: u32,
    minute: u32,
    second: u32,
    buffer: i32,
    config: TaskConfig,
}

impl ActiveTask {
    /// A task's title is its configuration's name and its start time.
    #[verifier::type_invariant]
    spec fn inv(&self) -> bool {
        &&& self.hour < 24
        &&& self.minute < 60
        &&& self.second < 60
        &&& self.title@ == title_text(self.config@.name, self.hour as nat, self.minute as nat, self.second as nat)
    }

    /// The time of day at which the task was launched: hour, minute, second.
    pub closed spec fn start_spec(&self) -> (nat, nat, nat) {
        (self.hour as nat, self.minute as nat, self.second as nat)
    }

    /// The title that a task launched at its start time with its
    /// configuration has.
    pub open spec fn expected_title(&self) -> Seq<char> {
        title_text(self.config_spec().name, self.start_spec().0, self.start_spec().1, self.start_spec().2)
    }

    /// The title of the task.
    pub closed spec fn title_spec(&self) -> Seq<char> {
        self.title@
    }

    /// The buffer of the task's terminal.
    pub closed spec fn buffer_spec(&self) -> i32 {
        self.buffer
    }

    /// The configuration of the task.
    pub closed spec fn config_spec(&self) -> crate::task_config::ResolvedModel {
        self.config@
    }

    /// A task launched at the given time of day in the given buffer.
    pub fn new(buffer: i32, config: TaskConfig, hour: u32, minute: u32, second: u32) -> (r: ActiveTask)
        requires
            hour < 24,
            minute < 60,
            second < 60,
        ensures
            r.title_spec() == title_text(config@.name, hour as nat, minute as nat, second as nat),
            r.start_spec() == (hour as nat, minute as nat, second as nat),
            r.buffer_spec() == buffer,
            r.config_spec() == config@,
    {
        let mut title = config.name().clone();
        title.append(" (");
        match format_clock(hour, minute, second) {
            Some(t) => title.append(t.as_str()),
            None => {},
        }
        title.append(")");
        ActiveTask { title, hour, minute, second, buffer, config }
    }

    /// The title of the task.
    pub fn title(&self) -> (r: &String)
        ensures
            r@ == self.title_spec(),
            r@ == self.expected_title(),
    {
        proof {
            use_type_invariant(self);
        }
        &self.title
    }

    /// The time of day at which the task was launched: hour, minute, second.
    pub fn start(&self) -> (r: (u32, u32, u32))
        ensures
            (r.0 as nat, r.1 as nat, r.2 as nat) == self.start_spec(),
            r.0 < 24 && r.1 < 60 && r.2 < 60,
    {
        proof {
            use_type_invariant(self);
        }
        (self.hour, self.minute, self.second)
    }

    /// The buffer of the task's terminal.
    pub fn buffer(&self) -> (r: i32)
        ensures
            r == self.buffer_spec(),
    {
        self.buffer
    }

    /// The configuration of the task.
    pub fn config(&self) -> (r: &TaskConfig)
        ensures
            r@ == self.config_spec(),
    {
        &self.config
    }

    /// The name that the task's terminal buffer takes: the plugin's tag,
    /// then the task's title.
    pub fn buffer_name(&self) -> (r: String)
        ensures
            r@ == "[launch.nvim] "@ + self.title_spec(),
    {
        let mut r = String::from_str("[launch.nvim] ");
        r.append(self.title.as_str());
        r
    }
}

/*---------------------------------- WINDOWS ---------------------------------*/

/// The window that shows tasks of each display mode, if one is open.
pub struct TaskWindows {
    pub float: Option<i32>,
    pub vsplit: Option<i32>,
    pub hsplit: Option<i32>,
}

/// The window of a display mode.
pub open spec fn window_of(w: TaskWindows, d: TaskDisplay) -> Option<i32> {
    match d {
        TaskDisplay::Float => w.float,
        TaskDisplay::VSplit => w.vsplit,
        TaskDisplay::HSplit => w.hsplit,
    }
}

impl TaskWindows {
    /// No window open.
    pub fn new() -> (r: TaskWindows)
        ensures
            forall|d: TaskDisplay| window_of(r, d) is None,
    {
        TaskWindows { float: None, vsplit: None, hsplit: None }
    }

    /// The window of a display mode, if one is open.
    pub fn get(&self, d: TaskDisplay) -> (r: Option<i32>)
        ensures
            r == window_of(*self, d),
    {
        match d {
            TaskDisplay::Float => self.float,
            TaskDisplay::VSplit => self.vsplit,
            TaskDisplay::HSplit => self.hsplit,
        }
    }

    /// Records the window of a display mode.
    pub fn set(&mut self, d: TaskDisplay, w: Option<i32>)
        ensures
            window_of(*final(self), d) == w,
            forall|e: TaskDisplay| e != d ==> window_of(*final(self), e) == window_of(*old(self), e),
    {
        match d {
            TaskDisplay::Float => self.float = w,
            TaskDisplay::VSplit => self.vsplit = w,
            TaskDisplay::HSplit => self.hsplit = w,
        }
    }
}

/*--------------------------------- TASK LIST --------------------------------*/

/// The active tasks and their windows.
pub struct TaskList {
    pub active: Vec<ActiveTask>,
    pub windows: TaskWindows,
}

/// The titles of a list of tasks.
pub open spec fn titles(v: Seq<ActiveTask>) -> Seq<Seq<char>> {
    v.map_values(|t: ActiveTask| t.title_spec())
}

/// The buffers of a list of tasks.
pub open spec fn buffers(v: Seq<ActiveTask>) -> Seq<i32> {
    v.map_values(|t: ActiveTask| t.buffer_spec())
}

/// The position of the first task shown in `buffer`, or the length of the
/// list when there is none.
pub open spec fn find_buffer(v: Seq<i32>, buffer: i32) -> nat
    decreases v.len(),
{
    if v.len() == 0 {
        0
    } else if v[0] == buffer {
        0
    } else {
        1 + find_buffer(v.drop_first(), buffer)
    }
}

impl TaskList {
    /// No task, no window.
    pub fn new() -> (r: TaskList)
        ensures
            r.active@.len() == 0,
            forall|d: TaskDisplay| window_of(r.windows, d) is None,
    {
        TaskList { active: Vec::new(), windows: TaskWindows::new() }
    }

    /// Whether no task is active.
    pub fn is_list_empty(&self) -> (r: bool)
        ensures
            r == (self.active@.len() == 0),
    {
        self.active.len() == 0
    }

    /// The lines that list the active tasks.
    pub fn get_lines_for_ui(&self) -> (r: Vec<String>)
        ensures
            views(r@) == task_lines(titles(self.active@)),
            self.active@.len() > 0 ==> forall|i: int|
                0 <= i < self.active@.len() ==> #[trigger] views(r@)[i] == self.active@[i].expected_title(),
    {
        let mut lines: Vec<String> = Vec::new();
        if self.active.len() == 0 {
            lines.push(String::from_str("-- No active tasks --"));
            assert(views(lines@) =~= task_lines(titles(self.active@)));
            return lines;
        }
        let mut i: usize = 0;
        while i < self.active.len()
            invariant
                i <= self.active.len(),
                views(lines@) =~= titles(self.active@).take(i as int),
                forall|j: int| 0 <= j < i ==> #[trigger] views(lines@)[j] == self.active@[j].expected_title(),
            decreases self.active.len() - i,
        {
            let t = self.active[i].title().clone();
            lines.push(t);
            assert(titles(self.active@).take(i + 1) =~= titles(self.active@).take(i as int).push(t@));
            i = i + 1;
        }
        assert(titles(self.active@).take(self.active.len() as int) =~= titles(self.active@));
        lines
    }

    /// Adds a launched task at the end of the list, and gives its index.
    pub fn push(&mut self, task: ActiveTask) -> (r: usize)
        requires
            old(self).active@.len() < usize::MAX,
        ensures
            final(self).active@ == old(self).active@.push(task),
            final(self).windows == old(self).windows,
            r == old(self).active@.len(),
    {
        self.active.push(task);
        self.active.len() - 1
    }

    /// The task at `index`, or an internal error when there is none.
    pub fn task(&self, index: usize) -> (r: Result<&ActiveTask, Error>)
        ensures
            index < self.active@.len() ==> r == Ok::<&ActiveTask, Error>(&self.active@[index as int]),
            index >= self.active@.len() ==> (r matches Err(Error::Internal(m)) && m@ == out_of_bounds_text()),
    {
        get_checked(&self.active, index)
    }

    /// Forgets the task whose terminal buffer was wiped out: the first task
    /// shown in `buffer`, if any.
    pub fn on_bufwipeout(&mut self, buffer: i32)
        ensures
            ({
                let i = find_buffer(buffers(old(self).active@), buffer);
                final(self).active@ == if i < old(self).active@.len() {
                    old(self).active@.remove(i as int)
                } else {
                    old(self).active@
                }
            }),
            final(self).windows == old(self).windows,
    {
        let mut i: usize = 0;
        let ghost b = buffers(self.active@);
        assert(b.skip(0) =~= b);
        while i < self.active.len()
            invariant
                i <= self.active.len(),
                b == buffers(self.active@),
                self.active@ == old(self).active@,
                self.windows == old(self).windows,
                find_buffer(b, buffer) == i + find_buffer(b.skip(i as int), buffer),
            decreases self.active.len() - i,
        {
            if self.active[i].buffer() == buffer {
                self.active.remove(i);
                return;
            }
            assert(b.skip(i as int).drop_first() =~= b.skip(i + 1));
            i = i + 1;
        }
        assert(b.skip(i as int) =~= Seq::<i32>::empty());
    }

    /// Forgets the window of the display mode named `display` (an unknown
    /// name stands for `float`), which was closed.
    pub fn on_winclosed(&mut self, display: &str)
        ensures
            ({
                let d = match display_from_name_spec(display@) {
                    Some(d) => d,
                    None => TaskDisplay::Float,
                };
                &&& window_of(final(self).windows, d) is None
                &&& forall|e: TaskDisplay| e != d ==> window_of(final(self).windows, e) == window_of(old(self).windows, e)
            }),
            final(self).active@ == old(self).active@,
    {
        let d = TaskDisplay::from(display);
        self.windows.set(d, None);
    }

    /// Forgets every task and window when the working directory changes,
    /// and gives the buffers of the tasks, to be deleted.
    pub fn on_dirchanged(&mut self) -> (r: Vec<i32>)
        ensures
            r@ == buffers(old(self).active@),
            final(self).active@.len() == 0,
            forall|d: TaskDisplay| window_of(final(self).windows, d) is None,
    {
        let mut out: Vec<i32> = Vec::new();
        let mut i: usize = 0;
        while i < self.active.len()
            invariant
                i <= self.active.len(),
                self.active@ == old(self).active@,
                out@ =~= buffers(self.active@).take(i as int),
            decreases self.active.len() - i,
        {
            out.push(self.active[i].buffer());
            i = i + 1;
        }
        assert(buffers(self.active@).take(self.active.len() as int) =~= buffers(self.active@));
        self.active = Vec::new();
        self.windows = TaskWindows::new();
        out
    }

    /// The window that already shows tasks of the display mode of the task
    /// at `index`, if any; an internal error when there is no such task.
    pub fn window_for(&self, index: usize) -> (r: Result<Option<i32>, Error>)
        ensures
            index < self.active@.len() ==> r == Ok::<Option<i32>, Error>(
                window_of(self.windows, self.active@[index as int].config_spec().disp),
            ),
            index >= self.active@.len() ==> (r matches Err(Error::Internal(m)) && m@ == out_of_bounds_text()),
    {
        match self.task(index) {
            Ok(t) => Ok(self.windows.get(*t.config().disp())),
            Err(e) => Err(e),
        }
    }
}

/*------------------------------ ACTIVE TASKS VIEWER -----------------------------*/

/// The warning of the active-tasks viewer when no task is active.
pub open spec fn no_tasks_text() -> Seq<char> {
    "No active tasks found."@
}

/// What a key of the active-tasks viewer leads to.
pub enum ViewerAction {
    /// Warn that no task is active, and leave the viewer open.
    Warn(String),
    /// Close the viewer and show the task at `index`; launch its command
    /// again when `launch` is set.
    Show { index: usize, launch: bool },
}

/// The action of a key of the viewer with the cursor on line `cursor_row`:
/// a warning when no task is active, else the task under the cursor.
fn pick_task(tasks: &TaskList, cursor_row: usize, launch: bool) -> (r: ViewerAction)
    requires
        tasks.active@.len() > 0 ==> cursor_row >= crate::launcher::NAVIGATION_OFFSET,
    ensures
        tasks.active@.len() == 0 ==> (r matches ViewerAction::Warn(m) && m@ == no_tasks_text()),
        tasks.active@.len() > 0 ==> r == (ViewerAction::Show {
            index: (cursor_row - crate::launcher::NAVIGATION_OFFSET) as usize,
            launch,
        }),
{
    if tasks.is_list_empty() {
        ViewerAction::Warn(String::from_str("No active tasks found."))
    } else {
        ViewerAction::Show { index: crate::launcher::index_from_cursor(cursor_row), launch }
    }
}

/// The viewer's relaunch key: the task under the cursor is shown and its
/// command launched again; a warning when no task is active.
pub fn relaunch(tasks: &TaskList, cursor_row: usize) -> (r: ViewerAction)
    requires
        tasks.active@.len() > 0 ==> cursor_row >= crate::launcher::NAVIGATION_OFFSET,
    ensures
        tasks.active@.len() == 0 ==> (r matches ViewerAction::Warn(m) && m@ == no_tasks_text()),
        tasks.active@.len() > 0 ==> r == (ViewerAction::Show {
            index: (cursor_row - crate::launcher::NAVIGATION_OFFSET) as usize,
            launch: true,
        }),
{
    pick_task(tasks, cursor_row, true)
}

/// The viewer's view key: the task under the cursor is shown; a warning
/// when no task is active.
pub fn view(tasks: &TaskList, cursor_row: usize) -> (r: ViewerAction)
    requires
        tasks.active@.len() > 0 ==> cursor_row >= crate::launcher::NAVIGATION_OFFSET,
    ensures
        tasks.active@.len() == 0 ==> (r matches ViewerAction::Warn(m) && m@ == no_tasks_text()),
        tasks.active@.len() > 0 ==> r == (ViewerAction::Show {
            index: (cursor_row - crate::launcher::NAVIGATION_OFFSET) as usize,
            launch: false,
        }),
{
    pick_task(tasks, cursor_row, false)
}

/*-------------------------------- WINDOW SIZE -------------------------------*/

/// The size of a new task window: for a float, its width and height in
/// columns and lines; for a vertical split its width; for a horizontal split
/// its height.
pub enum WindowSize {
    Float { width: u32, height: u32 },
    VSplit { width: u32 },
    HSplit { height: u32 },
}

/// `percent` percent of `total`, rounded down.
pub open spec fn share(total: nat, percent: nat) -> nat {
    total * percent / 100
}

/// The size of a new window for a display mode, on a screen of the given
/// size, with the given shares of the screen in percent.
pub open spec fn window_size_spec(display: TaskDisplay, screen_width: u32, screen_height: u32, float_percent: u32, vsplit_percent: u32, hsplit_percent: u32) -> WindowSize {
    match display {
        TaskDisplay::Float => WindowSize::Float {
            width: share(screen_width as nat, float_percent as nat) as u32,
            height: share(screen_height as nat, float_percent as nat) as u32,
        },
        TaskDisplay::VSplit => WindowSize::VSplit { width: share(screen_width as nat, vsplit_percent as nat) as u32 },
        TaskDisplay::HSplit => WindowSize::HSplit { height: share(screen_height as nat, hsplit_percent as nat) as u32 },
    }
}

/// Whether the window sizes for a display mode can be computed without
/// overflow.
pub open spec fn size_fits(display: TaskDisplay, screen_width: u32, screen_height: u32, float_percent: u32, vsplit_percent: u32, hsplit_percent: u32) -> bool {
    &&& display == TaskDisplay::Float ==> screen_width * float_percent <= u32::MAX && screen_height * float_percent <= u32::MAX
    &&& display == TaskDisplay::VSplit ==> screen_width * vsplit_percent <= u32::MAX
    &&& display == TaskDisplay::HSplit ==> screen_height * hsplit_percent <= u32::MAX
}

/// The size of a new window for a display mode, on a screen of the given
/// size: a float takes `float_percent` of the screen each way, a vertical
/// split `vsplit_percent` of its width, a horizontal split `hsplit_percent`
/// of its height.
pub fn window_size(
    display: TaskDisplay,
    screen_width: u32,
    screen_height: u32,
    float_percent: u32,
    vsplit_percent: u32,
    hsplit_percent: u32,
) -> (r: WindowSize)
    requires
        display == TaskDisplay::Float ==> screen_width * float_percent <= u32::MAX && screen_height * float_percent <= u32::MAX,
        display == TaskDisplay::VSplit ==> screen_width * vsplit_percent <= u32::MAX,
        display == TaskDisplay::HSplit ==> screen_height * hsplit_percent <= u32::MAX,
    ensures
        match display {
            TaskDisplay::Float => r matches WindowSize::Float { width, height }
                && width == share(screen_width as nat, float_percent as nat)
                && height == share(screen_height as nat, float_percent as nat),
            TaskDisplay::VSplit => r matches WindowSize::VSplit { width }
                && width == share(screen_width as nat, vsplit_percent as nat),
            TaskDisplay::HSplit => r matches WindowSize::HSplit { height }
                && height == share(screen_height as nat, hsplit_percent as nat),
        },
        r == window_size_spec(display, screen_width, screen_height, float_percent, vsplit_percent, hsplit_percent),
{
    match display {
        TaskDisplay::Float => WindowSize::Float {
            width: screen_width * float_percent / 100,
            height: screen_height * float_percent / 100,
        },
        TaskDisplay::VSplit => WindowSize::VSplit { width: screen_width * vsplit_percent / 100 },
        TaskDisplay::HSplit => WindowSize::HSplit { height: screen_height * hsplit_percent / 100 },
    }
}

/*-------------------------------- RENDERING --------------------------------*/

/// How a task is shown.
pub enum RenderStep {
    /// Switch to `window`, which already shows tasks of the task's display
    /// mode, and show the task's `buffer` in it.
    Switch { window: i32, buffer: i32 },
    /// Open a new window of `size` for the task's `buffer` (a float is
    /// titled `title`), then record it as the window of `display`.
    Open { display: TaskDisplay, size: WindowSize, title: String, buffer: i32 },
}

impl TaskList {
    /// How the task at `index` is shown on a screen of the given size with
    /// the given shares of the screen: in the window already open for its
    /// display mode, else in a new window; an internal error when there is
    /// no such task.
    pub fn render_step(
        &self,
        index: usize,
        screen_width: u32,
        screen_height: u32,
        float_percent: u32,
        vsplit_percent: u32,
        hsplit_percent: u32,
    ) -> (r: Result<RenderStep, Error>)
        requires
            index < self.active@.len() ==> size_fits(
                self.active@[index as int].config_spec().disp,
                screen_width,
                screen_height,
                float_percent,
                vsplit_percent,
                hsplit_percent,
            ),
        ensures
            index >= self.active@.len() ==> (r matches Err(Error::Internal(m)) && m@ == out_of_bounds_text()),
            index < self.active@.len() ==> ({
                let t = self.active@[index as int];
                let d = t.config_spec().disp;
                match window_of(self.windows, d) {
                    Some(w) => r matches Ok(RenderStep::Switch { window, buffer }) && window == w
                        && buffer == t.buffer_spec(),
                    None => r matches Ok(RenderStep::Open { display, size, title, buffer }) && display == d
                        && size == window_size_spec(d, screen_width, screen_height, float_percent, vsplit_percent, hsplit_percent)
                        && title@ == t.title_spec() && buffer == t.buffer_spec(),
                }
            }),
    {
        let t = match self.task(index) {
            Ok(t) => t,
            Err(e) => return Err(e),
        };
        let d = *t.config().disp();
        match self.windows.get(d) {
            Some(w) => Ok(RenderStep::Switch { window: w, buffer: t.buffer() }),
            None => {
                let size = window_size(d, screen_width, screen_height, float_percent, vsplit_percent, hsplit_percent);
                Ok(RenderStep::Open { display: d, size, title: t.title().clone(), buffer: t.buffer() })
            },
        }
    }

    /// Records `window` as the window that shows tasks of `display`.
    pub fn record_window(&mut self, display: TaskDisplay, window: i32)
        ensures
            window_of(final(self).windows, display) == Some(window),
            forall|e: TaskDisplay| e != display ==> window_of(final(self).windows, e) == window_of(old(self).windows, e),
            final(self).active@ == old(self).active@,
    {
        self.windows.set(display, Some(window));
    }
}

} // verus!
