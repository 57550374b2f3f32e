use launch_nvim::contents::{
    window_layout, edit_contents, help_entry, padded_lines, select_contents, view_contents, with_header,
};
use launch_nvim::display::TaskDisplay;
use launch_nvim::env::EnvVars;
use launch_nvim::error::Error;
use launch_nvim::float::{config_builder, content_width, get_centered_position, get_popup_pos, Border, FloatConfig, Style};
use launch_nvim::launcher::{
    entry, index_from_cursor, no_configs_warning, result_handler, undo_redo_steps, select_cursor_line, Action, Entry, Event, Launcher,
    Next, Outcome, Plan, Target,
};
use launch_nvim::task_config::TaskConfigJson;

fn strings(v: &[&str]) -> Vec<String> {
    v.iter().map(|s| s.to_string()).collect()
}

fn sample() -> TaskConfigJson {
    let mut env = EnvVars::new();
    env.insert("CC".to_string(), "gcc".to_string());
    TaskConfigJson::new(
        "build".to_string(),
        "make".to_string(),
        strings(&["-j", "4"]),
        Some(TaskDisplay::VSplit),
        None,
        env,
    )
}

const ALL_EVENTS: [Event; 14] = [
    Event::Add,
    Event::Back,
    Event::Close,
    Event::Copy,
    Event::Delete,
    Event::Edit,
    Event::Help,
    Event::InsertArg,
    Event::Launch,
    Event::Open,
    Event::Redo,
    Event::Save,
    Event::Undo,
    Event::View,
];

fn plan(action: Action, next: Next) -> Result<Plan, Error> {
    Ok(Plan { action, next })
}

fn outcome(cursor_index: Option<usize>, opened: Option<(i32, i32)>, num_configs: usize) -> Outcome {
    Outcome { cursor_index, opened, num_configs }
}

const SELECT: Launcher = Launcher::Select { buffer: 3, window: 1000 };
const VIEW: Launcher = Launcher::View { buffer: 3, window: 1000, index: 1 };
const EDIT: Launcher = Launcher::Edit { buffer: 3, window: 1000, index: 2, from_select: false };

#[test]
fn open_and_close() {
    assert_eq!(Launcher::default(), Launcher::Closed);
    assert_eq!(Launcher::Closed.on(Event::Open, 0), plan(Action::Open, Next::Opened));
    assert_eq!(Launcher::Closed.on(Event::Close, 0), plan(Action::Nothing, Next::Keep));
    for s in [SELECT, VIEW, EDIT] {
        assert_eq!(s.on(Event::Open, 4), plan(Action::Nothing, Next::Keep));
        assert_eq!(s.on(Event::Close, 4), plan(Action::Close, Next::Closed));
        assert_eq!(s.settle(Next::Closed, outcome(None, None, 4)), Launcher::Closed);
    }
    let opened = Launcher::Closed.settle(Next::Opened, outcome(None, Some((7, 1001)), 0));
    assert_eq!(opened, Launcher::Select { buffer: 7, window: 1001 });
}

#[test]
fn closed_launcher_rejects_other_events() {
    for e in ALL_EVENTS {
        if e != Event::Open && e != Event::Close {
            assert!(matches!(Launcher::Closed.on(e, 2), Err(Error::Internal(_))));
        }
    }
    assert_eq!(
        Launcher::Closed.on(Event::Help, 0),
        Err(Error::Internal("Unsupported transition requested: Event::Help on Launcher::Closed".to_string()))
    );
}

#[test]
fn unsupported_transition_message() {
    assert_eq!(
        EDIT.on(Event::Copy, 5),
        Err(Error::Internal(
            "Unsupported transition requested: Event::Copy on Launcher::Edit(Edit { buffer: Buffer(3), window: Window(1000), index: 2, from_select: false })"
                .to_string()
        ))
    );
    assert_eq!(
        VIEW.on(Event::Redo, 5),
        Err(Error::Internal(
            "Unsupported transition requested: Event::Redo on Launcher::View(View { buffer: Buffer(3), window: Window(1000), index: 1 })"
                .to_string()
        ))
    );
    assert_eq!(
        SELECT.on(Event::Save, 5),
        Err(Error::Internal(
            "Unsupported transition requested: Event::Save on Launcher::Select(Select { buffer: Buffer(3), window: Window(1000) })"
                .to_string()
        ))
    );
    assert_eq!(
        Launcher::Select { buffer: -1, window: 0 }.describe(),
        "Select(Select { buffer: Buffer(-1), window: Window(0) })"
    );
}

#[test]
fn help_in_every_open_mode() {
    for s in [SELECT, VIEW, EDIT] {
        assert_eq!(s.on(Event::Help, 0), plan(Action::ShowHelp, Next::Keep));
    }
}

#[test]
fn select_mode_without_configs_warns() {
    for e in [Event::Copy, Event::Delete, Event::Edit, Event::Launch, Event::View] {
        assert_eq!(SELECT.on(e, 0), plan(Action::WarnNoConfigs, Next::Keep));
    }
    assert_eq!(
        SELECT.on(Event::Add, 0),
        plan(Action::AddConfig, Next::Edit { at: Target::At(0), from_select: true })
    );
    assert_eq!(SELECT.on(Event::Redo, 0), plan(Action::Redo { write: true }, Next::Keep));
}

#[test]
fn select_mode_events() {
    assert_eq!(
        SELECT.on(Event::Copy, 4),
        plan(Action::CopyConfig(Target::Cursor), Next::Edit { at: Target::At(4), from_select: true })
    );
    assert_eq!(SELECT.on(Event::Delete, 4), plan(Action::DeleteConfig(Target::Cursor), Next::Select));
    assert_eq!(
        SELECT.on(Event::Edit, 4),
        plan(Action::Nothing, Next::Edit { at: Target::Cursor, from_select: true })
    );
    assert_eq!(SELECT.on(Event::Launch, 4), plan(Action::Launch(Target::Cursor), Next::Closed));
    assert_eq!(SELECT.on(Event::Undo, 4), plan(Action::Undo { write: true }, Next::Keep));
    assert_eq!(SELECT.on(Event::View, 4), plan(Action::Nothing, Next::View(Target::Cursor)));
    let viewed = SELECT.settle(Next::View(Target::Cursor), outcome(Some(2), None, 4));
    assert_eq!(viewed, Launcher::View { buffer: 3, window: 1000, index: 2 });
    let edited = SELECT.settle(Next::Edit { at: Target::At(4), from_select: true }, outcome(None, None, 5));
    assert_eq!(edited, Launcher::Edit { buffer: 3, window: 1000, index: 4, from_select: true });
}

#[test]
fn view_mode_events() {
    assert_eq!(VIEW.on(Event::Back, 4), plan(Action::Nothing, Next::Select));
    assert_eq!(
        VIEW.on(Event::Copy, 4),
        plan(Action::CopyConfig(Target::At(1)), Next::Edit { at: Target::At(4), from_select: false })
    );
    assert_eq!(VIEW.on(Event::Delete, 4), plan(Action::DeleteConfig(Target::At(1)), Next::Select));
    assert_eq!(
        VIEW.on(Event::Edit, 4),
        plan(Action::Nothing, Next::Edit { at: Target::At(1), from_select: false })
    );
    assert_eq!(VIEW.on(Event::Launch, 4), plan(Action::Launch(Target::At(1)), Next::Closed));
    assert_eq!(
        VIEW.settle(Next::Edit { at: Target::At(1), from_select: false }, outcome(None, None, 4)),
        Launcher::Edit { buffer: 3, window: 1000, index: 1, from_select: false }
    );
}

#[test]
fn edit_mode_events() {
    assert_eq!(EDIT.on(Event::Back, 4), plan(Action::Reload, Next::LeaveEdit));
    assert_eq!(EDIT.on(Event::Save, 4), plan(Action::Save, Next::LeaveEdit));
    assert_eq!(EDIT.on(Event::Delete, 4), plan(Action::DeleteField, Next::Keep));
    assert_eq!(EDIT.on(Event::Edit, 4), plan(Action::EditField, Next::Keep));
    assert_eq!(EDIT.on(Event::InsertArg, 4), plan(Action::InsertArg, Next::Keep));
    assert_eq!(EDIT.on(Event::Redo, 4), plan(Action::Redo { write: false }, Next::Keep));
    assert_eq!(EDIT.on(Event::Undo, 4), plan(Action::Undo { write: false }, Next::Keep));
    assert_eq!(EDIT.settle(Next::Keep, outcome(None, None, 4)), EDIT);
}

#[test]
fn leaving_edit_mode() {
    assert_eq!(
        EDIT.settle(Next::LeaveEdit, outcome(None, None, 4)),
        Launcher::View { buffer: 3, window: 1000, index: 2 }
    );
    assert_eq!(
        EDIT.settle(Next::LeaveEdit, outcome(None, None, 2)),
        Launcher::Select { buffer: 3, window: 1000 }
    );
    let from_select = Launcher::Edit { buffer: 3, window: 1000, index: 0, from_select: true };
    assert_eq!(
        from_select.settle(Next::LeaveEdit, outcome(None, None, 4)),
        Launcher::Select { buffer: 3, window: 1000 }
    );
    assert_eq!(select_cursor_line(2, 4), 5);
    assert_eq!(select_cursor_line(4, 4), 3);
    assert_eq!(index_from_cursor(3), 0);
    assert_eq!(index_from_cursor(7), 4);
}

#[test]
fn failed_action_closes_launcher() {
    let mut state = VIEW;
    let f = result_handler(Err(Error::Internal("boom".to_string())), &mut state).unwrap();
    assert_eq!(f.notice, "[launch.nvim] ERROR: (internal): boom");
    assert_eq!(f.close_buffer, Some(3));
    assert_eq!(state, Launcher::Closed);

    let mut closed = Launcher::Closed;
    let g = result_handler(Err(Error::Nvim("E5108".to_string())), &mut closed).unwrap();
    assert_eq!(g.notice, "[launch.nvim] ERROR: (nvim_oxi): E5108");
    assert_eq!(g.close_buffer, None);

    let mut kept = EDIT;
    assert!(result_handler(Ok(()), &mut kept).is_none());
    assert_eq!(kept, EDIT);
}

#[test]
fn edit_mode_lines() {
    let c = sample();
    assert_eq!(
        edit_contents(&c),
        strings(&[
            "NAME : build",
            "CMD  : make",
            "ARGS :",
            "  1: -j",
            "  2: 4",
            "  + New Arg...",
            "DISP : vsplit",
            "CWD  : ---",
            "ENV  :",
            "  CC=gcc",
            "  + New Var=...",
        ])
    );
    let d = TaskConfigJson::default();
    assert_eq!(
        edit_contents(&d),
        strings(&[
            "NAME : New Config",
            "CMD  : echo 'hello'",
            "ARGS :",
            "  + New Arg...",
            "DISP : ---",
            "CWD  : ---",
            "ENV  :",
            "  + New Var=...",
        ])
    );
}

#[test]
fn argument_numbers_align_from_ten_arguments() {
    let args: Vec<String> = (1..=10).map(|i| format!("a{i}")).collect();
    let c = TaskConfigJson::new("n".to_string(), "c".to_string(), args, None, Some("/w".to_string()), EnvVars::new());
    let lines = edit_contents(&c);
    assert_eq!(lines[3], "   1: a1");
    assert_eq!(lines[12], "  10: a10");
    assert_eq!(lines[15], "CWD  : /w");
}

#[test]
fn view_and_select_mode_lines() {
    let c = sample();
    assert_eq!(
        view_contents(&c),
        strings(&["", "NAME : build", "CMD  : make", "ARGS :", "  1: -j", "  2: 4", "DISP : vsplit", "ENV  :", "  CC=gcc"])
    );
    assert_eq!(view_contents(&TaskConfigJson::default()), strings(&["", "NAME : New Config", "CMD  : echo 'hello'"]));
    assert_eq!(select_contents(&Vec::new()), strings(&["-- No active configs --"]));
    assert_eq!(select_contents(&vec![c, TaskConfigJson::default()]), strings(&["build", "New Config"]));
}

#[test]
fn window_lines_and_help() {
    assert_eq!(with_header(strings(&["x"])), strings(&["h : open help", "", "x"]));
    assert_eq!(padded_lines(&strings(&["a", ""])), strings(&["    a    ", "        "]));
    assert_eq!(help_entry("q", "Close launcher"), " q   : Close launcher");
    assert_eq!(help_entry("<CR>", "Launch config"), "<CR> : Launch config");
    assert_eq!(help_entry("U", "Redo action"), format!("{:^4} : {}", "U", "Redo action"));
}

#[test]
fn float_geometry() {
    assert_eq!(get_centered_position(40, 10, 200, 50), (18, 78));
    assert_eq!(get_popup_pos(5, 10, 40, Some(3)), (7, 52));
    assert_eq!(get_popup_pos(5, 10, 40, None), (5, 52));
    assert_eq!(content_width(&strings(&["ab", "abcd", ""])), 12);
    assert_eq!(content_width(&strings(&["é"])), 10);
    assert_eq!(
        config_builder(1, 2, 3, 4),
        FloatConfig { row: 1, col: 2, width: 3, height: 4, border: Border::Rounded, style: Style::Minimal, zindex: 49 }
    );
}

#[test]
fn plans_that_read_the_cursor() {
    assert!(SELECT.on(Event::Copy, 3).unwrap().reads_cursor());
    assert!(SELECT.on(Event::Delete, 3).unwrap().reads_cursor());
    assert!(SELECT.on(Event::Edit, 3).unwrap().reads_cursor());
    assert!(SELECT.on(Event::Launch, 3).unwrap().reads_cursor());
    assert!(SELECT.on(Event::View, 3).unwrap().reads_cursor());
    assert!(!SELECT.on(Event::Add, 3).unwrap().reads_cursor());
    assert!(!VIEW.on(Event::Copy, 3).unwrap().reads_cursor());
    assert!(!VIEW.on(Event::Launch, 3).unwrap().reads_cursor());
    assert!(!EDIT.on(Event::Back, 3).unwrap().reads_cursor());
    assert!(!Launcher::Closed.on(Event::Open, 3).unwrap().reads_cursor());
}

#[test]
fn entering_a_mode() {
    let clear = Some(Entry { clear_undo: true, cursor_line: None });
    let plain = Some(Entry { clear_undo: false, cursor_line: None });
    assert_eq!(entry(SELECT, Launcher::Closed, 2), None);
    assert_eq!(entry(Launcher::Closed, SELECT, 2), plain);
    assert_eq!(entry(SELECT, VIEW, 2), clear);
    assert_eq!(entry(SELECT, EDIT, 2), clear);
    assert_eq!(entry(EDIT, VIEW, 2), clear);
    assert_eq!(entry(VIEW, EDIT, 2), plain);
    assert_eq!(entry(VIEW, SELECT, 2), plain);
    assert_eq!(entry(SELECT, SELECT, 2), plain);
    assert_eq!(entry(EDIT, SELECT, 2), Some(Entry { clear_undo: true, cursor_line: Some(3) }));
    assert_eq!(entry(EDIT, SELECT, 5), Some(Entry { clear_undo: true, cursor_line: Some(5) }));
}

#[test]
fn window_layouts() {
    assert_eq!(window_layout(&strings(&["h : open help", "", "x"])), (3, 3, 4));
    assert_eq!(window_layout(&strings(&["a"])), (3, 1, 2));
}

#[test]
fn warnings_and_undo_steps() {
    assert_eq!(no_configs_warning(), "No task configurations found.");
    assert_eq!(undo_redo_steps(true, true), (true, true));
    assert_eq!(undo_redo_steps(true, false), (false, true));
    assert_eq!(undo_redo_steps(false, true), (false, false));
}
