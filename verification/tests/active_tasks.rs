use launch_nvim::display::TaskDisplay;
use launch_nvim::env::EnvVars;
use launch_nvim::error::Error;
use launch_nvim::task_config::{TaskConfig, TaskConfigJson};
use launch_nvim::tasks::{relaunch, view, window_size, ActiveTask, RenderStep, TaskList, ViewerAction, WindowSize};

fn resolved(name: &str, disp: Option<TaskDisplay>) -> TaskConfig {
    let json = TaskConfigJson::new(name.to_string(), "run".to_string(), Vec::new(), disp, None, EnvVars::new());
    TaskConfig::try_from(json, TaskDisplay::Float, Ok("/work".to_string())).unwrap()
}

fn task(name: &str, buffer: i32, disp: Option<TaskDisplay>) -> ActiveTask {
    ActiveTask::new(buffer, resolved(name, disp), 9, 5, 7)
}

#[test]
fn task_titles_carry_the_start_time() {
    let t = task("build", 5, None);
    assert_eq!(t.title(), "build (09:05:07)");
    assert_eq!(t.buffer(), 5);
    assert_eq!(t.buffer_name(), "[launch.nvim] build (09:05:07)");
    let late = ActiveTask::new(1, resolved("x", None), 23, 59, 59);
    assert_eq!(late.title(), "x (23:59:59)");
    let midnight = ActiveTask::new(1, resolved("", None), 0, 0, 0);
    assert_eq!(midnight.title(), " (00:00:00)");
}

#[test]
fn task_list_lines() {
    let mut list = TaskList::new();
    assert!(list.is_list_empty());
    assert_eq!(list.get_lines_for_ui(), vec!["-- No active tasks --".to_string()]);
    assert_eq!(list.push(task("a", 10, None)), 0);
    assert_eq!(list.push(task("b", 11, None)), 1);
    assert!(!list.is_list_empty());
    assert_eq!(list.get_lines_for_ui(), vec!["a (09:05:07)".to_string(), "b (09:05:07)".to_string()]);
}

#[test]
fn wiped_out_buffer_forgets_its_task() {
    let mut list = TaskList::new();
    list.push(task("a", 10, None));
    list.push(task("b", 11, None));
    list.push(task("c", 11, None));
    list.on_bufwipeout(11);
    let titles: Vec<String> = list.active.iter().map(|t| t.title().clone()).collect();
    assert_eq!(titles, vec!["a (09:05:07)".to_string(), "c (09:05:07)".to_string()]);
    list.on_bufwipeout(99);
    assert_eq!(list.active.len(), 2);
}

#[test]
fn closed_window_is_forgotten() {
    let mut list = TaskList::new();
    list.windows.set(TaskDisplay::VSplit, Some(1001));
    list.windows.set(TaskDisplay::Float, Some(1002));
    list.on_winclosed("vsplit");
    assert_eq!(list.windows.get(TaskDisplay::VSplit), None);
    assert_eq!(list.windows.get(TaskDisplay::Float), Some(1002));
    list.on_winclosed("bogus");
    assert_eq!(list.windows.get(TaskDisplay::Float), None);
}

#[test]
fn changing_directory_forgets_everything() {
    let mut list = TaskList::new();
    list.push(task("a", 10, None));
    list.push(task("b", 12, None));
    list.windows.set(TaskDisplay::HSplit, Some(1003));
    assert_eq!(list.on_dirchanged(), vec![10, 12]);
    assert!(list.is_list_empty());
    assert_eq!(list.windows.get(TaskDisplay::HSplit), None);
}

#[test]
fn window_for_a_task() {
    let mut list = TaskList::new();
    list.push(task("a", 10, Some(TaskDisplay::HSplit)));
    list.push(task("b", 11, None));
    list.windows.set(TaskDisplay::Float, Some(1005));
    assert_eq!(list.window_for(0), Ok(None));
    assert_eq!(list.window_for(1), Ok(Some(1005)));
    assert_eq!(
        list.window_for(2),
        Err(Error::Internal("Index out of bounds for vector".to_string()))
    );
    assert!(matches!(list.task(5), Err(Error::Internal(_))));
}

#[test]
fn viewer_keys() {
    let mut list = TaskList::new();
    match relaunch(&list, 0) {
        ViewerAction::Warn(m) => assert_eq!(m, "No active tasks found."),
        _ => panic!("expected a warning"),
    }
    assert!(matches!(view(&list, 0), ViewerAction::Warn(_)));
    list.push(task("a", 10, None));
    assert!(matches!(relaunch(&list, 3), ViewerAction::Show { index: 0, launch: true }));
    assert!(matches!(view(&list, 4), ViewerAction::Show { index: 1, launch: false }));
}

#[test]
fn task_window_sizes() {
    assert!(matches!(
        window_size(TaskDisplay::Float, 200, 50, 65, 50, 30),
        WindowSize::Float { width: 130, height: 32 }
    ));
    assert!(matches!(window_size(TaskDisplay::VSplit, 200, 50, 65, 50, 30), WindowSize::VSplit { width: 100 }));
    assert!(matches!(window_size(TaskDisplay::HSplit, 200, 50, 65, 50, 30), WindowSize::HSplit { height: 15 }));
}

#[test]
fn task_start_time_is_kept() {
    let t = ActiveTask::new(4, resolved("lint", None), 13, 2, 45);
    assert_eq!(t.start(), (13, 2, 45));
    assert_eq!(t.title(), "lint (13:02:45)");
}

#[test]
fn render_steps() {
    let mut list = TaskList::new();
    list.push(task("a", 10, Some(TaskDisplay::HSplit)));
    list.push(task("b", 11, None));
    match list.render_step(0, 200, 50, 65, 50, 30) {
        Ok(RenderStep::Open { display, size, title, buffer }) => {
            assert_eq!(display, TaskDisplay::HSplit);
            assert!(matches!(size, WindowSize::HSplit { height: 15 }));
            assert_eq!(title, "a (09:05:07)");
            assert_eq!(buffer, 10);
        },
        _ => panic!("expected a new window"),
    }
    match list.render_step(1, 200, 50, 65, 50, 30) {
        Ok(RenderStep::Open { display, size, .. }) => {
            assert_eq!(display, TaskDisplay::Float);
            assert!(matches!(size, WindowSize::Float { width: 130, height: 32 }));
        },
        _ => panic!("expected a new window"),
    }
    list.record_window(TaskDisplay::Float, 1007);
    assert!(matches!(
        list.render_step(1, 200, 50, 65, 50, 30),
        Ok(RenderStep::Switch { window: 1007, buffer: 11 })
    ));
    assert_eq!(list.windows.get(TaskDisplay::HSplit), None);
    assert!(matches!(
        list.render_step(2, 200, 50, 65, 50, 30),
        Err(Error::Internal(m)) if m == "Index out of bounds for vector"
    ));
}
