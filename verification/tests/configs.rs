use launch_nvim::config::{
    add_config, can_redo, can_undo, copy_config, delete_config, deserialize_from_string,
    escape_at_signs, get_checked, holds_configs, removes_file, runtime_file_name,
    serialize_to_string,
};
use launch_nvim::display::TaskDisplay;
use launch_nvim::env::EnvVars;
use launch_nvim::error::Error;
use launch_nvim::fields::{
    choose_display, del_config_field, edit_field, env_binding, get_config_field, insert_arg_input,
    insert_arg_plan, match_field, set_config_field, EditPrompt,
};
use launch_nvim::settings::{Settings, SettingsTask, SettingsTaskUI, SettingsTaskUIFloat};
use launch_nvim::display::TaskDisplayFloatSize;
use launch_nvim::task_config::{cwd_source, CwdSource, TaskConfig, TaskConfigJson};

fn strings(v: &[&str]) -> Vec<String> {
    v.iter().map(|s| s.to_string()).collect()
}

fn env_of(pairs: &[(&str, &str)]) -> EnvVars {
    let mut env = EnvVars::new();
    for (k, v) in pairs {
        env.insert(k.to_string(), v.to_string());
    }
    env
}

fn env_pairs(env: &EnvVars) -> Vec<(String, String)> {
    (0..env.len()).map(|i| {
        let (k, v) = env.entry(i);
        (k.clone(), v.clone())
    }).collect()
}

fn sample() -> TaskConfigJson {
    TaskConfigJson::new(
        "build".to_string(),
        "make".to_string(),
        strings(&["-j", "4"]),
        Some(TaskDisplay::VSplit),
        None,
        env_of(&[("CC", "gcc")]),
    )
}

fn names(tasks: &Vec<TaskConfigJson>) -> Vec<String> {
    tasks.iter().map(|t| t.name().clone()).collect()
}

#[test]
fn default_config_fields() {
    let c = TaskConfigJson::default();
    assert_eq!(c.name(), "New Config");
    assert_eq!(c.cmd(), "echo 'hello'");
    assert!(c.args().is_empty());
    assert_eq!(*c.disp(), None);
    assert_eq!(*c.cwd(), None);
    assert!(c.env().is_empty());
}

#[test]
fn setters_and_deleters() {
    let mut c = sample();
    c.set_name("test".to_string());
    c.set_cmd("cargo".to_string());
    c.set_arg(0, "-v".to_string());
    c.set_arg(7, "last".to_string());
    assert_eq!(*c.args(), strings(&["-v", "4", "last"]));
    c.insert_arg(1, "mid".to_string());
    assert_eq!(*c.args(), strings(&["-v", "mid", "4", "last"]));
    c.del_arg(9);
    c.del_arg(0);
    assert_eq!(*c.args(), strings(&["mid", "4", "last"]));
    c.set_disp(TaskDisplay::HSplit);
    assert_eq!(*c.disp(), Some(TaskDisplay::HSplit));
    c.del_disp();
    assert_eq!(*c.disp(), None);
    c.set_cwd("/tmp".to_string());
    assert_eq!(*c.cwd(), Some("/tmp".to_string()));
    c.del_cwd();
    assert_eq!(*c.cwd(), None);
    assert_eq!(c.name(), "test");
    assert_eq!(c.cmd(), "cargo");
}

#[test]
fn env_set_replaces_and_deletes() {
    let mut c = sample();
    c.set_env("CC", "CXX=clang++".to_string());
    assert_eq!(env_pairs(c.env()), vec![("CXX".to_string(), "clang++".to_string())]);
    c.set_env("NEW", "A=1=2".to_string());
    assert_eq!(c.env().get("A"), Some(&"1=2".to_string()));
    c.del_env("CXX");
    c.del_env("MISSING");
    assert_eq!(env_pairs(c.env()), vec![("A".to_string(), "1=2".to_string())]);
}

#[test]
fn env_vars_keep_one_binding_per_name() {
    let mut env = env_of(&[("A", "1"), ("B", "2")]);
    env.insert("A".to_string(), "3".to_string());
    assert_eq!(env.len(), 2);
    assert_eq!(env.get("A"), Some(&"3".to_string()));
    env.remove("A");
    assert_eq!(env.get("A"), None);
    assert_eq!(env.get("B"), Some(&"2".to_string()));
    let copy = env.duplicate();
    assert_eq!(env_pairs(&copy), env_pairs(&env));
}

#[test]
fn resolving_a_config() {
    let c = sample();
    let t = TaskConfig::try_from(c, TaskDisplay::Float, Ok("/work".to_string())).unwrap();
    assert_eq!(t.name(), "build");
    assert_eq!(*t.disp(), TaskDisplay::VSplit);
    assert_eq!(t.cwd(), "/work");
    assert_eq!(t.command(), "make -j 4");
    assert_eq!(t.env().get("CC"), Some(&"gcc".to_string()));

    let d = TaskConfig::try_from(TaskConfigJson::default(), TaskDisplay::HSplit, Ok("/".to_string())).unwrap();
    assert_eq!(*d.disp(), TaskDisplay::HSplit);
    assert_eq!(d.command(), "echo 'hello' ");

    let e = TaskConfig::try_from(sample(), TaskDisplay::Float, Err(Error::Io("gone".to_string())));
    assert!(matches!(e, Err(Error::Io(m)) if m == "gone"));
}

#[test]
fn config_list_actions() {
    let mut tasks = vec![sample()];
    add_config(&mut tasks);
    assert_eq!(names(&tasks), strings(&["build", "New Config"]));
    assert_eq!(copy_config(&mut tasks, 0), Ok(()));
    assert_eq!(names(&tasks), strings(&["build", "New Config", "build"]));
    assert_eq!(*tasks[2].args(), strings(&["-j", "4"]));
    assert_eq!(
        copy_config(&mut tasks, 3),
        Err(Error::Internal("Index out of bounds for vector".to_string()))
    );
    assert_eq!(tasks.len(), 3);
    delete_config(&mut tasks, 1);
    assert_eq!(names(&tasks), strings(&["build", "build"]));
    assert!(get_checked(&tasks, 1).is_ok());
    assert!(matches!(get_checked(&tasks, 2), Err(Error::Internal(_))));
}

#[test]
fn runtime_file_names() {
    assert_eq!(runtime_file_name("/home/user/my@proj"), Some("@home@user@my@@proj.json".to_string()));
    assert_eq!(runtime_file_name("C:\\dev"), Some("C@@dev.json".to_string()));
    assert_eq!(runtime_file_name(""), Some(".json".to_string()));
    assert_eq!(escape_at_signs("a@b@"), "a@@b@@");
}

#[test]
fn configurations_text() {
    let text = "{\n  \"version\": 1,\n  \"tasks\": []\n}";
    let lines = serialize_to_string(text);
    assert_eq!(lines, strings(&["{", "  \"version\": 1,", "  \"tasks\": []", "}"]));
    assert_eq!(deserialize_from_string(&lines), format!("{text}\n"));
    assert!(holds_configs(text));
    assert!(!holds_configs(" \n\t"));
    assert!(!holds_configs(""));
}

#[test]
fn undo_redo_and_file_removal() {
    assert!(!can_redo(3, 3));
    assert!(can_redo(2, 3));
    assert!(!can_undo(0));
    assert!(can_undo(5));
    assert!(removes_file(&Vec::new(), true));
    assert!(!removes_file(&Vec::new(), false));
    assert!(!removes_file(&vec![sample()], true));
}

#[test]
fn field_under_cursor() {
    assert_eq!(match_field("    NAME : build    "), Some("NAME".to_string()));
    assert_eq!(match_field("    CWD  : ---    "), Some("CWD".to_string()));
    assert_eq!(match_field("      1: -j    "), Some("1".to_string()));
    assert_eq!(match_field("       12: x    "), Some("12".to_string()));
    assert_eq!(match_field("      + New Arg...    "), Some("+".to_string()));
    assert_eq!(match_field("      CC=gcc    "), Some("CC=".to_string()));
    assert_eq!(match_field("      + New Var=...    "), Some("=".to_string()));
    assert_eq!(match_field("    ARGS :    "), Some("ARGS".to_string()));
    assert_eq!(match_field("    h : open help    "), None);
    assert_eq!(match_field("        "), None);
    assert_eq!(match_field("NAME : no indent"), None);
}

#[test]
fn reading_fields() {
    let c = sample();
    assert_eq!(get_config_field(&c, "NAME"), "build");
    assert_eq!(get_config_field(&c, "CMD"), "make");
    assert_eq!(get_config_field(&c, "CWD"), "");
    assert_eq!(get_config_field(&c, "2"), "4");
    assert_eq!(get_config_field(&c, "3"), "");
    assert_eq!(get_config_field(&c, "CC="), "gcc");
    assert_eq!(get_config_field(&c, "LD="), "");
    assert_eq!(get_config_field(&c, "DISP"), "");
}

#[test]
fn setting_fields() {
    let mut c = sample();
    set_config_field(&mut c, "NAME", "release".to_string());
    set_config_field(&mut c, "CWD", "/src".to_string());
    set_config_field(&mut c, "1", "-j8".to_string());
    set_config_field(&mut c, "3", "--quiet".to_string());
    set_config_field(&mut c, "CC=", "CC=clang".to_string());
    set_config_field(&mut c, "=", "LD=lld".to_string());
    set_config_field(&mut c, "DISP", "ignored".to_string());
    assert_eq!(c.name(), "release");
    assert_eq!(*c.cwd(), Some("/src".to_string()));
    assert_eq!(*c.args(), strings(&["-j8", "4", "--quiet"]));
    assert_eq!(
        env_pairs(c.env()),
        vec![("CC".to_string(), "clang".to_string()), ("LD".to_string(), "lld".to_string())]
    );
    assert_eq!(*c.disp(), Some(TaskDisplay::VSplit));
}

#[test]
fn a_field_reads_back_what_was_set() {
    let mut c = sample();
    for (field, value) in [("NAME", "n"), ("CMD", "c"), ("CWD", "/d"), ("2", "two"), ("3", "three")] {
        set_config_field(&mut c, field, value.to_string());
        assert_eq!(get_config_field(&c, field), value);
    }
    set_config_field(&mut c, "CC=", "CXX=g++".to_string());
    assert_eq!(get_config_field(&c, "CXX="), "g++");
    assert_eq!(get_config_field(&c, "CC="), "");
}

#[test]
fn deleting_fields() {
    let mut c = sample();
    c.set_cwd("/x".to_string());
    assert!(del_config_field(&mut c, "CWD"));
    assert!(del_config_field(&mut c, "DISP"));
    assert!(del_config_field(&mut c, "1"));
    assert!(del_config_field(&mut c, "5"));
    assert!(del_config_field(&mut c, "CC="));
    assert!(!del_config_field(&mut c, "="));
    assert!(!del_config_field(&mut c, "NAME"));
    assert!(!del_config_field(&mut c, "ARGS"));
    assert_eq!(*c.cwd(), None);
    assert_eq!(*c.disp(), None);
    assert_eq!(*c.args(), strings(&["4"]));
    assert!(c.env().is_empty());
    assert_eq!(c.name(), "build");
}

#[test]
fn editing_fields() {
    let c = sample();
    assert!(matches!(edit_field(&c, "ARGS"), EditPrompt::Nothing));
    assert!(matches!(edit_field(&c, "ENV"), EditPrompt::Nothing));
    assert!(matches!(edit_field(&c, "DISP"), EditPrompt::ChooseDisplay));
    match edit_field(&c, "+") {
        EditPrompt::Prompt { field, value } => {
            assert_eq!(field, "3");
            assert_eq!(value, "");
        },
        _ => panic!("expected a prompt"),
    }
    match edit_field(&c, "NAME") {
        EditPrompt::Prompt { field, value } => {
            assert_eq!(field, "NAME");
            assert_eq!(value, "build");
        },
        _ => panic!("expected a prompt"),
    }
    match edit_field(&c, "CC=") {
        EditPrompt::PromptVar { field, name, value } => {
            assert_eq!(field, "CC=");
            assert_eq!(name, "CC");
            assert_eq!(value, "gcc");
        },
        _ => panic!("expected a variable prompt"),
    }
    match edit_field(&c, "=") {
        EditPrompt::PromptVar { field, name, value } => {
            assert_eq!(field, "=");
            assert_eq!(name, "");
            assert_eq!(value, "");
        },
        _ => panic!("expected a variable prompt"),
    }
}

#[test]
fn display_choice_and_argument_insertion() {
    let mut c = sample();
    choose_display(&mut c, "    hsplit    ");
    assert_eq!(*c.disp(), Some(TaskDisplay::HSplit));
    choose_display(&mut c, "nonsense");
    assert_eq!(*c.disp(), Some(TaskDisplay::Float));

    assert_eq!(env_binding("K", "V"), "K=V");
    assert_eq!(insert_arg_plan("2"), Some((2, "2-new".to_string())));
    assert_eq!(insert_arg_plan("NAME"), None);
    insert_arg_input(&mut c, 2, "  --fast \n");
    assert_eq!(*c.args(), strings(&["-j", "--fast", "4"]));
    insert_arg_input(&mut c, 4, "end");
    assert_eq!(*c.args(), strings(&["-j", "--fast", "4", "end"]));
}

#[test]
fn settings_defaults_and_apply() {
    let mut s = Settings::default();
    assert!(!s.task.insert_mode_on_launch);
    assert_eq!(s.task.ui.display, TaskDisplay::Float);
    assert_eq!(s.task.ui.hsplit_height, 30);
    assert_eq!(s.task.ui.vsplit_width, 50);
    assert_eq!(s.task.ui.float.size, TaskDisplayFloatSize::Medium);

    let custom = Settings {
        task: SettingsTask {
            insert_mode_on_launch: true,
            ui: SettingsTaskUI {
                display: TaskDisplay::HSplit,
                hsplit_height: 40,
                vsplit_width: 50,
                float: SettingsTaskUIFloat { size: TaskDisplayFloatSize::Large },
            },
        },
    };
    assert_eq!(s.apply(Ok(custom)), None);
    assert_eq!(s, custom);

    let msg = s.apply(Err("invalid type: string, expected a boolean".to_string()));
    assert_eq!(
        msg,
        Some(
            "Deserialization failed! invalid type: string, expected a boolean\n\
             Refer to [https://github.com/dasupradyumna/launch.nvim/wiki/Plugin-Settings] for documentation.\n                "
                .to_string()
        )
    );
    assert_eq!(s, custom);
}

#[test]
fn deleted_field_reads_empty() {
    let mut c = sample();
    c.set_cwd("/srv".to_string());
    assert!(del_config_field(&mut c, "CWD"));
    assert_eq!(get_config_field(&c, "CWD"), "");
    assert!(del_config_field(&mut c, "CC="));
    assert_eq!(get_config_field(&c, "CC="), "");
}

#[test]
fn new_argument_line_appends() {
    let mut c = sample();
    match edit_field(&c, "+") {
        EditPrompt::Prompt { field, .. } => set_config_field(&mut c, &field, "--all".to_string()),
        _ => panic!("expected a prompt"),
    }
    assert_eq!(*c.args(), strings(&["-j", "4", "--all"]));
    assert_eq!(c.name(), "build");
    assert_eq!(*c.disp(), Some(TaskDisplay::VSplit));
}

#[test]
fn task_display_overrides_default() {
    let t = TaskConfig::try_from(sample(), TaskDisplay::HSplit, Ok("/".to_string())).unwrap();
    assert_eq!(*t.disp(), TaskDisplay::VSplit);
    let d = TaskConfig::try_from(TaskConfigJson::default(), TaskDisplay::VSplit, Ok("/".to_string())).unwrap();
    assert_eq!(*d.disp(), TaskDisplay::VSplit);
    let f = TaskConfig::try_from(TaskConfigJson::default(), TaskDisplay::Float, Ok("/".to_string())).unwrap();
    assert_eq!(*f.disp(), TaskDisplay::Float);
}

#[test]
fn display_choice_list() {
    assert_eq!(launch_nvim::fields::display_choices(), strings(&["float", "hsplit", "vsplit"]));
}

#[test]
fn settings_fallback_notice() {
    assert_eq!(
        launch_nvim::settings::fallback_notice("Settings {}"),
        "Using default settings...\nSettings {}\n                "
    );
}

#[test]
fn working_directory_source() {
    assert!(matches!(cwd_source(&sample()), CwdSource::Current));
    let mut c = sample();
    c.set_cwd("/srv/app".to_string());
    assert!(matches!(cwd_source(&c), CwdSource::Configured(p) if p == "/srv/app"));
}

#[test]
fn deleting_a_variable_keeps_the_others() {
    let mut c = TaskConfigJson::new(
        "n".to_string(),
        "c".to_string(),
        Vec::new(),
        None,
        None,
        env_of(&[("A", "1"), ("B", "2"), ("C", "3")]),
    );
    c.del_env("B");
    assert_eq!(c.env().get("B"), None);
    assert_eq!(c.env().get("A"), Some(&"1".to_string()));
    assert_eq!(c.env().get("C"), Some(&"3".to_string()));
}
