//! The lines that the launcher and the active-tasks windows show.

use crate::display::display_name;
use crate::env::{EnvVars, Pairs};
use crate::task_config::{ConfigModel, TaskConfigJson};
use crate::text::{decimal, pad_center, pad_center_spec, pad_left, pad_left_spec, usize_to_string, views};
use vstd::prelude::*;

verus! {

/// The line for argument `i` of `n`, numbered from 1; the numbers are
/// aligned right in two columns once there are ten arguments or more.
pub open spec fn arg_line(i: nat, n: nat, arg: Seq<char>) -> Seq<char> {
    let num = if n < 10 { decimal(i + 1) } else { pad_left_spec(decimal(i + 1), 2) };
    "  "@ + num + ": "@ + arg
}

/// The lines that list the arguments.
pub open spec fn arg_lines(args: Seq<Seq<char>>) -> Seq<Seq<char>> {
    Seq::new(args.len(), |i: int| arg_line(i as nat, args.len(), args[i]))
}

/// The lines that list the environment variables as `NAME=VALUE`.
pub open spec fn env_lines(env: Pairs) -> Seq<Seq<char>> {
    Seq::new(env.len(), |i: int| "  "@ + env[i].0 + "="@ + env[i].1)
}

/// The placeholder that edit mode shows for an unset field.
pub open spec fn unset() -> Seq<char> {
    "---"@
}

/// The lines of edit mode: every field, with the lines that add an argument
/// and a variable.
pub open spec fn edit_lines(c: ConfigModel) -> Seq<Seq<char>> {
    seq!["NAME : "@ + c.name, "CMD  : "@ + c.cmd, "ARGS :"@] + arg_lines(c.args) + seq![
        "  + New Arg..."@,
        "DISP : "@ + match c.disp {
            Some(d) => display_name(d),
            None => unset(),
        },
        "CWD  : "@ + match c.cwd {
            Some(p) => p,
            None => unset(),
        },
        "ENV  :"@,
    ] + env_lines(c.env) + seq!["  + New Var=..."@]
}

/// The lines of view mode: an empty line, then the fields that are set.
pub open spec fn view_lines(c: ConfigModel) -> Seq<Seq<char>> {
    seq![Seq::<char>::empty(), "NAME : "@ + c.name, "CMD  : "@ + c.cmd]
        + (if c.args.len() > 0 { seq!["ARGS :"@] + arg_lines(c.args) } else { Seq::empty() })
        + (match c.disp {
            Some(d) => seq!["DISP : "@ + display_name(d)],
            None => Seq::empty(),
        })
        + (match c.cwd {
            Some(p) => seq!["CWD  : "@ + p],
            None => Seq::empty(),
        })
        + (if c.env.len() > 0 { seq!["ENV  :"@] + env_lines(c.env) } else { Seq::empty() })
}

/// The lines of select mode: the names of the configurations, or a notice
/// that there are none.
pub open spec fn select_lines(names: Seq<Seq<char>>) -> Seq<Seq<char>> {
    if names.len() == 0 {
        seq!["-- No active configs --"@]
    } else {
        names
    }
}

/// The lines of a window: the help hint, an empty line, then the contents.
pub open spec fn with_header_spec(contents: Seq<Seq<char>>) -> Seq<Seq<char>> {
    seq!["h : open help"@, Seq::<char>::empty()] + contents
}

fn push_str_line(lines: &mut Vec<String>, a: &str, b: &str)
    ensures
        views(final(lines)@) == views(old(lines)@).push(a@ + b@),
{
    let mut l = String::from_str(a);
    l.append(b);
    lines.push(l);
    assert(views(lines@) =~= views(old(lines)@).push(a@ + b@));
}

fn push_arg_lines(lines: &mut Vec<String>, args: &Vec<String>)
    requires
        args.len() < usize::MAX,
    ensures
        views(final(lines)@) == views(old(lines)@) + arg_lines(views(args@)),
{
    let n = args.len();
    let mut i: usize = 0;
    while i < n
        invariant
            i <= n,
            n == args.len(),
            n < usize::MAX,
            views(lines@) =~= views(old(lines)@) + arg_lines(views(args@)).take(i as int),
        decreases n - i,
    {
        let num = usize_to_string(i + 1);
        let num = if n < 10 { num } else { pad_left(num.as_str(), 2) };
        let mut l = String::from_str("  ");
        l.append(num.as_str());
        l.append(": ");
        l.append(args[i].as_str());
        let ghost before = views(lines@);
        lines.push(l);
        assert(l@ == arg_line(i as nat, n as nat, views(args@)[i as int]));
        assert(arg_lines(views(args@)).take(i + 1) =~= arg_lines(views(args@)).take(i as int).push(l@));
        assert(views(lines@) =~= before.push(l@));
        i = i + 1;
    }
    assert(arg_lines(views(args@)).take(n as int) =~= arg_lines(views(args@)));
}

fn push_env_lines(lines: &mut Vec<String>, env: &EnvVars)
    ensures
        views(final(lines)@) == views(old(lines)@) + env_lines(env.pairs()),
{
    let n = env.len();
    let mut i: usize = 0;
    while i < n
        invariant
            i <= n,
            n == env.pairs().len(),
            views(lines@) =~= views(old(lines)@) + env_lines(env.pairs()).take(i as int),
        decreases n - i,
    {
        let (var, value) = env.entry(i);
        let mut l = String::from_str("  ");
        l.append(var.as_str());
        l.append("=");
        l.append(value.as_str());
        let ghost before = views(lines@);
        lines.push(l);
        assert(env_lines(env.pairs()).take(i + 1) =~= env_lines(env.pairs()).take(i as int).push(l@));
        assert(views(lines@) =~= before.push(l@));
        i = i + 1;
    }
    assert(env_lines(env.pairs()).take(n as int) =~= env_lines(env.pairs()));
}

/// The lines of edit mode for a configuration.
pub fn edit_contents(config: &TaskConfigJson) -> (r: Vec<String>)
    requires
        config@.args.len() < usize::MAX,
    ensures
        views(r@) == edit_lines(config@),
{
    let mut lines: Vec<String> = Vec::new();
    push_str_line(&mut lines, "NAME : ", config.name().as_str());
    push_str_line(&mut lines, "CMD  : ", config.cmd().as_str());
    push_str_line(&mut lines, "ARGS :", "");
    push_arg_lines(&mut lines, config.args());
    push_str_line(&mut lines, "  + New Arg...", "");
    let disp = match config.disp() {
        Some(d) => d.name(),
        None => "---",
    };
    push_str_line(&mut lines, "DISP : ", disp);
    let cwd = match config.cwd() {
        Some(p) => p.as_str(),
        None => "---",
    };
    push_str_line(&mut lines, "CWD  : ", cwd);
    push_str_line(&mut lines, "ENV  :", "");
    push_env_lines(&mut lines, config.env());
    push_str_line(&mut lines, "  + New Var=...", "");
    proof {
        reveal_strlit("");
        assert(views(lines@) =~= edit_lines(config@));
    }
    lines
}

/// The lines of view mode for a configuration.
pub fn view_contents(config: &TaskConfigJson) -> (r: Vec<String>)
    requires
        config@.args.len() < usize::MAX,
    ensures
        views(r@) == view_lines(config@),
{
    let mut lines: Vec<String> = Vec::new();
    push_str_line(&mut lines, "", "");
    push_str_line(&mut lines, "NAME : ", config.name().as_str());
    push_str_line(&mut lines, "CMD  : ", config.cmd().as_str());
    let ghost after_cmd = views(lines@);
    if config.args().len() > 0 {
        push_str_line(&mut lines, "ARGS :", "");
        push_arg_lines(&mut lines, config.args());
    }
    let ghost after_args = views(lines@);
    match config.disp() {
        Some(d) => push_str_line(&mut lines, "DISP : ", d.name()),
        None => {},
    }
    let ghost after_disp = views(lines@);
    match config.cwd() {
        Some(p) => push_str_line(&mut lines, "CWD  : ", p.as_str()),
        None => {},
    }
    let ghost after_cwd = views(lines@);
    if !config.env().is_empty() {
        push_str_line(&mut lines, "ENV  :", "");
        push_env_lines(&mut lines, config.env());
    }
    proof {
        reveal_strlit("");
        let c = config@;
        let args_part = if c.args.len() > 0 { seq!["ARGS :"@] + arg_lines(c.args) } else { Seq::<Seq<char>>::empty() };
        let disp_part = match c.disp {
            Some(d) => seq!["DISP : "@ + display_name(d)],
            None => Seq::<Seq<char>>::empty(),
        };
        let cwd_part = match c.cwd {
            Some(p) => seq!["CWD  : "@ + p],
            None => Seq::<Seq<char>>::empty(),
        };
        let env_part = if c.env.len() > 0 { seq!["ENV  :"@] + env_lines(c.env) } else { Seq::<Seq<char>>::empty() };
        assert(""@ + ""@ =~= Seq::<char>::empty());
        assert("ARGS :"@ + ""@ =~= "ARGS :"@);
        assert("ENV  :"@ + ""@ =~= "ENV  :"@);
        assert(after_cmd =~= seq![Seq::<char>::empty(), "NAME : "@ + c.name, "CMD  : "@ + c.cmd]);
        assert(after_args =~= after_cmd + args_part);
        assert(after_disp =~= after_args + disp_part);
        assert(after_cwd =~= after_disp + cwd_part);
        assert(views(lines@) =~= after_cwd + env_part);
        assert(views(lines@) =~= view_lines(config@));
    }
    lines
}

/// The lines of select mode for a list of configurations.
pub fn select_contents(configs: &Vec<TaskConfigJson>) -> (r: Vec<String>)
    ensures
        views(r@) == select_lines(configs@.map_values(|c: TaskConfigJson| c@.name)),
{
    let mut lines: Vec<String> = Vec::new();
    if configs.len() == 0 {
        lines.push(String::from_str("-- No active configs --"));
        assert(views(lines@) =~= select_lines(configs@.map_values(|c: TaskConfigJson| c@.name)));
        return lines;
    }
    let mut i: usize = 0;
    while i < configs.len()
        invariant
            i <= configs.len(),
            views(lines@) =~= configs@.map_values(|c: TaskConfigJson| c@.name).take(i as int),
        decreases configs.len() - i,
    {
        let name = configs[i].name().clone();
        lines.push(name);
        assert(configs@.map_values(|c: TaskConfigJson| c@.name).take(i + 1) =~= configs@.map_values(
            |c: TaskConfigJson| c@.name,
        ).take(i as int).push(name@));
        i = i + 1;
    }
    assert(configs@.map_values(|c: TaskConfigJson| c@.name).take(configs.len() as int) =~= configs@.map_values(
        |c: TaskConfigJson| c@.name,
    ));
    lines
}

/// The lines of a window: the help hint, an empty line, then `contents`.
pub fn with_header(contents: Vec<String>) -> (r: Vec<String>)
    ensures
        views(r@) == with_header_spec(views(contents@)),
{
    let mut lines: Vec<String> = Vec::new();
    lines.push(String::from_str("h : open help"));
    lines.push(String::new());
    let mut i: usize = 0;
    let ghost head = views(lines@);
    while i < contents.len()
        invariant
            i <= contents.len(),
            head == seq!["h : open help"@, Seq::<char>::empty()],
            views(lines@) =~= head + views(contents@).take(i as int),
        decreases contents.len() - i,
    {
        let l = contents[i].clone();
        let ghost before = views(lines@);
        lines.push(l);
        assert(views(lines@) =~= before.push(l@));
        assert(views(contents@).take(i + 1) =~= views(contents@).take(i as int).push(l@));
        i = i + 1;
    }
    assert(views(contents@).take(contents.len() as int) =~= views(contents@));
    lines
}

/// A line as a plugin buffer shows it: four spaces on each side.
pub open spec fn padded(line: Seq<char>) -> Seq<char> {
    "    "@ + line + "    "@
}

/// The lines as a plugin buffer shows them, each padded with four spaces on
/// each side.
pub fn padded_lines(lines: &Vec<String>) -> (r: Vec<String>)
    ensures
        views(r@) == views(lines@).map_values(|l: Seq<char>| padded(l)),
{
    let mut out: Vec<String> = Vec::new();
    let mut i: usize = 0;
    while i < lines.len()
        invariant
            i <= lines.len(),
            views(out@) =~= views(lines@).take(i as int).map_values(|l: Seq<char>| padded(l)),
        decreases lines.len() - i,
    {
        let mut l = String::from_str("    ");
        l.append(lines[i].as_str());
        l.append("    ");
        let ghost before = views(out@);
        out.push(l);
        assert(views(out@) =~= before.push(l@));
        assert(views(lines@).take(i + 1) =~= views(lines@).take(i as int).push(lines@[i as int]@));
        i = i + 1;
    }
    assert(views(lines@).take(lines.len() as int) =~= views(lines@));
    out
}

/// The layout of a launcher or viewer window showing `lines`: the first and
/// last line the cursor may visit (the navigation offset and the number of
/// lines), and the window's height, one more than the number of lines.
pub fn window_layout(lines: &Vec<String>) -> (r: (u32, u32, u32))
    requires
        0 < lines@.len() < u32::MAX,
    ensures
        r.0 == crate::launcher::NAVIGATION_OFFSET,
        r.1 == lines@.len(),
        r.2 == lines@.len() + 1,
{
    let n = lines.len() as u32;
    (3, n, n + 1)
}

/// The help line for a key: the key centred in four columns, then its
/// description.
pub open spec fn help_line(key: Seq<char>, desc: Seq<char>) -> Seq<char> {
    pad_center_spec(key, 4) + " : "@ + desc
}

/// The help line for a key.
pub fn help_entry(key: &str, desc: &str) -> (r: String)
    ensures
        r@ == help_line(key@, desc@),
{
    let mut r = pad_center(key, 4);
    r.append(" : ");
    r.append(desc);
    r
}

/// The lines that list the active tasks by their titles, or a notice that
/// there are none.
pub open spec fn task_lines(titles: Seq<Seq<char>>) -> Seq<Seq<char>> {
    if titles.len() == 0 {
        seq!["-- No active tasks --"@]
    } else {
        titles
    }
}

} // verus!
