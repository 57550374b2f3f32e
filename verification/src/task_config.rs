//! Task configurations: as stored in the runtime configurations file, and
//! fully resolved for launching.

use crate::display::TaskDisplay;
use crate::env::{insert_key, keys_unique, lookup, remove_key, EnvVars, Pairs};
use crate::error::Error;
use crate::text::{join_with, join_with_spec, split_once, split_once_spec, views};
use vstd::prelude::*;

verus! {

/// What a stored task configuration holds, by character sequences.
pub struct ConfigModel {
    pub name: Seq<char>,
    pub cmd: Seq<char>,
    pub args: Seq<Seq<char>>,
    pub disp: Option<TaskDisplay>,
    pub cwd: Option<Seq<char>>,
    pub env: Pairs,
}

/// The character sequence of an optional string.
pub open spec fn opt_view(o: Option<String>) -> Option<Seq<char>> {
    match o {
        Some(s) => Some(s@),
        None => None,
    }
}

/// A task configuration as stored in the runtime configurations file.
///
/// Optional fields are `None` (or empty) when the user did not set them; the
/// launcher UI edits these fields.
pub struct TaskConfigJson {
    name: String,
    cmd: String,
    args: Vec<String>,
    disp: Option<TaskDisplay>,
    cwd: Option<String>,
    env: EnvVars,
}

impl View for TaskConfigJson {
    type V = ConfigModel;

    closed spec fn view(&self) -> ConfigModel {
        ConfigModel {
            name: self.name@,
            cmd: self.cmd@,
            args: views(self.args@),
            disp: self.disp,
            cwd: opt_view(self.cwd),
            env: self.env.pairs(),
        }
    }
}

/// The configuration that a new entry starts with.
pub open spec fn default_config() -> ConfigModel {
    ConfigModel {
        name: "New Config"@,
        cmd: "echo 'hello'"@,
        args: Seq::empty(),
        disp: None,
        cwd: None,
        env: Seq::empty(),
    }
}

fn clone_strings(v: &Vec<String>) -> (r: Vec<String>)
    ensures
        views(r@) == views(v@),
{
    let mut out: Vec<String> = Vec::new();
    let mut i: usize = 0;
    while i < v.len()
        invariant
            i <= v.len(),
            views(out@) =~= views(v@).take(i as int),
        decreases v.len() - i,
    {
        let s = v[i].clone();
        out.push(s);
        assert(views(v@).take(i + 1) =~= views(v@).take(i as int).push(s@));
        i = i + 1;
    }
    assert(views(v@).take(v.len() as int) =~= views(v@));
    out
}

impl TaskConfigJson {
    /// A configuration with the given fields.
    pub fn new(
        name: String,
        cmd: String,
        args: Vec<String>,
        disp: Option<TaskDisplay>,
        cwd: Option<String>,
        env: EnvVars,
    ) -> (r: TaskConfigJson)
        ensures
            r@ == (ConfigModel {
                name: name@,
                cmd: cmd@,
                args: views(args@),
                disp,
                cwd: opt_view(cwd),
                env: env.pairs(),
            }),
    {
        TaskConfigJson { name, cmd, args, disp, cwd, env }
    }

    /// The configuration that a new entry starts with: named "New Config",
    /// running `echo 'hello'`, with nothing else set.
    pub fn default() -> (r: TaskConfigJson)
        ensures
            r@ == default_config(),
    {
        let r = TaskConfigJson {
            name: String::from_str("New Config"),
            cmd: String::from_str("echo 'hello'"),
            args: Vec::new(),
            disp: None,
            cwd: None,
            env: EnvVars::new(),
        };
        assert(views(r.args@) =~= Seq::<Seq<char>>::empty());
        r
    }

    /// A copy of this configuration.
    pub fn duplicate(&self) -> (r: TaskConfigJson)
        ensures
            r@ == self@,
    {
        let cwd = match &self.cwd {
            Some(c) => Some(c.clone()),
            None => None,
        };
        TaskConfigJson {
            name: self.name.clone(),
            cmd: self.cmd.clone(),
            args: clone_strings(&self.args),
            disp: self.disp,
            cwd,
            env: self.env.duplicate(),
        }
    }

    /*------------------------ GETTERS -----------------------*/

    /// The name of the task.
    pub fn name(&self) -> (r: &String)
        ensures
            r@ == self@.name,
    {
        &self.name
    }

    /// The command of the task.
    pub fn cmd(&self) -> (r: &String)
        ensures
            r@ == self@.cmd,
    {
        &self.cmd
    }

    /// The arguments of the task.
    pub fn args(&self) -> (r: &Vec<String>)
        ensures
            views(r@) == self@.args,
    {
        &self.args
    }

    /// The display mode of the task, if set.
    pub fn disp(&self) -> (r: &Option<TaskDisplay>)
        ensures
            *r == self@.disp,
    {
        &self.disp
    }

    /// The working directory of the task, if set.
    pub fn cwd(&self) -> (r: &Option<String>)
        ensures
            opt_view(*r) == self@.cwd,
    {
        &self.cwd
    }

    /// The environment variables of the task.
    pub fn env(&self) -> (r: &EnvVars)
        ensures
            r.pairs() == self@.env,
            keys_unique(self@.env),
    {
        let _ = self.env.len();
        &self.env
    }

    /*------------------------ SETTERS -----------------------*/

    /// Sets the name of the task.
    pub fn set_name(&mut self, name: String)
        ensures
            final(self)@ == (ConfigModel { name: name@, ..old(self)@ }),
    {
        self.name = name;
    }

    /// Sets the command of the task.
    pub fn set_cmd(&mut self, cmd: String)
        ensures
            final(self)@ == (ConfigModel { cmd: cmd@, ..old(self)@ }),
    {
        self.cmd = cmd;
    }

    /// Sets the argument at `index`; an index past the end appends the
    /// argument instead.
    pub fn set_arg(&mut self, index: usize, new_arg: String)
        ensures
            final(self)@ == (ConfigModel {
                args: if index < old(self)@.args.len() {
                    old(self)@.args.update(index as int, new_arg@)
                } else {
                    old(self)@.args.push(new_arg@)
                },
                ..old(self)@
            }),
    {
        if index < self.args.len() {
            self.args.set(index, new_arg);
        } else {
            self.args.push(new_arg);
        }
        assert(views(self.args@) =~= (if index < old(self)@.args.len() {
            old(self)@.args.update(index as int, new_arg@)
        } else {
            old(self)@.args.push(new_arg@)
        }));
    }

    /// Inserts an argument at `index`, shifting the later ones.
    pub fn insert_arg(&mut self, index: usize, arg: String)
        requires
            index <= old(self)@.args.len(),
        ensures
            final(self)@ == (ConfigModel {
                args: old(self)@.args.insert(index as int, arg@),
                ..old(self)@
            }),
    {
        self.args.insert(index, arg);
        assert(views(self.args@) =~= old(self)@.args.insert(index as int, arg@));
    }

    /// Sets the display mode of the task.
    pub fn set_disp(&mut self, disp: TaskDisplay)
        ensures
            final(self)@ == (ConfigModel { disp: Some(disp), ..old(self)@ }),
    {
        self.disp = Some(disp);
    }

    /// Sets the working directory of the task.
    pub fn set_cwd(&mut self, cwd: String)
        ensures
            final(self)@ == (ConfigModel { cwd: Some(cwd@), ..old(self)@ }),
    {
        self.cwd = Some(cwd);
    }

    /// Replaces the variable `old_var` with the binding written in
    /// `new_var_value` as `NAME=VALUE` (split at the first `=`).
    pub fn set_env(&mut self, old_var: &str, new_var_value: String)
        requires
            split_once_spec(new_var_value@, '=') is Some,
        ensures
            final(self)@ == (ConfigModel {
                env: insert_key(
                    remove_key(old(self)@.env, old_var@),
                    split_once_spec(new_var_value@, '=').unwrap().0,
                    split_once_spec(new_var_value@, '=').unwrap().1,
                ),
                ..old(self)@
            }),
            keys_unique(final(self)@.env),
            lookup(
                final(self)@.env,
                split_once_spec(new_var_value@, '=').unwrap().0,
            ) == Some(split_once_spec(new_var_value@, '=').unwrap().1),
            forall|k: Seq<char>|
                k != old_var@ && k != split_once_spec(new_var_value@, '=').unwrap().0 ==> #[trigger] lookup(
                    final(self)@.env,
                    k,
                ) == lookup(old(self)@.env, k),
    {
        self.env.remove(old_var);
        match split_once(new_var_value.as_str(), '=') {
            Some((var, value)) => self.env.insert(var, value),
            None => {},
        }
    }

    /*----------------------- DELETERS -----------------------*/

    /// Deletes the argument at `index`, if there is one.
    pub fn del_arg(&mut self, index: usize)
        ensures
            final(self)@ == (ConfigModel {
                args: if index < old(self)@.args.len() {
                    old(self)@.args.remove(index as int)
                } else {
                    old(self)@.args
                },
                ..old(self)@
            }),
    {
        if index < self.args.len() {
            self.args.remove(index);
        }
        assert(views(self.args@) =~= (if index < old(self)@.args.len() {
            old(self)@.args.remove(index as int)
        } else {
            old(self)@.args
        }));
    }

    /// Removes the display mode of the task.
    pub fn del_disp(&mut self)
        ensures
            final(self)@ == (ConfigModel { disp: None, ..old(self)@ }),
    {
        self.disp = None;
    }

    /// Removes the working directory of the task.
    pub fn del_cwd(&mut self)
        ensures
            final(self)@ == (ConfigModel { cwd: None, ..old(self)@ }),
    {
        self.cwd = None;
    }

    /// Removes the variable `var`.
    pub fn del_env(&mut self, var: &str)
        ensures
            final(self)@ == (ConfigModel { env: remove_key(old(self)@.env, var@), ..old(self)@ }),
            keys_unique(final(self)@.env),
            lookup(final(self)@.env, var@) is None,
            forall|k: Seq<char>| k != var@ ==> #[trigger] lookup(final(self)@.env, k) == lookup(old(self)@.env, k),
    {
        self.env.remove(var);
    }
}

/// What a resolved task configuration holds, by character sequences.
pub struct ResolvedModel {
    pub name: Seq<char>,
    pub cmd: Seq<char>,
    pub args: Seq<Seq<char>>,
    pub disp: TaskDisplay,
    pub cwd: Seq<char>,
    pub env: Pairs,
}

/// A fully specified task configuration, used to launch the task.
///
/// Built from a stored configuration by filling the display mode from the
/// settings and the working directory from the file system.
pub struct TaskConfig {
    name: String,
    cmd: String,
    args: Vec<String>,
    disp: TaskDisplay,
    cwd: String,
    env: EnvVars,
}

impl View for TaskConfig {
    type V = ResolvedModel;

    closed spec fn view(&self) -> ResolvedModel {
        ResolvedModel {
            name: self.name@,
            cmd: self.cmd@,
            args: views(self.args@),
            disp: self.disp,
            cwd: self.cwd@,
            env: self.env.pairs(),
        }
    }
}

/// The resolved form of a stored configuration, given the display mode to
/// use when it sets none and its resolved working directory.
pub open spec fn resolve_spec(c: ConfigModel, default_disp: TaskDisplay, cwd: Seq<char>) -> ResolvedModel {
    ResolvedModel {
        name: c.name,
        cmd: c.cmd,
        args: c.args,
        disp: match c.disp {
            Some(d) => d,
            None => default_disp,
        },
        cwd,
        env: c.env,
    }
}

/// The shell command that launches a task: the command, a space, then the
/// arguments separated by spaces.
pub open spec fn command_spec(r: ResolvedModel) -> Seq<char> {
    r.cmd + seq![' '] + join_with_spec(r.args, seq![' '])
}

/// Where the working directory of a task comes from: the configured
/// directory, to be made canonical, or the current directory.
pub enum CwdSource {
    Configured(String),
    Current,
}

/// Where the working directory of a configuration comes from: its own
/// directory when it sets one, else the current directory.
pub fn cwd_source(config: &TaskConfigJson) -> (r: CwdSource)
    ensures
        match config@.cwd {
            Some(p) => r matches CwdSource::Configured(c) && c@ == p,
            None => r is Current,
        },
{
    match config.cwd() {
        Some(p) => CwdSource::Configured(p.clone()),
        None => CwdSource::Current,
    }
}

/// A task's own display mode overrides the default of the settings, which
/// applies only when the task sets none; every other field but the working
/// directory is the task's own.
pub proof fn lemma_display_override(c: ConfigModel, default_disp: TaskDisplay, cwd: Seq<char>)
    ensures
        c.disp matches Some(d) ==> resolve_spec(c, default_disp, cwd).disp == d,
        c.disp is None ==> resolve_spec(c, default_disp, cwd).disp == default_disp,
        resolve_spec(c, default_disp, cwd).name == c.name,
        resolve_spec(c, default_disp, cwd).cmd == c.cmd,
        resolve_spec(c, default_disp, cwd).args == c.args,
        resolve_spec(c, default_disp, cwd).env == c.env,
        resolve_spec(c, default_disp, cwd).cwd == cwd,
{
}

impl TaskConfig {
    /// Resolves a stored configuration.
    ///
    /// `default_disp` is the display mode of the settings, used when the
    /// configuration sets none; `cwd` is the outcome of resolving the working
    /// directory (the canonical form of the configured one, or the current
    /// directory), whose error is passed on.
    pub fn try_from(config: TaskConfigJson, default_disp: TaskDisplay, cwd: Result<String, Error>) -> (r: Result<TaskConfig, Error>)
        ensures
            match cwd {
                Err(e) => r == Err::<TaskConfig, Error>(e),
                Ok(c) => r matches Ok(t) && t@ == resolve_spec(config@, default_disp, c@),
            },
    {
        let cwd = match cwd {
            Ok(c) => c,
            Err(e) => return Err(e),
        };
        let TaskConfigJson { name, cmd, args, disp, cwd: _, env } = config;
        let disp = match disp {
            Some(d) => d,
            None => default_disp,
        };
        Ok(TaskConfig { name, cmd, args, disp, cwd, env })
    }

    /// The name of the task.
    pub fn name(&self) -> (r: &String)
        ensures
            r@ == self@.name,
    {
        &self.name
    }

    /// The display mode of the task.
    pub fn disp(&self) -> (r: &TaskDisplay)
        ensures
            *r == self@.disp,
    {
        &self.disp
    }

    /// The working directory of the task.
    pub fn cwd(&self) -> (r: &String)
        ensures
            r@ == self@.cwd,
    {
        &self.cwd
    }

    /// The environment variables of the task.
    pub fn env(&self) -> (r: &EnvVars)
        ensures
            r.pairs() == self@.env,
    {
        &self.env
    }

    /// The shell command that launches the task.
    pub fn command(&self) -> (r: String)
        ensures
            r@ == command_spec(self@),
    {
        proof {
            reveal_strlit(" ");
            assert(" "@ =~= seq![' ']);
        }
        let mut ret = self.cmd.clone();
        ret.append(" ");
        let joined = join_with(&self.args, " ");
        ret.append(joined.as_str());
        ret
    }
}

} // verus!
