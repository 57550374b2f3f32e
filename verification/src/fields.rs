//! The fields of a task configuration as edit mode shows them: which field
//! a line of the launcher names, and reading, setting and deleting it.

use crate::display::{display_from_name_spec, display_name, TaskDisplay};
use crate::env::{insert_key, keys_unique, lemma_insert_key, lemma_remove_key, lookup, remove_key};
use crate::task_config::{ConfigModel, TaskConfigJson};
use crate::text::{
    decimal, ends_with, ends_with_spec, join_with, join_with_spec, parse_usize, parse_usize_spec,
    split_once_spec, str_eq, lemma_find_char, trim_ascii, trim_ascii_spec, trim_end_char, trim_end_matches,
    usize_to_string, views, lemma_parse_decimal,
};
use vstd::prelude::*;

verus! {

/*----------------------------- FIELD UNDER CURSOR ----------------------------*/

/// The capture groups of the first match of the regular expression
/// `pattern` in `haystack`: group 0 is the whole match, and a group that did
/// not take part in the match is `None`. `None` when the expression does not
/// compile or does not match.
pub uninterp spec fn regex_captures_spec(pattern: Seq<char>, haystack: Seq<char>) -> Option<Seq<Option<Seq<char>>>>;

/// The character sequences of a list of optional strings.
pub open spec fn opt_views(v: Seq<Option<String>>) -> Seq<Option<Seq<char>>> {
    v.map_values(|o: Option<String>| match o {
        Some(s) => Some(s@),
        None => None,
    })
}

/// Compiles `pattern` with `regex::Regex::new` and returns the capture
/// groups of its first match in `haystack` (`Regex::captures`), each as an
/// owned string.
///
/// Trusted: the result is whatever these two calls give, named by
/// `regex_captures_spec`; nothing is stated of the regular-expression
/// semantics themselves.
#[verifier::external_body]
fn regex_captures(pattern: &str, haystack: &str) -> (r: Option<Vec<Option<String>>>)
    ensures
        match r {
            Some(g) => regex_captures_spec(pattern@, haystack@) == Some(opt_views(g@)),
            None => regex_captures_spec(pattern@, haystack@) is None,
        },
{
    let re = ::regex::Regex::new(pattern).ok()?;
    let caps = re.captures(haystack)?;
    Some(caps.iter().map(|m| m.map(|m| m.as_str().to_string())).collect())
}

/// The groups that took part in a match, in order.
pub open spec fn present(groups: Seq<Option<Seq<char>>>) -> Seq<Seq<char>>
    decreases groups.len(),
{
    if groups.len() == 0 {
        Seq::empty()
    } else {
        let rest = present(groups.drop_last());
        match groups.last() {
            Some(g) => rest.push(g),
            None => rest,
        }
    }
}

/// The alternatives of the expression that finds the field named on a line
/// of edit mode: an upper-case field label, an argument number, the line
/// that adds an argument, a variable name with its `=`, and the line that
/// adds a variable.
pub open spec fn field_patterns() -> Seq<Seq<char>> {
    seq![
        "^\\ +([A-Z]+)\\ +:"@,
        "^\\ +([0-9]+):"@,
        "^\\ +(\\+) New Arg..."@,
        "^\\ +([a-zA-Z_][[:word:]]+=)"@,
        "^\\ +\\+ New Var(=)..."@,
    ]
}

/// Whether the body of a bracketed character class, written as single
/// characters and `x-y` ranges, admits the character `c`.
pub open spec fn class_admits(body: Seq<char>, c: char) -> bool
    decreases body.len(),
{
    if body.len() == 0 {
        false
    } else if body.len() >= 3 && body[1] == '-' {
        (body[0] <= c && c <= body[2]) || class_admits(body.skip(3), c)
    } else {
        body[0] == c || class_admits(body.skip(1), c)
    }
}

/// Whether `c` may start a variable name: an ASCII letter of either case,
/// or an underscore.
pub open spec fn starts_variable_name(c: char) -> bool {
    ('a' <= c && c <= 'z') || ('A' <= c && c <= 'Z') || c == '_'
}

/// The class of the first character of a variable name in the field
/// expression.
pub open spec fn variable_start_class() -> Seq<char> {
    "a-zA-Z_"@
}

/// The alternative of the field expression that finds a variable line
/// takes, after the indentation, a name whose first character is in
/// `variable_start_class`, then word characters, then `=`; and that class
/// admits exactly the ASCII letters of either case and the underscore, so a
/// variable whose name starts with a lower-case letter is found as well as
/// one in upper case.
pub proof fn lemma_variable_pattern(c: char)
    ensures
        field_patterns()[3] == "^\\ +(["@ + variable_start_class() + "][[:word:]]+=)"@,
        class_admits(variable_start_class(), c) <==> starts_variable_name(c),
{
    reveal_strlit("^\\ +([a-zA-Z_][[:word:]]+=)");
    reveal_strlit("^\\ +([");
    reveal_strlit("a-zA-Z_");
    reveal_strlit("][[:word:]]+=)");
    assert(field_patterns()[3] =~= "^\\ +(["@ + variable_start_class() + "][[:word:]]+=)"@);
    let b = variable_start_class();
    let b1 = b.skip(3);
    let b2 = b1.skip(3);
    let b3 = b2.skip(1);
    assert(b3 =~= Seq::<char>::empty());
    assert(b.len() == 7 && b[0] == 'a' && b[1] == '-' && b[2] == 'z');
    assert(b1.len() == 4 && b1[0] == 'A' && b1[1] == '-' && b1[2] == 'Z');
    assert(b2.len() == 1 && b2[0] == '_');
    assert(class_admits(b3, c) == false);
    assert(class_admits(b2, c) == (c == '_'));
    assert(class_admits(b1, c) == (('A' <= c && c <= 'Z') || c == '_'));
    assert(class_admits(b, c) == (('a' <= c && c <= 'z') || ('A' <= c && c <= 'Z') || c == '_'));
}

/// The field that a line of edit mode names: the first group that took part
/// in the match of the field expression, if any.
pub open spec fn field_of_line(line: Seq<char>) -> Option<Seq<char>> {
    match regex_captures_spec(join_with_spec(field_patterns(), "|"@), line) {
        Some(groups) => {
            let p = present(groups);
            if p.len() > 1 {
                Some(p[1])
            } else {
                None
            }
        },
        None => None,
    }
}

/// The first group after the whole match that took part in it.
pub fn first_group(groups: &Vec<Option<String>>) -> (r: Option<String>)
    ensures
        match r {
            Some(s) => present(opt_views(groups@)).len() > 1 && s@ == present(opt_views(groups@))[1],
            None => present(opt_views(groups@)).len() <= 1,
        },
{
    let mut found: Vec<String> = Vec::new();
    let mut i: usize = 0;
    assert(opt_views(groups@).take(0) =~= Seq::<Option<Seq<char>>>::empty());
    while i < groups.len()
        invariant
            i <= groups.len(),
            views(found@) =~= present(opt_views(groups@).take(i as int)),
        decreases groups.len() - i,
    {
        let ghost before = opt_views(groups@).take(i as int);
        assert(opt_views(groups@).take(i + 1).drop_last() =~= before);
        match &groups[i] {
            Some(g) => {
                found.push(g.clone());
            },
            None => {},
        }
        i = i + 1;
    }
    assert(opt_views(groups@).take(groups.len() as int) =~= opt_views(groups@));
    if found.len() > 1 {
        Some(found[1].clone())
    } else {
        None
    }
}

/// The field that a line of edit mode names.
pub fn match_field(line: &str) -> (r: Option<String>)
    ensures
        match r {
            Some(f) => field_of_line(line@) == Some(f@),
            None => field_of_line(line@) is None,
        },
{
    let mut parts: Vec<String> = Vec::new();
    parts.push(String::from_str("^\\ +([A-Z]+)\\ +:"));
    parts.push(String::from_str("^\\ +([0-9]+):"));
    parts.push(String::from_str("^\\ +(\\+) New Arg..."));
    parts.push(String::from_str("^\\ +([a-zA-Z_][[:word:]]+=)"));
    parts.push(String::from_str("^\\ +\\+ New Var(=)..."));
    assert(views(parts@) =~= field_patterns());
    let pattern = join_with(&parts, "|");
    match regex_captures(pattern.as_str(), line) {
        Some(groups) => first_group(&groups),
        None => None,
    }
}

/*------------------------------- FIELD VALUES -------------------------------*/

/// The index of the argument that a numbered field names (numbers start at 1).
pub open spec fn arg_index(field: Seq<char>) -> int {
    parse_usize_spec(field).unwrap() - 1
}

/// The variable that a field ending in `=` names.
pub open spec fn env_var_of(field: Seq<char>) -> Seq<char> {
    trim_end_char(field, '=')
}

/// Whether a field names an argument by a number other than 0.
pub open spec fn numbered_ok(field: Seq<char>) -> bool {
    parse_usize_spec(field) != Some(0nat)
}

/// The configuration after setting `field` to `value`.
pub open spec fn set_field_spec(c: ConfigModel, field: Seq<char>, value: Seq<char>) -> ConfigModel {
    if field == "NAME"@ {
        ConfigModel { name: value, ..c }
    } else if field == "CMD"@ {
        ConfigModel { cmd: value, ..c }
    } else if field == "CWD"@ {
        ConfigModel { cwd: Some(value), ..c }
    } else if parse_usize_spec(field) is Some {
        let i = arg_index(field);
        ConfigModel {
            args: if i < c.args.len() { c.args.update(i, value) } else { c.args.push(value) },
            ..c
        }
    } else if ends_with_spec(field, '=') {
        let (k, v) = split_once_spec(value, '=').unwrap();
        ConfigModel { env: insert_key(remove_key(c.env, env_var_of(field)), k, v), ..c }
    } else {
        c
    }
}

/// The value of `field` as edit mode offers it for editing; empty when unset.
pub open spec fn get_field_spec(c: ConfigModel, field: Seq<char>) -> Seq<char> {
    if field == "NAME"@ {
        c.name
    } else if field == "CMD"@ {
        c.cmd
    } else if field == "CWD"@ && c.cwd is Some {
        c.cwd.unwrap()
    } else if parse_usize_spec(field) is Some {
        let i = arg_index(field);
        if 0 <= i < c.args.len() { c.args[i] } else { Seq::empty() }
    } else if ends_with_spec(field, '=') {
        match lookup(c.env, env_var_of(field)) {
            Some(v) => v,
            None => Seq::empty(),
        }
    } else {
        Seq::empty()
    }
}

/// Whether `field` can be deleted (or reset).
pub open spec fn deletable(field: Seq<char>) -> bool {
    field == "CWD"@ || field == "DISP"@ || parse_usize_spec(field) is Some
        || (ends_with_spec(field, '=') && field != "="@)
}

/// The configuration after deleting `field`.
pub open spec fn del_field_spec(c: ConfigModel, field: Seq<char>) -> ConfigModel {
    if field == "CWD"@ {
        ConfigModel { cwd: None, ..c }
    } else if field == "DISP"@ {
        ConfigModel { disp: None, ..c }
    } else if parse_usize_spec(field) is Some {
        let i = arg_index(field);
        ConfigModel { args: if i < c.args.len() { c.args.remove(i) } else { c.args }, ..c }
    } else if ends_with_spec(field, '=') && field != "="@ {
        ConfigModel { env: remove_key(c.env, env_var_of(field)), ..c }
    } else {
        c
    }
}

/// Sets the value of `field` in a configuration.
///
/// `NAME`, `CMD` and `CWD` set those fields, a number sets that argument, and
/// a variable name ending in `=` replaces that variable with the binding
/// `value` writes as `NAME=VALUE`; other fields are left alone.
pub fn set_config_field(config: &mut TaskConfigJson, field: &str, value: String)
    requires
        numbered_ok(field@),
        ends_with_spec(field@, '=') ==> split_once_spec(value@, '=') is Some,
    ensures
        final(config)@ == set_field_spec(old(config)@, field@, value@),
{
    if str_eq(field, "NAME") {
        config.set_name(value);
    } else if str_eq(field, "CMD") {
        config.set_cmd(value);
    } else if str_eq(field, "CWD") {
        config.set_cwd(value);
    } else {
        match parse_usize(field) {
            Some(n) => {
                config.set_arg(n - 1, value);
            },
            None => {
                if ends_with(field, '=') {
                    let var = trim_end_matches(field, '=');
                    config.set_env(var.as_str(), value);
                }
            },
        }
    }
}

/// The value of `field` in a configuration, as edit mode offers it for
/// editing; empty when the field is unset.
pub fn get_config_field(config: &TaskConfigJson, field: &str) -> (r: String)
    requires
        numbered_ok(field@),
    ensures
        r@ == get_field_spec(config@, field@),
{
    if str_eq(field, "NAME") {
        return config.name().clone();
    }
    if str_eq(field, "CMD") {
        return config.cmd().clone();
    }
    if str_eq(field, "CWD") {
        match config.cwd() {
            Some(c) => {
                return c.clone();
            },
            None => {},
        }
    }
    match parse_usize(field) {
        Some(n) => {
            let args = config.args();
            if n - 1 < args.len() {
                assert(views(args@)[n - 1] == args@[n - 1]@);
                return args[n - 1].clone();
            }
            return String::new();
        },
        None => {},
    }
    if ends_with(field, '=') {
        let var = trim_end_matches(field, '=');
        match config.env().get(var.as_str()) {
            Some(v) => {
                return v.clone();
            },
            None => {
                return String::new();
            },
        }
    }
    String::new()
}

/// Deletes `field` from a configuration, and tells whether it was a field
/// that can be deleted.
///
/// `CWD` and `DISP` are unset, a number deletes that argument, and a
/// variable name ending in `=` deletes that variable.
pub fn del_config_field(config: &mut TaskConfigJson, field: &str) -> (r: bool)
    requires
        numbered_ok(field@),
    ensures
        r == deletable(field@),
        final(config)@ == del_field_spec(old(config)@, field@),
{
    if str_eq(field, "CWD") {
        config.del_cwd();
        return true;
    }
    if str_eq(field, "DISP") {
        config.del_disp();
        return true;
    }
    match parse_usize(field) {
        Some(n) => {
            config.del_arg(n - 1);
            return true;
        },
        None => {},
    }
    if ends_with(field, '=') && !str_eq(field, "=") {
        let var = trim_end_matches(field, '=');
        config.del_env(var.as_str());
        return true;
    }
    false
}

/// A field ending in `=` is neither a named field nor a number.
proof fn lemma_var_field(field: Seq<char>)
    requires
        ends_with_spec(field, '='),
    ensures
        field != "NAME"@,
        field != "CMD"@,
        field != "CWD"@,
        parse_usize_spec(field) is None,
{
    reveal_strlit("NAME");
    reveal_strlit("CMD");
    reveal_strlit("CWD");
    let d = crate::text::unsigned_digits(field);
    if d.len() > 0 {
        assert(d.last() == field.last());
        assert(!crate::text::is_digit(d[d.len() - 1]));
    }
}

/// Reading a field back after setting it gives the value that was set: for
/// `NAME`, `CMD` and `CWD`, and for an argument that exists or comes right
/// after the last one. Setting a variable field to `NAME=VALUE` binds
/// `NAME`, so that the field `NAME=` then reads `VALUE`.
pub proof fn lemma_get_after_set(c: ConfigModel, field: Seq<char>, value: Seq<char>)
    requires
        keys_unique(c.env),
        numbered_ok(field),
        ends_with_spec(field, '=') ==> split_once_spec(value, '=') is Some,
    ensures
        (field == "NAME"@ || field == "CMD"@ || field == "CWD"@) ==> get_field_spec(
            set_field_spec(c, field, value),
            field,
        ) == value,
        (parse_usize_spec(field) is Some && arg_index(field) <= c.args.len()) ==> get_field_spec(
            set_field_spec(c, field, value),
            field,
        ) == value,
        ends_with_spec(field, '=') ==> ({
            let (k, v) = split_once_spec(value, '=').unwrap();
            get_field_spec(set_field_spec(c, field, value), k + "="@) == v
        }),
{
    reveal_strlit("NAME");
    reveal_strlit("CMD");
    reveal_strlit("CWD");
    reveal_strlit("=");
    if parse_usize_spec(field) is Some {
        assert(!ends_with_spec(field, '=')) by {
            if ends_with_spec(field, '=') {
                lemma_var_field(field);
            }
        }
    }
    if ends_with_spec(field, '=') {
        lemma_var_field(field);
        let (k, v) = split_once_spec(value, '=').unwrap();
        lemma_find_char(value, '=');
        let key = k + "="@;
        assert(ends_with_spec(key, '='));
        lemma_var_field(key);
        assert(key.drop_last() =~= k);
        assert(!ends_with_spec(k, '=')) by {
            if k.len() > 0 {
                assert(k.last() == value[k.len() - 1]);
            }
        }
        assert(trim_end_char(key, '=') == trim_end_char(k, '='));
        assert(trim_end_char(k, '=') == k);
        let removed = remove_key(c.env, env_var_of(field));
        lemma_remove_key(c.env, env_var_of(field), k);
        lemma_insert_key(removed, k, v, k);
    }
}

/// Deleting the working directory or a variable resets it: reading the
/// field back gives nothing.
pub proof fn lemma_get_after_delete(c: ConfigModel, field: Seq<char>)
    requires
        keys_unique(c.env),
        field == "CWD"@ || (ends_with_spec(field, '=') && field != "="@),
    ensures
        get_field_spec(del_field_spec(c, field), field) == Seq::<char>::empty(),
{
    reveal_strlit("NAME");
    reveal_strlit("CMD");
    reveal_strlit("CWD");
    reveal_strlit("DISP");
    if field == "CWD"@ {
        assert(crate::text::unsigned_digits(field) == field);
        assert(!crate::text::is_digit(field[0]));
        assert("CWD"@[1] != "CMD"@[1]);
    }
    if ends_with_spec(field, '=') {
        lemma_var_field(field);
        assert(field != "DISP"@);
        lemma_remove_key(c.env, env_var_of(field), env_var_of(field));
    }
}

/// What a delete may touch: the name and the command are never changed;
/// the working directory only by `CWD`, the display mode only by `DISP`, the
/// arguments only by a number and the variables only by a variable field.
/// `NAME`, `CMD`, `ARGS` and `ENV` cannot be deleted, and a field that
/// cannot be deleted leaves the configuration as it was.
pub proof fn lemma_delete_touches_only_its_field(c: ConfigModel, field: Seq<char>)
    ensures
        del_field_spec(c, field).name == c.name,
        del_field_spec(c, field).cmd == c.cmd,
        field != "CWD"@ ==> del_field_spec(c, field).cwd == c.cwd,
        field != "DISP"@ ==> del_field_spec(c, field).disp == c.disp,
        parse_usize_spec(field) is None ==> del_field_spec(c, field).args == c.args,
        !ends_with_spec(field, '=') ==> del_field_spec(c, field).env == c.env,
        !deletable("NAME"@) && !deletable("CMD"@) && !deletable("ARGS"@) && !deletable("ENV"@),
        !deletable(field) ==> del_field_spec(c, field) == c,
        deletable(field) ==> (field == "CWD"@ || field == "DISP"@ || parse_usize_spec(field) is Some
            || ends_with_spec(field, '=')),
{
    reveal_strlit("NAME");
    reveal_strlit("CMD");
    reveal_strlit("ARGS");
    reveal_strlit("ENV");
    reveal_strlit("CWD");
    reveal_strlit("DISP");
    reveal_strlit("=");
    let names = seq!["NAME"@, "CMD"@, "ARGS"@, "ENV"@];
    assert forall|i: int| 0 <= i < 4 implies parse_usize_spec(#[trigger] names[i]) is None by {
        let f = names[i];
        assert(crate::text::unsigned_digits(f) == f);
        assert(!crate::text::is_digit(f[0]));
    }
    assert(parse_usize_spec(names[0]) is None);
    assert(parse_usize_spec(names[1]) is None);
    assert(parse_usize_spec(names[2]) is None);
    assert(parse_usize_spec(names[3]) is None);
    assert("CMD"@[1] != "CWD"@[1]);
}

/*------------------------------ EDITING A FIELD -----------------------------*/

/// How edit mode asks the user for the new value of a field.
pub enum EditPrompt {
    /// The field is not edited this way.
    Nothing,
    /// A choice among the display modes `float`, `hsplit` and `vsplit`.
    ChooseDisplay,
    /// A prompt `VAR` for the variable name (offering `name`), then a prompt
    /// `VALUE` for its value (offering `value`); the result replaces `field`.
    PromptVar { field: String, name: String, value: String },
    /// A prompt titled with the field, offering its current value.
    Prompt { field: String, value: String },
}

/// The field that editing the line named `field` acts on: the line that adds
/// an argument stands for the argument after the last one.
pub open spec fn resolve_field(c: ConfigModel, field: Seq<char>) -> Seq<char> {
    if field == "+"@ {
        decimal((c.args.len() + 1) as nat)
    } else {
        field
    }
}

/// The line that adds an argument edits the argument after the last one:
/// setting it appends the value to the arguments, and changes nothing else.
pub proof fn lemma_new_arg_appends(c: ConfigModel, value: Seq<char>)
    requires
        c.args.len() < usize::MAX,
    ensures
        set_field_spec(c, resolve_field(c, "+"@), value) == (ConfigModel { args: c.args.push(value), ..c }),
{
    let n = (c.args.len() + 1) as nat;
    lemma_parse_decimal(n);
    let f = decimal(n);
    assert(resolve_field(c, "+"@) == f);
    reveal_strlit("NAME");
    reveal_strlit("CMD");
    reveal_strlit("CWD");
    assert(f != "NAME"@ && f != "CMD"@ && f != "CWD"@) by {
        if f == "NAME"@ || f == "CMD"@ || f == "CWD"@ {
            assert(crate::text::unsigned_digits(f) == f);
            assert(crate::text::is_digit(f[0]));
        }
    }
    assert(arg_index(f) == c.args.len());
}

/// What edit mode does to edit `field` of a configuration: nothing for the
/// headings `ARGS` and `ENV` and for an empty field, a choice for the display
/// mode, two prompts for a variable, one prompt otherwise.
pub fn edit_field(config: &TaskConfigJson, field: &str) -> (r: EditPrompt)
    requires
        numbered_ok(field@),
        config@.args.len() < usize::MAX,
    ensures
        ({
            let f = resolve_field(config@, field@);
            let v = get_field_spec(config@, f);
            if f == "ARGS"@ || f == "ENV"@ || f.len() == 0 {
                r is Nothing
            } else if f == "DISP"@ {
                r is ChooseDisplay
            } else if ends_with_spec(f, '=') {
                r matches EditPrompt::PromptVar { field: fd, name, value }
                    && fd@ == f && name@ == env_var_of(f) && value@ == v
            } else {
                r matches EditPrompt::Prompt { field: fd, value } && fd@ == f && value@ == v
            }
        }),
{
    let f = if str_eq(field, "+") {
        let n = config.args().len() + 1;
        proof {
            lemma_parse_decimal(n as nat);
        }
        usize_to_string(n)
    } else {
        String::from_str(field)
    };
    let value = get_config_field(config, f.as_str());
    proof {
        reveal_strlit("");
        assert(f@.len() == 0 <==> f@ =~= ""@);
    }
    if str_eq(f.as_str(), "ARGS") || str_eq(f.as_str(), "ENV") || str_eq(f.as_str(), "") {
        EditPrompt::Nothing
    } else if str_eq(f.as_str(), "DISP") {
        EditPrompt::ChooseDisplay
    } else if ends_with(f.as_str(), '=') {
        let name = trim_end_matches(f.as_str(), '=');
        EditPrompt::PromptVar { field: f, name, value }
    } else {
        EditPrompt::Prompt { field: f, value }
    }
}

/// Sets the display mode to the choice on the selected line: the line
/// without surrounding whitespace names the mode (an unknown name gives
/// `float`).
pub fn choose_display(config: &mut TaskConfigJson, line: &str)
    ensures
        final(config)@ == (ConfigModel {
            disp: Some(match display_from_name_spec(trim_ascii_spec(line@)) {
                Some(d) => d,
                None => TaskDisplay::Float,
            }),
            ..old(config)@
        }),
{
    let choice = trim_ascii(line);
    config.set_disp(TaskDisplay::from(choice.as_str()));
}

/// The display modes that editing `DISP` offers, in the order shown.
pub fn display_choices() -> (r: Vec<String>)
    ensures
        views(r@) == seq![
            display_name(TaskDisplay::Float),
            display_name(TaskDisplay::HSplit),
            display_name(TaskDisplay::VSplit),
        ],
{
    let mut r: Vec<String> = Vec::new();
    r.push(String::from_str(TaskDisplay::Float.name()));
    r.push(String::from_str(TaskDisplay::HSplit.name()));
    r.push(String::from_str(TaskDisplay::VSplit.name()));
    assert(views(r@) =~= seq![
        display_name(TaskDisplay::Float),
        display_name(TaskDisplay::HSplit),
        display_name(TaskDisplay::VSplit),
    ]);
    r
}

/// The binding `NAME=VALUE` that the variable prompts give.
pub fn env_binding(name: &str, value: &str) -> (r: String)
    ensures
        r@ == name@ + "="@ + value@,
        split_once_spec(r@, '=') is Some,
{
    let mut r = String::from_str(name);
    r.append("=");
    r.append(value);
    proof {
        reveal_strlit("=");
        crate::text::lemma_find_char(r@, '=');
        assert(r@[name@.len() as int] == '=');
        assert(r@.contains('='));
    }
    r
}

/// Where a new argument goes when inserting before the line named `field`:
/// the number of that argument and the title of the prompt, or `None` when
/// the line does not name an argument.
pub fn insert_arg_plan(field: &str) -> (r: Option<(usize, String)>)
    ensures
        match parse_usize_spec(field@) {
            Some(n) => r matches Some((k, title)) && k == n && title@ == field@ + "-new"@,
            None => r is None,
        },
{
    match parse_usize(field) {
        Some(n) => {
            let mut title = String::from_str(field);
            title.append("-new");
            Some((n, title))
        },
        None => None,
    }
}

/// Inserts the user's input, without surrounding whitespace, as argument
/// number `number` (counting from 1).
pub fn insert_arg_input(config: &mut TaskConfigJson, number: usize, input: &str)
    requires
        1 <= number <= old(config)@.args.len() + 1,
    ensures
        final(config)@ == (ConfigModel {
            args: old(config)@.args.insert(number - 1, trim_ascii_spec(input@)),
            ..old(config)@
        }),
{
    let arg = trim_ascii(input);
    config.insert_arg(number - 1, arg);
}

} // verus!
