//! The runtime configurations: the list of task configurations of the
//! current working directory, the name of the file that stores it, and the
//! text of the buffer that edits it.

use crate::error::Error;
use crate::task_config::{default_config, TaskConfigJson};
use crate::text::{blank, is_blank, join_lines, join_lines_spec, push_char, split_lines, split_spec, views};
use vstd::prelude::*;

verus! {

/*---------------------------- CONFIGURATION LIST ----------------------------*/

/// The configurations of a list, by their models.
pub open spec fn models(v: Seq<TaskConfigJson>) -> Seq<crate::task_config::ConfigModel> {
    v.map_values(|c: TaskConfigJson| c@)
}

/// The message of the error for an index past the end of a list.
pub open spec fn out_of_bounds_text() -> Seq<char> {
    "Index out of bounds for vector"@
}

/// The element at `index`, or an internal error when there is none.
pub fn get_checked<T>(v: &Vec<T>, index: usize) -> (r: Result<&T, Error>)
    ensures
        index < v.len() ==> r == Ok::<&T, Error>(&v@[index as int]),
        index >= v.len() ==> (r matches Err(Error::Internal(m)) && m@ == out_of_bounds_text()),
{
    if index < v.len() {
        Ok(&v[index])
    } else {
        Err(Error::Internal(String::from_str("Index out of bounds for vector")))
    }
}

/// Appends a new configuration with the default fields.
pub fn add_config(tasks: &mut Vec<TaskConfigJson>)
    ensures
        models(final(tasks)@) == models(old(tasks)@).push(default_config()),
{
    tasks.push(TaskConfigJson::default());
    assert(models(tasks@) =~= models(old(tasks)@).push(default_config()));
}

/// Appends a copy of the configuration at `index`; an index past the end is
/// an error and changes nothing.
pub fn copy_config(tasks: &mut Vec<TaskConfigJson>, index: usize) -> (r: Result<(), Error>)
    ensures
        index < old(tasks)@.len() ==> r is Ok && models(final(tasks)@) == models(old(tasks)@).push(
            old(tasks)@[index as int]@,
        ),
        index >= old(tasks)@.len() ==> (r matches Err(Error::Internal(m)) && m@ == out_of_bounds_text()
            && models(final(tasks)@) == models(old(tasks)@)),
{
    let copy = match get_checked(tasks, index) {
        Ok(c) => c.duplicate(),
        Err(e) => return Err(e),
    };
    tasks.push(copy);
    assert(models(tasks@) =~= models(old(tasks)@).push(old(tasks)@[index as int]@));
    Ok(())
}

/// Deletes the configuration at `index`.
pub fn delete_config(tasks: &mut Vec<TaskConfigJson>, index: usize)
    requires
        index < old(tasks)@.len(),
    ensures
        models(final(tasks)@) == models(old(tasks)@).remove(index as int),
{
    tasks.remove(index);
    assert(models(tasks@) =~= models(old(tasks)@).remove(index as int));
}

/*--------------------------- CONFIGURATIONS FILE ----------------------------*/

/// `s` with every `@` doubled.
pub open spec fn escape_at(s: Seq<char>) -> Seq<char>
    decreases s.len(),
{
    if s.len() == 0 {
        Seq::empty()
    } else {
        let prev = escape_at(s.drop_last());
        if s.last() == '@' {
            prev + seq!['@', '@']
        } else {
            prev.push(s.last())
        }
    }
}

/// Doubles every `@` in `s`, as `s.replace("@", "@@")` does.
pub fn escape_at_signs(s: &str) -> (r: String)
    ensures
        r@ == escape_at(s@),
{
    let len = s.unicode_len();
    let mut out = String::new();
    let mut i: usize = 0;
    assert(s@.take(0) =~= Seq::<char>::empty());
    while i < len
        invariant
            i <= len,
            len == s@.len(),
            out@ == escape_at(s@.take(i as int)),
        decreases len - i,
    {
        let c = s.get_char(i);
        assert(s@.take(i + 1).drop_last() =~= s@.take(i as int));
        if c == '@' {
            push_char(&mut out, '@');
            push_char(&mut out, '@');
            assert(out@ =~= escape_at(s@.take(i as int)) + seq!['@', '@']);
        } else {
            push_char(&mut out, c);
        }
        i = i + 1;
    }
    assert(s@.take(len as int) =~= s@);
    out
}

/// The result of replacing every match of the regular expression `pattern`
/// in `haystack` with `replacement`; `None` when the expression does not
/// compile.
pub uninterp spec fn regex_replace_all_spec(pattern: Seq<char>, haystack: Seq<char>, replacement: Seq<char>) -> Option<Seq<char>>;

/// Compiles `pattern` with `regex::Regex::new` and replaces every match in
/// `haystack` with `replacement` (`Regex::replace_all`).
///
/// Trusted: the result is whatever these two calls give, named by
/// `regex_replace_all_spec`; nothing is stated of the regular-expression
/// semantics themselves.
#[verifier::external_body]
fn regex_replace_all(pattern: &str, haystack: &str, replacement: &str) -> (r: Option<String>)
    ensures
        match r {
            Some(s) => regex_replace_all_spec(pattern@, haystack@, replacement@) == Some(s@),
            None => regex_replace_all_spec(pattern@, haystack@, replacement@) is None,
        },
{
    let re = ::regex::Regex::new(pattern).ok()?;
    Some(re.replace_all(haystack, replacement).into_owned())
}

/// The expression that matches the path separators and drive colons that a
/// file name cannot hold.
pub open spec fn separator_pattern() -> Seq<char> {
    "[\\\\/:]"@
}

/// The name of the runtime configurations file for a working directory:
/// the directory with `@` doubled, then with each separator replaced by `@`,
/// then `.json`.
pub open spec fn runtime_file_name_spec(cwd: Seq<char>) -> Option<Seq<char>> {
    match regex_replace_all_spec(separator_pattern(), escape_at(cwd), "@"@) {
        Some(name) => Some(name + ".json"@),
        None => None,
    }
}

/// The name of the runtime configurations file for a working directory.
pub fn runtime_file_name(cwd: &str) -> (r: Option<String>)
    ensures
        match r {
            Some(s) => runtime_file_name_spec(cwd@) == Some(s@),
            None => runtime_file_name_spec(cwd@) is None,
        },
{
    let escaped = escape_at_signs(cwd);
    match regex_replace_all("[\\\\/:]", escaped.as_str(), "@") {
        Some(mut name) => {
            name.append(".json");
            Some(name)
        },
        None => None,
    }
}

/// Whether closing the configurations buffer also removes the
/// configurations file: when no configuration is left and the file exists.
pub fn removes_file(tasks: &Vec<TaskConfigJson>, file_exists: bool) -> (r: bool)
    ensures
        r == (tasks@.len() == 0 && file_exists),
{
    tasks.len() == 0 && file_exists
}

/*---------------------------- CONFIGURATIONS TEXT ---------------------------*/

/// The lines that the configurations buffer shows for the serialized text.
pub fn serialize_to_string(contents: &str) -> (r: Vec<String>)
    ensures
        views(r@) == split_spec(contents@, '\n'),
{
    split_lines(contents)
}

/// The text of the configurations buffer: every line followed by a line feed.
pub fn deserialize_from_string(lines: &Vec<String>) -> (r: String)
    ensures
        r@ == join_lines_spec(views(lines@)),
{
    join_lines(lines)
}

/// Whether the buffer text holds configurations to read: text that is only
/// whitespace leaves the configurations as they are.
pub fn holds_configs(contents: &str) -> (r: bool)
    ensures
        r == !is_blank(contents@),
{
    !blank(contents)
}

/// Whether there is an undone change to redo: the current change is not
/// the last one.
pub fn can_redo(seq_cur: i64, seq_last: i64) -> (r: bool)
    ensures
        r == (seq_cur != seq_last),
{
    seq_cur != seq_last
}

/// Whether there is a change to undo: the buffer is not at the start of
/// its undo history.
pub fn can_undo(seq_cur: i64) -> (r: bool)
    ensures
        r == (seq_cur != 0),
{
    seq_cur != 0
}

} // verus!
