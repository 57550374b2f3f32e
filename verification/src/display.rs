//! Display modes of a task window and sizes of a floating task window.

use crate::text::str_eq;
use vstd::prelude::*;

verus! {

/// The ways a task window can be shown.
#[derive(Debug, Clone, Copy, PartialEq, Eq, Hash, Structural)]
pub enum TaskDisplay {
    /// A floating window centred in the editor.
    Float,
    /// A vertical split of the current window.
    VSplit,
    /// A horizontal split of the current window.
    HSplit,
}

/// The name of a display mode, as configurations and settings write it.
pub open spec fn display_name(d: TaskDisplay) -> Seq<char> {
    match d {
        TaskDisplay::Float => "float"@,
        TaskDisplay::HSplit => "hsplit"@,
        TaskDisplay::VSplit => "vsplit"@,
    }
}

/// The display mode that a name stands for, if any.
pub open spec fn display_from_name_spec(s: Seq<char>) -> Option<TaskDisplay> {
    if s == "float"@ {
        Some(TaskDisplay::Float)
    } else if s == "hsplit"@ {
        Some(TaskDisplay::HSplit)
    } else if s == "vsplit"@ {
        Some(TaskDisplay::VSplit)
    } else {
        None
    }
}

impl TaskDisplay {
    /// The display mode named by `value`; an unknown name gives `Float`.
    pub fn from(value: &str) -> (r: TaskDisplay)
        ensures
            r == match display_from_name_spec(value@) {
                Some(d) => d,
                None => TaskDisplay::Float,
            },
    {
        match TaskDisplay::from_name(value) {
            Some(d) => d,
            None => TaskDisplay::Float,
        }
    }

    /// The display mode named by `value`, or `None` for an unknown name.
    pub fn from_name(value: &str) -> (r: Option<TaskDisplay>)
        ensures
            r == display_from_name_spec(value@),
    {
        if str_eq(value, "float") {
            Some(TaskDisplay::Float)
        } else if str_eq(value, "hsplit") {
            Some(TaskDisplay::HSplit)
        } else if str_eq(value, "vsplit") {
            Some(TaskDisplay::VSplit)
        } else {
            None
        }
    }

    /// The name of this display mode.
    pub fn name(&self) -> (r: &'static str)
        ensures
            r@ == display_name(*self),
    {
        match self {
            TaskDisplay::Float => "float",
            TaskDisplay::HSplit => "hsplit",
            TaskDisplay::VSplit => "vsplit",
        }
    }
}

/// A display mode is recovered from its name.
pub proof fn lemma_display_name_roundtrip(d: TaskDisplay)
    ensures
        display_from_name_spec(display_name(d)) == Some(d),
{
    reveal_strlit("float");
    reveal_strlit("hsplit");
    reveal_strlit("vsplit");
    assert("float"@.len() != "hsplit"@.len());
    assert("float"@.len() != "vsplit"@.len());
    assert("hsplit"@[0] != "vsplit"@[0]);
}

/// The sizes of a floating task window.
#[derive(Debug, Clone, Copy, PartialEq, Eq, Structural)]
pub enum TaskDisplayFloatSize {
    /// 45 percent of the editor in each direction.
    Small,
    /// 65 percent of the editor in each direction.
    Medium,
    /// 85 percent of the editor in each direction.
    Large,
}

/// The share of the editor, in percent, that a floating window of a size takes.
pub open spec fn size_percent(s: TaskDisplayFloatSize) -> nat {
    match s {
        TaskDisplayFloatSize::Small => 45,
        TaskDisplayFloatSize::Medium => 65,
        TaskDisplayFloatSize::Large => 85,
    }
}

/// The size that a name stands for, if any.
pub open spec fn size_from_name_spec(s: Seq<char>) -> Option<TaskDisplayFloatSize> {
    if s == "small"@ {
        Some(TaskDisplayFloatSize::Small)
    } else if s == "medium"@ {
        Some(TaskDisplayFloatSize::Medium)
    } else if s == "large"@ {
        Some(TaskDisplayFloatSize::Large)
    } else {
        None
    }
}

impl TaskDisplayFloatSize {
    /// The share of the editor, in percent, that this size takes.
    pub fn percent(&self) -> (r: u32)
        ensures
            r == size_percent(*self),
    {
        match self {
            TaskDisplayFloatSize::Small => 45,
            TaskDisplayFloatSize::Medium => 65,
            TaskDisplayFloatSize::Large => 85,
        }
    }

    /// The size named by `value`, or `None` for an unknown name.
    pub fn from_name(value: &str) -> (r: Option<TaskDisplayFloatSize>)
        ensures
            r == size_from_name_spec(value@),
    {
        if str_eq(value, "small") {
            Some(TaskDisplayFloatSize::Small)
        } else if str_eq(value, "medium") {
            Some(TaskDisplayFloatSize::Medium)
        } else if str_eq(value, "large") {
            Some(TaskDisplayFloatSize::Large)
        } else {
            None
        }
    }
}

/// The name that settings give a float size.
pub open spec fn size_name(s: TaskDisplayFloatSize) -> Seq<char> {
    match s {
        TaskDisplayFloatSize::Small => "small"@,
        TaskDisplayFloatSize::Medium => "medium"@,
        TaskDisplayFloatSize::Large => "large"@,
    }
}

/// The float sizes are read by their own names: each size comes back from
/// its name, `small`, `medium` and `large` take 45, 65 and 85 percent of the
/// editor, so a larger name gives a larger window, and no other name is a
/// size.
pub proof fn lemma_size_names(s: TaskDisplayFloatSize, name: Seq<char>)
    ensures
        size_from_name_spec(size_name(s)) == Some(s),
        size_percent(size_from_name_spec("small"@).unwrap()) == 45,
        size_percent(size_from_name_spec("medium"@).unwrap()) == 65,
        size_percent(size_from_name_spec("large"@).unwrap()) == 85,
        size_percent(size_from_name_spec("small"@).unwrap()) < size_percent(size_from_name_spec("medium"@).unwrap()),
        size_percent(size_from_name_spec("medium"@).unwrap()) < size_percent(size_from_name_spec("large"@).unwrap()),
        size_from_name_spec(name) matches Some(t) ==> name == size_name(t),
{
    reveal_strlit("small");
    reveal_strlit("medium");
    reveal_strlit("large");
    assert("small"@.len() != "medium"@.len());
    assert("small"@[0] != "large"@[0]);
    assert("medium"@.len() != "large"@.len());
}

} // verus!
