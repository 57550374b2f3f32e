//! The plugin settings that the user gives at setup.

use crate::display::{TaskDisplay, TaskDisplayFloatSize};
use vstd::prelude::*;

verus! {

/// Settings of floating task windows.
#[derive(Debug, Clone, Copy, PartialEq, Eq, Structural)]
pub struct SettingsTaskUIFloat {
    /// The size of a floating task window.
    pub size: TaskDisplayFloatSize,
}

/// Settings of task windows.
#[derive(Debug, Clone, Copy, PartialEq, Eq, Structural)]
pub struct SettingsTaskUI {
    /// The display mode of tasks whose configuration sets none.
    pub display: TaskDisplay,
    /// The height of a horizontal split, in percent of the editor.
    pub hsplit_height: u8,
    /// The width of a vertical split, in percent of the editor.
    pub vsplit_width: u8,
    /// Settings of floating task windows.
    pub float: SettingsTaskUIFloat,
}

/// Settings of tasks.
#[derive(Debug, Clone, Copy, PartialEq, Eq, Structural)]
pub struct SettingsTask {
    /// Whether to enter insert mode in a task's terminal once launched.
    pub insert_mode_on_launch: bool,
    /// Settings of task windows.
    pub ui: SettingsTaskUI,
}

/// The plugin settings.
#[derive(Debug, Clone, Copy, PartialEq, Eq, Structural)]
pub struct Settings {
    /// Settings of tasks.
    pub task: SettingsTask,
}

/// The settings that apply when the user sets nothing: no insert mode on
/// launch, tasks in a medium float, splits of 30 (horizontal) and 50
/// (vertical) percent.
pub open spec fn default_settings() -> Settings {
    Settings {
        task: SettingsTask {
            insert_mode_on_launch: false,
            ui: SettingsTaskUI {
                display: TaskDisplay::Float,
                hsplit_height: 30,
                vsplit_width: 50,
                float: SettingsTaskUIFloat { size: TaskDisplayFloatSize::Medium },
            },
        },
    }
}

/// The page that documents the settings.
pub open spec fn wiki_url() -> Seq<char> {
    "https://github.com/dasupradyumna/launch.nvim/wiki/Plugin-Settings"@
}

/// The message sent when the user settings cannot be read.
pub open spec fn failure_text(err: Seq<char>) -> Seq<char> {
    "Deserialization failed! "@ + err + "\nRefer to ["@ + wiki_url() + "] for documentation.\n                "@
}

/// The warning sent after the user settings could not be read: the
/// settings kept, as `dump` writes them.
pub open spec fn fallback_text(dump: Seq<char>) -> Seq<char> {
    "Using default settings...\n"@ + dump + "\n                "@
}

/// Builds the warning sent after the user settings could not be read, from
/// the text that writes out the settings kept.
pub fn fallback_notice(dump: &str) -> (r: String)
    ensures
        r@ == fallback_text(dump@),
{
    let mut r = String::from_str("Using default settings...\n");
    r.append(dump);
    r.append("\n                ");
    r
}

impl Settings {
    /// The settings that apply when the user sets nothing.
    pub fn default() -> (r: Settings)
        ensures
            r == default_settings(),
    {
        Settings {
            task: SettingsTask {
                insert_mode_on_launch: false,
                ui: SettingsTaskUI {
                    display: TaskDisplay::Float,
                    hsplit_height: 30,
                    vsplit_width: 50,
                    float: SettingsTaskUIFloat { size: TaskDisplayFloatSize::Medium },
                },
            },
        }
    }

    /// Applies the outcome of reading the user settings: settings that were
    /// read replace the current ones; an error keeps them and gives the
    /// message to report.
    pub fn apply(&mut self, read: Result<Settings, String>) -> (r: Option<String>)
        ensures
            match read {
                Ok(s) => *final(self) == s && r is None,
                Err(e) => *final(self) == *old(self) && (r matches Some(m) && m@ == failure_text(e@)),
            },
    {
        match read {
            Ok(s) => {
                *self = s;
                None
            },
            Err(e) => {
                let mut m = String::from_str("Deserialization failed! ");
                m.append(e.as_str());
                m.append("\nRefer to [");
                m.append("https://github.com/dasupradyumna/launch.nvim/wiki/Plugin-Settings");
                m.append("] for documentation.\n                ");
                Some(m)
            },
        }
    }
}

} // verus!
