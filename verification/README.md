# launch_nvim

A task launcher for Neovim: per working directory, the user keeps a list of
task configurations (name, command, arguments, display mode, working
directory, environment), edits them in a launcher window with select, view
and edit modes, and launches them in terminal windows.

- `src/` is the library, verified with Verus: the launcher's state machine,
  the editing of configuration fields, the texts the windows show, the
  runtime configurations file and its buffer text, the active tasks and
  their windows, the settings, and the geometry of floating windows.
- `tests/` runs the library on concrete values.
- `app/` is the Neovim plugin around the library: the entry point, editor
  calls, JSON (de)serialization and the plugin state.
