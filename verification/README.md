# rose_launcher

Verified logic of the ROSE Offline client's launcher and archive tools, with
the decisions of a few of the client's game systems.

- `src/` is the library, verified with Verus:
  - `launcher`: the saved configuration and its defaults, the client's
    command line (`LauncherApp::build_args`), the steps of a launch
    (`LauncherApp::launch_step`), save messages, and taking over detected paths.
  - `text`: trimming, the verbatim-path prefix, joining.
  - `vfs_index`: the file list of a vanilla irose `data.idx`.
  - `extract`: where an extracted file is written.
  - `debug_menu`, `systems`, `audio`: decisions of the debug menu, of game
    systems, and the output buffer layout of the audio callback.
- `app/` is the program around it: the launcher window (eframe, rfd), the
  configuration file (serde, toml), the file system probing, and the two
  extractors as subcommands (rose-file-readers).
- `tests/` runs the library on concrete values.
