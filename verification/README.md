# pulsar

The core of a mod manager for No Man's Sky, written in Verus: the edits of
the mod settings document (`GCMODSETTINGS.MXML`), the planning and execution
of archive installs, the mod list shown to the user, and the command flows
that tie these to the file system, each with a contract proved by Verus.

## Layout

- `src/` — the verified library. The file system, the network and the clock
  are reached through functions handed in by the caller, so every decision
  is proved for every answer they may give. Calls into outside crates
  (`serde_json`, `url`, `reqwest`) and a few std functions (the clock
  among them) stand
  behind small trusted wrappers whose contracts are documented where they
  are declared.
  - `models`, `text`, `paths`, `sorting`: the data types and the string,
    path and sorting helpers the contracts are written in.
  - `ordering`, `command_mutations`: delete, reorder and rename of mods in
    the settings document.
  - `install_*`, `archive`, `conflict_resolution`: installing from an
    archive, from copying it to deploying its folders.
  - `command_*`, `commands*`: the commands as the app calls them.
  - `info_ops`, `tracking`: `mod_info.json` edits and untracked mods.
  - `laws`: properties that relate several operations, proved once.
- `tests/` — tests of the library on concrete values.
- `app/` — the file system, network, XML and JSON serialisation and async
  glue around the library.
