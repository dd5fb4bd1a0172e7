# dotlinker

A dotfile symlink manager whose core is verified with Verus.

- `src/` — the verified library:
  - `yaml.rs`: the model of loaded YAML documents and the loader (`saphyr`).
  - `config.rs`: reading a module file (`dot_rs` or `mod_info` section) into `ModInfo`.
  - `path.rs`: path joining, the base directories of a home directory, and the
    path functions of `std` and `pathdiff`.
  - `entry.rs`: entry syntax (`name`, `:name`, `src:dest`, `$`, `*name`) resolved to
    a source and a destination.
  - `symlink.rs`: what to do at a destination (create, skip, back up and replace,
    remove a broken link), as a list of filesystem actions.
  - `filesystem.rs`: what those actions do to the filesystem, and the proof that a
    second run of the same link changes nothing.
  - `linker.rs`: `DotLinker`, which turns a module into its links.
- `app/` — the command line: arguments, logging, reading the filesystem and
  carrying out the planned actions.
- `tests/` — tests of the library.
