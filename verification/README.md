# bevy_cli

The decision logic of the `bevy` command line tool and of its
duplicate-dependency lint, verified with Verus.

- `src/` is the verified library. `files` decides what the file watcher
  forwards, which changed files count, when a change asks for a rebuild and
  which directories are watched; `watch` decides what the watch loop does on
  each message and how a built app is opened; `builder` keeps track of which
  build is the newest and reports each finished build once; `install` decides when a tool is
  installed, what the user is asked and which `cargo install` command runs;
  `lint` finds the dependents of `bevy` whose requirement the workspace's
  `bevy` version does not meet; `zst` holds the zero-sized-query lint's
  decisions; `web` the development server's settings and reload message;
  `version` and `paths` reach `semver` and `std::path`; `text` renders
  numbers.
- `app/` carries out what the library decides: it runs processes, prompts,
  watches the file system, serves the web build and reads `Cargo.toml`.
- `tests/` runs the library on concrete inputs.
