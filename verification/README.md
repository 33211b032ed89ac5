# molt

The verified core of Molt, a terminal UI and command-line tool that manages
Python virtual environments and runs code inside them.

- `src/` is the library, written in Verus: the data model, configuration
  defaults, key bindings, the project registry, interpreter selection, backend
  command planning, project services, the command-line decisions, themes and
  the terminal UI's state machine. Verus checks all of it; the public
  functions state their results in contracts, and the `law_*` proof
  functions state properties that span several functions. The library
  models a Unix host (`bin/python` inside an environment).
- `app/` is the program around it: argument parsing, TOML files, the file
  system, processes and drawing the terminal UI. It hands the library plain
  values and performs what the library decides.
- `tests/` exercises the library on concrete values.
