# td

A command line client for Todoist, with its logic verified by Verus.

- `src/` is the library: the model of the synced data (`model`), the
  command line as values (`cli`) and its routing (`dispatch`, `startup`),
  each command's decisions (`commands/`), and everything printed, as tables
  or as the records behind the JSON output (`output/`). Text is modelled as
  sequences of characters (`text`), colours as the escape sequences around
  them (`style`), and calendar dates by their day numbers (`dates`).
- `app/` is the program around it: argument parsing, the settings file, the
  keyring prompt, the sync client and cache store, and printing.
- `tests/` runs the library on concrete values.

Laws of the library are public proof functions named `law_*`, next to the
functions they speak of.
