# ecoach_commands

The command layer of the eCoach learning platform: the checks, plans and read models
that sit between the application's SQLite store and the transfer objects its user
interface receives, written in Verus and proved against their specifications.

- `src/` is the verified library. Each module follows one area of the command surface
  (attempts, diagnostics, question administration, past papers, the practice-paper seed,
  product surfaces, the academic vault, mocks, intake), with `text` holding the string
  helpers every module shares and `error` the error type commands return. Functions take
  the values read from storage as plain arguments and return what should be shown or
  written.
- `app/` is ordinary Rust around it: the database handle, the SQL that reads rows for
  the library and writes back its decisions, and serde copies of the transfer objects.
- `tests/` exercises the library on concrete values.
