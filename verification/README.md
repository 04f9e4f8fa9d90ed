# fishworker

The back end of a desktop productivity app — lists and notes, habits, focus
sessions, a mission page of roles and goals, the time-management quadrants,
daily reviews, task reminders, and an English–Chinese dictionary — written as
a library whose logic is proved with Verus.

## Layout

- `src/` — the verified library. Each module states its behaviour in
  `requires`/`ensures` contracts over mathematical models (`Seq`, `Map`,
  views of each type) and proves it.
  - `text`, `numbers`, `json`, `row`, `error`, `ids`, `clock`: the building
    blocks — trimming, replacing and joining text, decimal integers, JSON
    documents, result rows and statement values, the app's error, ids, and
    the calendar computations (made by chrono).
  - `list`, `list_migration`, `habit`, `pomodoro`, `mission`,
    `time_management`, `daily_review`: what each page reads out of its rows,
    and the statements each write, delete and reorder runs.
  - `reminder`: when a task reminds, and the text it shows.
  - `dictionary`, `youdao`: looking a word up in the cache or online, and
    reading the online dictionary's answer.
  - `config`, `schema`, `watermark`, `outbox`, `file_dialog`: cloud settings
    and how the database is opened, the local tables, the connection setup
    and migrations, sync watermarks, the outbox of local edits, and markdown
    file names.
  - Public `law_*` proof functions state what holds across functions:
    what a load gives back of a write, that imports and migrations run at
    most once, that reminders fire once per day, and so on.
- `tests/` — tests of the library on concrete values.
- `app/` — the database, network and file-system code around the library
  (libsql, reqwest, tokio, serde).
