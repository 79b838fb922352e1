# astro_agent

An astrology reading assistant that asks a language model (Google Gemini) for
readings, keeps a journal of clients in SQLite, and resolves birth places to
coordinates and historical UTC offsets.

- `src/` is the library, verified with Verus: the retry and backoff policy of
  the model calls (`api`), reading the wait out of rate-limit messages and
  headers, the request and answer shapes, the target-date and fallback-date
  logic (`api`, `dates`), time-zone offsets (`geo`), the chart data (`math`,
  `rules`), the reading workflow's decisions, prompts, anonymisation and file
  names (`reading`), and text utilities with their specifications (`text`,
  `utils`). Calls into `chrono`, `chrono-tz` and `rand` go through small
  trusted wrappers whose contracts state what those crates document.
- Every request built for the model has the client's name replaced by "The
  Querent" wherever it occurs (`api::build_request`, `text::redact`), and the
  library proves that no occurrence of the name is left in it.
- A reading is a state machine (`workflow`): `begin_reading` and
  `reading_step` decide, from each event, the next action — locate the birth
  place, record the client, ask for the house system, ask the model for the
  target date, wait 31 seconds, ask for the reading, save it, write its page,
  or stop. The library proves that a refused client stops the reading before
  any call, that the reading is asked for only after the wait, and that a
  failed reading call saves nothing.
- `app/` is the program around it: menus, network calls, the database, files
  and the console, which perform the workflow's actions, plus the
  floating-point parts (coordinates, the wait read from a message).
- `tests/` runs the library against concrete values.
