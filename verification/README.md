# aux

A terminal music player with an AI companion, built around a library whose
logic is proved with Verus.

- `src/` — the verified library: queue navigation and shuffling, repeat,
  speed, volume, sleep-timer and equalizer cycles, media sources, transcript
  parsing and synced lyrics, AI request framing and reply extraction,
  configuration commands and profiles, library bookkeeping (queue positions,
  resume points, search history, listening statistics), and the TUI's key
  handling, paging and panels. Public functions state their results in their
  contracts, except where a result comes from the environment or from chance
  (the configuration directory, the shuffle's random draws), where the
  contract says what holds of every outcome; the `lemma_*` proof functions
  state properties across calls.
- `app/` — the program around it: argument parsing, the terminal UI and its
  event loop, mpv and yt-dlp processes, SQLite storage, HTTP calls to the AI
  service and the configuration file. It asks the library for every decision
  and performs the outside work.
- `tests/` — tests of the library on concrete values.
