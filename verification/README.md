# ymz

A headless client for the "My Wave" radio of Yandex Music that plays through
the system's audio output and is driven over MPRIS v2.

- `src/` is the library, verified with Verus: the request rules of the web API
  (`api`, `retry`), the signed stream address (`stream`), the published MPRIS
  state (`mpris`), the decisions of the playback loop (`player`), the choice of
  the token (`config`) and the text helpers they share (`text`). Each module
  states its laws as public proof functions.
- `app/` is the program: HTTP, D-Bus, audio output, signals and the
  environment, calling the library for every decision.
- `tests/` runs the library on concrete values.
