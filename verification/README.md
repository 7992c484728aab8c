# acr_recorder

Verified core of an AC Rally / ACC telemetry recorder and its tools.

- `src/` — the library, verified with Verus: the MoTeC `.ld` byte layout and its read-back
  law, rkyv recording framing and header checks, the companion JSON document and its
  schema rules, MoTeC channel profiles, pacenote courses (callout order, corner
  severities, stage choice, track slugs), the live track matcher's decisions (track
  lock and unlock, the stage picker, the staged start, splits), sector sets of the
  reference tracks, command lines of the track matcher and the sector filter, overlay
  text for RTSS, and text and calendar helpers.
- `tests/` — tests of the library.
- `app/` — what touches the outside world: files, JSON/TOML documents, shared memory,
  audio, and the floating-point geometry of the tools.
