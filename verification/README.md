# daydreams

The decision-making core of the DayDreams game extensions, written in Verus: every function
in `src/` carries a contract that Verus proves, and the properties the game relies on across
calls -- a settings file reads back what was written, a key opens one lock once, a face never
changes while watched, a jump never doubles -- are stated and proved as lemmas beside the code.

- `src/` -- the verified library. Menus and settings (`menu`, `settings`, `layout`, `scenes`),
  rendering bookkeeping (`occlusion`, `scissor`), and the state machines of the props and
  characters (`inventory`, `key`, `tool`, `painting`, `jump`, `sprint`, `npc`, `rotate`).
  Times are counted in fixed steps or handed in as answers; nothing in it is floating point.
- `app/` -- the platform side: per-thread state behind free functions, the settings file on
  disk, and the measurements in seconds and metres the library's decisions are made from.
- `tests/` -- the scenarios, run against the compiled library.
