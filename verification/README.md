# tama-core

A virtual pet in the style of the 1996 handhelds, with its rules verified by
Verus: hunger and happiness hearts that drain at each character's rate, care
and discipline calls, poop and sickness, sleep, death, evolution, a guessing
game, and a permission gate for AI agents that act on the pet.

## Layout

- `src/` — the verified library.
  - `state`, `time`, `characters`: the pet's record, timestamps, per-character constants.
  - `engine`: the tick (decay with carried minutes, deadlines, poop, sickness,
    sleep and the lights deadline, death, evolution hook).
  - `evolution`, `actions`: growing up, and what the owner can do.
  - `persistence`: bringing a saved pet up to date, one tick per elapsed minute.
  - `permissions`, `agent`: gating and handling agent requests.
  - `sprites`, `display`, `screen`, `alerts`: braille sprites and every line of text shown.
  - `rng`: random draws, from `rand`.
  - `runs`: properties of runs of ticks a minute apart (neglect and untreated
    sickness kill, lights left on cost a care mistake, hearts drain at the
    character's rate, loading ticks once per elapsed minute).
  - `laws`: properties that span operations (meters stay in range, identity
    kept by actions, stage consistency, one-tick neglect and sickness deaths,
    decay independent of how time is split, clock after loading, rate limits).
- `tests/` — tests run against the compiled library.
- `app/` — the terminal front end: files, lock, JSON, network and drawing.

