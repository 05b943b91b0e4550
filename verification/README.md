# duck_hunt

The rules of a Duck Hunt game, verified with Verus, and a Bevy program that
draws it.

- `src/rules.rs`: states, counters, scoring and difficulty.
- `src/timer.rs`: the game's timers, ticked by `bevy::time::Timer`.
- `src/chance.rs`: the random side and plumage of a new duck (`rand`).
- `src/game.rs`: the game as a state machine: one method per input or
  frame task, each with the exact next state as its contract.
- `src/hud.rs`: the text of the HUD and of the game-over screen.
- `src/laws.rs`: properties proved over every step and over the steps the
  rules single out.
- `app/main.rs`: the window, sprites, mouse, clock and duck flight (all in
  floating point), which hand plain values to the rules.

A level sends ten ducks. Play that resumes after the dog goes on with the
same level; a level starts over only after the pause between levels or
with a new game.
