# bevy_game

A small 3D shooter built on Bevy and Avian. The game's rules live in a
library verified with Verus; the Bevy program around it lives in `app/`.

- `src/` — the verified rules:
  - `game`: game state, mode and difficulty;
  - `menu`: main-menu and difficulty-screen navigation;
  - `endless`: endless-mode waves (how many enemies, which ranks);
  - `enemy`: which enemy a rank spawns and with what health;
  - `boss`: the boss's draining health, despawning, target choice;
  - `player`: camera switching, keyboard input, melee and shove responses;
  - `weapons`: pistol damage and weapon pick-up;
  - `rng`: the game's generator, with a proof-only record of its draws.
- `tests/`: tests of the library on concrete values.
- `app/`: plugins, systems, UI and physics (floating-point work stays here).
