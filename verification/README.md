# arcade

The rules of three small games for the Turbo game engine, verified with Verus.

- `src/catch_me.rs`: "Catch Me If You Can", a two-mouse chase game. The whole
  frame (hits, the clicking race, restarts and what to draw) is one verified
  function, `step`, together with the box collision test and the race colour.
- `src/darth_chips.rs`: the integer part of "Darth Vader's Chip Battle": saber
  easing, force-lightning cooldown, calories and game over, enemy spawning.
- `src/may_the_4th.rs`: the integer part of "Star Wars Blaster Challenge":
  lives, score, spawn pacing and the life markers.
- `src/host.rs`: the one trusted call into the engine (its random numbers).
- `app/`: the engine side: input, drawing and the floating-point movement.
