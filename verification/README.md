# Nebulon Monsters

A space-invaders style arcade game (SDL2 and OpenGL), whose game logic is a
library verified with Verus.

- `src/` — the verified library: level layouts and monster classes, the
  splitmix64 random generator, the score table, the menus, the game-flow
  state machine, the collision rules, the slot reuse of shots and bombs, the
  bitmap-font character map, the level and score texts, the settings texts
  (but the pause one, a float), the top score lines, and the configuration
  file text.
- `tests/` — tests of the library on concrete values.
- `app/` — the program around it: window, input, sound, OpenGL rendering,
  the floating-point motion of the objects, and reading the configuration
  file. The shader sources are read at run time from a `shaders/` directory
  (`<name>_v.glsl` and `<name>_f.glsl`).
