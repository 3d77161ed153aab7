# torn

Torn is a light-cycle game for an 80x25 text screen: the player's cycle and
an opponent race around a walled arena, each leaving a trail of light; the
player steers with the arrow keys (`p` starts, `e` ends, `r` restarts), the
opponent steers itself, and the player scores each time the opponent runs
into a trail.

- `src/` is the game's rules, verified with Verus. Drawing is not done
  there: each step hands back a list of `screen::Draw` operations.
  - `screen`: screen size, colours, drawing operations, and how a text map
    lands on the screen;
  - `walls`: the arena's walls and the full-screen pictures;
  - `maps`: the three text maps, with the proof that they fit the screen and
    that the arena's map is walled in;
  - `player`, `light`: the cycles and their trails;
  - `game`: the game's state and its steps (tick, key press);
  - `arena`: what every step keeps true, and the laws of the game.
- `app/` drives the game from the timer and keyboard interrupts of
  `pluggable_interrupt_os` and performs the drawing on the VGA buffer.
- `tests/` runs the library on concrete games.
