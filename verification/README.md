# Paperclip

The logic of the Paperclip applications for an e-ink tablet, as a verified
library, and the programs around it.

- `src/sudoku_rules`: digits, cells, grids, a solver that counts solutions, a
  generator whose puzzles have exactly one, the game, and its save format.
- `src/chess_rules`: the game of chess over the `chess` crate's move generator:
  legal moves, every way a game ends, claimable draws, and replay of an event
  log.
- `src/sudoku`, `src/chess`: what a tap on each screen does, what it changes on
  the glass, and what the screen says.
- `src/home`: the shelf and the system summary.
- `src/settings`: the six pages, the confirmation before anything destructive,
  and what the host is asked.
- `src/app_store`: what is installed and offered, the one operation in flight,
  the lines of every view, and the wrapping of release notes.
- `src/render_test_card`: the card that shows what the panel does.
- `tests`: the library's tests.
- `app`: drawing, hit-testing, files, threads and the SDK's session loop. It
  needs the platform's own crates (`paper_sdk`, `paper_packages`,
  `paper_compositor`), which are built beside it.

A screen never hit-tests: the program says what of the drawn screen a pointer
landed on, and the library says what that does. Where the program draws is
floating point and stays there; what it draws is the library's to say.
