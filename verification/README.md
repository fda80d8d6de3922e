# bot_core

The decision logic of a game bot, verified with Verus.

- `src/operation.rs`, `src/clock.rs`: when the bot runs and when it halts.
- `src/player/`: the state machines that solve runes, follow transparent shapes and carry out
  Threads of Fate.
- `src/solvers/`: tracking of the Violetta mushrooms and of a transparent shape.
- `src/services/`: what follows from events and from requests of the user interface.
- `src/panel/`: what the control panel does with what is typed and clicked.
- `src/debug.rs`: labels and names for saved runes, and what is drawn on frames.
- `tests/`: tests of the library.
- `app/`: detections, input, channels, images and pages around the library.

A state machine never looks at a frame itself. It tells which detection it wants next, the answers
are filled into a `Detector`, and one tick turns state and answers into the next state and a list of
input commands. Event handlers work alike: they read an `EventContext` and append effects to it.
