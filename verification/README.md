# evanbot

A one-on-one Rocket League bot for the RLBot framework.

- `src/` is the verified library: the team mapping, the choice of opponent
  car, the kickoff / attack-the-ball strategy machine and the controller
  settings each strategy fixes, with the laws of the strategy machine proved
  in `src/strategy.rs`.
- `app/main.rs` is the program: it talks to the framework through the
  `rlbot` crate and does all floating-point work (positions, steering angle,
  clamping of analogue inputs, ballistic prediction).
- `tests/` runs the library on concrete inputs.
