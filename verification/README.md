# mover_controller

Firmware logic of a closed-loop controller for the two drive motors of a small
robot (a Raspberry Pi Pico driving an L298N, with quadrature encoders, commanded
over USB serial).

- `src/` is the verified library: the motor direction and the pin writes that
  select it (`motor`), assembly of serial bytes into command lines (`line`),
  reading what a line asks for (`command`), the status report (`report`),
  encoder edge counting (`encoder`) and the control loop's clock (`clock`).
- `app/` is the firmware around it: hardware setup, USB serial, the encoder
  interrupt, the floating-point speed and PID computations, and the main loop.
