//! Decision logic of a closed-loop, two-motor controller: motor direction and
//! the pin writes that select it, serial line assembly, command parsing, the
//! status report, encoder edge counting and the control loop's clock.

pub mod clock;
pub mod command;
pub mod encoder;
pub mod line;
pub mod motor;
pub mod report;
