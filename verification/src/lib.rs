//! A pomodoro schedule library: work and break intervals produced in a fixed
//! rotation (four work periods alternating with three short breaks, then one
//! long break), each interval carrying its length and its start and end
//! messages. The sequencing state machine is verified; running the timers is
//! left to the surrounding program.

pub mod config;
pub mod interval;
pub mod sequence;
