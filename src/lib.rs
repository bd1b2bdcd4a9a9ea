// A USB CDC-ACM serial device beside a blinking LED, under a cooperative
// scheduler, all from fixed-size buffers:
//   arena      - buffers handed out once at startup
//   control    - SETUP packets, control answers, IN packet splitting
//   descriptor - fixed-capacity descriptor buffer and set builder
//   config     - device configuration and its descriptors
//   cdc        - the CDC-ACM class: line coding, control lines, bulk endpoints
//   device     - the enumeration state machine
//   task       - the blink task, the timer and the executor
use vstd::prelude::*;

pub mod arena;
pub mod cdc;
pub mod config;
pub mod control;
pub mod descriptor;
pub mod device;
pub mod task;

verus! {

} // verus!
