//! A scripted, timing-driven sequence of full-screen phases: a BIOS splash
//! with a gated memory counter, a boot log, an interactive menu, and a
//! placeholder game screen. The core is a phase state machine with
//! incremental, time-paced content reveal and an animated zoom-and-fade
//! transition; all timing is counted in whole milliseconds and all
//! animation values are fixed-point integers, so that every step of the
//! machine is verified. A rendering and input backend drives the machine
//! from outside by feeding delta times and discrete input events.

pub mod bios;
pub mod boot;
pub mod controller;
pub mod digits;
pub mod game;
pub mod menu;
pub mod revealer;
pub mod timer;
pub mod transition;
