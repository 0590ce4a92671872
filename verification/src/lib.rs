//! A command-driven display controller for a small serial-to-display device.
//!
//! The device reads single command bytes from a serial line and shows a short
//! text message on a monochrome dot-matrix panel. This crate holds the part of
//! the firmware that makes decisions: the interpreter that maps a command byte
//! to a display instruction, a model of the display's buffered surface, and the
//! controller step that drives clear, draw and flush for each received byte.
//! The hardware itself (the serial receiver and the panel's bus) sits outside;
//! the controller takes each poll result and each bus outcome as an argument
//! and is verified for every value of them.

pub mod controller;
pub mod interpreter;
pub mod surface;
