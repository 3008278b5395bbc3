//! Control of a height-adjustable desk over its radio link: the height
//! calibration and command frames, the decoding of the desk's notifications,
//! and the closed-loop controller that drives the desk to a requested height.
pub mod codec;
pub mod controller;
pub mod decoder;
pub mod peripheral;
