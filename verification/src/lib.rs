//! Driver library for an addressable LED matrix module on a serial link.
//!
//! The library holds everything the program decides or computes: the wire
//! protocol (command framing, the packed boolean encoding, the per-column
//! brightness path, firmware-version decoding), the 34x9 frame buffer and
//! its overlay compositor, and the widget renderers that turn live telemetry
//! values into small bitmaps. All I/O — the serial port itself and the
//! system telemetry sources — stays outside, handing the library plain
//! values and taking plain values back.

pub mod ledmatrix;
pub mod matrix;
pub mod refresh;
pub mod widget;
