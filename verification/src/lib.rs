//! Driver core for a MIPI-DCS compatible TFT display controller (ILI9488).
//!
//! The crate brings a panel from power-on or reset into a configured,
//! pixel-streaming-ready state and then streams framebuffer pixel data to it.
//! The transport, the optional reset line and the delay source are
//! collaborators handed in per call through the traits in [`interface`];
//! everything the driver sends through them is pinned down, byte for byte,
//! by the contracts in [`ili9488`] and [`dcs`].

pub mod bytes;
pub mod color;
pub mod dcs;
pub mod error;
pub mod ili9488;
pub mod interface;
pub mod options;
pub mod record;
