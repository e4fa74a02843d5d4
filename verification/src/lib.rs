//! Core logic of a small desktop utility that turns an SVG image into a
//! multi-resolution ICO icon, previews the icon's entries, and saves the
//! result.
//!
//! The library holds everything that can be stated and proved: the
//! application state machine (which button press causes which effect, when
//! saving is offered), the decoding of an ICO buffer into preview entries
//! (behind a trusted wrapper over the `ico` crate), and the rendering of the
//! pixel-dimension labels shown next to each preview. The surrounding
//! program (window layout, dialogs, file access) lives outside the library
//! and only carries plain values in and out.

pub mod app;
pub mod icons;
pub mod label;
