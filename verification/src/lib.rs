//! Cross-platform linker-section layout protocol for distributed slices.
//!
//! Independent compilation units each contribute elements to a named
//! collection; the link editor gathers every contribution into one contiguous
//! section of the final image, and the program observes that section as an
//! ordinary read-only sequence. This crate verifies the three pieces that
//! make that safe:
//!
//! * [`name`] — the naming resolver: the exact section and boundary-symbol
//!   strings, per target platform, that form the linker-level ABI;
//! * [`layout`] — the layout protocol: how fragments of a section are merged
//!   by the link editor, and where every element lands between the two
//!   boundary addresses;
//! * [`view`] — the view constructor: turning the two boundary addresses into
//!   a bounds-checked pointer/length view, failing fast on any layout
//!   violation.

pub mod platform;
pub mod name;
pub mod layout;
pub mod view;

pub mod linux;
pub mod freebsd;
pub mod macos;
pub mod windows;
pub mod illumos;
