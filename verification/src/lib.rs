//! A small stateful counter behind a boundary layer fit for foreign callers.
//!
//! The counter itself ([`counter::Counter`]) keeps a 64-bit signed value with
//! saturating increments, an optional label (UTF-8 bytes without NUL, so it
//! can round-trip through a NUL-terminated transport), and an optional
//! change callback. The boundary layer ([`boundary::Boundary`]) owns every
//! live counter behind an opaque handle, maps each outcome to a status code,
//! records a message for every failing call, and drives a two-phase sizing
//! protocol for returning the label into a caller-allocated buffer.
//!
//! Every operation is specified and verified here; the raw-pointer shell a
//! foreign caller links against stays outside this crate and only translates
//! pointers to the plain values these functions take.

pub mod boundary;
pub mod counter;
pub mod label;
pub mod status;
