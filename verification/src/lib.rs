//! A vault of shared secrets that renders time-based one-time passwords.
//!
//! The crate holds the pure core of the vault: Base32 decoding and the
//! RFC 6238 generator, the item model with its validation rules, and the
//! state machine of the menu-driven controller. Everything here is a
//! function from plain values to plain values; reading keys, drawing and
//! persistence are left to the caller, which performs the [`Action`]
//! that each step hands back.
//!
//! [`Action`]: interactive::term::Action

pub mod base32;
pub mod interactive;
pub mod item;
pub mod text;
pub mod totp;
pub mod util;

pub use item::{Digits, Item};
