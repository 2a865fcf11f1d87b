//! A small interactive picker: the user types a number, the picker validates
//! it against the count of selectable targets, and on confirmation asks a
//! collaborator to open the target with that number.
//!
//! The crate has three parts:
//! - [`numeric`]: trimming and base-10 parsing of the typed text, and
//!   rendering of counts into the status message;
//! - [`state`]: [`state::PickerState`], the single source of truth for the
//!   raw input, the parsed selection and the status text;
//! - [`controller`]: [`controller::PickerController`], the confirm/cancel
//!   state machine that turns notifications into outbound effects.

pub mod controller;
pub mod numeric;
pub mod state;
