//! A staged fixed-point resolution engine for derived character records.
//!
//! A character sheet is computed from a small stored base record plus a set of
//! independently written rule contributors (race, classes, feats). Each derived
//! field is a [`staged::Staged`] value gated by three ordered claim sets; the
//! driver in [`character`] runs contributors round by round until every claim
//! clears (convergence) or the pending count stops shrinking (deadlock).

pub mod character;
pub mod choice;
pub mod contributor;
pub mod driver;
pub mod feature;
pub mod laws;
pub mod misc;
pub mod staged;
