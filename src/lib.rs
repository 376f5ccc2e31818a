//! Command handlers of a small desktop shell: a greeting built from a
//! fixed template, and the refresh signal sent to the UI surface together
//! with the rule that turns its delivery outcome into a command result.
pub mod greeting;
pub mod refresh;
