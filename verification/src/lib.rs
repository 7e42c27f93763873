//! A console report for a set of small demonstrations.
//!
//! The report is a sequence of sections. Each section is announced by a
//! centred banner, followed by whatever its routines write, and closed by a
//! separator line and a blank line. Everything here computes text and the
//! order in which it is written; writing it to the console is the caller's
//! part.

pub mod banner;
pub mod c1_hello_word;
pub mod c2_primitives;
pub mod number;
pub mod program;
pub mod routines;
pub mod section;
pub mod text;
