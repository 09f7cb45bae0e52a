//! ROT-N letter rotation over text: every ASCII letter is shifted by N
//! positions within its case-preserving alphabet, wrapping around; all other
//! characters pass through unchanged.

pub mod naming;
pub mod rot;
mod strings;
