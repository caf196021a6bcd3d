//! Safe, state-checked handling of an audio-fingerprinting session.
//!
//! The fingerprinting itself is done by the native chromaprint library. This
//! crate holds what the binding decides around each native call: whether the
//! call may be made in the session's current stage, which arguments it gets
//! (lengths that fit a C `int`, a 0/1 flag), how many values are to be copied
//! out of a buffer the library hands back, and what the caller receives.

pub mod algorithm;
pub mod codec;
pub mod marshal;
pub mod session;

pub use algorithm::{
    ChromaprintAlgorithm, CHROMAPRINT_ALGORITHM_DEFAULT, CHROMAPRINT_ALGORITHM_TEST1,
    CHROMAPRINT_ALGORITHM_TEST2, CHROMAPRINT_ALGORITHM_TEST3, CHROMAPRINT_ALGORITHM_TEST4,
};
pub use session::{Chromaprint, Op, SessionState, Stage};
