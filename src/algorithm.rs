use vstd::prelude::*;

verus! {

/// Identifier of a fingerprinting variant, as the native library numbers them.
pub type ChromaprintAlgorithm = libc::c_int;

pub const CHROMAPRINT_ALGORITHM_TEST1: ChromaprintAlgorithm = 0;

pub const CHROMAPRINT_ALGORITHM_TEST2: ChromaprintAlgorithm = 1;

pub const CHROMAPRINT_ALGORITHM_TEST3: ChromaprintAlgorithm = 2;

pub const CHROMAPRINT_ALGORITHM_TEST4: ChromaprintAlgorithm = 3;

/// The variant a context gets when none is asked for.
pub const CHROMAPRINT_ALGORITHM_DEFAULT: ChromaprintAlgorithm = CHROMAPRINT_ALGORITHM_TEST2;

} // verus!
