//! Contracts of the standard library's hashing of integers and strings.

use vstd::prelude::*;
use std::hash::Hash;
use std::hash::Hasher;

verus! {

/// `Hash::hash` of `u8` from the standard library: feeds the byte to
/// `state`. Nothing is claimed of the hasher afterwards.
pub assume_specification<H: Hasher>[ <u8 as Hash>::hash::<H> ](value: &u8, state: &mut H);

/// `Hash::hash` of `u64` from the standard library: feeds the number to
/// `state`. Nothing is claimed of the hasher afterwards.
pub assume_specification<H: Hasher>[ <u64 as Hash>::hash::<H> ](value: &u64, state: &mut H);

/// `Hash::hash` of `String` from the standard library: feeds the text to
/// `state`. Nothing is claimed of the hasher afterwards.
pub assume_specification<H: Hasher>[ <String as Hash>::hash::<H> ](value: &String, state: &mut H);

/// `Hash::hash` of `str` from the standard library: feeds the text to
/// `state`. Nothing is claimed of the hasher afterwards.
pub assume_specification<H: Hasher>[ <str as Hash>::hash::<H> ](value: &str, state: &mut H);

} // verus!
