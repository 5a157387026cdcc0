use vstd::prelude::*;

verus! {

/// `<i128 as From<u8>>::from`: the lossless widening of a `u8`; the result
/// is the same number.
pub assume_specification[ <i128 as core::convert::From<u8>>::from ](small: u8) -> (ret: i128)
    ensures
        ret == small as i128,
;

/// `<i128 as From<u16>>::from`: the lossless widening of a `u16`; the result
/// is the same number.
pub assume_specification[ <i128 as core::convert::From<u16>>::from ](small: u16) -> (ret: i128)
    ensures
        ret == small as i128,
;

/// `<i128 as From<u32>>::from`: the lossless widening of a `u32`; the result
/// is the same number.
pub assume_specification[ <i128 as core::convert::From<u32>>::from ](small: u32) -> (ret: i128)
    ensures
        ret == small as i128,
;

/// `<i128 as From<u64>>::from`: the lossless widening of a `u64`; the result
/// is the same number.
pub assume_specification[ <i128 as core::convert::From<u64>>::from ](small: u64) -> (ret: i128)
    ensures
        ret == small as i128,
;

/// `<i128 as From<bool>>::from`: `false` becomes 0 and `true` becomes 1.
pub assume_specification[ <i128 as core::convert::From<bool>>::from ](small: bool) -> (ret: i128)
    ensures
        ret == (if small { 1i128 } else { 0i128 }),
;

/// `<X as From<X>>::from`, the identity conversion: the result is the
/// argument itself.
pub assume_specification<X>[ <X as core::convert::From<X>>::from ](t: X) -> (ret: X)
    ensures
        ret == t,
;

} // verus!
