use vstd::prelude::*;

verus! {

/// Relies on `<&[u8] as TryInto<[u8; 20]>>::try_into`: copies a 20-byte slice
/// into an owned array; it succeeds exactly when the slice has length 20.
#[verifier::external_body]
pub(crate) fn to_array_20(s: &[u8]) -> (r: [u8; 20])
    requires
        s@.len() == 20,
    ensures
        r@ == s@,
{
    s.try_into().unwrap()
}

/// Relies on `<&[u8] as TryInto<[u8; 64]>>::try_into`: copies a 64-byte slice
/// into an owned array; it succeeds exactly when the slice has length 64.
#[verifier::external_body]
pub(crate) fn to_array_64(s: &[u8]) -> (r: [u8; 64])
    requires
        s@.len() == 64,
    ensures
        r@ == s@,
{
    s.try_into().unwrap()
}

/// Relies on `<&[u8] as TryInto<[u8; 65]>>::try_into`: copies a 65-byte slice
/// into an owned array; it succeeds exactly when the slice has length 65.
#[verifier::external_body]
pub(crate) fn to_array_65(s: &[u8]) -> (r: [u8; 65])
    requires
        s@.len() == 65,
    ensures
        r@ == s@,
{
    s.try_into().unwrap()
}

} // verus!
