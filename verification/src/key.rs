//! The random bytes of a new master key.

use vstd::prelude::*;

verus! {

/// Bytes from the operating system's random source, through `OsRng` of
/// `rand`. Where the source gives any, it gives as many as were asked for;
/// nothing else is known of them. No vector holds more than `isize::MAX`
/// bytes, so no more may be asked for.
#[verifier::external_body]
pub(crate) fn os_random(length: usize) -> (r: Option<Vec<u8>>)
    requires
        length <= isize::MAX,
    ensures
        r matches Some(bytes) ==> bytes@.len() == length,
{
    let mut bytes = vec![0u8; length];
    let mut source = rand::rngs::OsRng::new().ok()?;
    rand::RngCore::try_fill_bytes(&mut source, &mut bytes).ok()?;
    Some(bytes)
}

} // verus!
