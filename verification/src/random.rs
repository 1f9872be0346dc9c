use vstd::prelude::*;

verus! {

/// Draws an id from the operating system's random source, through rand's
/// `OsRng` and `RngCore::try_fill_bytes` (eight bytes, read little-endian).
///
/// The value comes from chance, so nothing is stated of it; `None` where the
/// random source fails.
#[verifier::external_body]
pub(crate) fn random_id() -> Option<u64> {
    let mut bytes = [0u8; 8];
    match rand::RngCore::try_fill_bytes(&mut rand::rngs::OsRng, &mut bytes) {
        Ok(()) => Some(u64::from_le_bytes(bytes)),
        Err(_) => None,
    }
}

} // verus!
