//! Secret generation for the token-assembly layer. That layer itself —
//! header and claims handling, encoding, expiry — lives outside the engine
//! and consumes it as an opaque byte-in/byte-out service; only the fresh
//! secret is produced here.

use vstd::prelude::*;

use crate::errors::CryptError;
use crate::genpass::in_full_charset;
use crate::genpass::process_genpass;
use crate::text::KeyBundle;

verus! {

/// A generated token-signing bundle: one 32-byte secret drawn from the full
/// character set, under the artifact name `jwt.txt`.
pub open spec fn jwt_bundle_ok(b: KeyBundle) -> bool {
    &&& b@.len() == 1
    &&& b@[0].0@ == "jwt.txt"@
    &&& b@[0].1@.len() == 32
    &&& forall|i: int| 0 <= i < b@[0].1@.len() ==> in_full_charset(#[trigger] b@[0].1@[i])
}

/// Generate a fresh 32-byte secret for signing token envelopes, bundled for
/// persistence. The only failure is the operating system's random source
/// failing.
pub fn process_jwt_secret_generate() -> (r: Result<KeyBundle, CryptError>)
    ensures
        r matches Ok(b) ==> jwt_bundle_ok(b),
        r matches Err(e) ==> e == CryptError::IOFailure,
{
    let key = process_genpass(32, true, true, true, true)?;
    let mut bundle: KeyBundle = Vec::new();
    bundle.push(("jwt.txt", key));
    Ok(bundle)
}

} // verus!
