//! The bearer-JWT credential attached to every gRPC request.

use vstd::prelude::*;

use crate::error::Error;
use tonic::metadata::{Ascii, MetadataValue};
use vstd::utf8::encode_utf8;

verus! {

/// A byte that an HTTP header value may hold: visible ASCII, obs-text, or tab.
pub open spec fn header_byte_ok(b: u8) -> bool {
    (b >= 32 && b != 127) || b == 9
}

/// Text whose UTF-8 bytes may all stand in a header value.
pub open spec fn header_text_ok(s: Seq<char>) -> bool {
    forall|i: int| 0 <= i < encode_utf8(s).len() ==> header_byte_ok(#[trigger] encode_utf8(s)[i])
}

/// Whether `MetadataValue::<Ascii>::try_from(s)` (tonic) succeeds. Claimed, as
/// the source shows (it parses through `http::HeaderValue::from_str`, which
/// checks every byte): exactly when every byte of `s` is a valid header byte.
#[verifier::external_body]
fn is_ascii_metadata_value(s: &str) -> (r: bool)
    ensures
        r == header_text_ok(s@),
{
    MetadataValue::<Ascii>::try_from(s).is_ok()
}

/// The `authorization: Bearer <jwt>` credential for gRPC requests, holding
/// header text that tonic accepts as an ASCII metadata value.
pub struct BearerAuth {
    header: String,
}

impl Clone for BearerAuth {
    fn clone(&self) -> (r: Self)
        ensures
            r.header_text() == self.header_text(),
    {
        proof {
            use_type_invariant(self);
        }
        BearerAuth { header: self.header.clone() }
    }
}

impl BearerAuth {
    /// The `authorization` header text.
    pub closed spec fn header_text(&self) -> Seq<char> {
        self.header@
    }

    #[verifier::type_invariant]
    closed spec fn inv(&self) -> bool {
        header_text_ok(self.header@)
    }

    /// Construct from a raw JWT (no `Bearer ` prefix). Fails with
    /// [`Error::Invalid`] when `Bearer <jwt>` cannot be a header value.
    pub fn new(jwt: &str) -> (r: Result<BearerAuth, Error>)
        ensures
            r is Ok <==> header_text_ok("Bearer "@ + jwt@),
            r matches Ok(a) ==> a.header_text() == "Bearer "@ + jwt@,
            r matches Err(e) ==> e.is_invalid("JWT contains invalid header characters"@),
    {
        let text = "Bearer ".to_owned().concat(jwt);
        if is_ascii_metadata_value(text.as_str()) {
            Ok(BearerAuth { header: text })
        } else {
            Err(Error::Invalid("JWT contains invalid header characters".to_owned()))
        }
    }

    /// The `authorization` header text; every byte of it is a valid header
    /// byte.
    pub fn header(&self) -> (r: &str)
        ensures
            r@ == self.header_text(),
            header_text_ok(r@),
    {
        proof {
            use_type_invariant(self);
        }
        self.header.as_str()
    }
}

} // verus!
