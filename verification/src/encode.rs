//! Inlining an image as a `data:` URI: base64 encoding of its bytes with
//! a MIME type chosen from its path.
use vstd::prelude::*;
use vstd::string::StringExecFns;
use base64::Engine;
use crate::mime::mime_spec;
use crate::mime::mime_for_path;

verus! {

/// The standard, padded base64 encoding of a byte sequence, as the
/// base64 crate computes it.
pub uninterp spec fn base64_of(data: Seq<u8>) -> Seq<char>;

/// Relies on base64's `Engine::encode` with the standard alphabet and
/// padding: the encoding is a pure function of the input bytes. The
/// bound keeps out the input lengths (the top quarter of `usize`) for
/// which `encoded_len` overflows and `encode` panics.
#[verifier::external_body]
fn base64_standard(data: &[u8]) -> (r: String)
    requires
        4 * ((data@.len() + 2) / 3) <= usize::MAX,
    ensures
        r@ == base64_of(data@),
{
    base64::engine::general_purpose::STANDARD.encode(data)
}

/// The data URI that inlines `data` read from `path`.
pub open spec fn data_uri_spec(path: Seq<char>, data: Seq<u8>) -> Seq<char> {
    "data:"@ + mime_spec(path) + ";base64,"@ + base64_of(data)
}

/// The `data:<mime>;base64,<content>` URI for an image file's bytes:
/// the MIME type comes from the path's lowercase extension, the content
/// is the standard base64 encoding of the bytes. The bound on `data`'s
/// length is the machine limit under which the encoding fits in memory.
pub fn image_data_uri(path: &str, data: &[u8]) -> (r: String)
    requires
        4 * ((data@.len() + 2) / 3) <= usize::MAX,
    ensures
        r@ == data_uri_spec(path@, data@),
{
    let mime = mime_for_path(path);
    let encoded = base64_standard(data);
    let r = "data:".to_owned().concat(mime.as_str()).concat(";base64,").concat(
        encoded.as_str(),
    );
    proof {
        assert(r@ =~= data_uri_spec(path@, data@));
    }
    r
}

} // verus!
