//! The fixed extension-to-MIME lookup used when inlining images.
use vstd::prelude::*;
use crate::paths::extension_spec;
use crate::paths::extension_of;
use crate::text::lower_seq;
use crate::text::eq_lowercase;

verus! {

/// The MIME type for an image path, keyed by the lowercase extension of
/// its final component; anything unrecognised falls back to `image/png`.
pub open spec fn mime_spec(path: Seq<char>) -> Seq<char> {
    let e = lower_seq(extension_spec(path));
    if e == "jpg"@ || e == "jpeg"@ {
        "image/jpeg"@
    } else if e == "png"@ {
        "image/png"@
    } else if e == "gif"@ {
        "image/gif"@
    } else if e == "webp"@ {
        "image/webp"@
    } else if e == "svg"@ {
        "image/svg+xml"@
    } else if e == "bmp"@ {
        "image/bmp"@
    } else {
        "image/png"@
    }
}

/// The MIME type an image at `path` is served under, per the fixed table.
pub fn mime_for_path(path: &str) -> (r: String)
    ensures
        r@ == mime_spec(path@),
{
    let ext = extension_of(path);
    let e = ext.as_str();
    if eq_lowercase(e, "jpg") || eq_lowercase(e, "jpeg") {
        "image/jpeg".to_owned()
    } else if eq_lowercase(e, "png") {
        "image/png".to_owned()
    } else if eq_lowercase(e, "gif") {
        "image/gif".to_owned()
    } else if eq_lowercase(e, "webp") {
        "image/webp".to_owned()
    } else if eq_lowercase(e, "svg") {
        "image/svg+xml".to_owned()
    } else if eq_lowercase(e, "bmp") {
        "image/bmp".to_owned()
    } else {
        "image/png".to_owned()
    }
}

} // verus!
