//! The fixed filter tables offered by the file pickers, and the choice of
//! save-dialog filter from a default file name's extension.
use vstd::prelude::*;
use crate::paths::extension_spec;
use crate::paths::extension_of;
use crate::text::lower_seq;
use crate::text::eq_lowercase;

verus! {

/// One named filter of a file picker: a label shown to the user and the
/// extensions it admits.
pub struct DialogFilter {
    pub label: String,
    pub extensions: Vec<String>,
}

/// The document kind a save dialog is set up for, chosen from the
/// default file name's extension.
#[derive(Clone, Copy, Debug, PartialEq, Eq, Structural)]
pub enum SaveDocumentKind {
    Pdf,
    Word,
    Html,
    Text,
    Markdown,
}

/// The save-dialog document kind for a default file name: keyed by its
/// lowercase extension, with markdown as the fallback for anything
/// unrecognised (including a name with no extension).
pub open spec fn save_kind_spec(name: Seq<char>) -> SaveDocumentKind {
    let e = lower_seq(extension_spec(name));
    if e == "pdf"@ {
        SaveDocumentKind::Pdf
    } else if e == "docx"@ {
        SaveDocumentKind::Word
    } else if e == "html"@ || e == "htm"@ {
        SaveDocumentKind::Html
    } else if e == "txt"@ {
        SaveDocumentKind::Text
    } else {
        SaveDocumentKind::Markdown
    }
}

/// Which document kind the save dialog offers for this default name.
pub fn save_document_kind(default_name: &str) -> (k: SaveDocumentKind)
    ensures
        k == save_kind_spec(default_name@),
{
    let ext = extension_of(default_name);
    let e = ext.as_str();
    if eq_lowercase(e, "pdf") {
        SaveDocumentKind::Pdf
    } else if eq_lowercase(e, "docx") {
        SaveDocumentKind::Word
    } else if eq_lowercase(e, "html") || eq_lowercase(e, "htm") {
        SaveDocumentKind::Html
    } else if eq_lowercase(e, "txt") {
        SaveDocumentKind::Text
    } else {
        SaveDocumentKind::Markdown
    }
}

/// The filters a save dialog offers for each document kind.
pub fn filters_for_kind(k: SaveDocumentKind) -> (r: Vec<DialogFilter>)
    ensures
        k is Pdf ==> r@.len() == 1 && r@[0].label@ == "PDF Document"@ && r@[0].extensions@.len()
            == 1 && r@[0].extensions@[0]@ == "pdf"@,
        k is Word ==> r@.len() == 1 && r@[0].label@ == "Word Document"@ && r@[0].extensions@.len()
            == 1 && r@[0].extensions@[0]@ == "docx"@,
        k is Html ==> r@.len() == 1 && r@[0].label@ == "HTML Document"@ && r@[0].extensions@.len()
            == 2 && r@[0].extensions@[0]@ == "html"@ && r@[0].extensions@[1]@ == "htm"@,
        k is Text ==> r@.len() == 1 && r@[0].label@ == "Text File"@ && r@[0].extensions@.len() == 1
            && r@[0].extensions@[0]@ == "txt"@,
        k is Markdown ==> r@.len() == 2 && r@[0].label@ == "Markdown"@ && r@[0].extensions@.len()
            == 2 && r@[0].extensions@[0]@ == "md"@ && r@[0].extensions@[1]@ == "markdown"@
            && r@[1].label@ == "Text"@ && r@[1].extensions@.len() == 1 && r@[1].extensions@[0]@
            == "txt"@,
{
    let mut r: Vec<DialogFilter> = Vec::new();
    match k {
        SaveDocumentKind::Pdf => {
            let mut exts: Vec<String> = Vec::new();
            exts.push("pdf".to_owned());
            r.push(DialogFilter { label: "PDF Document".to_owned(), extensions: exts });
        },
        SaveDocumentKind::Word => {
            let mut exts: Vec<String> = Vec::new();
            exts.push("docx".to_owned());
            r.push(DialogFilter { label: "Word Document".to_owned(), extensions: exts });
        },
        SaveDocumentKind::Html => {
            let mut exts: Vec<String> = Vec::new();
            exts.push("html".to_owned());
            exts.push("htm".to_owned());
            r.push(DialogFilter { label: "HTML Document".to_owned(), extensions: exts });
        },
        SaveDocumentKind::Text => {
            let mut exts: Vec<String> = Vec::new();
            exts.push("txt".to_owned());
            r.push(DialogFilter { label: "Text File".to_owned(), extensions: exts });
        },
        SaveDocumentKind::Markdown => {
            let mut md_exts: Vec<String> = Vec::new();
            md_exts.push("md".to_owned());
            md_exts.push("markdown".to_owned());
            r.push(DialogFilter { label: "Markdown".to_owned(), extensions: md_exts });
            let mut txt_exts: Vec<String> = Vec::new();
            txt_exts.push("txt".to_owned());
            r.push(DialogFilter { label: "Text".to_owned(), extensions: txt_exts });
        },
    }
    r
}

/// The filters the markdown open-file picker offers.
pub fn markdown_open_filters() -> (r: Vec<DialogFilter>)
    ensures
        r@.len() == 3,
        r@[0].label@ == "Markdown"@,
        r@[0].extensions@.len() == 2,
        r@[0].extensions@[0]@ == "md"@,
        r@[0].extensions@[1]@ == "markdown"@,
        r@[1].label@ == "Text"@,
        r@[1].extensions@.len() == 1,
        r@[1].extensions@[0]@ == "txt"@,
        r@[2].label@ == "All Supported"@,
        r@[2].extensions@.len() == 3,
        r@[2].extensions@[0]@ == "md"@,
        r@[2].extensions@[1]@ == "markdown"@,
        r@[2].extensions@[2]@ == "txt"@,
{
    let mut r: Vec<DialogFilter> = Vec::new();
    let mut md_exts: Vec<String> = Vec::new();
    md_exts.push("md".to_owned());
    md_exts.push("markdown".to_owned());
    r.push(DialogFilter { label: "Markdown".to_owned(), extensions: md_exts });
    let mut txt_exts: Vec<String> = Vec::new();
    txt_exts.push("txt".to_owned());
    r.push(DialogFilter { label: "Text".to_owned(), extensions: txt_exts });
    let mut all_exts: Vec<String> = Vec::new();
    all_exts.push("md".to_owned());
    all_exts.push("markdown".to_owned());
    all_exts.push("txt".to_owned());
    r.push(DialogFilter { label: "All Supported".to_owned(), extensions: all_exts });
    r
}

/// The single filter the image picker offers.
pub fn image_open_filter() -> (r: DialogFilter)
    ensures
        r.label@ == "Images"@,
        r.extensions@.len() == 7,
        r.extensions@[0]@ == "png"@,
        r.extensions@[1]@ == "jpg"@,
        r.extensions@[2]@ == "jpeg"@,
        r.extensions@[3]@ == "gif"@,
        r.extensions@[4]@ == "webp"@,
        r.extensions@[5]@ == "svg"@,
        r.extensions@[6]@ == "bmp"@,
{
    let mut exts: Vec<String> = Vec::new();
    exts.push("png".to_owned());
    exts.push("jpg".to_owned());
    exts.push("jpeg".to_owned());
    exts.push("gif".to_owned());
    exts.push("webp".to_owned());
    exts.push("svg".to_owned());
    exts.push("bmp".to_owned());
    DialogFilter { label: "Images".to_owned(), extensions: exts }
}

} // verus!
