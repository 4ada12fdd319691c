use base64::Engine;
use markdown_viewer::dialogs::channel_failure_message;
use markdown_viewer::dialogs::confirm_choice_to_bool;
use markdown_viewer::dialogs::picked_paths;
use markdown_viewer::dialogs::ConfirmChoice;
use markdown_viewer::encode::image_data_uri;
use markdown_viewer::filters::filters_for_kind;
use markdown_viewer::filters::image_open_filter;
use markdown_viewer::filters::markdown_open_filters;
use markdown_viewer::filters::save_document_kind;
use markdown_viewer::filters::SaveDocumentKind;
use markdown_viewer::mime::mime_for_path;
use markdown_viewer::paths::extension_of;
use markdown_viewer::paths::get_file_name;

#[test]
fn file_name_of_nested_path() {
    assert_eq!(get_file_name("/a/b/c.md"), "c.md");
}

#[test]
fn file_name_of_empty_path() {
    assert_eq!(get_file_name(""), "Untitled");
}

#[test]
fn file_name_of_separators_only() {
    assert_eq!(get_file_name("/"), "Untitled");
    assert_eq!(get_file_name("//"), "Untitled");
}

#[test]
fn file_name_ignores_trailing_separator() {
    assert_eq!(get_file_name("a/b/"), "b");
}

#[test]
fn file_name_of_dot_components() {
    assert_eq!(get_file_name("."), "Untitled");
    assert_eq!(get_file_name(".."), "Untitled");
    assert_eq!(get_file_name("a/.."), "Untitled");
}

#[test]
fn file_name_ignores_trailing_dot_components() {
    assert_eq!(get_file_name("foo.txt/."), "foo.txt");
    assert_eq!(get_file_name("foo.txt/.//"), "foo.txt");
    assert_eq!(get_file_name("a/./."), "a");
}

#[test]
fn file_name_of_dot_only_paths() {
    assert_eq!(get_file_name("./."), "Untitled");
    assert_eq!(get_file_name("/."), "Untitled");
}

#[test]
fn file_name_of_leading_dot_component() {
    assert_eq!(get_file_name("./a"), "a");
}

#[test]
fn file_name_keeps_dotted_normal_components() {
    assert_eq!(get_file_name("..."), "...");
    assert_eq!(get_file_name("a."), "a.");
}

#[test]
fn file_name_of_bare_name() {
    assert_eq!(get_file_name("notes.txt"), "notes.txt");
}

#[test]
fn file_name_keeps_hidden_files() {
    assert_eq!(get_file_name("/home/x/.bashrc"), ".bashrc");
}

#[test]
fn extension_of_nested_path() {
    assert_eq!(extension_of("/a/b/c.md"), "md");
    assert_eq!(extension_of("archive.tar.gz"), "gz");
}

#[test]
fn extension_of_hidden_or_plain_names() {
    assert_eq!(extension_of(".bashrc"), "");
    assert_eq!(extension_of("README"), "");
    assert_eq!(extension_of("name."), "");
}

#[test]
fn extension_reaches_past_trailing_dot_components() {
    assert_eq!(extension_of("x.jpg/."), "jpg");
    assert_eq!(mime_for_path("x.jpg/."), "image/jpeg");
}

#[test]
fn mime_of_each_known_extension() {
    assert_eq!(mime_for_path("x.jpg"), "image/jpeg");
    assert_eq!(mime_for_path("x.jpeg"), "image/jpeg");
    assert_eq!(mime_for_path("x.png"), "image/png");
    assert_eq!(mime_for_path("x.gif"), "image/gif");
    assert_eq!(mime_for_path("x.webp"), "image/webp");
    assert_eq!(mime_for_path("x.svg"), "image/svg+xml");
    assert_eq!(mime_for_path("x.bmp"), "image/bmp");
}

#[test]
fn mime_folds_case_and_falls_back_to_png() {
    assert_eq!(mime_for_path("photo.JPEG"), "image/jpeg");
    assert_eq!(mime_for_path("x.xyz"), "image/png");
    assert_eq!(mime_for_path("noextension"), "image/png");
}

#[test]
fn save_kind_of_pdf_name() {
    assert_eq!(save_document_kind("report.pdf"), SaveDocumentKind::Pdf);
}

#[test]
fn save_kind_of_markdown_name() {
    assert_eq!(save_document_kind("notes.md"), SaveDocumentKind::Markdown);
}

#[test]
fn save_kind_of_unknown_extension_falls_back() {
    assert_eq!(save_document_kind("x.unknownext"), SaveDocumentKind::Markdown);
    assert_eq!(save_document_kind("README"), SaveDocumentKind::Markdown);
}

#[test]
fn save_kind_folds_case() {
    assert_eq!(save_document_kind("letter.DOCX"), SaveDocumentKind::Word);
    assert_eq!(save_document_kind("page.Html"), SaveDocumentKind::Html);
}

#[test]
fn save_kind_of_html_and_text_names() {
    assert_eq!(save_document_kind("page.html"), SaveDocumentKind::Html);
    assert_eq!(save_document_kind("page.htm"), SaveDocumentKind::Html);
    assert_eq!(save_document_kind("plain.txt"), SaveDocumentKind::Text);
}

#[test]
fn save_filters_of_each_kind() {
    let pdf = filters_for_kind(SaveDocumentKind::Pdf);
    assert_eq!(pdf.len(), 1);
    assert_eq!(pdf[0].label, "PDF Document");
    assert_eq!(pdf[0].extensions, vec!["pdf"]);

    let word = filters_for_kind(SaveDocumentKind::Word);
    assert_eq!(word[0].label, "Word Document");
    assert_eq!(word[0].extensions, vec!["docx"]);

    let html = filters_for_kind(SaveDocumentKind::Html);
    assert_eq!(html[0].label, "HTML Document");
    assert_eq!(html[0].extensions, vec!["html", "htm"]);

    let text = filters_for_kind(SaveDocumentKind::Text);
    assert_eq!(text[0].label, "Text File");
    assert_eq!(text[0].extensions, vec!["txt"]);

    let md = filters_for_kind(SaveDocumentKind::Markdown);
    assert_eq!(md.len(), 2);
    assert_eq!(md[0].label, "Markdown");
    assert_eq!(md[0].extensions, vec!["md", "markdown"]);
    assert_eq!(md[1].label, "Text");
    assert_eq!(md[1].extensions, vec!["txt"]);
}

#[test]
fn open_filters_cover_markdown_and_text() {
    let filters = markdown_open_filters();
    assert_eq!(filters.len(), 3);
    assert_eq!(filters[0].label, "Markdown");
    assert_eq!(filters[0].extensions, vec!["md", "markdown"]);
    assert_eq!(filters[1].label, "Text");
    assert_eq!(filters[1].extensions, vec!["txt"]);
    assert_eq!(filters[2].label, "All Supported");
    assert_eq!(filters[2].extensions, vec!["md", "markdown", "txt"]);
}

#[test]
fn image_filter_lists_the_fixed_extensions() {
    let filter = image_open_filter();
    assert_eq!(filter.label, "Images");
    assert_eq!(
        filter.extensions,
        vec!["png", "jpg", "jpeg", "gif", "webp", "svg", "bmp"]
    );
}

#[test]
fn confirm_save_is_the_only_affirmative() {
    assert!(confirm_choice_to_bool(ConfirmChoice::Save));
    assert!(!confirm_choice_to_bool(ConfirmChoice::Discard));
    assert!(!confirm_choice_to_bool(ConfirmChoice::Cancelled));
}

#[test]
fn cancelled_picker_yields_empty_list() {
    let paths = picked_paths(None);
    assert!(paths.is_empty());
}

#[test]
fn picker_selection_passes_through() {
    let chosen = vec!["/a/one.md".to_string(), "/b/two.md".to_string()];
    let paths = picked_paths(Some(chosen.clone()));
    assert_eq!(paths, chosen);
}

#[test]
fn channel_failure_message_carries_the_detail() {
    assert_eq!(
        channel_failure_message("receiving on an empty and disconnected channel"),
        "Failed to receive dialog result: receiving on an empty and disconnected channel"
    );
}

#[test]
fn jpeg_bytes_become_a_jpeg_data_uri() {
    let data = [0xFFu8, 0xD8];
    let uri = image_data_uri("x.jpg", &data);
    assert!(uri.starts_with("data:image/jpeg;base64,"));
    let expected = base64::engine::general_purpose::STANDARD.encode(data);
    assert_eq!(uri, format!("data:image/jpeg;base64,{}", expected));
    assert_eq!(uri, "data:image/jpeg;base64,/9g=");
}

#[test]
fn empty_image_encodes_to_a_bare_uri() {
    let uri = image_data_uri("p.png", &[]);
    assert_eq!(uri, "data:image/png;base64,");
}

#[test]
fn data_uri_mime_follows_the_extension() {
    let data = [0x47u8, 0x49, 0x46];
    let uri = image_data_uri("anim.GIF", &data);
    assert!(uri.starts_with("data:image/gif;base64,"));
    let unknown = image_data_uri("mystery.bin", &data);
    assert!(unknown.starts_with("data:image/png;base64,"));
}
