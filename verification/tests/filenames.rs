use dezleks::filename::{filename_from_url, sanitize_filename};

#[test]
fn sanitize_keeps_allowed_characters() {
    assert_eq!(sanitize_filename("gemma-3n_E2B.it+int4.litertlm"), "gemma-3n_E2B.it+int4.litertlm");
}

#[test]
fn sanitize_trims_and_replaces() {
    assert_eq!(sanitize_filename("  my model (v2).bin \n"), "my_model__v2_.bin");
}

#[test]
fn sanitize_replaces_each_non_ascii_character() {
    assert_eq!(sanitize_filename("модель.bin"), "______.bin");
}

#[test]
fn sanitize_blank_gives_default_name() {
    assert_eq!(sanitize_filename(""), "model.litertlm");
    assert_eq!(sanitize_filename(" \t\u{3000} "), "model.litertlm");
}

#[test]
fn sanitize_is_idempotent_on_examples() {
    for name in ["  a b/c?d#e ", "", "x.y", "ÄÖÜ", "\u{a0}k\u{a0}"] {
        let once = sanitize_filename(name);
        assert_eq!(sanitize_filename(&once), once);
    }
}

#[test]
fn url_filename_takes_last_segment() {
    assert_eq!(
        filename_from_url("https://huggingface.co/org/repo/resolve/main/gemma-3n-E2B-it-int4.litertlm?download=true#top"),
        "gemma-3n-E2B-it-int4.litertlm"
    );
}

#[test]
fn url_filename_cuts_fragment_before_path() {
    assert_eq!(filename_from_url("https://a.b/x/y#frag/ment"), "y");
}

#[test]
fn url_filename_query_before_fragment() {
    assert_eq!(filename_from_url("https://a.b/file.bin?x=1#y"), "file.bin");
    assert_eq!(filename_from_url("https://a.b/file.bin#y?x=1"), "file.bin");
}

#[test]
fn url_filename_without_slash() {
    assert_eq!(filename_from_url("model weights"), "model_weights");
}

#[test]
fn url_filename_trailing_slash_gives_default() {
    assert_eq!(filename_from_url("https://example.com/models/"), "model.litertlm");
    assert_eq!(filename_from_url(""), "model.litertlm");
}

#[test]
fn url_filename_is_clean() {
    let name = filename_from_url("https://a.b/c d/é?x");
    assert!(!name.contains('/') && !name.contains('?') && !name.contains('#'));
    assert_eq!(sanitize_filename(&name), name);
}
