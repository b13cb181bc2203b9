use base64::Engine;
use dezleks::imaging::Picture;
use dezleks::processing::{ImagePayload, Roi};
use dezleks::requests::{
    base_ocr_prompt_for, bearer_header, choose_model_filename, choose_model_path,
    clean_text_prompt, failure_message, gemma_ocr_prompt, parse_engine, partial_file_name,
    plan_runner, prepare_ocr_image, print_settings, speech_language, speech_request,
    trimmed_non_blank, OcrEngine, RunnerPlan,
};
use std::io::Cursor;

fn payload(width: u32, height: u32) -> ImagePayload {
    let p = Picture::from_rgba8(width, height, vec![200; (width * height * 4) as usize]).unwrap();
    let mut png = Vec::new();
    p.as_dynamic().write_to(&mut Cursor::new(&mut png), image::ImageFormat::Png).unwrap();
    ImagePayload { bytes_base64: base64::engine::general_purpose::STANDARD.encode(png) }
}

#[test]
fn engines_are_named_exactly() {
    assert_eq!(parse_engine("tesseract"), Some(OcrEngine::Tesseract));
    assert_eq!(parse_engine("gemma"), Some(OcrEngine::Gemma));
    assert_eq!(parse_engine("mlkit"), Some(OcrEngine::Mlkit));
    assert_eq!(parse_engine("Gemma"), None);
    assert_eq!(parse_engine(" mlkit"), None);
}

#[test]
fn ocr_rejects_unknown_engine_first() {
    let bad = ImagePayload { bytes_base64: "!!".to_string() };
    let e = prepare_ocr_image(&bad, &Roi { x: 0, y: 0, w: 1, h: 1 }, "paddle").err().unwrap();
    assert_eq!(e, "Невідомий двигун OCR");
}

#[test]
fn ocr_crops_and_downscales_for_gemma() {
    let roi = Roi { x: 100, y: 0, w: 5000, h: 10 };
    let (kind, img) = prepare_ocr_image(&payload(3200, 20), &roi, "gemma").unwrap();
    assert_eq!(kind, OcrEngine::Gemma);
    assert_eq!(img.width(), 1536);
    assert_eq!(img.height(), 5);
    let (kind, img) = prepare_ocr_image(&payload(3200, 20), &roi, "tesseract").unwrap();
    assert_eq!(kind, OcrEngine::Tesseract);
    assert_eq!((img.width(), img.height()), (3100, 10));
}

#[test]
fn ocr_empty_region_fails() {
    let e = prepare_ocr_image(&payload(4, 4), &Roi { x: 4, y: 0, w: 2, h: 2 }, "mlkit").err().unwrap();
    assert_eq!(e, "ROI має нульовий розмір");
}

#[test]
fn non_blank_trims() {
    assert_eq!(trimmed_non_blank(Some("  x y ".to_string())), Some("x y".to_string()));
    assert_eq!(trimmed_non_blank(Some(" \n".to_string())), None);
    assert_eq!(trimmed_non_blank(None), None);
}

#[test]
fn model_path_prefers_given_then_environment() {
    assert_eq!(choose_model_path(Some(" /m.bin ".to_string()), Some("/env".to_string())), Ok("/m.bin".to_string()));
    assert_eq!(choose_model_path(Some("  ".to_string()), Some(" /env ".to_string())), Ok(" /env ".to_string()));
    assert_eq!(
        choose_model_path(None, None),
        Err("Задайте шлях до моделі в налаштуваннях або через змінну середовища DEZLEKS_GEMMA_MODEL".to_string())
    );
}

#[test]
fn ocr_prompts() {
    let base = "Витягни весь видимий текст з зображення.\nПоверни лише текст, зберігай переноси рядків.\nБез пояснень.\nПідказка щодо мов: uk+en\n";
    assert_eq!(base_ocr_prompt_for("uk+en"), base);
    assert_eq!(gemma_ocr_prompt("uk+en", None), base);
    assert_eq!(gemma_ocr_prompt("uk+en", Some(" \t".to_string())), base);
    assert_eq!(
        gemma_ocr_prompt("uk+en", Some(" keep tables ".to_string())),
        format!("{base}\nДодаткові правила очищення:\nkeep tables\n")
    );
}

#[test]
fn cleaning_prompts() {
    assert_eq!(clean_text_prompt("abc", Some(" Fix it ".to_string())), "Fix it\n\nТекст:\nabc");
    let default = clean_text_prompt("abc", None);
    assert!(default.starts_with("Ти редактор OCR українською.\n"));
    assert!(default.ends_with("без пояснень.\n\nТекст:\nabc"));
    assert_eq!(clean_text_prompt("abc", Some("".to_string())), default);
}

#[test]
fn failure_messages() {
    assert_eq!(failure_message(b"  boom \n", "fallback"), "boom");
    assert_eq!(failure_message(b" \n", "fallback"), "fallback");
    assert_eq!(failure_message(b"", "tesseract failed"), "tesseract failed");
    assert_eq!(failure_message(b"bad \xff byte", "x"), "bad \u{fffd} byte");
}

#[test]
fn model_filenames() {
    assert_eq!(choose_model_filename(Some(" my model.bin ".to_string()), "https://a/b.bin"), "my_model.bin");
    assert_eq!(choose_model_filename(Some(" ".to_string()), "https://a/b.bin?x"), "b.bin");
    assert_eq!(choose_model_filename(None, "https://a/"), "model.litertlm");
    assert_eq!(partial_file_name("b.bin"), "b.bin.part");
}

#[test]
fn bearer_headers() {
    assert_eq!(bearer_header(Some(" SECRET-REDACTED ".to_string())), Some("Bearer SECRET-REDACTED".to_string()));
    assert_eq!(bearer_header(Some("  ".to_string())), None);
    assert_eq!(bearer_header(None), None);
}

#[test]
fn print_settings_defaults_and_errors() {
    let s = print_settings("  text ", None, None, None).unwrap();
    assert_eq!(s.text, "text");
    assert_eq!(s.font_family, "system");
    assert_eq!(s.font_size_px, 20);
    assert_eq!(s.text_color, "#1a1a1a");
    let s = print_settings("t", Some("OpenDyslexic".to_string()), Some(28), Some("#000".to_string())).unwrap();
    assert_eq!((s.font_family.as_str(), s.font_size_px, s.text_color.as_str()), ("OpenDyslexic", 28, "#000"));
    assert_eq!(print_settings(" \n ", None, None, None).err().unwrap(), "Немає тексту для друку");
}

#[test]
fn speech_requests() {
    let r = speech_request(" hello ", Some(" EN ".to_string())).unwrap();
    assert_eq!((r.text.as_str(), r.lang.as_str()), ("hello", "en"));
    assert_eq!(speech_request("x", Some("de".to_string())).unwrap().lang, "uk");
    assert_eq!(speech_request("x", None).unwrap().lang, "uk");
    assert_eq!(speech_request("  ", None).err().unwrap(), "Немає тексту для озвучення");
    assert_eq!(speech_language("en"), "en");
    assert_eq!(speech_language("EN"), "uk");
}

#[test]
fn runner_plans() {
    let nothing = RunnerPlan { write_source: false, remove_archive: false, clear_output: false, build: false };
    assert_eq!(plan_runner(true, true), nothing);
    assert_eq!(plan_runner(true, false), RunnerPlan { build: true, ..nothing });
    assert_eq!(
        plan_runner(false, true),
        RunnerPlan { write_source: true, remove_archive: true, clear_output: true, build: true }
    );
    assert_eq!(
        plan_runner(false, false),
        RunnerPlan { write_source: true, remove_archive: false, clear_output: true, build: true }
    );
}
