//! The decisions the commands make around the OCR engines, the language model, the
//! downloads and the printing and speech services: which engine, which model file,
//! which prompt, which header, which defaults, and which error text.
use vstd::prelude::*;
use crate::filename::{filename_from_url, sanitize_filename, sanitized, url_filename};
use crate::imaging::{
    cut_out, decoded_image, image_load_error, rotated_clockwise, Picture, PictureView,
};
use crate::processing::{
    clamped_roi, crop_roi, decode_image, decode_image_bytes, downscale_for_gemma, downscaled,
    empty_roi_message, exif_orientation_tag, normalize_orientation, oriented, payload_bytes,
    payload_error, normalized, lemma_oriented_size, ImagePayload, Roi, GEMMA_MAX_SIDE,
    PREVIEW_MAX_SIDE,
};
use crate::text::{
    from_utf8_lossy, same_text, to_lowercase, trim, trimmed, unicode_lowercase, utf8_lossy,
};

verus! {

/// The text of an optional string.
pub open spec fn text_of(s: Option<String>) -> Option<Seq<char>> {
    match s {
        Some(t) => Some(t@),
        None => None,
    }
}

/// An optional text, trimmed, and dropped when nothing is left of it.
pub open spec fn non_blank(s: Option<Seq<char>>) -> Option<Seq<char>> {
    match s {
        Some(t) => if trimmed(t).len() > 0 {
            Some(trimmed(t))
        } else {
            None
        },
        None => None,
    }
}

/// Trims an optional text and drops it when nothing is left.
pub fn trimmed_non_blank(s: Option<String>) -> (r: Option<String>)
    ensures
        text_of(r) == non_blank(text_of(s)),
{
    match s {
        Some(t) => {
            let u = trim(t.as_str());
            if u.is_empty() {
                None
            } else {
                Some(u.to_owned())
            }
        },
        None => None,
    }
}

fn join(a: &str, b: &str) -> (r: String)
    ensures
        r@ == a@ + b@,
{
    let mut r = a.to_owned();
    r.append(b);
    r
}

// ---- OCR engines ----

/// The OCR engines the `ocr` command knows.
#[derive(Clone, Copy, Debug, PartialEq, Eq, Structural)]
pub enum OcrEngine {
    Tesseract,
    Gemma,
    Mlkit,
}

/// The engine a name stands for, compared exactly.
pub open spec fn engine_named(name: Seq<char>) -> Option<OcrEngine> {
    if name == "tesseract"@ {
        Some(OcrEngine::Tesseract)
    } else if name == "gemma"@ {
        Some(OcrEngine::Gemma)
    } else if name == "mlkit"@ {
        Some(OcrEngine::Mlkit)
    } else {
        None
    }
}

/// Reads the name of an OCR engine: "tesseract", "gemma" or "mlkit".
pub fn parse_engine(name: &str) -> (r: Option<OcrEngine>)
    ensures
        r == engine_named(name@),
{
    if same_text(name, "tesseract") {
        Some(OcrEngine::Tesseract)
    } else if same_text(name, "gemma") {
        Some(OcrEngine::Gemma)
    } else if same_text(name, "mlkit") {
        Some(OcrEngine::Mlkit)
    } else {
        None
    }
}

/// The error for an engine name that is none of the three.
pub open spec fn unknown_engine_message() -> Seq<char> {
    "Невідомий двигун OCR"@
}

/// The part of a decoded file that OCR reads: the picture turned upright, the region of
/// interest cut out of it, and, for Gemma, scaled down to fit a 1536 pixel square.
/// `None` when the region is empty.
pub open spec fn ocr_region(bytes: Seq<u8>, v: PictureView, roi: Roi, engine: OcrEngine) -> Option<
    PictureView,
> {
    let upright = oriented(exif_orientation_tag(bytes), v);
    let (x, y, w, h) = clamped_roi(upright.width, upright.height, roi);
    if w == 0 || h == 0 {
        None
    } else {
        let region = cut_out(upright, x, y, w, h);
        if engine == OcrEngine::Gemma {
            Some(downscaled(region, GEMMA_MAX_SIDE))
        } else {
            Some(region)
        }
    }
}

/// OCR reads the region cut out of the picture turned upright by the file's own EXIF
/// tag, the same upright picture the preview shows: for a portrait photo (tag 6) the
/// region is taken from the picture turned a quarter clockwise, never from the sideways
/// one; for Gemma the region is then fitted into 1536 pixels. Where the picture needs no
/// scaling for the preview, the region is exactly the part of the preview that the
/// region of interest marks.
pub proof fn lemma_ocr_reads_upright_region(bytes: Seq<u8>, v: PictureView, roi: Roi, engine: OcrEngine)
    ensures
        exif_orientation_tag(bytes) == Some(6u32) ==> ({
            let u = rotated_clockwise(v);
            let (x, y, w, h) = clamped_roi(u.width, u.height, roi);
            ocr_region(bytes, v, roi, OcrEngine::Tesseract) == if w == 0 || h == 0 {
                None
            } else {
                Some(cut_out(u, x, y, w, h))
            }
        }),
        ({
            let u = oriented(exif_orientation_tag(bytes), v);
            let (x, y, w, h) = clamped_roi(u.width, u.height, roi);
            ocr_region(bytes, v, roi, OcrEngine::Tesseract) == if w == 0 || h == 0 {
                None
            } else {
                Some(cut_out(u, x, y, w, h))
            }
        }),
        exif_orientation_tag(bytes) is None ==> ({
            let (x, y, w, h) = clamped_roi(v.width, v.height, roi);
            ocr_region(bytes, v, roi, OcrEngine::Tesseract) == if w == 0 || h == 0 {
                None
            } else {
                Some(cut_out(v, x, y, w, h))
            }
        }),
        engine != OcrEngine::Gemma ==> ocr_region(bytes, v, roi, engine) == ocr_region(
            bytes,
            v,
            roi,
            OcrEngine::Tesseract,
        ),
        ocr_region(bytes, v, roi, OcrEngine::Gemma) == match ocr_region(
            bytes,
            v,
            roi,
            OcrEngine::Tesseract,
        ) {
            Some(region) => Some(downscaled(region, GEMMA_MAX_SIDE)),
            None => None,
        },
        v.width <= PREVIEW_MAX_SIDE && v.height <= PREVIEW_MAX_SIDE ==> ({
            let n = normalized(bytes, v);
            let (x, y, w, h) = clamped_roi(n.width, n.height, roi);
            ocr_region(bytes, v, roi, OcrEngine::Tesseract) == if w == 0 || h == 0 {
                None
            } else {
                Some(cut_out(n, x, y, w, h))
            }
        }),
{
    lemma_oriented_size(exif_orientation_tag(bytes), v);
}

/// Checks the engine name, then decodes the payload, turns it upright, cuts the region
/// of interest out and, for Gemma, scales it down: the image that the engine reads.
pub fn prepare_ocr_image(image: &ImagePayload, roi: &Roi, engine: &str) -> (r: Result<
    (OcrEngine, Picture),
    String,
>)
    ensures
        match engine_named(engine@) {
            None => r is Err && r->Err_0@ == unknown_engine_message(),
            Some(e) => match payload_bytes(*image) {
                None => r is Err && r->Err_0@ == payload_error(*image),
                Some(bytes) => match decoded_image(bytes) {
                    None => r is Err && r->Err_0@ == "decode image error: "@ + image_load_error(bytes),
                    Some(v) => match ocr_region(bytes, v, *roi, e) {
                        None => r is Err && r->Err_0@ == empty_roi_message(),
                        Some(region) => r is Ok && r->Ok_0.0 == e && r->Ok_0.1@ == region,
                    },
                },
            },
        },
        r is Ok && r->Ok_0.0 == OcrEngine::Gemma ==> r->Ok_0.1@.width <= GEMMA_MAX_SIDE
            && r->Ok_0.1@.height <= GEMMA_MAX_SIDE,
{
    let kind = match parse_engine(engine) {
        Some(k) => k,
        None => {
            return Err("Невідомий двигун OCR".to_owned());
        },
    };
    let bytes = decode_image_bytes(image)?;
    let img = decode_image(bytes.as_slice())?;
    let img = normalize_orientation(bytes.as_slice(), img);
    let cropped = crop_roi(img, roi)?;
    if kind == OcrEngine::Gemma {
        Ok((kind, downscale_for_gemma(cropped)))
    } else {
        Ok((kind, cropped))
    }
}

// ---- Language model ----

/// The error when no model path is given.
pub open spec fn missing_model_message() -> Seq<char> {
    "Задайте шлях до моделі в налаштуваннях або через змінну середовища DEZLEKS_GEMMA_MODEL"@
}

/// The model file to use: the given path, trimmed, unless it is blank; else the value of
/// the `DEZLEKS_GEMMA_MODEL` variable as it stands; else an error.
pub open spec fn model_path_choice(given: Option<Seq<char>>, from_env: Option<Seq<char>>) -> Result<
    Seq<char>,
    Seq<char>,
> {
    match non_blank(given) {
        Some(p) => Ok(p),
        None => match from_env {
            Some(p) => Ok(p),
            None => Err(missing_model_message()),
        },
    }
}

/// A usable path in the settings wins, trimmed; a path that is absent or blank counts
/// as none, and then the environment's value is used as it stands; only with neither is
/// the result the missing-model error. So the choice depends on the settings only
/// through their trimmed text.
pub proof fn lemma_model_path_falls_back_to_environment(
    given: Option<Seq<char>>,
    from_env: Option<Seq<char>>,
)
    ensures
        given matches Some(g) && trimmed(g).len() > 0 ==> model_path_choice(given, from_env)
            == Ok::<Seq<char>, Seq<char>>(trimmed(given->0)),
        (given is None || trimmed(given->0).len() == 0) ==> model_path_choice(given, from_env)
            == match from_env {
            Some(p) => Ok::<Seq<char>, Seq<char>>(p),
            None => Err::<Seq<char>, Seq<char>>(missing_model_message()),
        },
        model_path_choice(given, from_env) is Err ==> from_env is None,
        given matches Some(g) && trimmed(g).len() == 0 ==> model_path_choice(given, from_env)
            == model_path_choice(None, from_env),
{
}

/// Chooses the model file from the path the user gave and the environment's value.
pub fn choose_model_path(given: Option<String>, from_env: Option<String>) -> (r: Result<
    String,
    String,
>)
    ensures
        match r {
            Ok(p) => model_path_choice(text_of(given), text_of(from_env)) == Ok::<
                Seq<char>,
                Seq<char>,
            >(p@),
            Err(e) => model_path_choice(text_of(given), text_of(from_env)) == Err::<
                Seq<char>,
                Seq<char>,
            >(e@),
        },
{
    match trimmed_non_blank(given) {
        Some(p) => Ok(p),
        None => match from_env {
            Some(p) => Ok(p),
            None => Err(
                "Задайте шлях до моделі в налаштуваннях або через змінну середовища DEZLEKS_GEMMA_MODEL".to_owned(),
            ),
        },
    }
}

/// The fixed opening of the OCR prompt.
pub open spec fn ocr_prompt_opening() -> Seq<char> {
    "Витягни весь видимий текст з зображення.\nПоверни лише текст, зберігай переноси рядків.\nБез пояснень.\nПідказка щодо мов: "@
}

/// The OCR prompt for Gemma with a language hint.
pub open spec fn base_ocr_prompt(lang: Seq<char>) -> Seq<char> {
    ocr_prompt_opening() + lang + "\n"@
}

/// The OCR prompt with the user's extra rules, when there are any.
pub open spec fn ocr_prompt(lang: Seq<char>, extra: Option<Seq<char>>) -> Seq<char> {
    match non_blank(extra) {
        Some(rules) => base_ocr_prompt(lang) + "\nДодаткові правила очищення:\n"@ + rules + "\n"@,
        None => base_ocr_prompt(lang),
    }
}

/// The OCR prompt with a language hint.
pub fn base_ocr_prompt_for(lang: &str) -> (r: String)
    ensures
        r@ == base_ocr_prompt(lang@),
{
    let r = join(
        "Витягни весь видимий текст з зображення.\nПоверни лише текст, зберігай переноси рядків.\nБез пояснень.\nПідказка щодо мов: ",
        lang,
    );
    join(r.as_str(), "\n")
}

/// The OCR prompt for Gemma, with the user's extra rules appended when they are not blank.
pub fn gemma_ocr_prompt(lang: &str, extra: Option<String>) -> (r: String)
    ensures
        r@ == ocr_prompt(lang@, text_of(extra)),
{
    let base = base_ocr_prompt_for(lang);
    match trimmed_non_blank(extra) {
        Some(rules) => {
            let r = join(base.as_str(), "\nДодаткові правила очищення:\n");
            let r = join(r.as_str(), rules.as_str());
            let r2 = join(r.as_str(), "\n");
            assert(r2@ =~= base_ocr_prompt(lang@) + "\nДодаткові правила очищення:\n"@ + rules@
                + "\n"@);
            r2
        },
        None => base,
    }
}

/// The fixed instructions for cleaning OCR text, up to the text itself.
pub open spec fn default_cleaning_instructions() -> Seq<char> {
    "Ти редактор OCR українською.\nВиправ типові помилки розпізнавання: зайві символи, неправильні пробіли, перенос рядків, злиплі/розбиті слова, помилки пунктуації.\nВиправ орфографію, граматику та опечатки, якщо це не змінює зміст.\nНе додавай нового змісту. Не вигадуй відсутній текст. Не змінюй мову.\nПоверни тільки виправлений текст без пояснень.\n\nТекст:\n"@
}

/// The prompt for cleaning OCR text: the user's own prompt, when it is not blank,
/// followed by the text; else the fixed instructions followed by the text.
pub open spec fn cleaning_prompt(raw_text: Seq<char>, custom: Option<Seq<char>>) -> Seq<char> {
    match non_blank(custom) {
        Some(p) => p + "\n\nТекст:\n"@ + raw_text,
        None => default_cleaning_instructions() + raw_text,
    }
}

/// Builds the prompt for cleaning OCR text.
pub fn clean_text_prompt(raw_text: &str, custom: Option<String>) -> (r: String)
    ensures
        r@ == cleaning_prompt(raw_text@, text_of(custom)),
{
    match trimmed_non_blank(custom) {
        Some(p) => {
            let r = join(p.as_str(), "\n\nТекст:\n");
            join(r.as_str(), raw_text)
        },
        None => join(
            "Ти редактор OCR українською.\nВиправ типові помилки розпізнавання: зайві символи, неправильні пробіли, перенос рядків, злиплі/розбиті слова, помилки пунктуації.\nВиправ орфографію, граматику та опечатки, якщо це не змінює зміст.\nНе додавай нового змісту. Не вигадуй відсутній текст. Не змінюй мову.\nПоверни тільки виправлений текст без пояснень.\n\nТекст:\n",
            raw_text,
        ),
    }
}

/// The error text of a failed tool: its standard error, decoded and trimmed, or the
/// fallback when that is empty.
pub open spec fn failure_text(stderr: Seq<u8>, fallback: Seq<char>) -> Seq<char> {
    if trimmed(utf8_lossy(stderr)).len() == 0 {
        fallback
    } else {
        trimmed(utf8_lossy(stderr))
    }
}

/// The error text of a tool that exited with failure.
pub fn failure_message(stderr: &[u8], fallback: &str) -> (r: String)
    ensures
        r@ == failure_text(stderr@, fallback@),
{
    let text = from_utf8_lossy(stderr);
    let t = trim(text.as_str());
    if t.is_empty() {
        fallback.to_owned()
    } else {
        t.to_owned()
    }
}

/// What a finished run of a tool gives: its standard output, decoded and trimmed, when
/// it succeeded; else the error text of its failure.
pub open spec fn tool_result(success: bool, stdout: Seq<u8>, stderr: Seq<u8>, fallback: Seq<char>) -> Result<
    Seq<char>,
    Seq<char>,
> {
    if success {
        Ok(trimmed(utf8_lossy(stdout)))
    } else {
        Err(failure_text(stderr, fallback))
    }
}

/// Reads the result of a finished run of a tool from its exit status and output.
pub fn tool_output(success: bool, stdout: &[u8], stderr: &[u8], fallback: &str) -> (r: Result<
    String,
    String,
>)
    ensures
        match r {
            Ok(t) => tool_result(success, stdout@, stderr@, fallback@) == Ok::<
                Seq<char>,
                Seq<char>,
            >(t@),
            Err(e) => tool_result(success, stdout@, stderr@, fallback@) == Err::<
                Seq<char>,
                Seq<char>,
            >(e@),
        },
{
    if success {
        let text = from_utf8_lossy(stdout);
        Ok(trim(text.as_str()).to_owned())
    } else {
        Err(failure_message(stderr, fallback))
    }
}

// ---- Model download ----

/// The file name a downloaded model is saved under: the given name, trimmed and cleaned,
/// unless it is blank; else the name the URL points at.
pub open spec fn model_file_name(given: Option<Seq<char>>, url: Seq<char>) -> Seq<char> {
    match non_blank(given) {
        Some(name) => sanitized(name),
        None => url_filename(url),
    }
}

/// A name typed by the user is trimmed and cleaned; a name that is absent or blank
/// counts as none, and then the file is named after the last segment of the URL's path,
/// so models downloaded without a name keep their own names. The choice depends on the
/// given name only through its trimmed text.
pub proof fn lemma_model_file_named_after_url(given: Option<Seq<char>>, url: Seq<char>)
    ensures
        given matches Some(g) && trimmed(g).len() > 0 ==> model_file_name(given, url) == sanitized(
            trimmed(given->0),
        ),
        (given is None || trimmed(given->0).len() == 0) ==> model_file_name(given, url)
            == url_filename(url),
        given matches Some(g) && trimmed(g).len() == 0 ==> model_file_name(given, url)
            == model_file_name(None, url),
{
}

/// Chooses the file name for a downloaded model.
pub fn choose_model_filename(given: Option<String>, url: &str) -> (r: String)
    ensures
        r@ == model_file_name(text_of(given), url@),
{
    match trimmed_non_blank(given) {
        Some(name) => sanitize_filename(name.as_str()),
        None => filename_from_url(url),
    }
}

/// The name of the partial file a download is written to before it is complete.
pub fn partial_file_name(name: &str) -> (r: String)
    ensures
        r@ == name@ + ".part"@,
{
    join(name, ".part")
}

/// The `Authorization` header value for a download: the token, trimmed, after
/// "Bearer ", when it is not blank.
pub open spec fn bearer_value(token: Option<Seq<char>>) -> Option<Seq<char>> {
    match non_blank(token) {
        Some(t) => Some("Bearer "@ + t),
        None => None,
    }
}

/// Builds the `Authorization` header value from an access token.
pub fn bearer_header(token: Option<String>) -> (r: Option<String>)
    ensures
        text_of(r) == bearer_value(text_of(token)),
{
    match trimmed_non_blank(token) {
        Some(t) => Some(join("Bearer ", t.as_str())),
        None => None,
    }
}

// ---- Printing and speech ----

/// What the print service receives, apart from the line height.
#[derive(Clone, Debug)]
pub struct PrintSettings {
    pub text: String,
    pub font_family: String,
    pub font_size_px: u32,
    pub text_color: String,
}

/// The error when there is no text to print.
pub open spec fn nothing_to_print_message() -> Seq<char> {
    "Немає тексту для друку"@
}

/// The print settings: the trimmed text, which must not be empty, and the given font,
/// size and colour, or "system", 20 and "#1a1a1a".
pub fn print_settings(
    raw_text: &str,
    font_family: Option<String>,
    font_size_px: Option<u32>,
    text_color: Option<String>,
) -> (r: Result<PrintSettings, String>)
    ensures
        trimmed(raw_text@).len() == 0 <==> r is Err,
        r is Err ==> r->Err_0@ == nothing_to_print_message(),
        r is Ok ==> {
            let s = r->Ok_0;
            &&& s.text@ == trimmed(raw_text@)
            &&& s.font_family@ == match font_family {
                Some(f) => f@,
                None => "system"@,
            }
            &&& s.font_size_px == match font_size_px {
                Some(n) => n,
                None => 20u32,
            }
            &&& s.text_color@ == match text_color {
                Some(c) => c@,
                None => "#1a1a1a"@,
            }
        },
{
    let text = trim(raw_text);
    if text.is_empty() {
        return Err("Немає тексту для друку".to_owned());
    }
    let font_family = match font_family {
        Some(f) => f,
        None => "system".to_owned(),
    };
    let font_size_px = match font_size_px {
        Some(n) => n,
        None => 20,
    };
    let text_color = match text_color {
        Some(c) => c,
        None => "#1a1a1a".to_owned(),
    };
    Ok(PrintSettings { text: text.to_owned(), font_family, font_size_px, text_color })
}

/// What the speech service receives.
#[derive(Clone, Debug)]
pub struct SpeechRequest {
    pub text: String,
    pub lang: String,
}

/// The error when there is no text to read aloud.
pub open spec fn nothing_to_speak_message() -> Seq<char> {
    "Немає тексту для озвучення"@
}

/// The voice for a trimmed, lower-cased language: English for "en", else Ukrainian.
pub open spec fn voice_for(lowered: Seq<char>) -> Seq<char> {
    if lowered == "en"@ {
        "en"@
    } else {
        "uk"@
    }
}

/// Picks the voice for a trimmed, lower-cased language.
pub fn speech_language(lowered: &str) -> (r: String)
    ensures
        r@ == voice_for(lowered@),
{
    if same_text(lowered, "en") {
        "en".to_owned()
    } else {
        "uk".to_owned()
    }
}

/// The speech request: the trimmed text, which must not be empty, and the voice for the
/// given language (Ukrainian when none is given), trimmed and lower-cased.
pub fn speech_request(raw_text: &str, lang: Option<String>) -> (r: Result<SpeechRequest, String>)
    ensures
        trimmed(raw_text@).len() == 0 <==> r is Err,
        r is Err ==> r->Err_0@ == nothing_to_speak_message(),
        r is Ok ==> {
            let s = r->Ok_0;
            &&& s.text@ == trimmed(raw_text@)
            &&& s.lang@ == voice_for(
                unicode_lowercase(
                    trimmed(
                        match lang {
                            Some(l) => l@,
                            None => "uk"@,
                        },
                    ),
                ),
            )
        },
{
    let text = trim(raw_text);
    if text.is_empty() {
        return Err("Немає тексту для озвучення".to_owned());
    }
    let lang = match lang {
        Some(l) => l,
        None => "uk".to_owned(),
    };
    let lowered = to_lowercase(trim(lang.as_str()));
    let voice = speech_language(lowered.as_str());
    Ok(SpeechRequest { text: text.to_owned(), lang: voice })
}

// ---- The Java OCR runner ----

/// What to do to make the Java OCR runner ready.
#[derive(Clone, Copy, Debug, PartialEq, Eq, Structural)]
pub struct RunnerPlan {
    /// Write the runner's source file.
    pub write_source: bool,
    /// Delete the stale runner archive.
    pub remove_archive: bool,
    /// Empty the output directory of the compiler.
    pub clear_output: bool,
    /// Compile the source and pack the archive.
    pub build: bool,
}

/// Plans the preparation of the Java OCR runner from whether the source on disk is the
/// current one and whether the archive exists: nothing is done when both hold; a stale
/// source is rewritten, the archive removed, the output cleared and all rebuilt; a
/// missing archive is built.
pub fn plan_runner(source_current: bool, archive_exists: bool) -> (r: RunnerPlan)
    ensures
        r.write_source == !source_current,
        r.remove_archive == (archive_exists && !source_current),
        r.clear_output == !source_current,
        r.build == !(archive_exists && source_current),
{
    let needs_rebuild = !source_current;
    if archive_exists && !needs_rebuild {
        return RunnerPlan { write_source: false, remove_archive: false, clear_output: false, build: false };
    }
    RunnerPlan {
        write_source: needs_rebuild,
        remove_archive: archive_exists && needs_rebuild,
        clear_output: needs_rebuild,
        build: true,
    }
}

} // verus!
