//! PDF extraction: collecting the multipart upload, capping the pages that
//! are rendered, encoding each rendered page for Ollama, and joining the
//! texts recognised on the pages into one answer.
use crate::error::{error_with_detail, ApiError, BAD_REQUEST, INTERNAL_SERVER_ERROR};
use crate::models::{ExtractResponse, OllamaGenerateRequest, PdfExtractRequest};
use crate::ollama::{generate_request, ocr_model};
use crate::security::ApiKey;
use crate::text::{contains_seq, decimal, decimal_string, lemma_contains_extend, law_contains_found_anywhere};
use base64::Engine;
use vstd::prelude::*;
use vstd::string::StringExecFns;

verus! {

/// The most pages of one PDF that are rendered and read.
pub const MAX_PAGES: usize = 50;

/// The width, in pixels, to which each page is rendered.
pub const RENDER_TARGET_WIDTH: i32 = 2048;

/// The number of pages rendered of a PDF with `total` pages.
pub fn pages_to_render(total: usize) -> (n: usize)
    ensures
        n <= MAX_PAGES,
        n <= total,
        n == total || n == MAX_PAGES,
{
    if total < MAX_PAGES {
        total
    } else {
        MAX_PAGES
    }
}

/// Whether a PDF with `total` pages is cut short (and a warning is due).
pub fn exceeds_page_cap(total: usize) -> (b: bool)
    ensures
        b == (total > MAX_PAGES),
{
    total > MAX_PAGES
}

/// What a multipart field of the upload is used for.
#[derive(Debug, Clone, Copy, PartialEq, Eq)]
pub enum FieldRole {
    /// The field `file`: the PDF.
    File,
    /// The field `prompt`: the OCR prompt.
    Prompt,
    /// Any other field, which is skipped.
    Ignored,
}

/// The role of a field by its name; a field without a name is ignored.
pub open spec fn role_of(name: Option<Seq<char>>) -> FieldRole {
    match name {
        Some(n) => if n == "file"@ {
            FieldRole::File
        } else if n == "prompt"@ {
            FieldRole::Prompt
        } else {
            FieldRole::Ignored
        },
        None => FieldRole::Ignored,
    }
}

/// The role of a multipart field, from its name.
pub fn field_role(name: Option<&str>) -> (r: FieldRole)
    ensures
        r == role_of(
            match name {
                Some(n) => Some(n@),
                None => None,
            },
        ),
{
    match name {
        Some(n) => {
            let n = String::from_str(n);
            if n.eq(&String::from_str("file")) {
                FieldRole::File
            } else if n.eq(&String::from_str("prompt")) {
                FieldRole::Prompt
            } else {
                FieldRole::Ignored
            }
        },
        None => FieldRole::Ignored,
    }
}

/// The step of reading the upload that failed.
#[derive(Debug, Clone, Copy, PartialEq, Eq)]
pub enum FormFailure {
    /// The multipart stream itself.
    Multipart,
    /// The content of the `file` field.
    FileBytes,
    /// The content of the `prompt` field.
    PromptText,
}

/// The message prefix for a failure to read the upload.
pub open spec fn form_failure_prefix(kind: FormFailure) -> Seq<char> {
    match kind {
        FormFailure::Multipart => "Multipart error: "@,
        FormFailure::FileBytes => "Failed to read PDF bytes: "@,
        FormFailure::PromptText => "Failed to read prompt field: "@,
    }
}

/// The answer when reading the upload fails; `detail` describes why.
pub fn form_error(kind: FormFailure, detail: &str) -> (e: ApiError)
    ensures
        e.status == BAD_REQUEST,
        e.message@ == form_failure_prefix(kind) + detail@,
{
    match kind {
        FormFailure::Multipart => error_with_detail(BAD_REQUEST, "Multipart error: ", detail),
        FormFailure::FileBytes => error_with_detail(BAD_REQUEST, "Failed to read PDF bytes: ", detail),
        FormFailure::PromptText => error_with_detail(
            BAD_REQUEST,
            "Failed to read prompt field: ",
            detail,
        ),
    }
}

/// The fields of the upload read so far.
pub struct PdfForm {
    pub file: Option<Vec<u8>>,
    pub prompt: Option<String>,
}

impl PdfForm {
    /// A form with no field read yet, for an authenticated upload.
    pub fn new(_key: &ApiKey) -> (f: Self)
        ensures
            f.file is None,
            f.prompt is None,
    {
        PdfForm { file: None, prompt: None }
    }

    /// Records the content of a `file` field; a later one replaces an earlier one.
    pub fn set_file(&mut self, bytes: Vec<u8>)
        ensures
            final(self).file == Some(bytes),
            final(self).prompt == old(self).prompt,
    {
        self.file = Some(bytes);
    }

    /// Records the content of a `prompt` field; a later one replaces an earlier one.
    pub fn set_prompt(&mut self, text: String)
        ensures
            final(self).prompt == Some(text),
            final(self).file == old(self).file,
    {
        self.prompt = Some(text);
    }

    /// The upload, once all fields are read; an error when it had no `file` field.
    pub fn finish(self) -> (r: Result<PdfExtractRequest, ApiError>)
        ensures
            match self.file {
                Some(bytes) => (r matches Ok(req) && req.file == bytes && req.prompt == self.prompt),
                None => (r matches Err(e) && e.status == BAD_REQUEST && e.message@
                    == "Missing 'file' field in multipart"@),
            },
    {
        match self.file {
            Some(bytes) => Ok(PdfExtractRequest { file: bytes, prompt: self.prompt }),
            None => Err(
                ApiError {
                    status: BAD_REQUEST,
                    message: String::from_str("Missing 'file' field in multipart"),
                },
            ),
        }
    }
}

/// What a failure while preparing the document concerned.
#[derive(Debug, Clone, Copy, PartialEq, Eq)]
pub enum DocumentFailure {
    /// The PDF library could not be loaded.
    LibraryMissing,
    /// The bytes are not a readable PDF.
    Unparsable,
    /// The rendering task ended abnormally.
    TaskAborted,
}

/// The message for a failure while preparing the document; `detail` describes it.
pub open spec fn document_failure_text(kind: DocumentFailure, detail: Seq<char>) -> Seq<char> {
    match kind {
        DocumentFailure::LibraryMissing => "libpdfium not found: "@ + detail
            + ". Install from https://github.com/bblanchon/pdfium-binaries and run ldconfig."@,
        DocumentFailure::Unparsable => "Failed to parse PDF: "@ + detail,
        DocumentFailure::TaskAborted => "PDF rendering thread panicked: "@ + detail,
    }
}

/// The answer when the document cannot be prepared.
pub fn document_error(kind: DocumentFailure, detail: &str) -> (e: ApiError)
    ensures
        e.status == INTERNAL_SERVER_ERROR,
        e.message@ == document_failure_text(kind, detail@),
{
    let message = match kind {
        DocumentFailure::LibraryMissing => String::from_str("libpdfium not found: ").concat(
            detail,
        ).concat(". Install from https://github.com/bblanchon/pdfium-binaries and run ldconfig."),
        DocumentFailure::Unparsable => String::from_str("Failed to parse PDF: ").concat(detail),
        DocumentFailure::TaskAborted => String::from_str("PDF rendering thread panicked: ").concat(
            detail,
        ),
    };
    ApiError { status: INTERNAL_SERVER_ERROR, message }
}

/// The step at which rendering one page failed.
#[derive(Debug, Clone, Copy, PartialEq, Eq)]
pub enum PageStage {
    /// Fetching the page from the document.
    Get,
    /// Rendering it to a bitmap.
    Render,
    /// Encoding the bitmap as PNG.
    Encode,
}

/// The verb that names a page stage in messages.
pub open spec fn stage_verb(stage: PageStage) -> Seq<char> {
    match stage {
        PageStage::Get => "get"@,
        PageStage::Render => "render"@,
        PageStage::Encode => "PNG-encode"@,
    }
}

/// The message for a failure at `stage` of the page at zero-based `index`;
/// pages are numbered from one in the message.
pub open spec fn page_failure_text(stage: PageStage, index: nat, detail: Seq<char>) -> Seq<char> {
    "Failed to "@ + stage_verb(stage) + " page "@ + decimal(index + 1) + ": "@ + detail
}

/// The answer when a page cannot be rendered.
pub fn page_error(stage: PageStage, index: usize, detail: &str) -> (e: ApiError)
    requires
        index < usize::MAX,
    ensures
        e.status == INTERNAL_SERVER_ERROR,
        e.message@ == page_failure_text(stage, index as nat, detail@),
{
    let verb = match stage {
        PageStage::Get => "get",
        PageStage::Render => "render",
        PageStage::Encode => "PNG-encode",
    };
    let number = decimal_string((index + 1) as u64);
    let message = String::from_str("Failed to ").concat(verb).concat(" page ").concat(
        number.as_str(),
    ).concat(": ").concat(detail);
    ApiError { status: INTERNAL_SERVER_ERROR, message }
}

/// What the standard base64 engine (RFC 4648 alphabet, with padding) of the
/// `base64` crate produces for `bytes`.
pub uninterp spec fn base64_standard(bytes: Seq<u8>) -> Seq<char>;

/// Calls `base64::engine::general_purpose::STANDARD.encode`. Claims that
/// the text is `base64_standard(bytes)` and that it has four characters for
/// every started group of three bytes, as `encoded_len` computes with padding.
/// The bound on the length keeps `encoded_len` from overflowing, where
/// `encode` would panic.
#[verifier::external_body]
fn base64_encode(bytes: &[u8]) -> (s: String)
    requires
        bytes@.len() / 3 * 4 + 4 <= usize::MAX,
    ensures
        s@ == base64_standard(bytes@),
        s@.len() == 4 * ((bytes@.len() + 2) / 3),
{
    base64::engine::general_purpose::STANDARD.encode(bytes)
}

/// The base64 text of each rendered page, in page order, as sent to Ollama.
pub fn encode_pages(pngs: &Vec<Vec<u8>>) -> (r: Vec<String>)
    requires
        forall|i: int| 0 <= i < pngs@.len() ==> (#[trigger] pngs@[i])@.len() / 3 * 4 + 4 <= usize::MAX,
    ensures
        r@.len() == pngs@.len(),
        forall|i: int| 0 <= i < pngs@.len() ==> (#[trigger] r@[i])@ == base64_standard(pngs@[i]@),
{
    let mut r: Vec<String> = Vec::new();
    let mut i: usize = 0;
    while i < pngs.len()
        invariant
            i <= pngs@.len(),
            r@.len() == i,
            forall|k: int| 0 <= k < pngs@.len() ==> (#[trigger] pngs@[k])@.len() / 3 * 4 + 4 <= usize::MAX,
            forall|k: int| 0 <= k < i ==> (#[trigger] r@[k])@ == base64_standard(pngs@[k]@),
        decreases pngs.len() - i,
    {
        let encoded = base64_encode(pngs[i].as_slice());
        r.push(encoded);
        i = i + 1;
    }
    r
}

/// The section of the answer for the page at zero-based `index`.
pub open spec fn page_section(index: nat, text: Seq<char>) -> Seq<char> {
    "--- Page "@ + decimal(index + 1) + " ---\n"@ + text
}

/// The sections of all pages, in page order, separated by blank lines.
pub open spec fn pages_text(texts: Seq<Seq<char>>) -> Seq<char>
    decreases texts.len(),
{
    if texts.len() == 0 {
        Seq::empty()
    } else if texts.len() == 1 {
        page_section(0, texts[0])
    } else {
        pages_text(texts.drop_last()) + "\n\n"@ + page_section(
            (texts.len() - 1) as nat,
            texts.last(),
        )
    }
}

/// Adding a page to a document of at least one page appends a blank line
/// and that page's section, headed with its number, to the answer; what the
/// earlier pages gave stays as it was.
pub proof fn law_page_appended(texts: Seq<Seq<char>>, t: Seq<char>)
    requires
        texts.len() > 0,
    ensures
        pages_text(texts.push(t)) == pages_text(texts) + "\n\n"@ + "--- Page "@ + decimal(
            texts.len() + 1,
        ) + " ---\n"@ + t,
{
    assert(texts.push(t).drop_last() =~= texts);
    assert(texts.push(t).last() == t);
}

/// The answer for a one-page document is that page's section alone.
pub proof fn law_single_page(t: Seq<char>)
    ensures
        pages_text(seq![t]) == "--- Page 1 ---\n"@ + t,
{
    reveal_strlit("--- Page ");
    reveal_strlit(" ---\n");
    reveal_strlit("--- Page 1 ---\n");
    assert(decimal(1) =~= seq!['1']);
    assert("--- Page "@ + decimal(1) + " ---\n"@ =~= "--- Page 1 ---\n"@);
}

/// No page is dropped: the answer holds, for every page `k`, the header with
/// its number `k + 1` followed by its text.
pub proof fn law_every_page_kept(texts: Seq<Seq<char>>, k: int)
    requires
        0 <= k < texts.len(),
    ensures
        contains_seq(pages_text(texts), "--- Page "@ + decimal((k + 1) as nat) + " ---\n"@ + texts[k]),
    decreases texts.len(),
{
    let section = "--- Page "@ + decimal((k + 1) as nat) + " ---\n"@ + texts[k];
    if k == texts.len() - 1 {
        if texts.len() == 1 {
            law_contains_found_anywhere(Seq::empty(), section, Seq::empty());
            assert(Seq::<char>::empty() + section + Seq::<char>::empty() =~= section);
        } else {
            let front = pages_text(texts.drop_last()) + "\n\n"@;
            law_contains_found_anywhere(front, section, Seq::empty());
            assert(front + section + Seq::<char>::empty() =~= pages_text(texts));
        }
    } else {
        let rest = texts.drop_last();
        assert(rest[k] == texts[k]);
        law_every_page_kept(rest, k);
        let tail = "\n\n"@ + page_section((texts.len() - 1) as nat, texts.last());
        lemma_contains_extend(Seq::empty(), pages_text(rest), tail, section);
        assert(Seq::<char>::empty() + pages_text(rest) + tail =~= pages_text(texts));
    }
}

/// The texts of the given strings.
pub open spec fn texts_of(v: Seq<String>) -> Seq<Seq<char>> {
    v.map_values(|s: String| s@)
}

/// The answer text for the texts recognised on the pages, in page order.
pub fn combine_page_texts(texts: &Vec<String>) -> (r: String)
    ensures
        r@ == pages_text(texts_of(texts@)),
{
    let mut r = String::new();
    let mut i: usize = 0;
    while i < texts.len()
        invariant
            i <= texts@.len(),
            r@ == pages_text(texts_of(texts@).take(i as int)),
        decreases texts.len() - i,
    {
        let number = decimal_string((i + 1) as u64);
        let ghost before = r@;
        if i > 0 {
            r.append("\n\n");
        }
        r.append("--- Page ");
        r.append(number.as_str());
        r.append(" ---\n");
        r.append(texts[i].as_str());
        proof {
            let ts = texts_of(texts@);
            assert(ts.take(i + 1).drop_last() =~= ts.take(i as int));
            assert(ts.take(i + 1).last() == texts@[i as int]@);
            if i == 0 {
                assert(before =~= Seq::<char>::empty());
                assert(r@ =~= page_section(0, texts@[0]@));
            } else {
                assert(r@ =~= before + "\n\n"@ + page_section(i as nat, texts@[i as int]@));
            }
        }
        i = i + 1;
    }
    assert(texts_of(texts@).take(texts@.len() as int) =~= texts_of(texts@));
    r
}

/// What the reading of the pages asks for next.
pub enum ReadingStep {
    /// Send this request to Ollama and record the text it yields.
    Ask(OllamaGenerateRequest),
    /// Every page is read: this is the answer.
    Finished(ExtractResponse),
}

/// The reading of a document's pages by the OCR model, one page at a time
/// and in page order.
pub struct PageReading {
    pages: Vec<String>,
    prompt: String,
    texts: Vec<String>,
}

impl PageReading {
    /// The base64 text of every page to read, in page order.
    pub closed spec fn pages(&self) -> Seq<String> {
        self.pages@
    }

    /// The prompt sent with every page.
    pub closed spec fn prompt(&self) -> Seq<char> {
        self.prompt@
    }

    /// The texts recognised so far, one per page read.
    pub closed spec fn texts(&self) -> Seq<String> {
        self.texts@
    }

    /// A reading of `pages` with `prompt` in which no page is read yet.
    pub fn new(pages: Vec<String>, prompt: String) -> (r: Self)
        ensures
            r.pages() == pages@,
            r.prompt() == prompt@,
            r.texts() == Seq::<String>::empty(),
    {
        PageReading { pages, prompt, texts: Vec::new() }
    }

    /// The next step: the request for the first page not yet read, or, when
    /// all are read, the answer that joins their texts.
    pub fn step(&self) -> (st: ReadingStep)
        ensures
            self.texts().len() < self.pages().len() ==> (st matches ReadingStep::Ask(req) && {
                &&& req.model@ == ocr_model()
                &&& req.prompt@ == self.prompt()
                &&& !req.stream
                &&& req.images@.len() == 1
                &&& req.images@[0]@ == self.pages()[self.texts().len() as int]@
            }),
            self.texts().len() >= self.pages().len() ==> (st matches ReadingStep::Finished(resp)
                && resp.text@ == pages_text(texts_of(self.texts()))),
    {
        let done = self.texts.len();
        if done < self.pages.len() {
            ReadingStep::Ask(generate_request(self.pages[done].clone(), &self.prompt))
        } else {
            ReadingStep::Finished(ExtractResponse { text: combine_page_texts(&self.texts) })
        }
    }

    /// Records what the request for the next page yielded: its text, which
    /// moves the reading on, or an error, which ends the reading with that
    /// error and no partial answer.
    pub fn record(self, outcome: Result<String, ApiError>) -> (r: Result<PageReading, ApiError>)
        requires
            self.texts().len() < self.pages().len(),
        ensures
            match outcome {
                Ok(t) => (r matches Ok(next) && next.pages() == self.pages() && next.prompt()
                    == self.prompt() && next.texts() == self.texts().push(t)),
                Err(e) => r == Err::<PageReading, ApiError>(e),
            },
    {
        match outcome {
            Ok(t) => {
                let PageReading { pages, prompt, mut texts } = self;
                texts.push(t);
                Ok(PageReading { pages, prompt, texts })
            },
            Err(e) => Err(e),
        }
    }
}

} // verus!
