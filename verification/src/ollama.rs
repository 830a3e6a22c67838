//! The gateway's side of its exchanges with Ollama: where requests go, what
//! they carry, and what each reply becomes.
use crate::error::{error_with_detail, ApiError, INTERNAL_SERVER_ERROR};
use crate::models::{
    ExtractRequest, ExtractResponse, OllamaGenerateRequest, OllamaGenerateResponse, OllamaModel,
    OllamaModelList, StatusResponse,
};
use crate::security::ApiKey;
use crate::text::{contains_seq, contains_str, law_contains_found_anywhere};
use vstd::prelude::*;
use vstd::string::StringExecFns;

verus! {

/// The model that performs the OCR.
pub open spec fn ocr_model() -> Seq<char> {
    "glm-ocr:latest"@
}

/// The name that marks the OCR model in Ollama's model listing.
pub open spec fn ocr_model_family() -> Seq<char> {
    "glm-ocr"@
}

/// The prompt used when a request gives none.
pub open spec fn default_prompt() -> Seq<char> {
    "Extract all text from this image."@
}

/// The Ollama address used when none is configured.
pub open spec fn default_ollama_url() -> Seq<char> {
    "http://127.0.0.1:11434"@
}

/// The port the gateway listens on when none is configured.
pub open spec fn default_port() -> Seq<char> {
    "8000"@
}

/// What `reqwest::StatusCode`'s `Display` writes for `code`: the number and
/// its canonical reason phrase.
pub uninterp spec fn status_text(code: u16) -> Seq<char>;

/// A status code in the success class.
pub open spec fn is_success_status(code: u16) -> bool {
    200 <= code < 300
}

/// `reqwest::StatusCode::is_success` for the code `code`.
pub fn is_success(code: u16) -> (b: bool)
    ensures
        b == is_success_status(code),
{
    200 <= code && code < 300
}

/// Calls `reqwest::StatusCode::from_u16` and the `Display` of the code it
/// gives. Claims only that the text is `status_text(code)`, a function of
/// `code` alone; `from_u16` accepts every code in `100..=999`.
#[verifier::external_body]
fn status_code_text(code: u16) -> (s: String)
    requires
        100 <= code <= 999,
    ensures
        s@ == status_text(code),
{
    match reqwest::StatusCode::from_u16(code) {
        Ok(status) => status.to_string(),
        Err(_) => String::new(),
    }
}

/// The Ollama address to use: the configured one, else the default.
pub fn ollama_base_url(configured: Option<String>) -> (url: String)
    ensures
        url@ == match configured {
            Some(c) => c@,
            None => default_ollama_url(),
        },
{
    match configured {
        Some(c) => c,
        None => String::from_str("http://127.0.0.1:11434"),
    }
}

/// The address the gateway listens on: all interfaces, at the configured
/// port or the default one.
pub fn bind_address(port: Option<String>) -> (addr: String)
    ensures
        addr@ == "0.0.0.0:"@ + match port {
            Some(p) => p@,
            None => default_port(),
        },
{
    let p = match port {
        Some(p) => p,
        None => String::from_str("8000"),
    };
    String::from_str("0.0.0.0:").concat(p.as_str())
}

/// Ollama's generate endpoint under `base`.
pub fn generate_url(base: &String) -> (url: String)
    ensures
        url@ == base@ + "/api/generate"@,
{
    base.clone().concat("/api/generate")
}

/// Ollama's model listing endpoint under `base`.
pub fn tags_url(base: &String) -> (url: String)
    ensures
        url@ == base@ + "/api/tags"@,
{
    base.clone().concat("/api/tags")
}

/// The prompt of a request: the one given, else the default.
pub fn effective_prompt(prompt: Option<String>) -> (p: String)
    ensures
        p@ == match prompt {
            Some(q) => q@,
            None => default_prompt(),
        },
{
    match prompt {
        Some(q) => q,
        None => String::from_str("Extract all text from this image."),
    }
}

/// The non-streaming generate request that asks the OCR model to apply
/// `prompt` to one base64 encoded image.
pub fn generate_request(image_base64: String, prompt: &String) -> (r: OllamaGenerateRequest)
    ensures
        r.model@ == ocr_model(),
        r.prompt@ == prompt@,
        !r.stream,
        r.images@.len() == 1,
        r.images@[0]@ == image_base64@,
{
    let mut images: Vec<String> = Vec::new();
    images.push(image_base64);
    OllamaGenerateRequest {
        model: String::from_str("glm-ocr:latest"),
        prompt: prompt.clone(),
        stream: false,
        images,
    }
}

/// The generate request behind an authenticated image extraction request.
pub fn extract_job(_key: &ApiKey, payload: ExtractRequest) -> (r: OllamaGenerateRequest)
    ensures
        r.model@ == ocr_model(),
        r.prompt@ == match payload.prompt {
            Some(q) => q@,
            None => default_prompt(),
        },
        !r.stream,
        r.images@.len() == 1,
        r.images@[0]@ == payload.image_base64@,
{
    let prompt = effective_prompt(payload.prompt);
    generate_request(payload.image_base64, &prompt)
}

/// The answer when Ollama could not be reached; `detail` describes why.
pub fn ocr_unreachable(detail: &str) -> (e: ApiError)
    ensures
        e.status == INTERNAL_SERVER_ERROR,
        e.message@ == "Failed to connect to Ollama: "@ + detail@,
{
    error_with_detail(INTERNAL_SERVER_ERROR, "Failed to connect to Ollama: ", detail)
}

/// Whether Ollama's answer to a generate request, with status `code`, is
/// to be read; the error to send when it is not.
pub fn ocr_check_status(code: u16) -> (r: Result<(), ApiError>)
    requires
        100 <= code <= 999,
    ensures
        r is Ok <==> is_success_status(code),
        r matches Err(e) ==> (e.status == INTERNAL_SERVER_ERROR && e.message@
            == "Ollama returned an error: "@ + status_text(code)),
{
    if is_success(code) {
        Ok(())
    } else {
        let text = status_code_text(code);
        Err(error_with_detail(INTERNAL_SERVER_ERROR, "Ollama returned an error: ", text.as_str()))
    }
}

/// The recognised text, from the decoded generate answer, or the error to
/// send when the answer could not be decoded (`Err` holds why).
pub fn ocr_text(parsed: Result<OllamaGenerateResponse, String>) -> (r: Result<String, ApiError>)
    ensures
        match parsed {
            Ok(g) => (r matches Ok(t) && t@ == g.response@),
            Err(d) => (r matches Err(e) && e.status == INTERNAL_SERVER_ERROR && e.message@
                == "Failed to parse Ollama generation: "@ + d@),
        },
{
    match parsed {
        Ok(g) => Ok(g.response),
        Err(d) => Err(
            error_with_detail(INTERNAL_SERVER_ERROR, "Failed to parse Ollama generation: ", d.as_str()),
        ),
    }
}

/// The answer of the extraction endpoint for recognised text.
pub fn extract_response(text: String) -> (r: ExtractResponse)
    ensures
        r.text@ == text@,
{
    ExtractResponse { text }
}

/// Some model among `models` has a name that contains the OCR model's name.
pub open spec fn names_ocr_model(models: Seq<OllamaModel>) -> bool {
    exists|i: int|
        0 <= i < models.len() && contains_seq(#[trigger] models[i].name@, ocr_model_family())
}

/// Ollama's listing names the OCR model.
pub open spec fn lists_ocr_model(list: OllamaModelList) -> bool {
    names_ocr_model(list.models@)
}

/// The OCR model is reported available when any listed model, at any
/// position, has a name holding `glm-ocr`, whatever surrounds it.
pub proof fn law_model_found_anywhere(
    list: OllamaModelList,
    i: int,
    before: Seq<char>,
    after: Seq<char>,
)
    requires
        0 <= i < list.models@.len(),
        list.models@[i].name@ == before + ocr_model_family() + after,
    ensures
        lists_ocr_model(list),
{
    law_contains_found_anywhere(before, ocr_model_family(), after);
    assert(contains_seq(list.models@[i].name@, ocr_model_family()));
}

/// A listing is judged by what it holds: the whole names the OCR model
/// exactly when one of its parts does, so the order of the entries does
/// not matter.
pub proof fn law_listing_parts(first: Seq<OllamaModel>, second: Seq<OllamaModel>)
    ensures
        names_ocr_model(first + second) == (names_ocr_model(first) || names_ocr_model(second)),
        names_ocr_model(first + second) == names_ocr_model(second + first),
        !names_ocr_model(Seq::<OllamaModel>::empty()),
{
    let whole = first + second;
    if names_ocr_model(whole) {
        let i = choose|i: int|
            0 <= i < whole.len() && contains_seq(#[trigger] whole[i].name@, ocr_model_family());
        if i < first.len() {
            assert(whole[i] == first[i]);
        } else {
            assert(whole[i] == second[i - first.len()]);
        }
    }
    if names_ocr_model(first) {
        let i = choose|i: int|
            0 <= i < first.len() && contains_seq(#[trigger] first[i].name@, ocr_model_family());
        assert(whole[i] == first[i]);
        assert((second + first)[second.len() + i] == first[i]);
    }
    if names_ocr_model(second) {
        let i = choose|i: int|
            0 <= i < second.len() && contains_seq(#[trigger] second[i].name@, ocr_model_family());
        assert(whole[first.len() + i] == second[i]);
        assert((second + first)[i] == second[i]);
    }
    let other = second + first;
    if names_ocr_model(other) {
        let i = choose|i: int|
            0 <= i < other.len() && contains_seq(#[trigger] other[i].name@, ocr_model_family());
        if i < second.len() {
            assert(other[i] == second[i]);
        } else {
            assert(other[i] == first[i - second.len()]);
        }
    }
}

/// Whether Ollama's listing names the OCR model.
pub fn model_available(list: &OllamaModelList) -> (b: bool)
    ensures
        b == lists_ocr_model(*list),
{
    let mut i: usize = 0;
    while i < list.models.len()
        invariant
            i <= list.models@.len(),
            forall|k: int|
                0 <= k < i ==> !contains_seq(#[trigger] list.models@[k].name@, ocr_model_family()),
        decreases list.models.len() - i,
    {
        if contains_str(list.models[i].name.as_str(), "glm-ocr") {
            return true;
        }
        i = i + 1;
    }
    false
}

/// What came of asking Ollama for its model listing.
#[derive(Debug, Clone, Copy, PartialEq, Eq)]
pub enum TagsReply {
    /// The request failed before any answer.
    Unreachable,
    /// Ollama answered with this status code.
    Answered(u16),
}

/// Whether the body of the listing answer is to be decoded.
pub open spec fn listing_expected(reply: TagsReply) -> bool {
    match reply {
        TagsReply::Answered(code) => is_success_status(code),
        TagsReply::Unreachable => false,
    }
}

/// Whether the body of the listing answer is to be decoded.
pub fn wants_listing(reply: TagsReply) -> (b: bool)
    ensures
        b == listing_expected(reply),
{
    match reply {
        TagsReply::Answered(code) => is_success(code),
        TagsReply::Unreachable => false,
    }
}

/// The status answer that reports Ollama unreachable.
pub open spec fn is_offline_report(s: StatusResponse) -> bool {
    &&& s.status@ == "offline"@
    &&& s.message@ == "Cannot reach Ollama server"@
    &&& !s.model_available
}

/// The status answer that reports Ollama reachable, with `available` telling
/// whether the OCR model is listed.
pub open spec fn is_online_report(s: StatusResponse, available: bool) -> bool {
    &&& s.status@ == "online"@
    &&& s.message@ == "Ollama server is reachable"@
    &&& s.model_available == available
}

/// The answer of the status endpoint, for an authenticated request: online
/// when Ollama answered the listing request with success, and then whether
/// the OCR model is listed (not listed when the listing cannot be decoded);
/// offline otherwise.
pub fn status_report(
    _key: &ApiKey,
    reply: TagsReply,
    listing: Option<Result<OllamaModelList, String>>,
) -> (s: StatusResponse)
    requires
        listing_expected(reply) ==> listing is Some,
    ensures
        !listing_expected(reply) ==> is_offline_report(s),
        listing_expected(reply) ==> match listing {
            Some(Ok(list)) => is_online_report(s, lists_ocr_model(list)),
            Some(Err(_)) => is_online_report(s, false),
            None => false,
        },
{
    if !wants_listing(reply) {
        return StatusResponse {
            status: String::from_str("offline"),
            message: String::from_str("Cannot reach Ollama server"),
            model_available: false,
        };
    }
    let has_model = match listing {
        Some(Ok(list)) => model_available(&list),
        _ => false,
    };
    StatusResponse {
        status: String::from_str("online"),
        message: String::from_str("Ollama server is reachable"),
        model_available: has_model,
    }
}

/// Ollama's model listing is decoded exactly when it answered with a status
/// code from 200 to 299; for every other code, and when it could not be
/// reached, the status answer is the offline one. The same range decides
/// whether an OCR answer is read.
pub proof fn law_listing_only_on_success(code: u16)
    ensures
        listing_expected(TagsReply::Answered(code)) <==> (200 <= code && code <= 299),
        !listing_expected(TagsReply::Unreachable),
        is_success_status(code) <==> (200 <= code && code <= 299),
{
}

} // verus!
