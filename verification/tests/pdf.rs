use mtl_vision::error::ApiError;
use mtl_vision::models::{ExtractResponse, PdfExtractRequest};
use mtl_vision::security::{ApiKey, HeaderField, RequestCredentials};
use mtl_vision::pdf::{
    combine_page_texts, document_error, encode_pages, exceeds_page_cap, field_role, form_error,
    page_error, pages_to_render, DocumentFailure, FieldRole, FormFailure, PageReading, PageStage,
    PdfForm, ReadingStep,
    MAX_PAGES, RENDER_TARGET_WIDTH,
};

fn key() -> ApiKey {
    let creds = RequestCredentials {
        x_api_key: HeaderField::Absent,
        authorization: HeaderField::Text("Bearer k".to_string()),
    };
    ApiKey::from_request_parts(&"k".to_string(), &creds).unwrap()
}

#[test]
fn page_cap_is_fifty() {
    assert_eq!(MAX_PAGES, 50);
    assert_eq!(RENDER_TARGET_WIDTH, 2048);
    assert_eq!(pages_to_render(0), 0);
    assert_eq!(pages_to_render(7), 7);
    assert_eq!(pages_to_render(50), 50);
    assert_eq!(pages_to_render(51), 50);
    assert_eq!(pages_to_render(10_000), 50);
    assert!(!exceeds_page_cap(50));
    assert!(exceeds_page_cap(51));
}

#[test]
fn fields_are_told_apart_by_name() {
    assert_eq!(field_role(Some("file")), FieldRole::File);
    assert_eq!(field_role(Some("prompt")), FieldRole::Prompt);
    assert_eq!(field_role(Some("File")), FieldRole::Ignored);
    assert_eq!(field_role(Some("")), FieldRole::Ignored);
    assert_eq!(field_role(None), FieldRole::Ignored);
}

#[test]
fn form_without_file_is_refused() {
    let mut form = PdfForm::new(&key());
    form.set_prompt("Q".to_string());
    assert_eq!(
        form.finish(),
        Err(ApiError { status: 400, message: "Missing 'file' field in multipart".to_string() })
    );
}

#[test]
fn later_fields_replace_earlier_ones() {
    let mut form = PdfForm::new(&key());
    form.set_file(vec![1, 2]);
    form.set_prompt("first".to_string());
    form.set_file(vec![3]);
    form.set_prompt("second".to_string());
    assert_eq!(
        form.finish(),
        Ok(PdfExtractRequest { file: vec![3], prompt: Some("second".to_string()) })
    );
    let mut form = PdfForm::new(&key());
    form.set_file(vec![9]);
    assert_eq!(form.finish(), Ok(PdfExtractRequest { file: vec![9], prompt: None }));
}

#[test]
fn upload_failures_are_bad_requests() {
    assert_eq!(
        form_error(FormFailure::Multipart, "boundary"),
        ApiError { status: 400, message: "Multipart error: boundary".to_string() }
    );
    assert_eq!(
        form_error(FormFailure::FileBytes, "eof"),
        ApiError { status: 400, message: "Failed to read PDF bytes: eof".to_string() }
    );
    assert_eq!(
        form_error(FormFailure::PromptText, "utf8"),
        ApiError { status: 400, message: "Failed to read prompt field: utf8".to_string() }
    );
}

#[test]
fn document_failures_are_internal_errors() {
    assert_eq!(
        document_error(DocumentFailure::LibraryMissing, "no lib"),
        ApiError {
            status: 500,
            message: "libpdfium not found: no lib. Install from https://github.com/bblanchon/pdfium-binaries and run ldconfig.".to_string(),
        }
    );
    assert_eq!(
        document_error(DocumentFailure::Unparsable, "bad header").message,
        "Failed to parse PDF: bad header"
    );
    assert_eq!(
        document_error(DocumentFailure::TaskAborted, "boom").message,
        "PDF rendering thread panicked: boom"
    );
}

#[test]
fn page_failures_number_pages_from_one() {
    assert_eq!(
        page_error(PageStage::Get, 0, "x"),
        ApiError { status: 500, message: "Failed to get page 1: x".to_string() }
    );
    assert_eq!(page_error(PageStage::Render, 9, "y").message, "Failed to render page 10: y");
    assert_eq!(page_error(PageStage::Encode, 49, "z").message, "Failed to PNG-encode page 50: z");
}

#[test]
fn pages_are_encoded_in_standard_base64() {
    let pngs = vec![b"hello".to_vec(), Vec::new(), vec![0xff, 0xfe, 0xfd, 0x00], b"ab".to_vec()];
    assert_eq!(
        encode_pages(&pngs),
        vec!["aGVsbG8=".to_string(), String::new(), "//79AA==".to_string(), "YWI=".to_string()]
    );
    assert_eq!(encode_pages(&Vec::new()), Vec::<String>::new());
}

#[test]
fn page_texts_are_joined_with_headers() {
    assert_eq!(combine_page_texts(&Vec::new()), "");
    assert_eq!(combine_page_texts(&vec!["only".to_string()]), "--- Page 1 ---\nonly");
    assert_eq!(
        combine_page_texts(&vec!["a".to_string(), "".to_string(), "c\nd".to_string()]),
        "--- Page 1 ---\na\n\n--- Page 2 ---\n\n\n--- Page 3 ---\nc\nd"
    );
}

#[test]
fn page_texts_match_the_original_formatting() {
    let texts: Vec<String> = (0..12).map(|i| format!("text {i}")).collect();
    let expected = texts
        .iter()
        .enumerate()
        .map(|(i, t)| format!("--- Page {} ---\n{}", i + 1, t))
        .collect::<Vec<_>>()
        .join("\n\n");
    assert_eq!(combine_page_texts(&texts), expected);
}

fn ask(step: ReadingStep) -> (String, Vec<String>) {
    match step {
        ReadingStep::Ask(req) => {
            assert_eq!(req.model, "glm-ocr:latest");
            assert!(!req.stream);
            (req.prompt, req.images)
        }
        ReadingStep::Finished(_) => panic!("expected a request"),
    }
}

#[test]
fn pages_are_read_in_order_then_joined() {
    let reading = PageReading::new(vec!["p1".to_string(), "p2".to_string()], "Q".to_string());
    assert_eq!(ask(reading.step()), ("Q".to_string(), vec!["p1".to_string()]));
    let reading = reading.record(Ok("one".to_string())).unwrap();
    assert_eq!(ask(reading.step()), ("Q".to_string(), vec!["p2".to_string()]));
    let reading = reading.record(Ok("two".to_string())).unwrap();
    match reading.step() {
        ReadingStep::Finished(resp) => assert_eq!(
            resp,
            ExtractResponse { text: "--- Page 1 ---\none\n\n--- Page 2 ---\ntwo".to_string() }
        ),
        ReadingStep::Ask(_) => panic!("expected the answer"),
    }
}

#[test]
fn a_failed_page_ends_the_reading() {
    let reading = PageReading::new(vec!["p1".to_string(), "p2".to_string()], "Q".to_string());
    let reading = reading.record(Ok("one".to_string())).unwrap();
    let failure = ApiError { status: 500, message: "Failed to connect to Ollama: down".to_string() };
    assert_eq!(reading.record(Err(failure.clone())).err(), Some(failure));
}

#[test]
fn a_document_without_pages_reads_as_empty_text() {
    let reading = PageReading::new(Vec::new(), "Q".to_string());
    match reading.step() {
        ReadingStep::Finished(resp) => assert_eq!(resp.text, ""),
        ReadingStep::Ask(_) => panic!("expected the answer"),
    }
}
