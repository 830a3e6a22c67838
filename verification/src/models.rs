//! The messages that the gateway exchanges with its clients and with Ollama.
use vstd::prelude::*;

verus! {

/// Answer of the status endpoint.
#[derive(Debug, Clone, PartialEq, Eq)]
pub struct StatusResponse {
    pub status: String,
    pub message: String,
    pub model_available: bool,
}

/// Body of an image extraction request.
#[derive(Debug, Clone, PartialEq, Eq)]
pub struct ExtractRequest {
    /// Base64 encoded image string
    pub image_base64: String,
    /// Optional prompt, defaults to extracting all text
    pub prompt: Option<String>,
}

/// Answer of the extraction endpoints.
#[derive(Debug, Clone, PartialEq, Eq)]
pub struct ExtractResponse {
    pub text: String,
}

/// The fields of a multipart PDF upload.
#[derive(Debug, Clone, PartialEq, Eq)]
pub struct PdfExtractRequest {
    /// PDF file bytes (binary upload)
    pub file: Vec<u8>,
    /// Optional OCR prompt. Defaults to "Extract all text from this image."
    pub prompt: Option<String>,
}

/// Request body of Ollama's generate endpoint.
#[derive(Debug, Clone, PartialEq, Eq)]
pub struct OllamaGenerateRequest {
    pub model: String,
    pub prompt: String,
    pub stream: bool,
    pub images: Vec<String>,
}

/// Answer of Ollama's generate endpoint.
#[derive(Debug, Clone, PartialEq, Eq)]
pub struct OllamaGenerateResponse {
    pub response: String,
    pub done: bool,
}

/// Answer of Ollama's model listing endpoint.
#[derive(Debug, Clone, PartialEq, Eq)]
pub struct OllamaModelList {
    pub models: Vec<OllamaModel>,
}

/// One model in Ollama's listing.
#[derive(Debug, Clone, PartialEq, Eq)]
pub struct OllamaModel {
    pub name: String,
}

} // verus!
