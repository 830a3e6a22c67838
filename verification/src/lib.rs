//! Request-handling rules of a document-vision gateway that sits in front of
//! an Ollama OCR model: API-key authentication of every endpoint, the shapes
//! of the gateway's and Ollama's messages, how Ollama's replies become the
//! gateway's answers, and how a PDF upload is collected, capped, encoded,
//! read page by page and reassembled into one text.
pub mod error;
pub mod models;
pub mod ollama;
pub mod pdf;
pub mod security;
pub mod text;
