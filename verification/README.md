# mtl_vision

A document-vision gateway in front of an Ollama OCR model (`glm-ocr:latest`).

- `src/` is the verified library: API-key authentication of every endpoint
  (`security`), the message types (`models`), the exchanges with
  Ollama (`ollama`), PDF upload handling, page-by-page reading and assembly (`pdf`), error
  answers (`error`) and character-level text helpers (`text`).
- `app/` is the HTTP server (axum, reqwest, pdfium): it reads requests,
  performs the network and rendering work, and hands every decision to the
  library.
- `tests/` runs the library on concrete inputs.
