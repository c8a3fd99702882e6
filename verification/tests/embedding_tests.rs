use tinymemory::embedding::{
    EmbeddingError, LongContextOllamaEmbeddingModel, RECOMMENDED_OLLAMA_CONTEXT_TOKENS,
};

const DEFAULT_URL: &str = "http://localhost:11434";
const DEFAULT_MODEL: &str = "bge-m3";

fn build(base_url: &str, model: &str) -> Result<LongContextOllamaEmbeddingModel, EmbeddingError> {
    LongContextOllamaEmbeddingModel::try_new(base_url, model, 1024, DEFAULT_URL, DEFAULT_MODEL)
}

fn validation(r: Result<LongContextOllamaEmbeddingModel, EmbeddingError>) -> String {
    match r {
        Err(EmbeddingError::Validation(m)) => m,
        Err(other) => panic!("expected a validation error, got {other:?}"),
        Ok(_) => panic!("expected a validation error"),
    }
}

#[test]
fn a_server_root_is_kept_without_its_trailing_slash() {
    let model = build(" http://127.0.0.1:11434/ ", " bge-m3 ").expect("valid settings");
    assert_eq!(model.base_url, "http://127.0.0.1:11434");
    assert_eq!(model.model, "bge-m3");
    assert_eq!(model.dimensions, 1024);
    assert_eq!(model.embed_url(), "http://127.0.0.1:11434/api/embed");
}

#[test]
fn blank_settings_take_the_engine_defaults() {
    let model = build("   ", "").expect("defaults are valid");
    assert_eq!(model.base_url, "http://localhost:11434");
    assert_eq!(model.model, DEFAULT_MODEL);
}

#[test]
fn only_plain_http_server_roots_are_accepted() {
    assert_eq!(
        validation(build("ftp://models.example", "m")),
        "invalid Ollama base_url `ftp://models.example`: expected an http:// or https:// URL"
    );
    assert_eq!(
        validation(build("http://user:pw@host:11434", "m")),
        "invalid Ollama base_url `http://user:pw@host:11434`: configure the server root without credentials"
    );
    assert_eq!(
        validation(build("http://host/?a=1", "m")),
        "invalid Ollama base_url `http://host/?a=1`: query strings and fragments are not supported"
    );
    assert_eq!(
        validation(build("http://host/#frag", "m")),
        "invalid Ollama base_url `http://host/#frag`: query strings and fragments are not supported"
    );
    let unparsable = validation(build("not a url", "m"));
    assert!(unparsable.starts_with("invalid Ollama base_url `not a url`: "), "{unparsable}");
}

#[test]
fn local_routing_aliases_are_not_models() {
    assert_eq!(
        validation(build("http://host:11434", " LOCAL-embed ")),
        "invalid Ollama embedding model `LOCAL-embed`: `local-*` IDs are virtual routing aliases"
    );
}

#[test]
fn every_request_carries_the_long_context_window() {
    assert_eq!(RECOMMENDED_OLLAMA_CONTEXT_TOKENS, 8192);
}

#[test]
fn an_empty_batch_sends_nothing_and_a_blank_input_is_refused() {
    assert_eq!(LongContextOllamaEmbeddingModel::check_batch(&vec![]).unwrap(), false);
    assert_eq!(
        LongContextOllamaEmbeddingModel::check_batch(&vec!["long memory document".into()]).unwrap(),
        true
    );
    match LongContextOllamaEmbeddingModel::check_batch(&vec!["a".into(), " \n".into()]) {
        Err(EmbeddingError::Validation(m)) => {
            assert_eq!(m, "Ollama embedding batches must not contain blank inputs")
        }
        other => panic!("{other:?}"),
    }
}

#[test]
fn an_answer_must_have_one_vector_per_text_at_the_model_dimensions() {
    let model = build("http://host:11434", "bge-m3").unwrap();
    assert!(model.validate_vectors(2, &vec![1024, 1024]).is_ok());
    match model.validate_vectors(3, &vec![1024, 1024]) {
        Err(EmbeddingError::Embedding(m)) => {
            assert_eq!(m, "ollama embed count mismatch: sent 3 texts, got 2 embeddings")
        }
        other => panic!("{other:?}"),
    }
    match model.validate_vectors(3, &vec![1024, 768, 12]) {
        Err(EmbeddingError::Embedding(m)) => {
            assert_eq!(m, "ollama embed dimension mismatch at index 1: expected 1024, got 768")
        }
        other => panic!("{other:?}"),
    }
}

#[test]
fn failure_messages_name_the_server_and_the_cause() {
    let model = build("http://host:11434", "bge-m3").unwrap();
    match model.request_failure("connection refused") {
        EmbeddingError::Embedding(m) => assert_eq!(
            m,
            "ollama embed request failed (is Ollama running at http://host:11434?): connection refused"
        ),
        other => panic!("{other:?}"),
    }
    match model.status_failure("404 Not Found", "  model not found \n") {
        EmbeddingError::Embedding(m) => {
            assert_eq!(m, "ollama embed failed with status 404 Not Found: model not found")
        }
        other => panic!("{other:?}"),
    }
    match model.status_failure("500 Internal Server Error", "   ") {
        EmbeddingError::Embedding(m) => {
            assert_eq!(m, "ollama embed failed with status 500 Internal Server Error")
        }
        other => panic!("{other:?}"),
    }
    match model.parse_failure("expected value") {
        EmbeddingError::Embedding(m) => {
            assert_eq!(m, "ollama embed response parse failed: expected value")
        }
        other => panic!("{other:?}"),
    }
}

#[test]
fn the_server_root_is_kept_as_the_parser_serialises_it() {
    let model = build("HTTP://Models.Example.COM:11434", "bge-m3").expect("valid settings");
    assert_eq!(model.base_url, "http://models.example.com:11434");
}
