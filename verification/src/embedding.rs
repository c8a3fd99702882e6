//! The long-context Ollama embedding model: which server and model it talks
//! to, what a batch must look like before it is sent, and what an answer
//! must look like before it is believed.
//!
//! Persisted chunks are sized for `bge-m3`'s full 8K context, so every
//! request carries that window explicitly rather than accepting a provider
//! default that would truncate them.

use vstd::prelude::*;
use crate::text::{
    ascii_lowercase, ascii_lowered, chars_of, decimal, decimal_string, push_str,
    starts_with, starts_with_chars, str_eq, string_from, trim, trim_end, trim_end_chars, trimmed,
    CharClass,
};

verus! {

/// Context and batch window of every long-document embedding request.
pub const RECOMMENDED_OLLAMA_CONTEXT_TOKENS: u32 = 8192;

/// Why an embedding call failed: the input or settings were refused before
/// anything was sent, or the server's answer was not usable.
#[derive(Debug)]
pub enum EmbeddingError {
    Validation(String),
    Embedding(String),
}

/// The parts of a parsed absolute URL that the base-URL check reads.
#[derive(Debug)]
pub struct UrlParts {
    pub scheme: String,
    pub username: String,
    pub password: Option<String>,
    pub query: Option<String>,
    pub fragment: Option<String>,
    /// The whole URL as the parser serialises it.
    pub serialized: String,
}

pub open spec fn opt_view(o: Option<String>) -> Option<Seq<char>> {
    match o {
        Some(s) => Some(s@),
        None => None,
    }
}

pub open spec fn url_parts_view(p: UrlParts) -> (
    Seq<char>,
    Seq<char>,
    Option<Seq<char>>,
    Option<Seq<char>>,
    Option<Seq<char>>,
    Seq<char>,
) {
    (p.scheme@, p.username@, opt_view(p.password), opt_view(p.query), opt_view(p.fragment), p.serialized@)
}

pub open spec fn parse_view(r: Result<UrlParts, String>) -> Result<
    (Seq<char>, Seq<char>, Option<Seq<char>>, Option<Seq<char>>, Option<Seq<char>>, Seq<char>),
    Seq<char>,
> {
    match r {
        Ok(p) => Ok(url_parts_view(p)),
        Err(e) => Err(e@),
    }
}

/// What WHATWG URL parsing (`Url::parse`) makes of `input`: its scheme,
/// user name, password, query, fragment and serialisation, or the message of
/// the parse error.
pub uninterp spec fn url_parse(input: Seq<char>) -> Result<
    (Seq<char>, Seq<char>, Option<Seq<char>>, Option<Seq<char>>, Option<Seq<char>>, Seq<char>),
    Seq<char>,
>;

/// `reqwest::Url::parse` (the `url` crate's parser), read back as its parts.
/// The parse itself is not restated; its result is named by `url_parse`.
#[verifier::external_body]
fn parse_url(input: &str) -> (r: Result<UrlParts, String>)
    ensures
        parse_view(r) == url_parse(input@),
{
    match reqwest::Url::parse(input) {
        Ok(url) => Ok(UrlParts {
            scheme: url.scheme().to_owned(),
            username: url.username().to_owned(),
            password: url.password().map(str::to_owned),
            query: url.query().map(str::to_owned),
            fragment: url.fragment().map(str::to_owned),
            serialized: url.as_str().to_owned(),
        }),
        Err(error) => Err(error.to_string()),
    }
}

/// The server root and model an Ollama model is built for, or the refusal.
///
/// A blank `base_url` or `model` takes the engine default; the URL must
/// parse, be `http` or `https`, carry no credentials, query or fragment, and
/// is kept without trailing `/`; the model must not be a `local-*` routing
/// alias (in any ASCII case).
pub open spec fn ollama_settings(
    base_url: Seq<char>,
    model: Seq<char>,
    default_url: Seq<char>,
    default_model: Seq<char>,
) -> Result<(Seq<char>, Seq<char>), Seq<char>> {
    let raw = if trimmed(base_url).len() == 0 {
        default_url
    } else {
        trimmed(base_url)
    };
    let m = if trimmed(model).len() == 0 {
        default_model
    } else {
        trimmed(model)
    };
    let prefix = "invalid Ollama base_url `"@ + raw + "`: "@;
    match url_parse(raw) {
        Err(e) => Err(prefix + e),
        Ok(p) => if !(p.0 == "http"@ || p.0 == "https"@) {
            Err(prefix + "expected an http:// or https:// URL"@)
        } else if p.1.len() > 0 || p.2 is Some {
            Err(prefix + "configure the server root without credentials"@)
        } else if p.3 is Some || p.4 is Some {
            Err(prefix + "query strings and fragments are not supported"@)
        } else if starts_with(ascii_lowered(m), "local-"@) {
            Err(
                "invalid Ollama embedding model `"@ + m
                    + "`: `local-*` IDs are virtual routing aliases"@,
            )
        } else {
            Ok((trim_end(p.5, CharClass::Exactly('/')), m))
        },
    }
}

/// An Ollama embedding model with the long-context request policy.
pub struct LongContextOllamaEmbeddingModel {
    pub base_url: String,
    pub model: String,
    pub dimensions: usize,
}

/// `base` followed by `rest`.
fn concat(base: &str, rest: &str) -> (r: String)
    ensures
        r@ == base@ + rest@,
{
    let mut out = String::new();
    push_str(&mut out, base);
    push_str(&mut out, rest);
    out
}

impl LongContextOllamaEmbeddingModel {
    /// Build a validated model. `default_url` and `default_model` are the
    /// engine's defaults for a blank setting.
    pub fn try_new(
        base_url: &str,
        model: &str,
        dimensions: usize,
        default_url: &str,
        default_model: &str,
    ) -> (r: Result<Self, EmbeddingError>)
        ensures
            match r {
                Ok(m) => ollama_settings(base_url@, model@, default_url@, default_model@) == Ok::<
                    (Seq<char>, Seq<char>),
                    Seq<char>,
                >((m.base_url@, m.model@)) && m.dimensions == dimensions,
                Err(EmbeddingError::Validation(e)) => ollama_settings(
                    base_url@,
                    model@,
                    default_url@,
                    default_model@,
                ) == Err::<(Seq<char>, Seq<char>), Seq<char>>(e@),
                Err(EmbeddingError::Embedding(_)) => false,
            },
    {
        let trimmed_url = string_from(&trim(base_url));
        let raw = if trimmed_url.as_str().is_empty() {
            default_url.to_owned()
        } else {
            trimmed_url
        };
        let mut prefix = concat("invalid Ollama base_url `", raw.as_str());
        push_str(&mut prefix, "`: ");
        let parts = match parse_url(raw.as_str()) {
            Ok(p) => p,
            Err(e) => {
                push_str(&mut prefix, e.as_str());
                return Err(EmbeddingError::Validation(prefix));
            },
        };
        let scheme = parts.scheme.as_str();
        if !(str_eq(scheme, "http") || str_eq(scheme, "https")) {
            push_str(&mut prefix, "expected an http:// or https:// URL");
            return Err(EmbeddingError::Validation(prefix));
        }
        if !parts.username.as_str().is_empty() || parts.password.is_some() {
            push_str(&mut prefix, "configure the server root without credentials");
            return Err(EmbeddingError::Validation(prefix));
        }
        if parts.query.is_some() || parts.fragment.is_some() {
            push_str(&mut prefix, "query strings and fragments are not supported");
            return Err(EmbeddingError::Validation(prefix));
        }
        let trimmed_model = string_from(&trim(model));
        let chosen = if trimmed_model.as_str().is_empty() {
            default_model.to_owned()
        } else {
            trimmed_model
        };
        let lowered = ascii_lowercase(&chars_of(chosen.as_str()));
        if starts_with_chars(&lowered, &chars_of("local-")) {
            let mut message = concat("invalid Ollama embedding model `", chosen.as_str());
            push_str(&mut message, "`: `local-*` IDs are virtual routing aliases");
            return Err(EmbeddingError::Validation(message));
        }
        let root = string_from(
            &trim_end_chars(&chars_of(parts.serialized.as_str()), &CharClass::Exactly('/')),
        );
        Ok(LongContextOllamaEmbeddingModel { base_url: root, model: chosen, dimensions })
    }
}

/// The first position at which a vector's length is not `dims`.
pub open spec fn first_mismatch(lens: Seq<usize>, dims: nat, i: int) -> bool {
    0 <= i < lens.len() && lens[i] != dims && forall|j: int| 0 <= j < i ==> lens[j] == dims
}

/// Why an answer of vectors with lengths `lens` is refused for a request of
/// `expected` texts at `dims` dimensions, if it is.
pub open spec fn vectors_refusal(expected: nat, dims: nat, lens: Seq<usize>) -> Option<Seq<char>> {
    if lens.len() != expected {
        Some(
            "ollama embed count mismatch: sent "@ + decimal(expected) + " texts, got "@ + decimal(
                lens.len(),
            ) + " embeddings"@,
        )
    } else if exists|i: int| first_mismatch(lens, dims, i) {
        let i = choose|i: int| first_mismatch(lens, dims, i);
        Some(
            "ollama embed dimension mismatch at index "@ + decimal(i as nat) + ": expected "@
                + decimal(dims) + ", got "@ + decimal(lens[i] as nat),
        )
    } else {
        None
    }
}

proof fn lemma_first_mismatch_unique(lens: Seq<usize>, dims: nat, i: int)
    requires
        first_mismatch(lens, dims, i),
    ensures
        (choose|k: int| first_mismatch(lens, dims, k)) == i,
{
    let k = choose|k: int| first_mismatch(lens, dims, k);
    assert(first_mismatch(lens, dims, k));
    if k < i {
        assert(lens[k] == dims);
    }
    if i < k {
        assert(lens[i] == dims);
    }
}

/// Whether a batch is sent: `Ok(false)` for an empty batch (nothing to
/// embed, no request), `Ok(true)` to send, a refusal for any blank input.
pub open spec fn batch_check(texts: Seq<String>) -> Result<bool, Seq<char>> {
    if texts.len() == 0 {
        Ok(false)
    } else if exists|i: int| 0 <= i < texts.len() && trimmed(#[trigger] texts[i]@).len() == 0 {
        Err("Ollama embedding batches must not contain blank inputs"@)
    } else {
        Ok(true)
    }
}

/// The message of a refused HTTP status: the status line, then the trimmed
/// response body when there is one.
pub open spec fn status_failure(status: Seq<char>, detail: Seq<char>) -> Seq<char> {
    "ollama embed failed with status "@ + status + if trimmed(detail).len() == 0 {
        Seq::<char>::empty()
    } else {
        ": "@ + trimmed(detail)
    }
}

impl LongContextOllamaEmbeddingModel {
    /// The embed endpoint of this server.
    pub fn embed_url(&self) -> (r: String)
        ensures
            r@ == self.base_url@ + "/api/embed"@,
    {
        concat(self.base_url.as_str(), "/api/embed")
    }

    /// Check a batch before anything is sent. `Ok(false)`: the batch is
    /// empty and its answer is no vectors; `Ok(true)`: send it.
    pub fn check_batch(texts: &Vec<String>) -> (r: Result<bool, EmbeddingError>)
        ensures
            match r {
                Ok(send) => batch_check(texts@) == Ok::<bool, Seq<char>>(send),
                Err(EmbeddingError::Validation(e)) => batch_check(texts@) == Err::<
                    bool,
                    Seq<char>,
                >(e@),
                Err(EmbeddingError::Embedding(_)) => false,
            },
    {
        if texts.len() == 0 {
            return Ok(false);
        }
        let mut i: usize = 0;
        while i < texts.len()
            invariant
                i <= texts.len(),
                forall|j: int| 0 <= j < i ==> trimmed(#[trigger] texts@[j]@).len() > 0,
            decreases texts.len() - i,
        {
            if trim(texts[i].as_str()).len() == 0 {
                assert(trimmed(texts@[i as int]@).len() == 0);
                return Err(
                    EmbeddingError::Validation(
                        "Ollama embedding batches must not contain blank inputs".to_owned(),
                    ),
                );
            }
            i = i + 1;
        }
        Ok(true)
    }

    /// Check the server's answer against the request: one vector per text,
    /// each of this model's dimensions. `vector_lens` are the answered
    /// vectors' lengths, in order.
    pub fn validate_vectors(&self, expected: usize, vector_lens: &Vec<usize>) -> (r: Result<
        (),
        EmbeddingError,
    >)
        ensures
            match r {
                Ok(()) => vectors_refusal(expected as nat, self.dimensions as nat, vector_lens@)
                    is None,
                Err(EmbeddingError::Embedding(e)) => vectors_refusal(
                    expected as nat,
                    self.dimensions as nat,
                    vector_lens@,
                ) == Some(e@),
                Err(EmbeddingError::Validation(_)) => false,
            },
    {
        let n = vector_lens.len();
        if n != expected {
            let mut m = concat("ollama embed count mismatch: sent ", decimal_string(expected as u128).as_str());
            push_str(&mut m, " texts, got ");
            push_str(&mut m, decimal_string(n as u128).as_str());
            push_str(&mut m, " embeddings");
            return Err(EmbeddingError::Embedding(m));
        }
        let dims = self.dimensions;
        let mut i: usize = 0;
        while i < n
            invariant
                n == vector_lens@.len(),
                n == expected,
                dims == self.dimensions,
                i <= n,
                forall|j: int| 0 <= j < i ==> vector_lens@[j] == dims,
            decreases n - i,
        {
            let len = vector_lens[i];
            if len != dims {
                proof {
                    assert(first_mismatch(vector_lens@, dims as nat, i as int));
                    lemma_first_mismatch_unique(vector_lens@, dims as nat, i as int);
                }
                let mut m = concat(
                    "ollama embed dimension mismatch at index ",
                    decimal_string(i as u128).as_str(),
                );
                push_str(&mut m, ": expected ");
                push_str(&mut m, decimal_string(dims as u128).as_str());
                push_str(&mut m, ", got ");
                push_str(&mut m, decimal_string(len as u128).as_str());
                return Err(EmbeddingError::Embedding(m));
            }
            i = i + 1;
        }
        assert(!exists|k: int| first_mismatch(vector_lens@, dims as nat, k));
        Ok(())
    }

    /// The message of a request that never got an answer.
    pub fn request_failure(&self, error: &str) -> (r: EmbeddingError)
        ensures
            r matches EmbeddingError::Embedding(m) && m@ == "ollama embed request failed (is Ollama running at "@
                + self.base_url@ + "?): "@ + error@,
    {
        let mut m = concat("ollama embed request failed (is Ollama running at ", self.base_url.as_str());
        push_str(&mut m, "?): ");
        push_str(&mut m, error);
        EmbeddingError::Embedding(m)
    }

    /// The message of an answer with a refused HTTP status.
    pub fn status_failure(&self, status: &str, detail: &str) -> (r: EmbeddingError)
        ensures
            r matches EmbeddingError::Embedding(m) && m@ == status_failure(status@, detail@),
    {
        let mut m = concat("ollama embed failed with status ", status);
        let body = string_from(&trim(detail));
        if body.as_str().is_empty() {
        } else {
            push_str(&mut m, ": ");
            push_str(&mut m, body.as_str());
        }
        EmbeddingError::Embedding(m)
    }

    /// The message of an answer whose body did not parse.
    pub fn parse_failure(&self, error: &str) -> (r: EmbeddingError)
        ensures
            r matches EmbeddingError::Embedding(m) && m@ == "ollama embed response parse failed: "@
                + error@,
    {
        EmbeddingError::Embedding(concat("ollama embed response parse failed: ", error))
    }
}

} // verus!
