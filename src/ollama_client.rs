//! The client side of the embedding service: where a request goes, what it
//! carries, and how the service's reply status is judged. The request itself is
//! sent from outside this crate.
use vstd::prelude::*;

verus! {

/// Failures of the embedding service.
#[derive(Debug, Clone, PartialEq, Eq)]
pub enum OllamaError {
    /// The request could not be sent, or the reply could not be read as an
    /// embedding; the transport's own description of the failure.
    Reqwest(String),
    /// The service answered with a status outside the success range.
    ApiError { status: u16, body: String },
}

/// The JSON string literal that `serde_json::to_string` writes for a text:
/// quotes around it and its special characters escaped.
pub uninterp spec fn json_string_of(text: Seq<char>) -> Seq<char>;

/// Relies on `serde_json::to_string` applied to a `str`, for the JSON string literal
/// of `text`. The serializer writes into a `Vec`, which cannot fail.
#[verifier::external_body]
fn json_string(text: &str) -> (r: String)
    ensures
        r@ == json_string_of(text@),
{
    serde_json::to_string(text).unwrap_or_default()
}

/// The path of the embedding endpoint, below the service's base URL.
pub open spec fn embeddings_path() -> Seq<char> {
    "/api/embeddings"@
}

/// A JSON object with members `model` and `prompt`, given their values as JSON literals.
pub open spec fn request_frame(model_json: Seq<char>, prompt_json: Seq<char>) -> Seq<char> {
    "{\"model\":"@ + model_json + ",\"prompt\":"@ + prompt_json + "}"@
}

/// The body of an embedding request: a JSON object naming the model and the text.
pub open spec fn request_body_of(model: Seq<char>, text: Seq<char>) -> Seq<char> {
    request_frame(json_string_of(model), json_string_of(text))
}

/// Writes the request object around the model's and the prompt's JSON literals.
pub fn frame_request(model_json: &str, prompt_json: &str) -> (r: String)
    ensures
        r@ == request_frame(model_json@, prompt_json@),
{
    let mut body = String::from_str("{\"model\":");
    body.append(model_json);
    body.append(",\"prompt\":");
    body.append(prompt_json);
    body.append("}");
    body
}

/// Whether an HTTP status code reports success (the 2xx range).
pub open spec fn is_success_status(status: u16) -> bool {
    200 <= status <= 299
}

/// Where and with which model embeddings are requested.
#[derive(Debug, Clone, PartialEq, Eq)]
pub struct OllamaClient {
    pub ollama_url: String,
    pub embedding_model: String,
}

impl OllamaClient {
    /// A client for the service at `ollama_url` that asks for `embedding_model`.
    pub fn new(ollama_url: String, embedding_model: String) -> (r: Self)
        ensures
            r.ollama_url == ollama_url,
            r.embedding_model == embedding_model,
    {
        OllamaClient { ollama_url, embedding_model }
    }

    /// The URL that embedding requests are posted to.
    pub fn embeddings_url(&self) -> (r: String)
        ensures
            r@ == self.ollama_url@ + embeddings_path(),
    {
        let mut url = self.ollama_url.clone();
        url.append("/api/embeddings");
        url
    }

    /// The JSON body that asks for the embedding of `text`.
    pub fn request_body(&self, text: &str) -> (r: String)
        ensures
            r@ == request_body_of(self.embedding_model@, text@),
    {
        let model_json = json_string(self.embedding_model.as_str());
        let prompt_json = json_string(text);
        frame_request(model_json.as_str(), prompt_json.as_str())
    }

    /// Judges the service's reply by its status: a success status lets the body be
    /// read as an embedding; any other is an error that carries the body's text.
    pub fn check_status(status: u16, body: String) -> (r: Result<(), OllamaError>)
        ensures
            is_success_status(status) ==> r is Ok,
            !is_success_status(status) ==> r == Err::<(), OllamaError>(
                OllamaError::ApiError { status, body },
            ),
    {
        if 200 <= status && status <= 299 {
            Ok(())
        } else {
            Err(OllamaError::ApiError { status, body })
        }
    }
}

} // verus!
