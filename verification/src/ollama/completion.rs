//! Ollama's completion model.

use vstd::prelude::*;
use crate::completion::{CompletionError, CompletionRequest};
use crate::ollama::rsp_req::{create_completion_request, OlRequest, OlRequestView};

verus! {

/// A completion model of Ollama: the client that reaches the server, and the
/// name of the model.
pub struct OllamaCompletionModel<C> {
    pub client: C,
    pub model: String,
}

impl<C> OllamaCompletionModel<C> {
    /// The model `model`, reached through `client`.
    pub fn new(client: C, model: &str) -> (r: Self)
        ensures
            r.client == client,
            r.model@ == model@,
    {
        OllamaCompletionModel { client, model: model.to_owned() }
    }

    /// Encodes a unified request for this model.
    pub fn create_completion_request(&self, completion_request: CompletionRequest) -> (r: Result<
        OlRequest,
        CompletionError,
    >)
        ensures
            r is Ok,
            r->Ok_0@ == OlRequestView::of(self.model@, completion_request@),
    {
        create_completion_request(self.model.clone(), completion_request)
    }

    /// Encodes a unified request for this model, to be answered as a stream.
    pub fn create_streaming_request(&self, completion_request: CompletionRequest) -> (r: Result<
        OlRequest,
        CompletionError,
    >)
        ensures
            r is Ok,
            r->Ok_0@ == (OlRequestView {
                stream: true,
                ..OlRequestView::of(self.model@, completion_request@)
            }),
    {
        match create_completion_request(self.model.clone(), completion_request) {
            Ok(request) => {
                let mut request = request;
                request.stream = true;
                Ok(request)
            },
            Err(error) => Err(error),
        }
    }
}

} // verus!
