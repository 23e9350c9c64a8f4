//! DeepSeek's completion model.

use vstd::prelude::*;
use crate::completion::{CompletionError, CompletionRequest};
use crate::deepseek::rsp_req::{create_completion_request, DsRequest, DsRequestView};

verus! {

/// The chat model.
pub const DEEPSEEK_CHAT: &'static str = "deepseek-chat";

/// The reasoning model.
pub const DEEPSEEK_REASONER: &'static str = "deepseek-reasoner";

/// A completion model of DeepSeek: the client that reaches the service, and
/// the name of the model.
pub struct DsCompletionModel<C> {
    pub client: C,
    pub model: String,
}

impl<C> DsCompletionModel<C> {
    /// Encodes a unified request for this model.
    pub fn create_completion_request(&self, completion_request: CompletionRequest) -> (r: Result<
        DsRequest,
        CompletionError,
    >)
        ensures
            r is Ok,
            r->Ok_0@ == DsRequestView::of(self.model@, completion_request@),
    {
        create_completion_request(self.model.clone(), completion_request)
    }
}

} // verus!
