//! The code generator's client configuration: which model backend serves
//! generation and embedding requests. The requests themselves are network
//! I/O, performed by the surrounding process against this configuration;
//! their responses are remembered in the same kind of result cache the
//! build orchestrator uses.

use vstd::prelude::*;

verus! {

/// The model backend a client speaks to.
#[derive(Debug, PartialEq)]
pub enum ModelType {
    Ollama { model: String, emb: String },
    OpenAI { api_key: String },
}

/// A handle on one configured model backend.
pub struct LLMApi {
    model_type: ModelType,
}

impl LLMApi {
    /// The backend this client was built for.
    pub closed spec fn model(&self) -> ModelType {
        self.model_type
    }

    pub fn new(model_type: ModelType) -> (r: LLMApi)
        ensures
            r.model() == model_type,
    {
        LLMApi { model_type }
    }

    /// The configured backend, for the process that performs the requests.
    pub fn model_type(&self) -> (r: &ModelType)
        ensures
            r == self.model(),
    {
        &self.model_type
    }
}

} // verus!
