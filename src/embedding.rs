use vstd::prelude::*;

use crate::text::option_view;

verus! {

/// The model and optional end-user id sent with every embedding request.
#[derive(Clone, Debug)]
pub struct EmbeddingModelConfig {
    pub model: String,
    pub user: Option<String>,
}

impl EmbeddingModelConfig {
    pub fn new(model: String) -> (r: EmbeddingModelConfig)
        ensures
            r.model == model,
            r.user is None,
    {
        EmbeddingModelConfig { model, user: None }
    }

    pub fn with_user(self, user: String) -> (r: EmbeddingModelConfig)
        ensures
            r.model == self.model,
            r.user == Some(user),
    {
        EmbeddingModelConfig { model: self.model, user: Some(user) }
    }
}

impl Default for EmbeddingModelConfig {
    fn default() -> (r: EmbeddingModelConfig)
        ensures
            r.model@ == "text-embedding-ada-002"@,
            r.user is None,
    {
        EmbeddingModelConfig { model: String::from_str("text-embedding-ada-002"), user: None }
    }
}

/// Token counts that the embedding service reports for one request.
#[derive(Clone, Copy, Debug, PartialEq, Eq)]
pub struct Usage {
    pub prompt_tokens: u32,
    pub total_tokens: u32,
}

/// The documents to embed, with the model configuration.
pub struct EmbeddingRequest {
    pub input: Vec<String>,
    pub model_configuration: EmbeddingModelConfig,
}

impl EmbeddingRequest {
    pub fn new(input: Vec<String>, configuration: EmbeddingModelConfig) -> (r: EmbeddingRequest)
        ensures
            r.input == input,
            r.model_configuration == configuration,
    {
        EmbeddingRequest { input, model_configuration: configuration }
    }
}

/// Credentials and configuration of an embedding service.
pub struct EmbeddingClient {
    api_key: String,
    pub config: EmbeddingModelConfig,
}

impl EmbeddingClient {
    pub fn new(api_key: String, config: EmbeddingModelConfig) -> (r: EmbeddingClient)
        ensures
            r.key() == api_key@,
            r.settings() == config,
    {
        EmbeddingClient { api_key, config }
    }

    pub closed spec fn key(&self) -> Seq<char> {
        self.api_key@
    }

    pub closed spec fn settings(&self) -> EmbeddingModelConfig {
        self.config
    }

    /// The key that authorizes requests.
    pub fn api_key(&self) -> (r: &str)
        ensures
            r@ == self.key(),
    {
        self.api_key.as_str()
    }

    /// A request that embeds `documents` with this client's configuration.
    pub fn request(&self, documents: Vec<String>) -> (r: EmbeddingRequest)
        ensures
            r.input == documents,
            r.model_configuration.model@ == self.settings().model@,
            option_view(r.model_configuration.user) == option_view(self.settings().user),
    {
        let user = match &self.config.user {
            Some(u) => Some(u.clone()),
            None => None,
        };
        let config = EmbeddingModelConfig { model: self.config.model.clone(), user };
        EmbeddingRequest::new(documents, config)
    }
}

} // verus!
