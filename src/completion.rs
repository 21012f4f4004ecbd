use vstd::prelude::*;

use crate::error::AssistantError;

verus! {

/// A decimal number with three fractional digits, held as thousandths
/// (`500` is 0.5).
#[derive(Clone, Copy, Debug, PartialEq, Eq, Structural)]
pub struct Decimal {
    pub thousandths: i64,
}

impl Decimal {
    pub fn from_thousandths(thousandths: i64) -> (r: Decimal)
        ensures
            r.thousandths == thousandths,
    {
        Decimal { thousandths }
    }
}

/// Settings of a completion request.
#[derive(Clone, Debug)]
pub struct ModelConfiguration {
    /// The model that completes the prompt.
    pub model: String,
    /// The most tokens to generate.
    pub max_tokens: u32,
    /// Sampling temperature.
    pub temperature: Decimal,
    /// Text that comes after the completion.
    pub suffix: Option<String>,
    /// Nucleus sampling mass.
    pub top_p: Option<Decimal>,
    /// How many completions to generate.
    pub n: Option<u32>,
    /// Whether to stream partial progress.
    pub stream: Option<bool>,
    /// How many log probabilities to return.
    pub logprobs: Option<u32>,
    /// Whether to echo the prompt.
    pub echo: Option<bool>,
    /// Sequences at which generation stops.
    pub stop: Option<Vec<String>>,
    /// Penalty for tokens already present.
    pub presence_penalty: Option<Decimal>,
    /// Penalty by token frequency.
    pub frequency_penalty: Option<Decimal>,
    /// How many completions to generate server-side.
    pub best_of: Option<u32>,
    /// Bias added to token logits.
    pub logit_bias: Option<Vec<Decimal>>,
    /// End-user id.
    pub user: Option<String>,
}

impl Default for ModelConfiguration {
    /// Empty model name, no token budget, zero temperature, nothing else set.
    fn default() -> (r: ModelConfiguration)
        ensures
            r.model@ == Seq::<char>::empty(),
            r.max_tokens == 0,
            r.temperature == (Decimal { thousandths: 0 }),
            r.suffix is None,
            r.top_p is None,
            r.n is None,
            r.stream is None,
            r.logprobs is None,
            r.echo is None,
            r.stop is None,
            r.presence_penalty is None,
            r.frequency_penalty is None,
            r.best_of is None,
            r.logit_bias is None,
            r.user is None,
    {
        ModelConfiguration {
            model: String::new(),
            max_tokens: 0,
            temperature: Decimal { thousandths: 0 },
            suffix: None,
            top_p: None,
            n: None,
            stream: None,
            logprobs: None,
            echo: None,
            stop: None,
            presence_penalty: None,
            frequency_penalty: None,
            best_of: None,
            logit_bias: None,
            user: None,
        }
    }
}

/// Stages the settings of a `ModelConfiguration`; a setting left unset
/// takes its default in `build`.
#[derive(Clone, Debug)]
pub struct ModelConfigurationBuilder {
    pub model: Option<String>,
    pub max_tokens: Option<u32>,
    pub temperature: Option<Decimal>,
    pub suffix: Option<String>,
    pub top_p: Option<Decimal>,
    pub n: Option<u32>,
    pub stream: Option<bool>,
    pub logprobs: Option<u32>,
    pub echo: Option<bool>,
    pub stop: Option<Vec<String>>,
    pub presence_penalty: Option<Decimal>,
    pub frequency_penalty: Option<Decimal>,
    pub best_of: Option<u32>,
    pub logit_bias: Option<Vec<Decimal>>,
    pub user: Option<String>,
}

impl Default for ModelConfigurationBuilder {
    /// A builder with nothing set.
    fn default() -> (r: ModelConfigurationBuilder)
        ensures
            r.model is None,
            r.max_tokens is None,
            r.temperature is None,
            r.suffix is None,
            r.top_p is None,
            r.n is None,
            r.stream is None,
            r.logprobs is None,
            r.echo is None,
            r.stop is None,
            r.presence_penalty is None,
            r.frequency_penalty is None,
            r.best_of is None,
            r.logit_bias is None,
            r.user is None,
    {
        ModelConfigurationBuilder {
            model: None,
            max_tokens: None,
            temperature: None,
            suffix: None,
            top_p: None,
            n: None,
            stream: None,
            logprobs: None,
            echo: None,
            stop: None,
            presence_penalty: None,
            frequency_penalty: None,
            best_of: None,
            logit_bias: None,
            user: None,
        }
    }
}

impl ModelConfigurationBuilder {
    /// Sets `model`.
    pub fn model(self, value: String) -> (r: ModelConfigurationBuilder)
        ensures
            r == (ModelConfigurationBuilder { model: Some(value), ..self }),
    {
        ModelConfigurationBuilder { model: Some(value), ..self }
    }

    /// Sets `max_tokens`.
    pub fn max_tokens(self, value: u32) -> (r: ModelConfigurationBuilder)
        ensures
            r == (ModelConfigurationBuilder { max_tokens: Some(value), ..self }),
    {
        ModelConfigurationBuilder { max_tokens: Some(value), ..self }
    }

    /// Sets `temperature`.
    pub fn temperature(self, value: Decimal) -> (r: ModelConfigurationBuilder)
        ensures
            r == (ModelConfigurationBuilder { temperature: Some(value), ..self }),
    {
        ModelConfigurationBuilder { temperature: Some(value), ..self }
    }

    /// Sets `suffix`.
    pub fn suffix(self, value: String) -> (r: ModelConfigurationBuilder)
        ensures
            r == (ModelConfigurationBuilder { suffix: Some(value), ..self }),
    {
        ModelConfigurationBuilder { suffix: Some(value), ..self }
    }

    /// Sets `top_p`.
    pub fn top_p(self, value: Decimal) -> (r: ModelConfigurationBuilder)
        ensures
            r == (ModelConfigurationBuilder { top_p: Some(value), ..self }),
    {
        ModelConfigurationBuilder { top_p: Some(value), ..self }
    }

    /// Sets `n`.
    pub fn n(self, value: u32) -> (r: ModelConfigurationBuilder)
        ensures
            r == (ModelConfigurationBuilder { n: Some(value), ..self }),
    {
        ModelConfigurationBuilder { n: Some(value), ..self }
    }

    /// Sets `stream`.
    pub fn stream(self, value: bool) -> (r: ModelConfigurationBuilder)
        ensures
            r == (ModelConfigurationBuilder { stream: Some(value), ..self }),
    {
        ModelConfigurationBuilder { stream: Some(value), ..self }
    }

    /// Sets `logprobs`.
    pub fn logprobs(self, value: u32) -> (r: ModelConfigurationBuilder)
        ensures
            r == (ModelConfigurationBuilder { logprobs: Some(value), ..self }),
    {
        ModelConfigurationBuilder { logprobs: Some(value), ..self }
    }

    /// Sets `echo`.
    pub fn echo(self, value: bool) -> (r: ModelConfigurationBuilder)
        ensures
            r == (ModelConfigurationBuilder { echo: Some(value), ..self }),
    {
        ModelConfigurationBuilder { echo: Some(value), ..self }
    }

    /// Sets `stop`.
    pub fn stop(self, value: Vec<String>) -> (r: ModelConfigurationBuilder)
        ensures
            r == (ModelConfigurationBuilder { stop: Some(value), ..self }),
    {
        ModelConfigurationBuilder { stop: Some(value), ..self }
    }

    /// Sets `presence_penalty`.
    pub fn presence_penalty(self, value: Decimal) -> (r: ModelConfigurationBuilder)
        ensures
            r == (ModelConfigurationBuilder { presence_penalty: Some(value), ..self }),
    {
        ModelConfigurationBuilder { presence_penalty: Some(value), ..self }
    }

    /// Sets `frequency_penalty`.
    pub fn frequency_penalty(self, value: Decimal) -> (r: ModelConfigurationBuilder)
        ensures
            r == (ModelConfigurationBuilder { frequency_penalty: Some(value), ..self }),
    {
        ModelConfigurationBuilder { frequency_penalty: Some(value), ..self }
    }

    /// Sets `best_of`.
    pub fn best_of(self, value: u32) -> (r: ModelConfigurationBuilder)
        ensures
            r == (ModelConfigurationBuilder { best_of: Some(value), ..self }),
    {
        ModelConfigurationBuilder { best_of: Some(value), ..self }
    }

    /// Sets `logit_bias`.
    pub fn logit_bias(self, value: Vec<Decimal>) -> (r: ModelConfigurationBuilder)
        ensures
            r == (ModelConfigurationBuilder { logit_bias: Some(value), ..self }),
    {
        ModelConfigurationBuilder { logit_bias: Some(value), ..self }
    }

    /// Sets `user`.
    pub fn user(self, value: String) -> (r: ModelConfigurationBuilder)
        ensures
            r == (ModelConfigurationBuilder { user: Some(value), ..self }),
    {
        ModelConfigurationBuilder { user: Some(value), ..self }
    }

    /// The configuration: each setting as set, else its default (the
    /// model `text-babbage-001`, 64 tokens, temperature 0.5, nothing else).
    /// Building never fails.
    pub fn build(self) -> (r: Result<ModelConfiguration, AssistantError>)
        ensures
            r matches Ok(c) && {
                &&& (self.model matches Some(v) ==> c.model@ == v@)
                &&& (self.model is None ==> c.model@ == "text-babbage-001"@)
                &&& c.max_tokens == (match self.max_tokens { Some(v) => v, None => 64 })
                &&& c.temperature == (match self.temperature { Some(v) => v, None => Decimal { thousandths: 500 } })
                &&& c.suffix == self.suffix
                &&& c.top_p == self.top_p
                &&& c.n == self.n
                &&& c.stream == self.stream
                &&& c.logprobs == self.logprobs
                &&& c.echo == self.echo
                &&& c.stop == self.stop
                &&& c.presence_penalty == self.presence_penalty
                &&& c.frequency_penalty == self.frequency_penalty
                &&& c.best_of == self.best_of
                &&& c.logit_bias == self.logit_bias
                &&& c.user == self.user
            },
    {
        let model = match self.model {
            Some(v) => v,
            None => String::from_str("text-babbage-001"),
        };
        let max_tokens = match self.max_tokens {
            Some(v) => v,
            None => 64,
        };
        let temperature = match self.temperature {
            Some(v) => v,
            None => Decimal::from_thousandths(500),
        };
        Ok(
            ModelConfiguration {
                model,
                max_tokens,
                temperature,
                suffix: self.suffix,
                top_p: self.top_p,
                n: self.n,
                stream: self.stream,
                logprobs: self.logprobs,
                echo: self.echo,
                stop: self.stop,
                presence_penalty: self.presence_penalty,
                frequency_penalty: self.frequency_penalty,
                best_of: self.best_of,
                logit_bias: self.logit_bias,
                user: self.user,
            },
        )
    }
}
/// A prompt with the settings to complete it with.
pub struct CompletionRequest {
    pub prompt: String,
    pub model_configuration: ModelConfiguration,
}

impl CompletionRequest {
    pub fn new(prompt: &str, configuration: ModelConfiguration) -> (r: CompletionRequest)
        ensures
            r.prompt@ == prompt@,
            r.model_configuration == configuration,
    {
        CompletionRequest { prompt: String::from_str(prompt), model_configuration: configuration }
    }
}

/// Credentials and settings of a completion service.
pub struct CompletionClient {
    api_key: String,
    pub config: ModelConfiguration,
}

impl CompletionClient {
    pub fn new(api_key: String, config: ModelConfiguration) -> (r: CompletionClient)
        ensures
            r.key() == api_key@,
            r.settings() == config,
    {
        CompletionClient { api_key, config }
    }

    pub closed spec fn key(&self) -> Seq<char> {
        self.api_key@
    }

    pub closed spec fn settings(&self) -> ModelConfiguration {
        self.config
    }

    /// The key that authorizes requests.
    pub fn api_key(&self) -> (r: &str)
        ensures
            r@ == self.key(),
    {
        self.api_key.as_str()
    }
}

/// The completion text of a response, given the texts of its choices in
/// order: the first one; a backend error when there is none.
pub fn first_choice_text(choices: Vec<String>) -> (r: Result<String, AssistantError>)
    ensures
        choices@.len() > 0 ==> (r matches Ok(t) && t == choices@[0]),
        choices@.len() == 0 ==> r matches Err(AssistantError::Backend(_)),
{
    let mut choices = choices;
    if choices.len() == 0 {
        Err(AssistantError::Backend(String::from_str("the completion has no choices")))
    } else {
        Ok(choices.swap_remove(0))
    }
}

} // verus!
