//! A client of any provider, and how one is built from an API key.

use vstd::prelude::*;
use rig_core::client::{ProviderClient, ProviderClientError};
use rig_core::http_client::ReqwestClient;
use rig_core::providers::{anthropic, azure, cohere, deepseek, galadriel, gemini, groq, huggingface, hyperbolic, mira, mistral, moonshot, ollama, openai, openrouter, perplexity, together, xai};
use crate::error::Error;
use crate::env::{optional_env_var, required_env_var, EnvReading};
use crate::provider::Provider;

verus! {

/// `rig_core::client::Client`, the client of a provider over an HTTP client.
#[verifier::external_type_specification]
#[verifier::external_body]
#[verifier::reject_recursive_types(Ext)]
#[verifier::reject_recursive_types(H)]
pub struct ExRigClient<Ext, H>(rig_core::client::Client<Ext, H>);

/// `reqwest::Client` as `rig_core::http_client::ReqwestClient`, the HTTP client
/// that the provider clients use.
#[verifier::external_type_specification]
#[verifier::external_body]
pub struct ExReqwestClient(rig_core::http_client::ReqwestClient);

/// `rig_core::providers::anthropic::client::AnthropicExt`, the provider extension of the Anthropic client.
#[verifier::external_type_specification]
#[verifier::external_body]
pub struct ExAnthropicExt(rig_core::providers::anthropic::client::AnthropicExt);

/// `rig_core::providers::cohere::client::CohereExt`, the provider extension of the Cohere client.
#[verifier::external_type_specification]
#[verifier::external_body]
pub struct ExCohereExt(rig_core::providers::cohere::client::CohereExt);

/// `rig_core::providers::gemini::client::GeminiExt`, the provider extension of the Gemini client.
#[verifier::external_type_specification]
#[verifier::external_body]
pub struct ExGeminiExt(rig_core::providers::gemini::client::GeminiExt);

/// `rig_core::providers::huggingface::client::HuggingFaceExt`, the provider extension of the HuggingFace client.
#[verifier::external_type_specification]
#[verifier::external_body]
pub struct ExHuggingFaceExt(rig_core::providers::huggingface::client::HuggingFaceExt);

/// `rig_core::providers::openai::client::OpenAIResponsesExt`, the provider extension of the OpenAI client.
#[verifier::external_type_specification]
#[verifier::external_body]
pub struct ExOpenAIResponsesExt(rig_core::providers::openai::client::OpenAIResponsesExt);

/// `rig_core::providers::openrouter::client::OpenRouterExt`, the provider extension of the OpenRouter client.
#[verifier::external_type_specification]
#[verifier::external_body]
pub struct ExOpenRouterExt(rig_core::providers::openrouter::client::OpenRouterExt);

/// `rig_core::providers::together::client::TogetherExt`, the provider extension of the Together client.
#[verifier::external_type_specification]
#[verifier::external_body]
pub struct ExTogetherExt(rig_core::providers::together::client::TogetherExt);

/// `rig_core::providers::xai::client::XAiExt`, the provider extension of the XAI client.
#[verifier::external_type_specification]
#[verifier::external_body]
pub struct ExXAiExt(rig_core::providers::xai::client::XAiExt);

/// `rig_core::providers::azure::AzureExt`, the provider extension of the Azure client.
#[verifier::external_type_specification]
#[verifier::external_body]
pub struct ExAzureExt(rig_core::providers::azure::AzureExt);

/// `rig_core::providers::deepseek::DeepSeekExt`, the provider extension of the DeepSeek client.
#[verifier::external_type_specification]
#[verifier::external_body]
pub struct ExDeepSeekExt(rig_core::providers::deepseek::DeepSeekExt);

/// `rig_core::providers::galadriel::GaladrielExt`, the provider extension of the Galadriel client.
#[verifier::external_type_specification]
#[verifier::external_body]
pub struct ExGaladrielExt(rig_core::providers::galadriel::GaladrielExt);

/// `rig_core::providers::groq::GroqExt`, the provider extension of the Groq client.
#[verifier::external_type_specification]
#[verifier::external_body]
pub struct ExGroqExt(rig_core::providers::groq::GroqExt);

/// `rig_core::providers::hyperbolic::HyperbolicExt`, the provider extension of the Hyperbolic client.
#[verifier::external_type_specification]
#[verifier::external_body]
pub struct ExHyperbolicExt(rig_core::providers::hyperbolic::HyperbolicExt);

/// `rig_core::providers::moonshot::MoonshotExt`, the provider extension of the Moonshot client.
#[verifier::external_type_specification]
#[verifier::external_body]
pub struct ExMoonshotExt(rig_core::providers::moonshot::MoonshotExt);

/// `rig_core::providers::mira::MiraExt`, the provider extension of the Mira client.
#[verifier::external_type_specification]
#[verifier::external_body]
pub struct ExMiraExt(rig_core::providers::mira::MiraExt);

/// `rig_core::providers::mistral::client::MistralExt`, the provider extension of the Mistral client.
#[verifier::external_type_specification]
#[verifier::external_body]
pub struct ExMistralExt(rig_core::providers::mistral::client::MistralExt);

/// `rig_core::providers::ollama::OllamaExt`, the provider extension of the Ollama client.
#[verifier::external_type_specification]
#[verifier::external_body]
pub struct ExOllamaExt(rig_core::providers::ollama::OllamaExt);

/// `rig_core::providers::perplexity::PerplexityExt`, the provider extension of the Perplexity client.
#[verifier::external_type_specification]
#[verifier::external_body]
pub struct ExPerplexityExt(rig_core::providers::perplexity::PerplexityExt);

/// What a provider client was built with, as far as the builder chose it:
/// the API key (for Azure the API key or the bearer token), and the settings
/// that some providers take besides. A setting that is absent keeps the
/// provider's own default.
pub struct ClientSettings {
    /// The API key, or for Azure the API key or bearer token.
    pub key: Seq<char>,
    /// Whether `key` is an Azure bearer token rather than an API key.
    pub key_is_token: bool,
    /// The base URL put in place of the provider's default.
    pub base_url: Option<Seq<char>>,
    /// Galadriel's fine-tuning key.
    pub fine_tune_key: Option<Seq<char>>,
    /// Azure's endpoint.
    pub endpoint: Option<Seq<char>>,
    /// Azure's API version.
    pub api_version: Option<Seq<char>>,
    /// Whether every request carries a `content-type: application/json` header.
    pub json_content_type: bool,
    /// The read of the environment that the key came from, if it came from one.
    pub key_from: Option<EnvReading>,
    /// A read of the environment that found no key before the key was read
    /// elsewhere: for an Azure token, the read of `AZURE_API_KEY`.
    pub key_unset_from: Option<EnvReading>,
    /// The read of the environment that decided the base URL.
    pub base_url_from: Option<EnvReading>,
    /// The read of the environment that decided Galadriel's fine-tuning key.
    pub fine_tune_key_from: Option<EnvReading>,
    /// The read of the environment that the Azure endpoint came from.
    pub endpoint_from: Option<EnvReading>,
    /// The read of the environment that the Azure API version came from.
    pub api_version_from: Option<EnvReading>,
}

impl ClientSettings {
    /// The settings of a client built with `key` and all else left at the provider's default.
    pub open spec fn keyed(key: Seq<char>) -> ClientSettings {
        ClientSettings {
            key,
            key_is_token: false,
            base_url: None,
            fine_tune_key: None,
            endpoint: None,
            api_version: None,
            json_content_type: false,
            key_from: None,
            key_unset_from: None,
            base_url_from: None,
            fine_tune_key_from: None,
            endpoint_from: None,
            api_version_from: None,
        }
    }

    /// These settings with the base URL `base_url`.
    pub open spec fn with_base_url(self, base_url: Seq<char>) -> ClientSettings {
        ClientSettings { base_url: Some(base_url), ..self }
    }

    /// These settings with the fine-tuning key `fine_tune_key`.
    pub open spec fn with_fine_tune_key(self, fine_tune_key: Seq<char>) -> ClientSettings {
        ClientSettings { fine_tune_key: Some(fine_tune_key), ..self }
    }

    /// These settings with a JSON content type on every request.
    pub open spec fn with_json_content_type(self) -> ClientSettings {
        ClientSettings { json_content_type: true, ..self }
    }

    /// These settings for an Azure client, with its endpoint and API version.
    pub open spec fn on_azure(self, endpoint: Seq<char>, api_version: Seq<char>) -> ClientSettings {
        ClientSettings { endpoint: Some(endpoint), api_version: Some(api_version), ..self }
    }

    /// These settings, the key having come from the read `rd`.
    pub open spec fn key_read(self, rd: EnvReading) -> ClientSettings {
        ClientSettings { key_from: Some(rd), ..self }
    }

    /// These settings, the read `rd` having found no key before the key was read.
    pub open spec fn key_unset_read(self, rd: EnvReading) -> ClientSettings {
        ClientSettings { key_unset_from: Some(rd), ..self }
    }

    /// These settings, the base URL having been decided by the read `rd`.
    pub open spec fn base_url_read(self, rd: EnvReading) -> ClientSettings {
        ClientSettings { base_url_from: Some(rd), ..self }
    }

    /// These settings, the fine-tuning key having been decided by the read `rd`.
    pub open spec fn fine_tune_key_read(self, rd: EnvReading) -> ClientSettings {
        ClientSettings { fine_tune_key_from: Some(rd), ..self }
    }

    /// These settings, the Azure endpoint and API version having come from
    /// the reads `endpoint` and `api_version`.
    pub open spec fn azure_read(self, endpoint: EnvReading, api_version: EnvReading) -> ClientSettings {
        ClientSettings { endpoint_from: Some(endpoint), api_version_from: Some(api_version), ..self }
    }

    /// These settings with the key taken as an Azure bearer token.
    pub open spec fn as_token(self) -> ClientSettings {
        ClientSettings { key_is_token: true, ..self }
    }
}

/// A client of one of the providers, with the settings it was built with.
pub enum AnyClient {
    Anthropic(anthropic::Client, Ghost<ClientSettings>),
    Cohere(cohere::Client, Ghost<ClientSettings>),
    Gemini(gemini::Client, Ghost<ClientSettings>),
    HuggingFace(huggingface::Client, Ghost<ClientSettings>),
    OpenAI(openai::Client, Ghost<ClientSettings>),
    OpenRouter(openrouter::Client, Ghost<ClientSettings>),
    Together(together::Client, Ghost<ClientSettings>),
    XAI(xai::Client, Ghost<ClientSettings>),
    Azure(azure::Client, Ghost<ClientSettings>),
    DeepSeek(deepseek::Client, Ghost<ClientSettings>),
    Galadriel(galadriel::Client, Ghost<ClientSettings>),
    Groq(groq::Client, Ghost<ClientSettings>),
    Hyperbolic(hyperbolic::Client, Ghost<ClientSettings>),
    Moonshot(moonshot::Client, Ghost<ClientSettings>),
    Mira(mira::Client, Ghost<ClientSettings>),
    Mistral(mistral::Client, Ghost<ClientSettings>),
    Ollama(ollama::Client, Ghost<ClientSettings>),
    Perplexity(perplexity::Client, Ghost<ClientSettings>),
}

impl AnyClient {
    /// The provider the client belongs to.
    pub open spec fn spec_kind(&self) -> Provider {
        match self {
            AnyClient::Anthropic(..) => Provider::Anthropic,
            AnyClient::Cohere(..) => Provider::Cohere,
            AnyClient::Gemini(..) => Provider::Gemini,
            AnyClient::HuggingFace(..) => Provider::HuggingFace,
            AnyClient::OpenAI(..) => Provider::OpenAI,
            AnyClient::OpenRouter(..) => Provider::OpenRouter,
            AnyClient::Together(..) => Provider::Together,
            AnyClient::XAI(..) => Provider::XAI,
            AnyClient::Azure(..) => Provider::Azure,
            AnyClient::DeepSeek(..) => Provider::DeepSeek,
            AnyClient::Galadriel(..) => Provider::Galadriel,
            AnyClient::Groq(..) => Provider::Groq,
            AnyClient::Hyperbolic(..) => Provider::Hyperbolic,
            AnyClient::Moonshot(..) => Provider::Moonshot,
            AnyClient::Mira(..) => Provider::Mira,
            AnyClient::Mistral(..) => Provider::Mistral,
            AnyClient::Ollama(..) => Provider::Ollama,
            AnyClient::Perplexity(..) => Provider::Perplexity,
        }
    }

    /// The settings the client was built with.
    pub open spec fn spec_settings(&self) -> ClientSettings {
        match self {
            AnyClient::Anthropic(_, s) => s@,
            AnyClient::Cohere(_, s) => s@,
            AnyClient::Gemini(_, s) => s@,
            AnyClient::HuggingFace(_, s) => s@,
            AnyClient::OpenAI(_, s) => s@,
            AnyClient::OpenRouter(_, s) => s@,
            AnyClient::Together(_, s) => s@,
            AnyClient::XAI(_, s) => s@,
            AnyClient::Azure(_, s) => s@,
            AnyClient::DeepSeek(_, s) => s@,
            AnyClient::Galadriel(_, s) => s@,
            AnyClient::Groq(_, s) => s@,
            AnyClient::Hyperbolic(_, s) => s@,
            AnyClient::Moonshot(_, s) => s@,
            AnyClient::Mira(_, s) => s@,
            AnyClient::Mistral(_, s) => s@,
            AnyClient::Ollama(_, s) => s@,
            AnyClient::Perplexity(_, s) => s@,
        }
    }

    /// The provider the client belongs to.
    pub fn kind(&self) -> (r: Provider)
        ensures
            r == self.spec_kind(),
    {
        match self {
            AnyClient::Anthropic(..) => Provider::Anthropic,
            AnyClient::Cohere(..) => Provider::Cohere,
            AnyClient::Gemini(..) => Provider::Gemini,
            AnyClient::HuggingFace(..) => Provider::HuggingFace,
            AnyClient::OpenAI(..) => Provider::OpenAI,
            AnyClient::OpenRouter(..) => Provider::OpenRouter,
            AnyClient::Together(..) => Provider::Together,
            AnyClient::XAI(..) => Provider::XAI,
            AnyClient::Azure(..) => Provider::Azure,
            AnyClient::DeepSeek(..) => Provider::DeepSeek,
            AnyClient::Galadriel(..) => Provider::Galadriel,
            AnyClient::Groq(..) => Provider::Groq,
            AnyClient::Hyperbolic(..) => Provider::Hyperbolic,
            AnyClient::Moonshot(..) => Provider::Moonshot,
            AnyClient::Mira(..) => Provider::Mira,
            AnyClient::Mistral(..) => Provider::Mistral,
            AnyClient::Ollama(..) => Provider::Ollama,
            AnyClient::Perplexity(..) => Provider::Perplexity,
        }
    }

    /// The lowercase name of the client's provider.
    pub fn name(&self) -> (r: String)
        ensures
            r@ == self.spec_kind().lowercase_name(),
    {
        self.kind().name()
    }

    /// The error for a client that cannot act as `role`, naming its provider.
    pub fn not_capable(&self, role: &str) -> (r: Error)
        ensures
            r matches Error::NotCapable { provider, role: rl } && provider@
                == self.spec_kind().lowercase_name() && rl@ == role@,
    {
        Error::NotCapable { provider: self.name(), role: role.to_owned() }
    }

    /// The error for a client that cannot back an agent: not capable of the
    /// role `Completion`.
    pub fn not_capable_for_agent(&self) -> (r: Error)
        ensures
            r matches Error::NotCapable { provider, role } && provider@
                == self.spec_kind().lowercase_name() && role@ == "Completion"@,
    {
        self.not_capable("Completion")
    }

    /// The error for a client that cannot give a completion model: not
    /// capable of the role `Completion Model`.
    pub fn not_capable_for_completion_model(&self) -> (r: Error)
        ensures
            r matches Error::NotCapable { provider, role } && provider@
                == self.spec_kind().lowercase_name() && role@ == "Completion Model"@,
    {
        self.not_capable("Completion Model")
    }
}

/// Builds the HTTP client that a provider client runs over, with
/// `reqwest::ClientBuilder::build` on a fresh `ReqwestClient::builder()`; its
/// failure (no TLS backend, no resolver configuration) comes back as
/// `ProviderClientError::Http`. Nothing is claimed of the outcome: it depends
/// on the machine.
#[verifier::external_body]
fn http_backend() -> Result<ReqwestClient, ProviderClientError> {
    ReqwestClient::builder().build().map_err(|e| ProviderClientError::Http(rig_core::http_client::Error::Instance(Box::new(e))))
}

/// Builds a Anthropic client as `anthropic::Client::from_val` does (`builder().api_key(input).build()` on
/// `key`), but over the HTTP client `http` rather than a default one.
/// Claimed: a built client records `key` and nothing else as its settings.
#[verifier::external_body]
fn anthropic_client(http: ReqwestClient, key: &str) -> (r: Result<(anthropic::Client, Ghost<ClientSettings>), ProviderClientError>)
    ensures
        r matches Ok((_, s)) ==> s@ == ClientSettings::keyed(key@),
{
    let input: <anthropic::Client as ProviderClient>::Input = key.into();
    let client = anthropic::Client::builder().api_key(input).http_client(http).build()?;
    Ok((client, Ghost(ClientSettings::keyed(key@))))
}

/// Builds a Cohere client as `cohere::Client::from_val` does (`new(input)` on
/// `key`), but over the HTTP client `http` rather than a default one.
/// Claimed: a built client records `key` and nothing else as its settings.
#[verifier::external_body]
fn cohere_client(http: ReqwestClient, key: &str) -> (r: Result<(cohere::Client, Ghost<ClientSettings>), ProviderClientError>)
    ensures
        r matches Ok((_, s)) ==> s@ == ClientSettings::keyed(key@),
{
    let input: <cohere::Client as ProviderClient>::Input = key.into();
    let client = cohere::Client::builder().api_key(input).http_client(http).build()?;
    Ok((client, Ghost(ClientSettings::keyed(key@))))
}

/// Builds a Gemini client as `gemini::Client::from_val` does (`new(input)` on
/// `key`), but over the HTTP client `http` rather than a default one.
/// Claimed: a built client records `key` and nothing else as its settings.
#[verifier::external_body]
fn gemini_client(http: ReqwestClient, key: &str) -> (r: Result<(gemini::Client, Ghost<ClientSettings>), ProviderClientError>)
    ensures
        r matches Ok((_, s)) ==> s@ == ClientSettings::keyed(key@),
{
    let input: <gemini::Client as ProviderClient>::Input = key.into();
    let client = gemini::Client::builder().api_key(input).http_client(http).build()?;
    Ok((client, Ghost(ClientSettings::keyed(key@))))
}

/// Builds a HuggingFace client as `huggingface::Client::from_val` does (`new(&input)` on
/// `key`), but over the HTTP client `http` rather than a default one.
/// Claimed: a built client records `key` and nothing else as its settings.
#[verifier::external_body]
fn huggingface_client(http: ReqwestClient, key: &str) -> (r: Result<(huggingface::Client, Ghost<ClientSettings>), ProviderClientError>)
    ensures
        r matches Ok((_, s)) ==> s@ == ClientSettings::keyed(key@),
{
    let input: <huggingface::Client as ProviderClient>::Input = key.into();
    let client = huggingface::Client::builder().api_key(&input).http_client(http).build()?;
    Ok((client, Ghost(ClientSettings::keyed(key@))))
}

/// Builds a OpenAI client as `openai::Client::from_val` does (`new(input)` on
/// `key`), but over the HTTP client `http` rather than a default one.
/// Claimed: a built client records `key` and nothing else as its settings.
#[verifier::external_body]
fn openai_client(http: ReqwestClient, key: &str) -> (r: Result<(openai::Client, Ghost<ClientSettings>), ProviderClientError>)
    ensures
        r matches Ok((_, s)) ==> s@ == ClientSettings::keyed(key@),
{
    let input: <openai::Client as ProviderClient>::Input = key.into();
    let client = openai::Client::builder().api_key(input).http_client(http).build()?;
    Ok((client, Ghost(ClientSettings::keyed(key@))))
}

/// Builds a OpenAI client as `openai::Client::from_env` does when a base URL is
/// set in the environment (`builder().api_key(..).base_url(..)`), over the
/// HTTP client `http`. Claimed: a built client records `key` and `base_url`.
#[verifier::external_body]
fn openai_client_at(http: ReqwestClient, key: &str, base_url: &str) -> (r: Result<(openai::Client, Ghost<ClientSettings>), ProviderClientError>)
    ensures
        r matches Ok((_, s)) ==> s@ == ClientSettings::keyed(key@).with_base_url(base_url@),
{
    let input: <openai::Client as ProviderClient>::Input = key.into();
    let client = openai::Client::builder().api_key(input).base_url(base_url).http_client(http).build()?;
    Ok((client, Ghost(ClientSettings::keyed(key@).with_base_url(base_url@))))
}

/// Builds a OpenRouter client as `openrouter::Client::from_val` does (`new(input)` on
/// `key`), but over the HTTP client `http` rather than a default one.
/// Claimed: a built client records `key` and nothing else as its settings.
#[verifier::external_body]
fn openrouter_client(http: ReqwestClient, key: &str) -> (r: Result<(openrouter::Client, Ghost<ClientSettings>), ProviderClientError>)
    ensures
        r matches Ok((_, s)) ==> s@ == ClientSettings::keyed(key@),
{
    let input: <openrouter::Client as ProviderClient>::Input = key.into();
    let client = openrouter::Client::builder().api_key(input).http_client(http).build()?;
    Ok((client, Ghost(ClientSettings::keyed(key@))))
}

/// Builds a Together client as `together::Client::from_val` does (`new(&input)` on
/// `key`), but over the HTTP client `http` rather than a default one.
/// Claimed: a built client records `key` and nothing else as its settings.
#[verifier::external_body]
fn together_client(http: ReqwestClient, key: &str) -> (r: Result<(together::Client, Ghost<ClientSettings>), ProviderClientError>)
    ensures
        r matches Ok((_, s)) ==> s@ == ClientSettings::keyed(key@),
{
    let input: <together::Client as ProviderClient>::Input = key.into();
    let client = together::Client::builder().api_key(&input).http_client(http).build()?;
    Ok((client, Ghost(ClientSettings::keyed(key@))))
}

/// Builds a XAI client as `xai::Client::from_val` does (`new(&input)` on
/// `key`), but over the HTTP client `http` rather than a default one.
/// Claimed: a built client records `key` and nothing else as its settings.
#[verifier::external_body]
fn xai_client(http: ReqwestClient, key: &str) -> (r: Result<(xai::Client, Ghost<ClientSettings>), ProviderClientError>)
    ensures
        r matches Ok((_, s)) ==> s@ == ClientSettings::keyed(key@),
{
    let input: <xai::Client as ProviderClient>::Input = key.into();
    let client = xai::Client::builder().api_key(&input).http_client(http).build()?;
    Ok((client, Ghost(ClientSettings::keyed(key@))))
}

/// Builds a DeepSeek client as `deepseek::Client::from_val` does (`new(input)` on
/// `key`), but over the HTTP client `http` rather than a default one.
/// Claimed: a built client records `key` and nothing else as its settings.
#[verifier::external_body]
fn deepseek_client(http: ReqwestClient, key: &str) -> (r: Result<(deepseek::Client, Ghost<ClientSettings>), ProviderClientError>)
    ensures
        r matches Ok((_, s)) ==> s@ == ClientSettings::keyed(key@),
{
    let input: <deepseek::Client as ProviderClient>::Input = key.into();
    let client = deepseek::Client::builder().api_key(input).http_client(http).build()?;
    Ok((client, Ghost(ClientSettings::keyed(key@))))
}

/// Builds a DeepSeek client as `deepseek::Client::from_env` does: with a
/// `content-type: application/json` header on every request, then
/// `api_key(..)`, over the HTTP client `http`. Claimed: a built client records
/// `key` and the JSON header.
#[verifier::external_body]
fn deepseek_client_json(http: ReqwestClient, key: &str) -> (r: Result<(deepseek::Client, Ghost<ClientSettings>), ProviderClientError>)
    ensures
        r matches Ok((_, s)) ==> s@ == ClientSettings::keyed(key@).with_json_content_type(),
{
    let mut headers = rig_core::http_client::HeaderMap::new();
    headers.insert("content-type", rig_core::http_client::HeaderValue::from_static("application/json"));
    let client = deepseek::Client::builder().http_headers(headers).api_key(key).http_client(http).build()?;
    Ok((client, Ghost(ClientSettings::keyed(key@).with_json_content_type())))
}

/// Builds a Galadriel client as `galadriel::Client::from_val((key, None))`
/// does (`builder().api_key(key).build()`, no fine-tuning key), but over the
/// HTTP client `http` rather than a default one. Claimed: a built client
/// records `key` and nothing else as its settings.
#[verifier::external_body]
fn galadriel_client(http: ReqwestClient, key: &str) -> (r: Result<(galadriel::Client, Ghost<ClientSettings>), ProviderClientError>)
    ensures
        r matches Ok((_, s)) ==> s@ == ClientSettings::keyed(key@),
{
    let client = galadriel::Client::builder().api_key(key.to_string()).http_client(http).build()?;
    Ok((client, Ghost(ClientSettings::keyed(key@))))
}

/// Builds a Galadriel client as `galadriel::Client::from_env` does when a
/// fine-tuning key is set (`builder().api_key(key).fine_tune_api_key(..)`),
/// over the HTTP client `http`. Claimed: a built client records `key` and
/// `fine_tune_key`.
#[verifier::external_body]
fn galadriel_client_fine_tuned(http: ReqwestClient, key: &str, fine_tune_key: &str) -> (r: Result<(galadriel::Client, Ghost<ClientSettings>), ProviderClientError>)
    ensures
        r matches Ok((_, s)) ==> s@ == ClientSettings::keyed(key@).with_fine_tune_key(fine_tune_key@),
{
    let client = galadriel::Client::builder().api_key(key.to_string()).fine_tune_api_key(fine_tune_key).http_client(http).build()?;
    Ok((client, Ghost(ClientSettings::keyed(key@).with_fine_tune_key(fine_tune_key@))))
}

/// Builds a Groq client as `groq::Client::from_val` does (`new(&input)` on
/// `key`), but over the HTTP client `http` rather than a default one.
/// Claimed: a built client records `key` and nothing else as its settings.
#[verifier::external_body]
fn groq_client(http: ReqwestClient, key: &str) -> (r: Result<(groq::Client, Ghost<ClientSettings>), ProviderClientError>)
    ensures
        r matches Ok((_, s)) ==> s@ == ClientSettings::keyed(key@),
{
    let input: <groq::Client as ProviderClient>::Input = key.into();
    let client = groq::Client::builder().api_key(&input).http_client(http).build()?;
    Ok((client, Ghost(ClientSettings::keyed(key@))))
}

/// Builds a Hyperbolic client as `hyperbolic::Client::from_val` does (`new(input)` on
/// `key`), but over the HTTP client `http` rather than a default one.
/// Claimed: a built client records `key` and nothing else as its settings.
#[verifier::external_body]
fn hyperbolic_client(http: ReqwestClient, key: &str) -> (r: Result<(hyperbolic::Client, Ghost<ClientSettings>), ProviderClientError>)
    ensures
        r matches Ok((_, s)) ==> s@ == ClientSettings::keyed(key@),
{
    let input: <hyperbolic::Client as ProviderClient>::Input = key.into();
    let client = hyperbolic::Client::builder().api_key(input).http_client(http).build()?;
    Ok((client, Ghost(ClientSettings::keyed(key@))))
}

/// Builds a Moonshot client as `moonshot::Client::from_val` does (`new(&input)` on
/// `key`), but over the HTTP client `http` rather than a default one.
/// Claimed: a built client records `key` and nothing else as its settings.
#[verifier::external_body]
fn moonshot_client(http: ReqwestClient, key: &str) -> (r: Result<(moonshot::Client, Ghost<ClientSettings>), ProviderClientError>)
    ensures
        r matches Ok((_, s)) ==> s@ == ClientSettings::keyed(key@),
{
    let input: <moonshot::Client as ProviderClient>::Input = key.into();
    let client = moonshot::Client::builder().api_key(&input).http_client(http).build()?;
    Ok((client, Ghost(ClientSettings::keyed(key@))))
}

/// Builds a Moonshot client as `moonshot::Client::from_env` does when a base URL is
/// set in the environment (`builder().api_key(..).base_url(..)`), over the
/// HTTP client `http`. Claimed: a built client records `key` and `base_url`.
#[verifier::external_body]
fn moonshot_client_at(http: ReqwestClient, key: &str, base_url: &str) -> (r: Result<(moonshot::Client, Ghost<ClientSettings>), ProviderClientError>)
    ensures
        r matches Ok((_, s)) ==> s@ == ClientSettings::keyed(key@).with_base_url(base_url@),
{
    let input: <moonshot::Client as ProviderClient>::Input = key.into();
    let client = moonshot::Client::builder().api_key(&input).base_url(base_url).http_client(http).build()?;
    Ok((client, Ghost(ClientSettings::keyed(key@).with_base_url(base_url@))))
}

/// Builds a Mira client as `mira::Client::from_val` does (`new(&input)` on
/// `key`), but over the HTTP client `http` rather than a default one.
/// Claimed: a built client records `key` and nothing else as its settings.
#[verifier::external_body]
fn mira_client(http: ReqwestClient, key: &str) -> (r: Result<(mira::Client, Ghost<ClientSettings>), ProviderClientError>)
    ensures
        r matches Ok((_, s)) ==> s@ == ClientSettings::keyed(key@),
{
    let input: <mira::Client as ProviderClient>::Input = key.into();
    let client = mira::Client::builder().api_key(&input).http_client(http).build()?;
    Ok((client, Ghost(ClientSettings::keyed(key@))))
}

/// Builds a Mistral client as `mistral::Client::from_val` does (`new(&input)` on
/// `key`), but over the HTTP client `http` rather than a default one.
/// Claimed: a built client records `key` and nothing else as its settings.
#[verifier::external_body]
fn mistral_client(http: ReqwestClient, key: &str) -> (r: Result<(mistral::Client, Ghost<ClientSettings>), ProviderClientError>)
    ensures
        r matches Ok((_, s)) ==> s@ == ClientSettings::keyed(key@),
{
    let input: <mistral::Client as ProviderClient>::Input = key.into();
    let client = mistral::Client::builder().api_key(&input).http_client(http).build()?;
    Ok((client, Ghost(ClientSettings::keyed(key@))))
}

/// Builds a Ollama client as `ollama::Client::from_val` does (`builder().api_key(input).build()` on
/// `key`), but over the HTTP client `http` rather than a default one.
/// Claimed: a built client records `key` and nothing else as its settings.
#[verifier::external_body]
fn ollama_client(http: ReqwestClient, key: &str) -> (r: Result<(ollama::Client, Ghost<ClientSettings>), ProviderClientError>)
    ensures
        r matches Ok((_, s)) ==> s@ == ClientSettings::keyed(key@),
{
    let input: <ollama::Client as ProviderClient>::Input = key.into();
    let client = ollama::Client::builder().api_key(input).http_client(http).build()?;
    Ok((client, Ghost(ClientSettings::keyed(key@))))
}

/// Builds a Ollama client as `ollama::Client::from_env` does when a base URL is
/// set in the environment (`builder().api_key(..).base_url(..)`), over the
/// HTTP client `http`. Claimed: a built client records `key` and `base_url`.
#[verifier::external_body]
fn ollama_client_at(http: ReqwestClient, key: &str, base_url: &str) -> (r: Result<(ollama::Client, Ghost<ClientSettings>), ProviderClientError>)
    ensures
        r matches Ok((_, s)) ==> s@ == ClientSettings::keyed(key@).with_base_url(base_url@),
{
    let input: <ollama::Client as ProviderClient>::Input = key.into();
    let client = ollama::Client::builder().api_key(input).base_url(base_url).http_client(http).build()?;
    Ok((client, Ghost(ClientSettings::keyed(key@).with_base_url(base_url@))))
}

/// Builds a Perplexity client as `perplexity::Client::from_val` does (`new(&input)` on
/// `key`), but over the HTTP client `http` rather than a default one.
/// Claimed: a built client records `key` and nothing else as its settings.
#[verifier::external_body]
fn perplexity_client(http: ReqwestClient, key: &str) -> (r: Result<(perplexity::Client, Ghost<ClientSettings>), ProviderClientError>)
    ensures
        r matches Ok((_, s)) ==> s@ == ClientSettings::keyed(key@),
{
    let input: <perplexity::Client as ProviderClient>::Input = key.into();
    let client = perplexity::Client::builder().api_key(&input).http_client(http).build()?;
    Ok((client, Ghost(ClientSettings::keyed(key@))))
}

/// The `ProviderClientError::InvalidConfiguration` with the text `message`.
#[verifier::external_body]
fn invalid_configuration(message: &'static str) -> ProviderClientError {
    ProviderClientError::InvalidConfiguration(message)
}

/// Builds an Azure OpenAI client through `azure::Client::builder()`, with
/// `key` as its API key (`AzureOpenAIAuth::ApiKey`), `endpoint` as its Azure
/// endpoint and `api_version` as its API version, over the HTTP client
/// `http`. Claimed: a built client records these three.
#[verifier::external_body]
fn azure_client(http: ReqwestClient, key: &str, endpoint: &str, api_version: &str) -> (r: Result<(azure::Client, Ghost<ClientSettings>), ProviderClientError>)
    ensures
        r matches Ok((_, s)) ==> s@ == ClientSettings::keyed(key@).on_azure(endpoint@, api_version@),
{
    let auth = azure::AzureOpenAIAuth::ApiKey(key.to_string());
    let client = azure::Client::builder().api_key(auth).azure_endpoint(endpoint.to_string()).api_version(api_version).http_client(http).build()?;
    Ok((client, Ghost(ClientSettings::keyed(key@).on_azure(endpoint@, api_version@))))
}

/// Builds an Azure OpenAI client as `azure::Client::from_env` does from
/// `AZURE_TOKEN`: `token` as a bearer token (`AzureOpenAIAuth::Token`),
/// `endpoint` and `api_version`, over the HTTP client `http`. Claimed: a built
/// client records these three and that the key is a token.
#[verifier::external_body]
fn azure_client_with_token(http: ReqwestClient, token: &str, endpoint: &str, api_version: &str) -> (r: Result<(azure::Client, Ghost<ClientSettings>), ProviderClientError>)
    ensures
        r matches Ok((_, s)) ==> s@ == ClientSettings::keyed(token@).as_token().on_azure(endpoint@, api_version@),
{
    let auth = azure::AzureOpenAIAuth::Token(token.to_string());
    let client = azure::Client::builder().api_key(auth).azure_endpoint(endpoint.to_string()).api_version(api_version).http_client(http).build()?;
    Ok((client, Ghost(ClientSettings::keyed(token@).as_token().on_azure(endpoint@, api_version@))))
}

/// The read `rd` is of the variable `var` and gave `value`.
pub open spec fn read_as(rd: Option<EnvReading>, var: Seq<char>, value: Option<Seq<char>>) -> bool {
    rd matches Some(r) && r.var() == var && r.value() == value
}

/// The read `rd` is of the variable `var`, gave `value`, and was one that
/// fails where the variable is unset: the variable is required.
pub open spec fn required_read(rd: Option<EnvReading>, var: Seq<char>, value: Option<Seq<char>>) -> bool {
    read_as(rd, var, value) && rd.unwrap().fails_when_unset()
}

/// The read `rd` is of the variable `var`, gave `value`, and was one that
/// gives no value, not an error, where the variable is unset: the variable
/// is optional.
pub open spec fn optional_read(rd: Option<EnvReading>, var: Seq<char>, value: Option<Seq<char>>) -> bool {
    read_as(rd, var, value) && !rd.unwrap().fails_when_unset()
}

/// The Azure endpoint and API version came from `AZURE_ENDPOINT` and
/// `AZURE_API_VERSION`, both required.
pub open spec fn azure_from_env(s: ClientSettings) -> bool {
    &&& s.endpoint is Some && required_read(s.endpoint_from, "AZURE_ENDPOINT"@, s.endpoint)
    &&& s.api_version is Some && required_read(s.api_version_from, "AZURE_API_VERSION"@, s.api_version)
}

/// The settings of an Azure client built with `key`: that key (not a
/// token), and the endpoint and API version that reads of `AZURE_ENDPOINT`
/// and `AZURE_API_VERSION` gave; all else at the defaults.
pub open spec fn azure_keyed(key: Seq<char>, s: ClientSettings) -> bool {
    &&& s == ClientSettings::keyed(key).on_azure(s.endpoint.unwrap(), s.api_version.unwrap()).azure_read(
        s.endpoint_from.unwrap(),
        s.api_version_from.unwrap(),
    )
    &&& azure_from_env(s)
}

/// The variable that may hold a base URL for a client of `p`.
pub open spec fn base_url_var(p: Provider) -> Option<Seq<char>> {
    match p {
        Provider::OpenAI => Some("OPENAI_BASE_URL"@),
        Provider::Moonshot => Some("MOONSHOT_API_BASE"@),
        Provider::Ollama => Some("OLLAMA_API_BASE_URL"@),
        _ => None,
    }
}

/// The settings of a client of `p` built from the environment: the key came
/// from the provider's variable, which is required (for Azure from the
/// optional `AZURE_API_KEY`, and only where a read found that unset, as a
/// token from the optional `AZURE_TOKEN`; for Ollama from the optional
/// `OLLAMA_API_KEY`, the empty key where it is unset); the base URL is what
/// the provider's base URL variable, which is optional, gave, where it has
/// one, and the default otherwise; Galadriel's fine-tuning key is what the
/// optional `GALADRIEL_FINE_TUNE_API_KEY` gave; DeepSeek, and only it,
/// sends a JSON content type; Azure, and only it, has an endpoint and API
/// version, from `AZURE_ENDPOINT` and `AZURE_API_VERSION`.
pub open spec fn read_from_env(p: Provider, s: ClientSettings) -> bool {
    &&& match p {
        Provider::Azure => if s.key_is_token {
            optional_read(s.key_unset_from, "AZURE_API_KEY"@, None) && optional_read(s.key_from, "AZURE_TOKEN"@, Some(s.key))
        } else {
            optional_read(s.key_from, "AZURE_API_KEY"@, Some(s.key)) && s.key_unset_from is None
        },
        Provider::Ollama => s.key_from matches Some(r) && r.var() == "OLLAMA_API_KEY"@ && !r.fails_when_unset() && s.key == match r.value() {
            Some(v) => v,
            None => Seq::<char>::empty(),
        },
        _ => required_read(s.key_from, p.spec_api_key(), Some(s.key)),
    }
    &&& (p != Provider::Azure ==> s.key_unset_from is None)
    &&& match base_url_var(p) {
        Some(var) => optional_read(s.base_url_from, var, s.base_url),
        None => s.base_url is None,
    }
    &&& if p == Provider::Galadriel {
        optional_read(s.fine_tune_key_from, "GALADRIEL_FINE_TUNE_API_KEY"@, s.fine_tune_key)
    } else {
        s.fine_tune_key is None
    }
    &&& (s.json_content_type <==> p == Provider::DeepSeek)
    &&& (s.key_is_token ==> p == Provider::Azure)
    &&& if p == Provider::Azure {
        azure_from_env(s)
    } else {
        s.endpoint is None && s.api_version is None
    }
}

/// A client reports as its provider exactly the provider whose variant
/// holds it: a client of one provider is never reported as another's.
pub proof fn lemma_kind_is_variant(c: AnyClient)
    ensures
        (c is Anthropic) <==> c.spec_kind() == Provider::Anthropic,
        (c is Cohere) <==> c.spec_kind() == Provider::Cohere,
        (c is Gemini) <==> c.spec_kind() == Provider::Gemini,
        (c is HuggingFace) <==> c.spec_kind() == Provider::HuggingFace,
        (c is OpenAI) <==> c.spec_kind() == Provider::OpenAI,
        (c is OpenRouter) <==> c.spec_kind() == Provider::OpenRouter,
        (c is Together) <==> c.spec_kind() == Provider::Together,
        (c is XAI) <==> c.spec_kind() == Provider::XAI,
        (c is Azure) <==> c.spec_kind() == Provider::Azure,
        (c is DeepSeek) <==> c.spec_kind() == Provider::DeepSeek,
        (c is Galadriel) <==> c.spec_kind() == Provider::Galadriel,
        (c is Groq) <==> c.spec_kind() == Provider::Groq,
        (c is Hyperbolic) <==> c.spec_kind() == Provider::Hyperbolic,
        (c is Moonshot) <==> c.spec_kind() == Provider::Moonshot,
        (c is Mira) <==> c.spec_kind() == Provider::Mira,
        (c is Mistral) <==> c.spec_kind() == Provider::Mistral,
        (c is Ollama) <==> c.spec_kind() == Provider::Ollama,
        (c is Perplexity) <==> c.spec_kind() == Provider::Perplexity,
{
}

impl Provider {
    /// Builds a client of this provider with `key` as its API key, all else
    /// at the provider's defaults. An Azure client also takes its API
    /// version and endpoint from the process environment
    /// (`AZURE_API_VERSION`, `AZURE_ENDPOINT`).
    pub fn from_key(&self, key: &str) -> (r: Result<AnyClient, ProviderClientError>)
        ensures
            r matches Ok(c) ==> c.spec_kind() == *self,
            r matches Ok(c) ==> c.spec_settings().key == key@ && !c.spec_settings().key_is_token,
            r matches Ok(c) ==> (*self != Provider::Azure ==> c.spec_settings() == ClientSettings::keyed(key@)),
            r matches Ok(c) ==> (*self == Provider::Azure ==> azure_keyed(key@, c.spec_settings())),
    {
        let client: AnyClient = match self {
            Provider::Anthropic => {
                let (c, s) = anthropic_client(http_backend()?, key)?;
                AnyClient::Anthropic(c, s)
            },
            Provider::Cohere => {
                let (c, s) = cohere_client(http_backend()?, key)?;
                AnyClient::Cohere(c, s)
            },
            Provider::Gemini => {
                let (c, s) = gemini_client(http_backend()?, key)?;
                AnyClient::Gemini(c, s)
            },
            Provider::HuggingFace => {
                let (c, s) = huggingface_client(http_backend()?, key)?;
                AnyClient::HuggingFace(c, s)
            },
            Provider::OpenAI => {
                let (c, s) = openai_client(http_backend()?, key)?;
                AnyClient::OpenAI(c, s)
            },
            Provider::OpenRouter => {
                let (c, s) = openrouter_client(http_backend()?, key)?;
                AnyClient::OpenRouter(c, s)
            },
            Provider::Together => {
                let (c, s) = together_client(http_backend()?, key)?;
                AnyClient::Together(c, s)
            },
            Provider::XAI => {
                let (c, s) = xai_client(http_backend()?, key)?;
                AnyClient::XAI(c, s)
            },
            Provider::Azure => {
                let (api_version, version_read) = required_env_var("AZURE_API_VERSION")?;
                let (endpoint, endpoint_read) = required_env_var("AZURE_ENDPOINT")?;
                let (c, s) = azure_client(http_backend()?, key, &endpoint, &api_version)?;
                AnyClient::Azure(c, Ghost(s@.azure_read(endpoint_read@, version_read@)))
            },
            Provider::DeepSeek => {
                let (c, s) = deepseek_client(http_backend()?, key)?;
                AnyClient::DeepSeek(c, s)
            },
            Provider::Galadriel => {
                let (c, s) = galadriel_client(http_backend()?, key)?;
                AnyClient::Galadriel(c, s)
            },
            Provider::Groq => {
                let (c, s) = groq_client(http_backend()?, key)?;
                AnyClient::Groq(c, s)
            },
            Provider::Hyperbolic => {
                let (c, s) = hyperbolic_client(http_backend()?, key)?;
                AnyClient::Hyperbolic(c, s)
            },
            Provider::Moonshot => {
                let (c, s) = moonshot_client(http_backend()?, key)?;
                AnyClient::Moonshot(c, s)
            },
            Provider::Mira => {
                let (c, s) = mira_client(http_backend()?, key)?;
                AnyClient::Mira(c, s)
            },
            Provider::Mistral => {
                let (c, s) = mistral_client(http_backend()?, key)?;
                AnyClient::Mistral(c, s)
            },
            Provider::Ollama => {
                let (c, s) = ollama_client(http_backend()?, key)?;
                AnyClient::Ollama(c, s)
            },
            Provider::Perplexity => {
                let (c, s) = perplexity_client(http_backend()?, key)?;
                AnyClient::Perplexity(c, s)
            },
        };
        Ok(client)
    }

    /// Builds a client of this provider configured from the environment of
    /// the process, as the provider's `from_env` in rig reads it: the API key
    /// from the provider's variable (Ollama's is optional), for OpenAI,
    /// Moonshot and Ollama an optional base URL, for Galadriel an optional
    /// fine-tuning key, for Azure the key or a token and the endpoint and API
    /// version. Superseded by `from_key`, which takes the API key from the
    /// caller.
    pub fn from_env(&self) -> (r: Result<AnyClient, ProviderClientError>)
        ensures
            r matches Ok(c) ==> c.spec_kind() == *self && read_from_env(*self, c.spec_settings()),
    {
        let client: AnyClient = match self {
            Provider::Anthropic => {
                let (key, key_read) = required_env_var("ANTHROPIC_API_KEY")?;
                let (c, s) = anthropic_client(http_backend()?, &key)?;
                AnyClient::Anthropic(c, Ghost(s@.key_read(key_read@)))
            },
            Provider::Cohere => {
                let (key, key_read) = required_env_var("COHERE_API_KEY")?;
                let (c, s) = cohere_client(http_backend()?, &key)?;
                AnyClient::Cohere(c, Ghost(s@.key_read(key_read@)))
            },
            Provider::Gemini => {
                let (key, key_read) = required_env_var("GEMINI_API_KEY")?;
                let (c, s) = gemini_client(http_backend()?, &key)?;
                AnyClient::Gemini(c, Ghost(s@.key_read(key_read@)))
            },
            Provider::HuggingFace => {
                let (key, key_read) = required_env_var("HUGGINGFACE_API_KEY")?;
                let (c, s) = huggingface_client(http_backend()?, &key)?;
                AnyClient::HuggingFace(c, Ghost(s@.key_read(key_read@)))
            },
            Provider::OpenAI => {
                let (base_url, base_read) = optional_env_var("OPENAI_BASE_URL")?;
                let (key, key_read) = required_env_var("OPENAI_API_KEY")?;
                let (c, s) = match base_url {
                    Some(base) => openai_client_at(http_backend()?, &key, &base)?,
                    None => openai_client(http_backend()?, &key)?,
                };
                AnyClient::OpenAI(c, Ghost(s@.key_read(key_read@).base_url_read(base_read@)))
            },
            Provider::OpenRouter => {
                let (key, key_read) = required_env_var("OPENROUTER_API_KEY")?;
                let (c, s) = openrouter_client(http_backend()?, &key)?;
                AnyClient::OpenRouter(c, Ghost(s@.key_read(key_read@)))
            },
            Provider::Together => {
                let (key, key_read) = required_env_var("TOGETHER_API_KEY")?;
                let (c, s) = together_client(http_backend()?, &key)?;
                AnyClient::Together(c, Ghost(s@.key_read(key_read@)))
            },
            Provider::XAI => {
                let (key, key_read) = required_env_var("XAI_API_KEY")?;
                let (c, s) = xai_client(http_backend()?, &key)?;
                AnyClient::XAI(c, Ghost(s@.key_read(key_read@)))
            },
            Provider::Azure => {
                let (api_key, api_key_read) = optional_env_var("AZURE_API_KEY")?;
                match api_key {
                    Some(k) => {
                        let (api_version, version_read) = required_env_var("AZURE_API_VERSION")?;
                        let (endpoint, endpoint_read) = required_env_var("AZURE_ENDPOINT")?;
                        let (c, s) = azure_client(http_backend()?, &k, &endpoint, &api_version)?;
                        AnyClient::Azure(c, Ghost(s@.key_read(api_key_read@).azure_read(endpoint_read@, version_read@)))
                    },
                    None => {
                        let (token, token_read) = optional_env_var("AZURE_TOKEN")?;
                        match token {
                            Some(t) => {
                                let (api_version, version_read) = required_env_var("AZURE_API_VERSION")?;
                                let (endpoint, endpoint_read) = required_env_var("AZURE_ENDPOINT")?;
                                let (c, s) = azure_client_with_token(http_backend()?, &t, &endpoint, &api_version)?;
                                AnyClient::Azure(c, Ghost(s@.key_read(token_read@).key_unset_read(api_key_read@).azure_read(endpoint_read@, version_read@)))
                            },
                            None => return Err(invalid_configuration(
                                "either `AZURE_API_KEY` or `AZURE_TOKEN` must be set",
                            )),
                        }
                    },
                }
            },
            Provider::DeepSeek => {
                let (key, key_read) = required_env_var("DEEPSEEK_API_KEY")?;
                let (c, s) = deepseek_client_json(http_backend()?, &key)?;
                AnyClient::DeepSeek(c, Ghost(s@.key_read(key_read@)))
            },
            Provider::Galadriel => {
                let (key, key_read) = required_env_var("GALADRIEL_API_KEY")?;
                let (fine_tune_key, fine_read) = optional_env_var("GALADRIEL_FINE_TUNE_API_KEY")?;
                let (c, s) = match fine_tune_key {
                    Some(f) => galadriel_client_fine_tuned(http_backend()?, &key, &f)?,
                    None => galadriel_client(http_backend()?, &key)?,
                };
                AnyClient::Galadriel(c, Ghost(s@.key_read(key_read@).fine_tune_key_read(fine_read@)))
            },
            Provider::Groq => {
                let (key, key_read) = required_env_var("GROQ_API_KEY")?;
                let (c, s) = groq_client(http_backend()?, &key)?;
                AnyClient::Groq(c, Ghost(s@.key_read(key_read@)))
            },
            Provider::Hyperbolic => {
                let (key, key_read) = required_env_var("HYPERBOLIC_API_KEY")?;
                let (c, s) = hyperbolic_client(http_backend()?, &key)?;
                AnyClient::Hyperbolic(c, Ghost(s@.key_read(key_read@)))
            },
            Provider::Moonshot => {
                let (key, key_read) = required_env_var("MOONSHOT_API_KEY")?;
                let (base_url, base_read) = optional_env_var("MOONSHOT_API_BASE")?;
                let (c, s) = match base_url {
                    Some(base) => moonshot_client_at(http_backend()?, &key, &base)?,
                    None => moonshot_client(http_backend()?, &key)?,
                };
                AnyClient::Moonshot(c, Ghost(s@.key_read(key_read@).base_url_read(base_read@)))
            },
            Provider::Mira => {
                let (key, key_read) = required_env_var("MIRA_API_KEY")?;
                let (c, s) = mira_client(http_backend()?, &key)?;
                AnyClient::Mira(c, Ghost(s@.key_read(key_read@)))
            },
            Provider::Mistral => {
                let (key, key_read) = required_env_var("MISTRAL_API_KEY")?;
                let (c, s) = mistral_client(http_backend()?, &key)?;
                AnyClient::Mistral(c, Ghost(s@.key_read(key_read@)))
            },
            Provider::Ollama => {
                let (base_url, base_read) = optional_env_var("OLLAMA_API_BASE_URL")?;
                let (set_key, key_read) = optional_env_var("OLLAMA_API_KEY")?;
                let key: String = match set_key {
                    Some(k) => k,
                    None => String::new(),
                };
                let (c, s) = match base_url {
                    Some(base) => ollama_client_at(http_backend()?, &key, &base)?,
                    None => ollama_client(http_backend()?, &key)?,
                };
                AnyClient::Ollama(c, Ghost(s@.key_read(key_read@).base_url_read(base_read@)))
            },
            Provider::Perplexity => {
                let (key, key_read) = required_env_var("PERPLEXITY_API_KEY")?;
                let (c, s) = perplexity_client(http_backend()?, &key)?;
                AnyClient::Perplexity(c, Ghost(s@.key_read(key_read@)))
            },
        };
        Ok(client)
    }
}

} // verus!
