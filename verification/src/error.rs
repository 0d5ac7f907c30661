//! The ways in which resolving a service or talking to a provider fails.

use crate::provider::Provider;
use vstd::prelude::*;

verus! {

/// A failure of the resolution of a service or of an exchange with a provider.
#[derive(Debug, PartialEq, Eq)]
pub enum LlmError {
    /// The configuration has no service of this name.
    ServiceNotFound { name: String },
    /// The service declares a class that is none of the valid ones.
    UnknownProviderClass { given: String, valid: Vec<String> },
    /// Neither the caller nor the service names a model.
    MissingModel { provider: Provider },
    /// The provider needs an API key and the service has none.
    MissingCredential { provider: Provider },
    /// The provider needs a system prompt and the resolved one is empty.
    MissingSystemPrompt { provider: Provider },
    /// The request did not reach the provider, or no reply came back.
    Transport { message: String },
    /// The provider refused the credentials.
    Unauthorized { provider: Provider },
    /// The provider does not know the endpoint or the model.
    NotFound { provider: Provider },
    /// The provider answered with a status outside the successful ones.
    ProviderApi { provider: Provider, status: u16, body: String },
    /// The reply is no JSON document, or lacks what the provider's format
    /// promises.
    MalformedResponse { provider: Provider },
}

/// The mathematical model of an [`LlmError`].
pub ghost enum ErrorModel {
    ServiceNotFound { name: Seq<char> },
    UnknownProviderClass { given: Seq<char>, valid: Seq<Seq<char>> },
    MissingModel { provider: Provider },
    MissingCredential { provider: Provider },
    MissingSystemPrompt { provider: Provider },
    Transport { message: Seq<char> },
    Unauthorized { provider: Provider },
    NotFound { provider: Provider },
    ProviderApi { provider: Provider, status: u16, body: Seq<char> },
    MalformedResponse { provider: Provider },
}

impl View for LlmError {
    type V = ErrorModel;

    open spec fn view(&self) -> ErrorModel {
        match self {
            LlmError::ServiceNotFound { name } => ErrorModel::ServiceNotFound { name: name@ },
            LlmError::UnknownProviderClass { given, valid } => ErrorModel::UnknownProviderClass {
                given: given@,
                valid: valid.deep_view(),
            },
            LlmError::MissingModel { provider } => ErrorModel::MissingModel {
                provider: *provider,
            },
            LlmError::MissingCredential { provider } => ErrorModel::MissingCredential {
                provider: *provider,
            },
            LlmError::MissingSystemPrompt { provider } => ErrorModel::MissingSystemPrompt {
                provider: *provider,
            },
            LlmError::Transport { message } => ErrorModel::Transport { message: message@ },
            LlmError::Unauthorized { provider } => ErrorModel::Unauthorized {
                provider: *provider,
            },
            LlmError::NotFound { provider } => ErrorModel::NotFound { provider: *provider },
            LlmError::ProviderApi { provider, status, body } => ErrorModel::ProviderApi {
                provider: *provider,
                status: *status,
                body: body@,
            },
            LlmError::MalformedResponse { provider } => ErrorModel::MalformedResponse {
                provider: *provider,
            },
        }
    }
}

/// A failure to load the configuration.
#[derive(Debug, PartialEq, Eq)]
pub enum ConfigError {
    /// Neither a global nor a local source exists.
    NoConfigurationFound,
    /// The local source at `path` cannot be read as a configuration.
    Unreadable { path: String, reason: String },
    /// No source gives the default service.
    MissingDefaultService,
    /// No source gives the default prompt.
    MissingDefaultPrompt,
}

/// The mathematical model of a [`ConfigError`].
pub ghost enum ConfigErrorModel {
    NoConfigurationFound,
    Unreadable { path: Seq<char>, reason: Seq<char> },
    MissingDefaultService,
    MissingDefaultPrompt,
}

impl View for ConfigError {
    type V = ConfigErrorModel;

    open spec fn view(&self) -> ConfigErrorModel {
        match self {
            ConfigError::NoConfigurationFound => ConfigErrorModel::NoConfigurationFound,
            ConfigError::Unreadable { path, reason } => ConfigErrorModel::Unreadable {
                path: path@,
                reason: reason@,
            },
            ConfigError::MissingDefaultService => ConfigErrorModel::MissingDefaultService,
            ConfigError::MissingDefaultPrompt => ConfigErrorModel::MissingDefaultPrompt,
        }
    }
}

} // verus!
