//! The session client: which service, model and system prompt an
//! invocation uses, and the driver that speaks for it.

use crate::config::{Config, ConfigModel, Service};
use crate::drivers::{
    completed, completion, completion_request_model, construction, listed, models,
    models_request_model, Completion, Driver, DriverModel,
};
use crate::error::{ErrorModel, LlmError};
use crate::http::{HttpReply, HttpRequest};
use crate::provider::{class_names, Provider};
use crate::table::Table;
use vstd::prelude::*;

verus! {

/// A client for one invocation: the service that was chosen, and its driver.
#[derive(Debug)]
pub struct Client {
    service_name: String,
    driver: Driver,
}

/// The mathematical model of a [`Client`]: the values that the resolution
/// arrived at.
pub ghost struct ClientModel {
    pub service_name: Seq<char>,
    pub settings: DriverModel,
}

/// The characters of an optional text.
pub open spec fn chars(t: Option<&str>) -> Option<Seq<char>> {
    match t {
        Some(t) => Some(t@),
        None => None,
    }
}

/// The characters of an optional text.
pub open spec fn string_chars(t: Option<&String>) -> Option<Seq<char>> {
    match t {
        Some(t) => Some(t@),
        None => None,
    }
}

/// The text that `candidate` stands for: the text under it where it is a
/// name in `prompts`, else `candidate` itself.
pub open spec fn key_or_literal(prompts: Map<Seq<char>, String>, candidate: Seq<char>) -> Seq<
    char,
> {
    if prompts.contains_key(candidate) {
        prompts[candidate]@
    } else {
        candidate
    }
}

/// The service that an invocation uses: the one that the caller names, else
/// the default one.
pub open spec fn effective_service(name: Option<Seq<char>>, config: ConfigModel) -> Seq<char> {
    match name {
        Some(name) => name,
        None => config.default_service,
    }
}

/// The model that an invocation asks for: the one that the caller names,
/// else the service's own, if it has one.
pub open spec fn effective_model(service: Service, model: Option<Seq<char>>) -> Option<Seq<char>> {
    match model {
        Some(model) => Some(model),
        None => match service.model {
            Some(model) => Some(model@),
            None => None,
        },
    }
}

/// The reference to the system prompt: the one that the caller gives, else
/// the service's own, else the default one.
pub open spec fn prompt_reference(
    service: Service,
    config: ConfigModel,
    prompt: Option<Seq<char>>,
) -> Seq<char> {
    match prompt {
        Some(prompt) => prompt,
        None => match service.system_prompt {
            Some(reference) => reference@,
            None => config.default_prompt,
        },
    }
}

/// The system prompt that an invocation sends.
pub open spec fn effective_prompt(
    service: Service,
    config: ConfigModel,
    prompt: Option<Seq<char>>,
) -> Seq<char> {
    key_or_literal(config.system_prompts, prompt_reference(service, config, prompt))
}

/// What the resolution arrives at: the client for the invocation, or why
/// there is none.
pub open spec fn resolution(
    name: Option<Seq<char>>,
    config: ConfigModel,
    model: Option<Seq<char>>,
    prompt: Option<Seq<char>>,
) -> Result<ClientModel, ErrorModel> {
    let service_name = effective_service(name, config);
    if !config.services.contains_key(service_name) {
        Err(ErrorModel::ServiceNotFound { name: service_name })
    } else {
        let service = config.services[service_name];
        match Provider::of_class(service.class@) {
            None => Err(
                ErrorModel::UnknownProviderClass { given: service.class@, valid: class_names() },
            ),
            Some(provider) => match effective_model(service, model) {
                None => Err(ErrorModel::MissingModel { provider }),
                Some(model) => match construction(
                    provider,
                    service,
                    model,
                    effective_prompt(service, config, prompt),
                ) {
                    Ok(settings) => Ok(ClientModel { service_name, settings }),
                    Err(e) => Err(e),
                },
            },
        }
    }
}

/// Where the configuration has no service at all, the resolution fails
/// because the service is not found, whatever else is asked for.
pub proof fn lemma_no_services(
    name: Option<Seq<char>>,
    config: ConfigModel,
    model: Option<Seq<char>>,
    prompt: Option<Seq<char>>,
)
    requires
        config.services == Map::<Seq<char>, Service>::empty(),
    ensures
        resolution(name, config, model, prompt) == Err::<ClientModel, ErrorModel>(
            ErrorModel::ServiceNotFound { name: effective_service(name, config) },
        ),
        resolution(None, config, model, prompt) == Err::<ClientModel, ErrorModel>(
            ErrorModel::ServiceNotFound { name: config.default_service },
        ),
{
}

/// Without an override, the system prompt of a service that refers to a name
/// in the table of prompts is the text under that name, and that of a
/// service that refers to anything else is the reference itself.
pub proof fn lemma_prompt_of_service(service: Service, config: ConfigModel)
    requires
        service.system_prompt.is_some(),
    ensures
        config.system_prompts.contains_key(service.system_prompt.unwrap()@) ==> effective_prompt(
            service,
            config,
            None,
        ) == config.system_prompts[service.system_prompt.unwrap()@]@,
        !config.system_prompts.contains_key(service.system_prompt.unwrap()@) ==> effective_prompt(
            service,
            config,
            None,
        ) == service.system_prompt.unwrap()@,
{
}

/// A resolution that succeeds arrives at the effective service, model and
/// system prompt, and at a driver of the service's class.
pub proof fn lemma_resolved_values(
    name: Option<Seq<char>>,
    config: ConfigModel,
    model: Option<Seq<char>>,
    prompt: Option<Seq<char>>,
)
    requires
        resolution(name, config, model, prompt).is_ok(),
    ensures
        resolution(name, config, model, prompt) matches Ok(client) && {
            let service = config.services[client.service_name];
            &&& client.service_name == effective_service(name, config)
            &&& config.services.contains_key(client.service_name)
            &&& Provider::of_class(service.class@) == Some(client.settings.provider)
            &&& effective_model(service, model) == Some(client.settings.model)
            &&& client.settings.system_prompt == effective_prompt(service, config, prompt)
        },
{
}

/// A service whose class is none of the four class names makes the
/// resolution fail because the class is unknown, whatever its other fields
/// hold and whatever is asked for.
pub proof fn lemma_unknown_class_of_service(
    name: Option<Seq<char>>,
    config: ConfigModel,
    model: Option<Seq<char>>,
    prompt: Option<Seq<char>>,
)
    requires
        config.services.contains_key(effective_service(name, config)),
        Provider::of_class(config.services[effective_service(name, config)].class@).is_none(),
    ensures
        resolution(name, config, model, prompt) == Err::<ClientModel, ErrorModel>(
            ErrorModel::UnknownProviderClass {
                given: config.services[effective_service(name, config)].class@,
                valid: class_names(),
            },
        ),
{
}

/// The text that `candidate` stands for: the text under it where it is a
/// name in `prompts`, else `candidate` itself.
pub fn resolve_reference<'a>(prompts: &'a Table<String>, candidate: &'a str) -> (r: &'a str)
    ensures
        r@ == key_or_literal(prompts@, candidate@),
{
    match prompts.get(candidate) {
        Some(text) => text.as_str(),
        None => candidate,
    }
}

impl View for Client {
    type V = ClientModel;

    closed spec fn view(&self) -> ClientModel {
        ClientModel { service_name: self.service_name@, settings: self.driver.settings() }
    }
}

impl Client {
    /// The provider class of the client's driver.
    pub closed spec fn provider(&self) -> Provider {
        self.driver.provider()
    }

    /// Resolves the service, the model and the system prompt of an
    /// invocation, and makes the driver of the service's class.
    pub fn new(
        service_name: Option<&str>,
        config: &Config,
        model_override: Option<&String>,
        sys_prompt_override: Option<&str>,
    ) -> (r: Result<Client, LlmError>)
        ensures
            match r {
                Ok(client) => {
                    &&& resolution(
                        chars(service_name),
                        config@,
                        string_chars(model_override),
                        chars(sys_prompt_override),
                    ) == Ok::<ClientModel, ErrorModel>(client@)
                    &&& client.provider() == client@.settings.provider
                },
                Err(e) => resolution(
                    chars(service_name),
                    config@,
                    string_chars(model_override),
                    chars(sys_prompt_override),
                ) == Err::<ClientModel, ErrorModel>(e@),
            },
    {
        let name = match service_name {
            Some(name) => name,
            None => config.default_service.as_str(),
        };
        let service = match config.services.get(name) {
            Some(service) => service,
            None => {
                return Err(LlmError::ServiceNotFound { name: name.to_owned() });
            },
        };
        let model = match model_override {
            Some(model) => Some(model.as_str()),
            None => match &service.model {
                Some(model) => Some(model.as_str()),
                None => None,
            },
        };
        let reference = match sys_prompt_override {
            Some(reference) => reference,
            None => match &service.system_prompt {
                Some(reference) => reference.as_str(),
                None => config.default_prompt.as_str(),
            },
        };
        let system_prompt = resolve_reference(&config.system_prompts, reference);
        let provider = match Provider::from_class(service.class.as_str()) {
            Some(provider) => provider,
            None => {
                return Err(
                    LlmError::UnknownProviderClass {
                        given: service.class.clone(),
                        valid: Provider::valid_classes(),
                    },
                );
            },
        };
        let model = match model {
            Some(model) => model,
            None => {
                return Err(LlmError::MissingModel { provider });
            },
        };
        match Driver::build(provider, service, model, system_prompt) {
            Ok(driver) => Ok(Client { service_name: name.to_owned(), driver }),
            Err(e) => Err(e),
        }
    }

    /// The request that asks the provider to complete `prompt`.
    pub fn completion_request(&self, prompt: &str) -> (r: HttpRequest)
        ensures
            r@ == completion_request_model(self.provider(), self@.settings, prompt@),
    {
        self.driver.completion_request(prompt)
    }

    /// The completion that `reply` amounts to, where `reply` is what came of
    /// sending a completion request.
    pub fn complete(&self, reply: &HttpReply) -> (r: Result<Completion, LlmError>)
        ensures
            completed(r) == completion(self.provider(), reply@),
    {
        self.driver.complete(reply)
    }

    /// The name of the service that was chosen.
    pub fn service_name(&self) -> (r: &str)
        ensures
            r@ == self@.service_name,
    {
        self.service_name.as_str()
    }

    /// The model that the client asks for.
    pub fn model(&self) -> (r: &str)
        ensures
            r@ == self@.settings.model,
    {
        self.driver.model()
    }

    /// The system prompt that the client sends.
    pub fn system_prompt(&self) -> (r: &str)
        ensures
            r@ == self@.settings.system_prompt,
    {
        self.driver.system_prompt()
    }

    /// The request that asks the provider for its models.
    pub fn models_request(&self) -> (r: HttpRequest)
        ensures
            r@ == models_request_model(self.provider(), self@.settings),
    {
        self.driver.models_request()
    }

    /// The model names that `reply` amounts to, where `reply` is what came
    /// of sending a models request.
    pub fn list_models(&self, reply: &HttpReply) -> (r: Result<Vec<String>, LlmError>)
        ensures
            listed(r) == models(self.provider(), reply@),
    {
        self.driver.list_models(reply)
    }
}

} // verus!
