//! The drivers: one per provider class, each turning a prompt into the
//! request that its provider expects and the provider's reply into an answer.

use crate::config::Service;
use crate::error::{ErrorModel, LlmError};
use crate::http::{HttpReply, HttpRequest, ReplyModel, RequestModel};
use crate::json::{Json, JsonTree};
use crate::provider::Provider;
use crate::text::{find_from, occurs_at, trimmed};
use vstd::prelude::*;

pub mod anthropic;
pub mod gemini;
pub mod ollama;
pub mod openai;

verus! {

/// What a driver holds: the values that were resolved when it was made.
pub ghost struct DriverModel {
    pub provider: Provider,
    /// The address under which the provider's endpoints stand.
    pub base_url: Seq<char>,
    pub api_key: Option<Seq<char>>,
    pub model: Seq<char>,
    pub system_prompt: Seq<char>,
}

/// An answer and, where the provider gave one, the reasoning that led to it.
pub type Completion = (String, Option<String>);

/// The mathematical model of a [`Completion`].
pub type CompletionModel = (Seq<char>, Option<Seq<char>>);

/// The model of the outcome of a completion.
pub open spec fn completed(r: Result<Completion, LlmError>) -> Result<CompletionModel, ErrorModel> {
    match r {
        Ok(c) => Ok(
            (
                c.0@,
                match c.1 {
                    Some(t) => Some(t@),
                    None => None,
                },
            ),
        ),
        Err(e) => Err(e@),
    }
}

/// The model of the outcome of a listing of models.
pub open spec fn listed(r: Result<Vec<String>, LlmError>) -> Result<Seq<Seq<char>>, ErrorModel> {
    match r {
        Ok(names) => Ok(names.deep_view()),
        Err(e) => Err(e@),
    }
}

/// The address of a service: the one it declares, else `default`.
pub open spec fn address(service: Service, default: Seq<char>) -> Seq<char> {
    match service.url {
        Some(url) => url@,
        None => default,
    }
}

/// A raw answer taken apart. Where the text holds `<think>` and, after it,
/// `</think>`, the reasoning is what stands between the first such pair,
/// trimmed, and the answer is what follows the closing tag, trimmed.
/// Elsewhere the whole text is the answer and there is no reasoning.
pub open spec fn reasoning_split(raw: Seq<char>) -> CompletionModel {
    match find_from(raw, "<think>"@, 0) {
        Some(open) => match find_from(raw, "</think>"@, open + "<think>"@.len()) {
            Some(close) => (
                trimmed(raw.subrange(close + "</think>"@.len(), raw.len() as int)),
                Some(trimmed(raw.subrange(open + "<think>"@.len(), close))),
            ),
            None => (raw, None),
        },
        None => (raw, None),
    }
}

/// A text that lacks one of the two tags is not taken apart: the whole text
/// is the answer.
pub proof fn lemma_split_needs_both_tags(raw: Seq<char>)
    requires
        (forall|k: int| !occurs_at(raw, "<think>"@, k)) || (forall|k: int|
            !occurs_at(raw, "</think>"@, k)),
    ensures
        reasoning_split(raw) == (raw, None::<Seq<char>>),
{
    crate::text::lemma_find_from(raw, "<think>"@, 0);
    if let Some(open) = find_from(raw, "<think>"@, 0) {
        crate::text::lemma_find_from(raw, "</think>"@, open + "<think>"@.len());
    }
}

/// A text with the opening tag first at `open` and the closing tag first
/// after it at `close` is taken apart there: the reasoning is what stands
/// between the tags, the answer what follows the closing tag, both trimmed.
pub proof fn lemma_split_at_tags(raw: Seq<char>, open: int, close: int)
    requires
        occurs_at(raw, "<think>"@, open),
        forall|k: int| 0 <= k < open ==> !occurs_at(raw, "<think>"@, k),
        open + "<think>"@.len() <= close,
        occurs_at(raw, "</think>"@, close),
        forall|k: int| open + "<think>"@.len() <= k < close ==> !occurs_at(raw, "</think>"@, k),
    ensures
        reasoning_split(raw) == (
            trimmed(raw.subrange(close + "</think>"@.len(), raw.len() as int)),
            Some(trimmed(raw.subrange(open + "<think>"@.len(), close))),
        ),
{
    crate::text::lemma_find_from(raw, "<think>"@, 0);
    crate::text::lemma_find_from(raw, "</think>"@, open + "<think>"@.len());
}

/// The header that carries `key` as a bearer token.
pub open spec fn bearer_header(key: Seq<char>) -> (Seq<char>, Seq<char>) {
    ("Authorization"@, "Bearer "@ + key)
}

/// The header that declares a JSON body.
pub open spec fn json_header() -> (Seq<char>, Seq<char>) {
    ("Content-Type"@, "application/json"@)
}

/// One message of a chat: who speaks, and what.
pub open spec fn message_tree(role: Seq<char>, content: Seq<char>) -> JsonTree {
    JsonTree::Object(seq![("role"@, JsonTree::Text(role)), ("content"@, JsonTree::Text(content))])
}

/// The names that a listing holds: for each element of `items`, in order, the
/// string under `key`, if the element has one.
pub open spec fn names_in(items: Seq<JsonTree>, key: Seq<char>) -> Seq<Seq<char>>
    decreases items.len(),
{
    if items.len() == 0 {
        Seq::empty()
    } else {
        let before = names_in(items.drop_last(), key);
        match crate::json::then_text(items.last().field(key)) {
            Some(name) => before.push(name),
            None => before,
        }
    }
}

/// The capability of speaking to one provider.
///
/// A driver sends nothing itself. It says what to send, and is told what
/// came back.
pub trait LLMService: Sized {
    /// The provider class of this kind of driver.
    spec fn provider() -> Provider;

    /// What this driver holds.
    spec fn settings(&self) -> DriverModel;

    /// The driver that these values make, or why they make none.
    spec fn construction(service: Service, model: Seq<char>, system_prompt: Seq<char>) -> Result<
        DriverModel,
        ErrorModel,
    >;

    /// The request that asks the provider to complete `prompt`.
    spec fn completion_request_model(settings: DriverModel, prompt: Seq<char>) -> RequestModel;

    /// The completion that `reply` amounts to.
    spec fn completion(reply: ReplyModel) -> Result<CompletionModel, ErrorModel>;

    /// The request that asks the provider for its models.
    spec fn models_request_model(settings: DriverModel) -> RequestModel;

    /// The model names that `reply` amounts to.
    spec fn models(reply: ReplyModel) -> Result<Seq<Seq<char>>, ErrorModel>;

    /// Makes the driver for `service` with the resolved `model` and
    /// `system_prompt`.
    fn new(service: &Service, model: &str, system_prompt: &str) -> (r: Result<Self, LlmError>)
        ensures
            match r {
                Ok(d) => Self::construction(*service, model@, system_prompt@) == Ok::<
                    DriverModel,
                    ErrorModel,
                >(d.settings()),
                Err(e) => Self::construction(*service, model@, system_prompt@) == Err::<
                    DriverModel,
                    ErrorModel,
                >(e@),
            },
    ;

    /// The request that asks the provider to complete `prompt`.
    fn completion_request(&self, prompt: &str) -> (r: HttpRequest)
        ensures
            r@ == Self::completion_request_model(self.settings(), prompt@),
    ;

    /// The completion that `reply` amounts to, where `reply` is what came of
    /// sending a completion request.
    fn complete(&self, reply: &HttpReply) -> (r: Result<Completion, LlmError>)
        ensures
            completed(r) == Self::completion(reply@),
    ;

    /// The model that the driver asks for.
    fn model(&self) -> (r: &str)
        ensures
            r@ == self.settings().model,
    ;

    /// The system prompt that the driver sends.
    fn system_prompt(&self) -> (r: &str)
        ensures
            r@ == self.settings().system_prompt,
    ;

    /// The request that asks the provider for its models.
    fn models_request(&self) -> (r: HttpRequest)
        ensures
            r@ == Self::models_request_model(self.settings()),
    ;

    /// The model names that `reply` amounts to, where `reply` is what came
    /// of sending a models request.
    fn list_models(&self, reply: &HttpReply) -> (r: Result<Vec<String>, LlmError>)
        ensures
            listed(r) == Self::models(reply@),
    ;
}

/// Takes a raw answer apart into the answer and the reasoning.
pub fn split_reasoning(raw: &str) -> (r: Completion)
    ensures
        completed(Ok(r)) == Ok::<CompletionModel, ErrorModel>(reasoning_split(raw@)),
{
    let chars = crate::text::chars_of(raw);
    let open_tag = crate::text::chars_of("<think>");
    let close_tag = crate::text::chars_of("</think>");
    match crate::text::find_in(&chars, &open_tag, 0) {
        Some(open) => {
            proof {
                reveal_strlit("<think>");
                crate::text::lemma_find_from(raw@, "<think>"@, 0);
                assert(open + 7 <= chars.len());
            }
            match crate::text::find_in(&chars, &close_tag, open + 7) {
                Some(close) => {
                    proof {
                        reveal_strlit("</think>");
                        crate::text::lemma_find_from(raw@, "</think>"@, open + 7);
                    }
                    let reasoning = crate::text::trim(raw.substring_char(open + 7, close));
                    let answer = crate::text::trim(raw.substring_char(close + 8, chars.len()));
                    (answer.to_owned(), Some(reasoning.to_owned()))
                },
                None => (raw.to_owned(), None),
            }
        },
        None => (raw.to_owned(), None),
    }
}

/// A header.
pub fn header(name: &str, value: &str) -> (r: (String, String))
    ensures
        r.0@ == name@,
        r.1@ == value@,
{
    (name.to_owned(), value.to_owned())
}

/// The header that carries `key` as a bearer token.
pub fn bearer(key: &str) -> (r: (String, String))
    ensures
        (r.0@, r.1@) == bearer_header(key@),
{
    ("Authorization".to_owned(), "Bearer ".to_owned().concat(key))
}

/// An entry of an object whose value is a string.
pub fn text_entry(key: &str, value: &str) -> (r: (String, Json))
    ensures
        r.0@ == key@,
        r.1@ == JsonTree::Text(value@),
{
    (key.to_owned(), Json::text(value))
}

/// One message of a chat.
pub fn message(role: &str, content: &str) -> (r: Json)
    ensures
        r@ == message_tree(role@, content@),
{
    let mut entries: Vec<(String, Json)> = Vec::new();
    entries.push(text_entry("role", role));
    entries.push(text_entry("content", content));
    assert(crate::json::entry_trees(entries@) =~= seq![
        ("role"@, JsonTree::Text(role@)),
        ("content"@, JsonTree::Text(content@)),
    ]);
    Json::object(entries)
}

/// The names that a listing holds: for each element of `items`, in order,
/// the string under `key`, if the element has one.
pub fn collect_names(items: &Vec<Json>, key: &str) -> (r: Vec<String>)
    ensures
        r.deep_view() == names_in(crate::json::trees(items@), key@),
{
    let ghost all = crate::json::trees(items@);
    let mut names: Vec<String> = Vec::new();
    let mut i: usize = 0;
    while i < items.len()
        invariant
            i <= items.len(),
            all == crate::json::trees(items@),
            names.deep_view() == names_in(all.take(i as int), key@),
        decreases items.len() - i,
    {
        assert(all.take(i + 1).drop_last() =~= all.take(i as int));
        match crate::json::text_in(items[i].field(key)) {
            Some(name) => {
                names.push(name.to_owned());
            },
            None => {},
        }
        i += 1;
    }
    assert(all.take(i as int) =~= all);
    names
}

/// A driver of one of the four provider classes.
#[derive(Debug)]
pub enum Driver {
    OpenAI(openai::OpenAIDriver),
    Ollama(ollama::OllamaDriver),
    Gemini(gemini::GeminiDriver),
    Anthropic(anthropic::AnthropicDriver),
}

/// The driver of class `provider` that these values make, or why they make
/// none.
pub open spec fn construction(
    provider: Provider,
    service: Service,
    model: Seq<char>,
    system_prompt: Seq<char>,
) -> Result<DriverModel, ErrorModel> {
    match provider {
        Provider::OpenAI => openai::OpenAIDriver::construction(service, model, system_prompt),
        Provider::Ollama => ollama::OllamaDriver::construction(service, model, system_prompt),
        Provider::Gemini => gemini::GeminiDriver::construction(service, model, system_prompt),
        Provider::Anthropic => anthropic::AnthropicDriver::construction(
            service,
            model,
            system_prompt,
        ),
    }
}

/// The driver that the class name `class` and these values make, or why
/// they make none. A name that is none of the four class names, letter for
/// letter, makes none, whatever the other values are.
pub open spec fn creation(
    class: Seq<char>,
    service: Service,
    model: Seq<char>,
    system_prompt: Seq<char>,
) -> Result<DriverModel, ErrorModel> {
    match Provider::of_class(class) {
        Some(provider) => construction(provider, service, model, system_prompt),
        None => Err(
            ErrorModel::UnknownProviderClass { given: class, valid: crate::provider::class_names() },
        ),
    }
}

/// The request by which a driver of class `provider` asks for the completion
/// of `prompt`.
pub open spec fn completion_request_model(
    provider: Provider,
    settings: DriverModel,
    prompt: Seq<char>,
) -> RequestModel {
    match provider {
        Provider::OpenAI => openai::OpenAIDriver::completion_request_model(settings, prompt),
        Provider::Ollama => ollama::OllamaDriver::completion_request_model(settings, prompt),
        Provider::Gemini => gemini::GeminiDriver::completion_request_model(settings, prompt),
        Provider::Anthropic => anthropic::AnthropicDriver::completion_request_model(
            settings,
            prompt,
        ),
    }
}

/// The completion that `reply` amounts to for a driver of class `provider`.
pub open spec fn completion(provider: Provider, reply: ReplyModel) -> Result<
    CompletionModel,
    ErrorModel,
> {
    match provider {
        Provider::OpenAI => openai::OpenAIDriver::completion(reply),
        Provider::Ollama => ollama::OllamaDriver::completion(reply),
        Provider::Gemini => gemini::GeminiDriver::completion(reply),
        Provider::Anthropic => anthropic::AnthropicDriver::completion(reply),
    }
}

/// The request by which a driver of class `provider` asks for the models.
pub open spec fn models_request_model(provider: Provider, settings: DriverModel) -> RequestModel {
    match provider {
        Provider::OpenAI => openai::OpenAIDriver::models_request_model(settings),
        Provider::Ollama => ollama::OllamaDriver::models_request_model(settings),
        Provider::Gemini => gemini::GeminiDriver::models_request_model(settings),
        Provider::Anthropic => anthropic::AnthropicDriver::models_request_model(settings),
    }
}

/// The model names that `reply` amounts to for a driver of class `provider`.
pub open spec fn models(provider: Provider, reply: ReplyModel) -> Result<
    Seq<Seq<char>>,
    ErrorModel,
> {
    match provider {
        Provider::OpenAI => openai::OpenAIDriver::models(reply),
        Provider::Ollama => ollama::OllamaDriver::models(reply),
        Provider::Gemini => gemini::GeminiDriver::models(reply),
        Provider::Anthropic => anthropic::AnthropicDriver::models(reply),
    }
}

/// The model of the outcome of making a driver.
pub open spec fn made(r: Result<Driver, LlmError>) -> Result<DriverModel, ErrorModel> {
    match r {
        Ok(d) => Ok(d.settings()),
        Err(e) => Err(e@),
    }
}

/// A class name that is none of the four makes no driver: the creation fails
/// because the class is unknown, whatever the other values are.
pub proof fn lemma_unknown_class(
    class: Seq<char>,
    service: Service,
    model: Seq<char>,
    system_prompt: Seq<char>,
)
    requires
        class != "openai"@,
        class != "ollama"@,
        class != "gemini"@,
        class != "anthropic"@,
    ensures
        creation(class, service, model, system_prompt) == Err::<DriverModel, ErrorModel>(
            ErrorModel::UnknownProviderClass { given: class, valid: crate::provider::class_names() },
        ),
{
}

/// A service without an API key makes no OpenAI, Gemini or Anthropic driver:
/// the credential is missing. It makes an Ollama driver, provided that the
/// system prompt is not empty.
pub proof fn lemma_missing_credential(service: Service, model: Seq<char>, system_prompt: Seq<char>)
    requires
        service.api_key.is_none(),
    ensures
        creation("openai"@, service, model, system_prompt) == Err::<DriverModel, ErrorModel>(
            ErrorModel::MissingCredential { provider: Provider::OpenAI },
        ),
        creation("gemini"@, service, model, system_prompt) == Err::<DriverModel, ErrorModel>(
            ErrorModel::MissingCredential { provider: Provider::Gemini },
        ),
        creation("anthropic"@, service, model, system_prompt) == Err::<DriverModel, ErrorModel>(
            ErrorModel::MissingCredential { provider: Provider::Anthropic },
        ),
        system_prompt.len() > 0 ==> (creation("ollama"@, service, model, system_prompt) matches Ok(
            settings,
        ) && settings.provider == Provider::Ollama && settings.api_key.is_none()),
{
    crate::provider::lemma_class_round_trip(Provider::OpenAI, "openai"@);
    crate::provider::lemma_class_round_trip(Provider::Ollama, "ollama"@);
    crate::provider::lemma_class_round_trip(Provider::Gemini, "gemini"@);
    crate::provider::lemma_class_round_trip(Provider::Anthropic, "anthropic"@);
}

impl Driver {
    /// The provider class of the driver.
    pub open spec fn provider(&self) -> Provider {
        match self {
            Driver::OpenAI(_) => Provider::OpenAI,
            Driver::Ollama(_) => Provider::Ollama,
            Driver::Gemini(_) => Provider::Gemini,
            Driver::Anthropic(_) => Provider::Anthropic,
        }
    }

    /// What the driver holds.
    pub open spec fn settings(&self) -> DriverModel {
        match self {
            Driver::OpenAI(d) => d.settings(),
            Driver::Ollama(d) => d.settings(),
            Driver::Gemini(d) => d.settings(),
            Driver::Anthropic(d) => d.settings(),
        }
    }

    /// Makes the driver of class `provider` for `service` with the resolved
    /// `model` and `system_prompt`.
    pub fn build(provider: Provider, service: &Service, model: &str, system_prompt: &str) -> (r:
        Result<Driver, LlmError>)
        ensures
            made(r) == construction(provider, *service, model@, system_prompt@),
            r matches Ok(d) ==> d.provider() == provider,
    {
        match provider {
            Provider::OpenAI => match openai::OpenAIDriver::new(service, model, system_prompt) {
                Ok(d) => Ok(Driver::OpenAI(d)),
                Err(e) => Err(e),
            },
            Provider::Ollama => match ollama::OllamaDriver::new(service, model, system_prompt) {
                Ok(d) => Ok(Driver::Ollama(d)),
                Err(e) => Err(e),
            },
            Provider::Gemini => match gemini::GeminiDriver::new(service, model, system_prompt) {
                Ok(d) => Ok(Driver::Gemini(d)),
                Err(e) => Err(e),
            },
            Provider::Anthropic => match anthropic::AnthropicDriver::new(
                service,
                model,
                system_prompt,
            ) {
                Ok(d) => Ok(Driver::Anthropic(d)),
                Err(e) => Err(e),
            },
        }
    }

    /// Makes the driver that the class name `class_name` asks for, for
    /// `service` with the resolved `model` and `system_prompt`.
    pub fn create(class_name: &str, service: &Service, model: &str, system_prompt: &str) -> (r:
        Result<Driver, LlmError>)
        ensures
            made(r) == creation(class_name@, *service, model@, system_prompt@),
            r matches Ok(d) ==> Provider::of_class(class_name@) == Some(d.provider()),
    {
        match Provider::from_class(class_name) {
            Some(provider) => Driver::build(provider, service, model, system_prompt),
            None => Err(
                LlmError::UnknownProviderClass {
                    given: class_name.to_owned(),
                    valid: Provider::valid_classes(),
                },
            ),
        }
    }

    /// The request that asks the provider to complete `prompt`.
    pub fn completion_request(&self, prompt: &str) -> (r: HttpRequest)
        ensures
            r@ == completion_request_model(self.provider(), self.settings(), prompt@),
    {
        match self {
            Driver::OpenAI(d) => d.completion_request(prompt),
            Driver::Ollama(d) => d.completion_request(prompt),
            Driver::Gemini(d) => d.completion_request(prompt),
            Driver::Anthropic(d) => d.completion_request(prompt),
        }
    }

    /// The completion that `reply` amounts to.
    pub fn complete(&self, reply: &HttpReply) -> (r: Result<Completion, LlmError>)
        ensures
            completed(r) == completion(self.provider(), reply@),
    {
        match self {
            Driver::OpenAI(d) => d.complete(reply),
            Driver::Ollama(d) => d.complete(reply),
            Driver::Gemini(d) => d.complete(reply),
            Driver::Anthropic(d) => d.complete(reply),
        }
    }

    /// The model that the driver asks for.
    pub fn model(&self) -> (r: &str)
        ensures
            r@ == self.settings().model,
    {
        match self {
            Driver::OpenAI(d) => d.model(),
            Driver::Ollama(d) => d.model(),
            Driver::Gemini(d) => d.model(),
            Driver::Anthropic(d) => d.model(),
        }
    }

    /// The system prompt that the driver sends.
    pub fn system_prompt(&self) -> (r: &str)
        ensures
            r@ == self.settings().system_prompt,
    {
        match self {
            Driver::OpenAI(d) => d.system_prompt(),
            Driver::Ollama(d) => d.system_prompt(),
            Driver::Gemini(d) => d.system_prompt(),
            Driver::Anthropic(d) => d.system_prompt(),
        }
    }

    /// The request that asks the provider for its models.
    pub fn models_request(&self) -> (r: HttpRequest)
        ensures
            r@ == models_request_model(self.provider(), self.settings()),
    {
        match self {
            Driver::OpenAI(d) => d.models_request(),
            Driver::Ollama(d) => d.models_request(),
            Driver::Gemini(d) => d.models_request(),
            Driver::Anthropic(d) => d.models_request(),
        }
    }

    /// The model names that `reply` amounts to.
    pub fn list_models(&self, reply: &HttpReply) -> (r: Result<Vec<String>, LlmError>)
        ensures
            listed(r) == models(self.provider(), reply@),
    {
        match self {
            Driver::OpenAI(d) => d.list_models(reply),
            Driver::Ollama(d) => d.list_models(reply),
            Driver::Gemini(d) => d.list_models(reply),
            Driver::Anthropic(d) => d.list_models(reply),
        }
    }
}

} // verus!
