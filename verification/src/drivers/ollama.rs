//! The driver for a self-hosted Ollama server.

use crate::config::{text_of, Service};
use crate::drivers::{
    address, bearer, bearer_header, collect_names, completed, listed, message, message_tree,
    names_in, text_entry, Completion, CompletionModel, DriverModel, LLMService,
};
use crate::error::{ErrorModel, LlmError};
use crate::http::{header_models, HttpReply, HttpRequest, Method, ReplyModel, RequestModel};
use crate::json::{
    entry_trees, field_of, parsed, text_in, then_field, then_text, trees, Json, JsonTree,
};
use crate::provider::Provider;
use crate::text::{strip_trailing, without_trailing};
use vstd::prelude::*;

verus! {

/// A driver for an Ollama server.
#[derive(Debug)]
pub struct OllamaDriver {
    url: String,
    model: String,
    system_prompt: String,
    api_key: Option<String>,
}

/// The body that asks for a completion, in one piece.
pub open spec fn chat_body(model: Seq<char>, system_prompt: Seq<char>, prompt: Seq<char>) -> JsonTree {
    JsonTree::Object(
        seq![
            ("model"@, JsonTree::Text(model)),
            (
                "messages"@,
                JsonTree::Array(
                    seq![message_tree("system"@, system_prompt), message_tree("user"@, prompt)],
                ),
            ),
            ("stream"@, JsonTree::Bool(false)),
        ],
    )
}

/// The headers of a request: the key as a bearer token, where there is one.
pub open spec fn key_headers(api_key: Option<Seq<char>>) -> Seq<(Seq<char>, Seq<char>)> {
    match api_key {
        Some(key) => seq![bearer_header(key)],
        None => Seq::empty(),
    }
}

/// The text of the message of a completion, if the document has one.
pub open spec fn content(tree: JsonTree) -> Option<Seq<char>> {
    then_text(then_field(tree.field("message"@), "content"@))
}

/// The reasoning of a completion: the string under `thinking` at the top of
/// the document or, where the top has no such key, in its message.
pub open spec fn thinking(tree: JsonTree) -> Option<Seq<char>> {
    match tree.field("thinking"@) {
        Some(found) => found.as_text(),
        None => then_text(then_field(tree.field("message"@), "thinking"@)),
    }
}

/// The completion that the document `tree` holds.
pub open spec fn answer(tree: JsonTree) -> Result<CompletionModel, ErrorModel> {
    match content(tree) {
        Some(raw) => Ok((raw, thinking(tree))),
        None => Err(ErrorModel::MalformedResponse { provider: Provider::Ollama }),
    }
}

/// The model names that the document `tree` holds.
pub open spec fn listing(tree: JsonTree) -> Result<Seq<Seq<char>>, ErrorModel> {
    match tree.field("models"@) {
        Some(JsonTree::Array(items)) => Ok(names_in(items, "name"@)),
        _ => Err(ErrorModel::MalformedResponse { provider: Provider::Ollama }),
    }
}

/// The error that a status outside the successful ones amounts to when a
/// completion was asked for.
pub open spec fn refusal(code: u16, body: Seq<char>) -> ErrorModel {
    if code == 401 {
        ErrorModel::Unauthorized { provider: Provider::Ollama }
    } else if code == 404 {
        ErrorModel::NotFound { provider: Provider::Ollama }
    } else {
        ErrorModel::ProviderApi { provider: Provider::Ollama, status: code, body }
    }
}

impl OllamaDriver {
    /// The completion that the document `json` holds.
    pub fn answer_from(json: &Json) -> (r: Result<Completion, LlmError>)
        ensures
            completed(r) == answer(json@),
    {
        let raw = match text_in(field_of(json.field("message"), "content")) {
            Some(raw) => raw,
            None => {
                return Err(LlmError::MalformedResponse { provider: Provider::Ollama });
            },
        };
        let found = match json.field("thinking") {
            Some(found) => found.as_str(),
            None => text_in(field_of(json.field("message"), "thinking")),
        };
        let reasoning = match found {
            Some(t) => Some(t.to_owned()),
            None => None,
        };
        Ok((raw.to_owned(), reasoning))
    }

    /// The model names that the document `json` holds.
    pub fn models_from(json: &Json) -> (r: Result<Vec<String>, LlmError>)
        ensures
            listed(r) == listing(json@),
    {
        match json.field("models") {
            Some(models) => match models.as_array() {
                Some(items) => Ok(collect_names(items, "name")),
                None => Err(LlmError::MalformedResponse { provider: Provider::Ollama }),
            },
            None => Err(LlmError::MalformedResponse { provider: Provider::Ollama }),
        }
    }

    fn headers(&self) -> (r: Vec<(String, String)>)
        ensures
            header_models(r@) == key_headers(text_of(self.api_key)),
    {
        let mut headers: Vec<(String, String)> = Vec::new();
        match &self.api_key {
            Some(key) => {
                headers.push(bearer(key.as_str()));
            },
            None => {
            },
        }
        headers
    }
}

impl LLMService for OllamaDriver {
    open spec fn provider() -> Provider {
        Provider::Ollama
    }

    closed spec fn settings(&self) -> DriverModel {
        DriverModel {
            provider: Provider::Ollama,
            base_url: self.url@,
            api_key: text_of(self.api_key),
            model: self.model@,
            system_prompt: self.system_prompt@,
        }
    }

    open spec fn construction(
        service: Service,
        model: Seq<char>,
        system_prompt: Seq<char>,
    ) -> Result<DriverModel, ErrorModel> {
        if system_prompt.len() == 0 {
            Err(ErrorModel::MissingSystemPrompt { provider: Provider::Ollama })
        } else {
            Ok(
                DriverModel {
                    provider: Provider::Ollama,
                    base_url: address(service, "http://localhost:11434"@),
                    api_key: text_of(service.api_key),
                    model,
                    system_prompt,
                },
            )
        }
    }

    open spec fn completion_request_model(settings: DriverModel, prompt: Seq<char>) -> RequestModel {
        RequestModel {
            method: Method::Post,
            url: without_trailing(settings.base_url, '/') + "/api/chat"@,
            headers: key_headers(settings.api_key),
            body: Some(chat_body(settings.model, settings.system_prompt, prompt)),
        }
    }

    open spec fn completion(reply: ReplyModel) -> Result<CompletionModel, ErrorModel> {
        match reply {
            ReplyModel::Success { body } => match parsed(body) {
                Some(tree) => answer(tree),
                None => Err(ErrorModel::MalformedResponse { provider: Provider::Ollama }),
            },
            ReplyModel::Status { code, body } => Err(refusal(code, body)),
            ReplyModel::Failed { message } => Err(ErrorModel::Transport { message }),
        }
    }

    open spec fn models_request_model(settings: DriverModel) -> RequestModel {
        RequestModel {
            method: Method::Get,
            url: without_trailing(settings.base_url, '/') + "/api/tags"@,
            headers: key_headers(settings.api_key),
            body: None,
        }
    }

    open spec fn models(reply: ReplyModel) -> Result<Seq<Seq<char>>, ErrorModel> {
        match reply {
            ReplyModel::Success { body } => match parsed(body) {
                Some(tree) => listing(tree),
                None => Err(ErrorModel::MalformedResponse { provider: Provider::Ollama }),
            },
            ReplyModel::Status { code, body } => Err(
                ErrorModel::ProviderApi { provider: Provider::Ollama, status: code, body },
            ),
            ReplyModel::Failed { message } => Err(ErrorModel::Transport { message }),
        }
    }

    fn new(service: &Service, model: &str, system_prompt: &str) -> (r: Result<Self, LlmError>) {
        if system_prompt.is_empty() {
            return Err(LlmError::MissingSystemPrompt { provider: Provider::Ollama });
        }
        let url = match &service.url {
            Some(url) => url.clone(),
            None => "http://localhost:11434".to_owned(),
        };
        let api_key = match &service.api_key {
            Some(key) => Some(key.clone()),
            None => None,
        };
        Ok(
            OllamaDriver {
                url,
                model: model.to_owned(),
                system_prompt: system_prompt.to_owned(),
                api_key,
            },
        )
    }

    fn completion_request(&self, prompt: &str) -> (r: HttpRequest) {
        let mut messages: Vec<Json> = Vec::new();
        messages.push(message("system", self.system_prompt.as_str()));
        messages.push(message("user", prompt));
        assert(trees(messages@) =~= seq![
            message_tree("system"@, self.system_prompt@),
            message_tree("user"@, prompt@),
        ]);
        let mut entries: Vec<(String, Json)> = Vec::new();
        entries.push(text_entry("model", self.model.as_str()));
        entries.push(("messages".to_owned(), Json::array(messages)));
        entries.push(("stream".to_owned(), Json::Bool(false)));
        assert(entry_trees(entries@) =~= seq![
            ("model"@, JsonTree::Text(self.model@)),
            (
                "messages"@,
                JsonTree::Array(
                    seq![
                        message_tree("system"@, self.system_prompt@),
                        message_tree("user"@, prompt@),
                    ],
                ),
            ),
            ("stream"@, JsonTree::Bool(false)),
        ]);
        let url = strip_trailing(self.url.as_str(), '/').to_owned().concat("/api/chat");
        HttpRequest {
            method: Method::Post,
            url,
            headers: self.headers(),
            body: Some(Json::object(entries)),
        }
    }

    fn complete(&self, reply: &HttpReply) -> (r: Result<Completion, LlmError>) {
        match reply {
            HttpReply::Success { body } => match Json::parse(body.as_str()) {
                Some(json) => OllamaDriver::answer_from(&json),
                None => Err(LlmError::MalformedResponse { provider: Provider::Ollama }),
            },
            HttpReply::Status { code, body } => {
                if *code == 401 {
                    Err(LlmError::Unauthorized { provider: Provider::Ollama })
                } else if *code == 404 {
                    Err(LlmError::NotFound { provider: Provider::Ollama })
                } else {
                    Err(
                        LlmError::ProviderApi {
                            provider: Provider::Ollama,
                            status: *code,
                            body: body.clone(),
                        },
                    )
                }
            },
            HttpReply::Failed { message } => Err(LlmError::Transport { message: message.clone() }),
        }
    }

    fn model(&self) -> (r: &str) {
        self.model.as_str()
    }

    fn system_prompt(&self) -> (r: &str) {
        self.system_prompt.as_str()
    }

    fn models_request(&self) -> (r: HttpRequest) {
        let url = strip_trailing(self.url.as_str(), '/').to_owned().concat("/api/tags");
        HttpRequest { method: Method::Get, url, headers: self.headers(), body: None }
    }

    fn list_models(&self, reply: &HttpReply) -> (r: Result<Vec<String>, LlmError>) {
        match reply {
            HttpReply::Success { body } => match Json::parse(body.as_str()) {
                Some(json) => OllamaDriver::models_from(&json),
                None => Err(LlmError::MalformedResponse { provider: Provider::Ollama }),
            },
            HttpReply::Status { code, body } => Err(
                LlmError::ProviderApi {
                    provider: Provider::Ollama,
                    status: *code,
                    body: body.clone(),
                },
            ),
            HttpReply::Failed { message } => Err(LlmError::Transport { message: message.clone() }),
        }
    }
}

} // verus!
