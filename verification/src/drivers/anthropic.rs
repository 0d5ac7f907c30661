//! The driver for Anthropic's messages API.

use crate::config::Service;
use crate::drivers::{
    collect_names, completed, header, json_header, listed, message, message_tree, names_in,
    reasoning_split, split_reasoning, text_entry, Completion, CompletionModel, DriverModel,
    LLMService,
};
use crate::error::{ErrorModel, LlmError};
use crate::http::{header_models, HttpReply, HttpRequest, Method, ReplyModel, RequestModel};
use crate::json::{
    entry_trees, field_of, item_of, parsed, text_in, then_field, then_item, then_text, trees, Json,
    JsonTree,
};
use crate::provider::Provider;
use vstd::prelude::*;

verus! {

/// A driver for Anthropic's messages API.
#[derive(Debug)]
pub struct AnthropicDriver {
    api_key: String,
    model: String,
    system_prompt: String,
}

/// The address under which the API stands.
pub open spec fn base() -> Seq<char> {
    "https://api.anthropic.com"@
}

/// The headers of every request: the key, and the version of the API.
pub open spec fn key_headers(api_key: Seq<char>) -> Seq<(Seq<char>, Seq<char>)> {
    seq![("x-api-key"@, api_key), ("anthropic-version"@, "2023-06-01"@)]
}

/// The body that asks for a completion of at most 1024 tokens.
pub open spec fn messages_body(
    model: Seq<char>,
    system_prompt: Seq<char>,
    prompt: Seq<char>,
) -> JsonTree {
    JsonTree::Object(
        seq![
            ("model"@, JsonTree::Text(model)),
            ("system"@, JsonTree::Text(system_prompt)),
            ("messages"@, JsonTree::Array(seq![message_tree("user"@, prompt)])),
            ("max_tokens"@, JsonTree::Number("1024"@)),
        ],
    )
}

/// The text of the first block of a completion, if the document has one.
pub open spec fn content(tree: JsonTree) -> Option<Seq<char>> {
    then_text(then_field(then_item(tree.field("content"@), 0), "text"@))
}

/// The completion that the document `tree` holds.
pub open spec fn answer(tree: JsonTree) -> Result<CompletionModel, ErrorModel> {
    match content(tree) {
        Some(raw) => Ok(reasoning_split(raw)),
        None => Err(ErrorModel::MalformedResponse { provider: Provider::Anthropic }),
    }
}

/// The model names that the document `tree` holds.
pub open spec fn listing(tree: JsonTree) -> Result<Seq<Seq<char>>, ErrorModel> {
    match tree.field("data"@) {
        Some(JsonTree::Array(items)) => Ok(names_in(items, "id"@)),
        _ => Err(ErrorModel::MalformedResponse { provider: Provider::Anthropic }),
    }
}

impl AnthropicDriver {
    /// The completion that the document `json` holds.
    pub fn answer_from(json: &Json) -> (r: Result<Completion, LlmError>)
        ensures
            completed(r) == answer(json@),
    {
        let first = item_of(json.field("content"), 0);
        match text_in(field_of(first, "text")) {
            Some(raw) => Ok(split_reasoning(raw)),
            None => Err(LlmError::MalformedResponse { provider: Provider::Anthropic }),
        }
    }

    /// The model names that the document `json` holds.
    pub fn models_from(json: &Json) -> (r: Result<Vec<String>, LlmError>)
        ensures
            listed(r) == listing(json@),
    {
        match json.field("data") {
            Some(data) => match data.as_array() {
                Some(items) => Ok(collect_names(items, "id")),
                None => Err(LlmError::MalformedResponse { provider: Provider::Anthropic }),
            },
            None => Err(LlmError::MalformedResponse { provider: Provider::Anthropic }),
        }
    }

    fn headers(&self) -> (r: Vec<(String, String)>)
        ensures
            header_models(r@) == key_headers(self.api_key@),
    {
        let mut headers: Vec<(String, String)> = Vec::new();
        headers.push(header("x-api-key", self.api_key.as_str()));
        headers.push(header("anthropic-version", "2023-06-01"));
        headers
    }
}

impl LLMService for AnthropicDriver {
    open spec fn provider() -> Provider {
        Provider::Anthropic
    }

    closed spec fn settings(&self) -> DriverModel {
        DriverModel {
            provider: Provider::Anthropic,
            base_url: base(),
            api_key: Some(self.api_key@),
            model: self.model@,
            system_prompt: self.system_prompt@,
        }
    }

    open spec fn construction(
        service: Service,
        model: Seq<char>,
        system_prompt: Seq<char>,
    ) -> Result<DriverModel, ErrorModel> {
        if service.api_key.is_none() {
            Err(ErrorModel::MissingCredential { provider: Provider::Anthropic })
        } else {
            Ok(
                DriverModel {
                    provider: Provider::Anthropic,
                    base_url: base(),
                    api_key: Some(service.api_key.unwrap()@),
                    model,
                    system_prompt,
                },
            )
        }
    }

    open spec fn completion_request_model(settings: DriverModel, prompt: Seq<char>) -> RequestModel {
        RequestModel {
            method: Method::Post,
            url: base() + "/v1/messages"@,
            headers: key_headers(settings.api_key.unwrap()).push(json_header()),
            body: Some(messages_body(settings.model, settings.system_prompt, prompt)),
        }
    }

    open spec fn completion(reply: ReplyModel) -> Result<CompletionModel, ErrorModel> {
        match reply {
            ReplyModel::Success { body } => match parsed(body) {
                Some(tree) => answer(tree),
                None => Err(ErrorModel::MalformedResponse { provider: Provider::Anthropic }),
            },
            ReplyModel::Status { code, body } => Err(
                ErrorModel::ProviderApi { provider: Provider::Anthropic, status: code, body },
            ),
            ReplyModel::Failed { message } => Err(ErrorModel::Transport { message }),
        }
    }

    open spec fn models_request_model(settings: DriverModel) -> RequestModel {
        RequestModel {
            method: Method::Get,
            url: base() + "/v1/models"@,
            headers: key_headers(settings.api_key.unwrap()),
            body: None,
        }
    }

    open spec fn models(reply: ReplyModel) -> Result<Seq<Seq<char>>, ErrorModel> {
        match reply {
            ReplyModel::Success { body } => match parsed(body) {
                Some(tree) => listing(tree),
                None => Err(ErrorModel::MalformedResponse { provider: Provider::Anthropic }),
            },
            ReplyModel::Status { code, body } => Err(
                ErrorModel::ProviderApi { provider: Provider::Anthropic, status: code, body },
            ),
            ReplyModel::Failed { message } => Err(ErrorModel::Transport { message }),
        }
    }

    fn new(service: &Service, model: &str, system_prompt: &str) -> (r: Result<Self, LlmError>) {
        let api_key = match &service.api_key {
            Some(key) => key.clone(),
            None => {
                return Err(LlmError::MissingCredential { provider: Provider::Anthropic });
            },
        };
        Ok(
            AnthropicDriver {
                api_key,
                model: model.to_owned(),
                system_prompt: system_prompt.to_owned(),
            },
        )
    }

    fn completion_request(&self, prompt: &str) -> (r: HttpRequest) {
        let mut messages: Vec<Json> = Vec::new();
        messages.push(message("user", prompt));
        assert(trees(messages@) =~= seq![message_tree("user"@, prompt@)]);
        let mut entries: Vec<(String, Json)> = Vec::new();
        entries.push(text_entry("model", self.model.as_str()));
        entries.push(text_entry("system", self.system_prompt.as_str()));
        entries.push(("messages".to_owned(), Json::array(messages)));
        entries.push(("max_tokens".to_owned(), Json::Number("1024".to_owned())));
        assert(entry_trees(entries@) =~= seq![
            ("model"@, JsonTree::Text(self.model@)),
            ("system"@, JsonTree::Text(self.system_prompt@)),
            ("messages"@, JsonTree::Array(seq![message_tree("user"@, prompt@)])),
            ("max_tokens"@, JsonTree::Number("1024"@)),
        ]);
        let url = "https://api.anthropic.com".to_owned().concat("/v1/messages");
        let mut headers = self.headers();
        let ghost before = header_models(headers@);
        headers.push(header("Content-Type", "application/json"));
        assert(header_models(headers@) =~= before.push(json_header()));
        HttpRequest { method: Method::Post, url, headers, body: Some(Json::object(entries)) }
    }

    fn complete(&self, reply: &HttpReply) -> (r: Result<Completion, LlmError>) {
        match reply {
            HttpReply::Success { body } => match Json::parse(body.as_str()) {
                Some(json) => AnthropicDriver::answer_from(&json),
                None => Err(LlmError::MalformedResponse { provider: Provider::Anthropic }),
            },
            HttpReply::Status { code, body } => Err(
                LlmError::ProviderApi {
                    provider: Provider::Anthropic,
                    status: *code,
                    body: body.clone(),
                },
            ),
            HttpReply::Failed { message } => Err(LlmError::Transport { message: message.clone() }),
        }
    }

    fn model(&self) -> (r: &str) {
        self.model.as_str()
    }

    fn system_prompt(&self) -> (r: &str) {
        self.system_prompt.as_str()
    }

    fn models_request(&self) -> (r: HttpRequest) {
        let url = "https://api.anthropic.com".to_owned().concat("/v1/models");
        HttpRequest { method: Method::Get, url, headers: self.headers(), body: None }
    }

    fn list_models(&self, reply: &HttpReply) -> (r: Result<Vec<String>, LlmError>) {
        match reply {
            HttpReply::Success { body } => match Json::parse(body.as_str()) {
                Some(json) => AnthropicDriver::models_from(&json),
                None => Err(LlmError::MalformedResponse { provider: Provider::Anthropic }),
            },
            HttpReply::Status { code, body } => Err(
                LlmError::ProviderApi {
                    provider: Provider::Anthropic,
                    status: *code,
                    body: body.clone(),
                },
            ),
            HttpReply::Failed { message } => Err(LlmError::Transport { message: message.clone() }),
        }
    }
}

} // verus!
