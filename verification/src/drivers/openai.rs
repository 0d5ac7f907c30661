//! The driver for providers that speak the OpenAI chat protocol.

use crate::config::Service;
use crate::drivers::{
    address, bearer, bearer_header, collect_names, completed, header, json_header, listed, message,
    message_tree, names_in, reasoning_split, split_reasoning, text_entry, Completion,
    CompletionModel, DriverModel, LLMService,
};
use crate::error::{ErrorModel, LlmError};
use crate::http::{HttpReply, HttpRequest, Method, ReplyModel, RequestModel};
use crate::json::{
    entry_trees, field_of, item_of, parsed, text_in, then_field, then_item, then_text, trees, Json,
    JsonTree,
};
use crate::provider::Provider;
use crate::text::{strip_trailing, without_trailing};
use vstd::prelude::*;

verus! {

/// A driver for a provider that speaks the OpenAI chat protocol.
#[derive(Debug)]
pub struct OpenAIDriver {
    url: String,
    api_key: String,
    model: String,
    system_prompt: String,
}

/// The body that asks for a completion.
pub open spec fn chat_body(model: Seq<char>, system_prompt: Seq<char>, prompt: Seq<char>) -> JsonTree {
    JsonTree::Object(
        seq![
            ("model"@, JsonTree::Text(model)),
            (
                "messages"@,
                JsonTree::Array(
                    seq![message_tree("system"@, system_prompt), message_tree("user"@, prompt)],
                ),
            ),
        ],
    )
}

/// The text of the first choice of a completion, if the document has one.
pub open spec fn content(tree: JsonTree) -> Option<Seq<char>> {
    then_text(
        then_field(
            then_field(then_item(tree.field("choices"@), 0), "message"@),
            "content"@,
        ),
    )
}

/// The completion that the document `tree` holds.
pub open spec fn answer(tree: JsonTree) -> Result<CompletionModel, ErrorModel> {
    match content(tree) {
        Some(raw) => Ok(reasoning_split(raw)),
        None => Err(ErrorModel::MalformedResponse { provider: Provider::OpenAI }),
    }
}

/// The model names that the document `tree` holds.
pub open spec fn listing(tree: JsonTree) -> Result<Seq<Seq<char>>, ErrorModel> {
    match then_field(Some(tree), "data"@) {
        Some(JsonTree::Array(items)) => Ok(names_in(items, "id"@)),
        _ => Err(ErrorModel::MalformedResponse { provider: Provider::OpenAI }),
    }
}

/// The error that a status outside the successful ones amounts to when a
/// completion was asked for.
pub open spec fn refusal(code: u16, body: Seq<char>) -> ErrorModel {
    if code == 401 {
        ErrorModel::Unauthorized { provider: Provider::OpenAI }
    } else if code == 404 {
        ErrorModel::NotFound { provider: Provider::OpenAI }
    } else {
        ErrorModel::ProviderApi { provider: Provider::OpenAI, status: code, body }
    }
}

impl OpenAIDriver {
    /// The completion that the document `json` holds.
    pub fn answer_from(json: &Json) -> (r: Result<Completion, LlmError>)
        ensures
            completed(r) == answer(json@),
    {
        let first = item_of(json.field("choices"), 0);
        match text_in(field_of(field_of(first, "message"), "content")) {
            Some(raw) => Ok(split_reasoning(raw)),
            None => Err(LlmError::MalformedResponse { provider: Provider::OpenAI }),
        }
    }

    /// The model names that the document `json` holds.
    pub fn models_from(json: &Json) -> (r: Result<Vec<String>, LlmError>)
        ensures
            listed(r) == listing(json@),
    {
        match json.field("data") {
            Some(data) => match data.as_array() {
                Some(items) => Ok(collect_names(items, "id")),
                None => Err(LlmError::MalformedResponse { provider: Provider::OpenAI }),
            },
            None => Err(LlmError::MalformedResponse { provider: Provider::OpenAI }),
        }
    }
}

impl LLMService for OpenAIDriver {
    open spec fn provider() -> Provider {
        Provider::OpenAI
    }

    closed spec fn settings(&self) -> DriverModel {
        DriverModel {
            provider: Provider::OpenAI,
            base_url: self.url@,
            api_key: Some(self.api_key@),
            model: self.model@,
            system_prompt: self.system_prompt@,
        }
    }

    open spec fn construction(
        service: Service,
        model: Seq<char>,
        system_prompt: Seq<char>,
    ) -> Result<DriverModel, ErrorModel> {
        if service.api_key.is_none() {
            Err(ErrorModel::MissingCredential { provider: Provider::OpenAI })
        } else if system_prompt.len() == 0 {
            Err(ErrorModel::MissingSystemPrompt { provider: Provider::OpenAI })
        } else {
            Ok(
                DriverModel {
                    provider: Provider::OpenAI,
                    base_url: address(service, "https://api.openai.com"@),
                    api_key: Some(service.api_key.unwrap()@),
                    model,
                    system_prompt,
                },
            )
        }
    }

    open spec fn completion_request_model(settings: DriverModel, prompt: Seq<char>) -> RequestModel {
        RequestModel {
            method: Method::Post,
            url: without_trailing(settings.base_url, '/') + "/v1/chat/completions"@,
            headers: seq![bearer_header(settings.api_key.unwrap()), json_header()],
            body: Some(chat_body(settings.model, settings.system_prompt, prompt)),
        }
    }

    open spec fn completion(reply: ReplyModel) -> Result<CompletionModel, ErrorModel> {
        match reply {
            ReplyModel::Success { body } => match parsed(body) {
                Some(tree) => answer(tree),
                None => Err(ErrorModel::MalformedResponse { provider: Provider::OpenAI }),
            },
            ReplyModel::Status { code, body } => Err(refusal(code, body)),
            ReplyModel::Failed { message } => Err(ErrorModel::Transport { message }),
        }
    }

    open spec fn models_request_model(settings: DriverModel) -> RequestModel {
        RequestModel {
            method: Method::Get,
            url: without_trailing(settings.base_url, '/') + "/v1/models"@,
            headers: seq![bearer_header(settings.api_key.unwrap())],
            body: None,
        }
    }

    open spec fn models(reply: ReplyModel) -> Result<Seq<Seq<char>>, ErrorModel> {
        match reply {
            ReplyModel::Success { body } => match parsed(body) {
                Some(tree) => listing(tree),
                None => Err(ErrorModel::MalformedResponse { provider: Provider::OpenAI }),
            },
            ReplyModel::Status { code, body } => Err(
                ErrorModel::ProviderApi { provider: Provider::OpenAI, status: code, body },
            ),
            ReplyModel::Failed { message } => Err(ErrorModel::Transport { message }),
        }
    }

    fn new(service: &Service, model: &str, system_prompt: &str) -> (r: Result<Self, LlmError>) {
        let api_key = match &service.api_key {
            Some(key) => key.clone(),
            None => {
                return Err(LlmError::MissingCredential { provider: Provider::OpenAI });
            },
        };
        if system_prompt.is_empty() {
            return Err(LlmError::MissingSystemPrompt { provider: Provider::OpenAI });
        }
        let url = match &service.url {
            Some(url) => url.clone(),
            None => "https://api.openai.com".to_owned(),
        };
        Ok(
            OpenAIDriver {
                url,
                api_key,
                model: model.to_owned(),
                system_prompt: system_prompt.to_owned(),
            },
        )
    }

    fn completion_request(&self, prompt: &str) -> (r: HttpRequest) {
        let mut messages: Vec<Json> = Vec::new();
        messages.push(message("system", self.system_prompt.as_str()));
        messages.push(message("user", prompt));
        assert(trees(messages@) =~= seq![
            message_tree("system"@, self.system_prompt@),
            message_tree("user"@, prompt@),
        ]);
        let mut entries: Vec<(String, Json)> = Vec::new();
        entries.push(text_entry("model", self.model.as_str()));
        entries.push(("messages".to_owned(), Json::array(messages)));
        assert(entry_trees(entries@) =~= seq![
            ("model"@, JsonTree::Text(self.model@)),
            (
                "messages"@,
                JsonTree::Array(
                    seq![
                        message_tree("system"@, self.system_prompt@),
                        message_tree("user"@, prompt@),
                    ],
                ),
            ),
        ]);
        let url = strip_trailing(self.url.as_str(), '/').to_owned().concat("/v1/chat/completions");
        let mut headers: Vec<(String, String)> = Vec::new();
        headers.push(bearer(self.api_key.as_str()));
        headers.push(header("Content-Type", "application/json"));
        assert(crate::http::header_models(headers@) =~= seq![
            bearer_header(self.api_key@),
            json_header(),
        ]);
        HttpRequest { method: Method::Post, url, headers, body: Some(Json::object(entries)) }
    }

    fn complete(&self, reply: &HttpReply) -> (r: Result<Completion, LlmError>) {
        match reply {
            HttpReply::Success { body } => match Json::parse(body.as_str()) {
                Some(json) => OpenAIDriver::answer_from(&json),
                None => Err(LlmError::MalformedResponse { provider: Provider::OpenAI }),
            },
            HttpReply::Status { code, body } => {
                if *code == 401 {
                    Err(LlmError::Unauthorized { provider: Provider::OpenAI })
                } else if *code == 404 {
                    Err(LlmError::NotFound { provider: Provider::OpenAI })
                } else {
                    Err(
                        LlmError::ProviderApi {
                            provider: Provider::OpenAI,
                            status: *code,
                            body: body.clone(),
                        },
                    )
                }
            },
            HttpReply::Failed { message } => Err(LlmError::Transport { message: message.clone() }),
        }
    }

    fn model(&self) -> (r: &str) {
        self.model.as_str()
    }

    fn system_prompt(&self) -> (r: &str) {
        self.system_prompt.as_str()
    }

    fn models_request(&self) -> (r: HttpRequest) {
        let url = strip_trailing(self.url.as_str(), '/').to_owned().concat("/v1/models");
        let mut headers: Vec<(String, String)> = Vec::new();
        headers.push(bearer(self.api_key.as_str()));
        assert(crate::http::header_models(headers@) =~= seq![bearer_header(self.api_key@)]);
        HttpRequest { method: Method::Get, url, headers, body: None }
    }

    fn list_models(&self, reply: &HttpReply) -> (r: Result<Vec<String>, LlmError>) {
        match reply {
            HttpReply::Success { body } => match Json::parse(body.as_str()) {
                Some(json) => OpenAIDriver::models_from(&json),
                None => Err(LlmError::MalformedResponse { provider: Provider::OpenAI }),
            },
            HttpReply::Status { code, body } => Err(
                LlmError::ProviderApi {
                    provider: Provider::OpenAI,
                    status: *code,
                    body: body.clone(),
                },
            ),
            HttpReply::Failed { message } => Err(LlmError::Transport { message: message.clone() }),
        }
    }
}

} // verus!
