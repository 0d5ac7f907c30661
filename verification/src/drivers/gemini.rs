//! The driver for Google's Gemini API.

use crate::config::Service;
use crate::drivers::{
    collect_names, completed, header, json_header, listed, names_in, reasoning_split,
    split_reasoning, text_entry, Completion, CompletionModel, DriverModel, LLMService,
};
use crate::error::{ErrorModel, LlmError};
use crate::http::{header_models, HttpReply, HttpRequest, Method, ReplyModel, RequestModel};
use crate::json::{
    entry_trees, field_of, item_of, parsed, text_in, then_field, then_item, then_text, trees, Json,
    JsonTree,
};
use crate::provider::Provider;
use crate::text::{strip_prefix, without_prefix};
use vstd::prelude::*;

verus! {

/// A driver for Google's Gemini API.
#[derive(Debug)]
pub struct GeminiDriver {
    api_key: String,
    model: String,
    system_prompt: String,
}

/// The address under which the API stands.
pub open spec fn base() -> Seq<char> {
    "https://generativelanguage.googleapis.com/v1beta"@
}

/// The header that carries the key.
pub open spec fn key_header(api_key: Seq<char>) -> (Seq<char>, Seq<char>) {
    ("x-goog-api-key"@, api_key)
}

/// A list of one part, which holds `text`.
pub open spec fn parts_tree(text: Seq<char>) -> JsonTree {
    JsonTree::Array(seq![JsonTree::Object(seq![("text"@, JsonTree::Text(text))])])
}

/// The body that asks for a completion.
pub open spec fn generate_body(system_prompt: Seq<char>, prompt: Seq<char>) -> JsonTree {
    JsonTree::Object(
        seq![
            ("system_instruction"@, JsonTree::Object(seq![("parts"@, parts_tree(system_prompt))])),
            (
                "contents"@,
                JsonTree::Array(
                    seq![
                        JsonTree::Object(
                            seq![("role"@, JsonTree::Text("user"@)), ("parts"@, parts_tree(prompt))],
                        ),
                    ],
                ),
            ),
        ],
    )
}

/// The text of the first part of the first candidate of a completion, if the
/// document has one.
pub open spec fn content(tree: JsonTree) -> Option<Seq<char>> {
    then_text(
        then_field(
            then_item(
                then_field(then_field(then_item(tree.field("candidates"@), 0), "content"@), "parts"@),
                0,
            ),
            "text"@,
        ),
    )
}

/// The completion that the document `tree` holds.
pub open spec fn answer(tree: JsonTree) -> Result<CompletionModel, ErrorModel> {
    match content(tree) {
        Some(raw) => Ok(reasoning_split(raw)),
        None => Err(ErrorModel::MalformedResponse { provider: Provider::Gemini }),
    }
}

/// The names `names`, each without the `models/` that it starts with, if it
/// does.
pub open spec fn bare_names(names: Seq<Seq<char>>) -> Seq<Seq<char>> {
    Seq::new(names.len(), |i: int| without_prefix(names[i], "models/"@))
}

/// The model names that the document `tree` holds.
pub open spec fn listing(tree: JsonTree) -> Result<Seq<Seq<char>>, ErrorModel> {
    match tree.field("models"@) {
        Some(JsonTree::Array(items)) => Ok(bare_names(names_in(items, "name"@))),
        _ => Err(ErrorModel::MalformedResponse { provider: Provider::Gemini }),
    }
}

/// A list of one part, which holds `text`.
fn parts(text: &str) -> (r: Json)
    ensures
        r@ == parts_tree(text@),
{
    let mut entries: Vec<(String, Json)> = Vec::new();
    entries.push(text_entry("text", text));
    assert(entry_trees(entries@) =~= seq![("text"@, JsonTree::Text(text@))]);
    let mut items: Vec<Json> = Vec::new();
    items.push(Json::object(entries));
    assert(trees(items@) =~= seq![JsonTree::Object(seq![("text"@, JsonTree::Text(text@))])]);
    Json::array(items)
}

/// The names `names`, each without the `models/` that it starts with, if it
/// does.
fn strip_each(names: &Vec<String>) -> (r: Vec<String>)
    ensures
        r.deep_view() == bare_names(names.deep_view()),
{
    let mut bare: Vec<String> = Vec::new();
    let mut i: usize = 0;
    while i < names.len()
        invariant
            i <= names.len(),
            bare.len() == i,
            forall|k: int|
                0 <= k < i ==> (#[trigger] bare@[k])@ == without_prefix(names@[k]@, "models/"@),
        decreases names.len() - i,
    {
        bare.push(strip_prefix(names[i].as_str(), "models/").to_owned());
        i += 1;
    }
    bare
}

impl GeminiDriver {
    /// The completion that the document `json` holds.
    pub fn answer_from(json: &Json) -> (r: Result<Completion, LlmError>)
        ensures
            completed(r) == answer(json@),
    {
        let candidate = item_of(json.field("candidates"), 0);
        let part = item_of(field_of(field_of(candidate, "content"), "parts"), 0);
        match text_in(field_of(part, "text")) {
            Some(raw) => Ok(split_reasoning(raw)),
            None => Err(LlmError::MalformedResponse { provider: Provider::Gemini }),
        }
    }

    /// The model names that the document `json` holds.
    pub fn models_from(json: &Json) -> (r: Result<Vec<String>, LlmError>)
        ensures
            listed(r) == listing(json@),
    {
        match json.field("models") {
            Some(models) => match models.as_array() {
                Some(items) => {
                    let names = collect_names(items, "name");
                    Ok(strip_each(&names))
                },
                None => Err(LlmError::MalformedResponse { provider: Provider::Gemini }),
            },
            None => Err(LlmError::MalformedResponse { provider: Provider::Gemini }),
        }
    }
}

impl LLMService for GeminiDriver {
    open spec fn provider() -> Provider {
        Provider::Gemini
    }

    closed spec fn settings(&self) -> DriverModel {
        DriverModel {
            provider: Provider::Gemini,
            base_url: base(),
            api_key: Some(self.api_key@),
            model: self.model@,
            system_prompt: self.system_prompt@,
        }
    }

    open spec fn construction(
        service: Service,
        model: Seq<char>,
        system_prompt: Seq<char>,
    ) -> Result<DriverModel, ErrorModel> {
        if service.api_key.is_none() {
            Err(ErrorModel::MissingCredential { provider: Provider::Gemini })
        } else {
            Ok(
                DriverModel {
                    provider: Provider::Gemini,
                    base_url: base(),
                    api_key: Some(service.api_key.unwrap()@),
                    model,
                    system_prompt,
                },
            )
        }
    }

    open spec fn completion_request_model(settings: DriverModel, prompt: Seq<char>) -> RequestModel {
        RequestModel {
            method: Method::Post,
            url: base() + "/models/"@ + settings.model + ":generateContent"@,
            headers: seq![key_header(settings.api_key.unwrap()), json_header()],
            body: Some(generate_body(settings.system_prompt, prompt)),
        }
    }

    open spec fn completion(reply: ReplyModel) -> Result<CompletionModel, ErrorModel> {
        match reply {
            ReplyModel::Success { body } => match parsed(body) {
                Some(tree) => answer(tree),
                None => Err(ErrorModel::MalformedResponse { provider: Provider::Gemini }),
            },
            ReplyModel::Status { code, body } => Err(
                ErrorModel::ProviderApi { provider: Provider::Gemini, status: code, body },
            ),
            ReplyModel::Failed { message } => Err(ErrorModel::Transport { message }),
        }
    }

    open spec fn models_request_model(settings: DriverModel) -> RequestModel {
        RequestModel {
            method: Method::Get,
            url: base() + "/models"@,
            headers: seq![key_header(settings.api_key.unwrap())],
            body: None,
        }
    }

    open spec fn models(reply: ReplyModel) -> Result<Seq<Seq<char>>, ErrorModel> {
        match reply {
            ReplyModel::Success { body } => match parsed(body) {
                Some(tree) => listing(tree),
                None => Err(ErrorModel::MalformedResponse { provider: Provider::Gemini }),
            },
            ReplyModel::Status { code, body } => Err(
                ErrorModel::ProviderApi { provider: Provider::Gemini, status: code, body },
            ),
            ReplyModel::Failed { message } => Err(ErrorModel::Transport { message }),
        }
    }

    fn new(service: &Service, model: &str, system_prompt: &str) -> (r: Result<Self, LlmError>) {
        let api_key = match &service.api_key {
            Some(key) => key.clone(),
            None => {
                return Err(LlmError::MissingCredential { provider: Provider::Gemini });
            },
        };
        Ok(
            GeminiDriver {
                api_key,
                model: model.to_owned(),
                system_prompt: system_prompt.to_owned(),
            },
        )
    }

    fn completion_request(&self, prompt: &str) -> (r: HttpRequest) {
        let mut instruction: Vec<(String, Json)> = Vec::new();
        instruction.push(("parts".to_owned(), parts(self.system_prompt.as_str())));
        assert(entry_trees(instruction@) =~= seq![("parts"@, parts_tree(self.system_prompt@))]);
        let mut turn: Vec<(String, Json)> = Vec::new();
        turn.push(text_entry("role", "user"));
        turn.push(("parts".to_owned(), parts(prompt)));
        assert(entry_trees(turn@) =~= seq![
            ("role"@, JsonTree::Text("user"@)),
            ("parts"@, parts_tree(prompt@)),
        ]);
        let mut contents: Vec<Json> = Vec::new();
        contents.push(Json::object(turn));
        assert(trees(contents@) =~= seq![
            JsonTree::Object(
                seq![("role"@, JsonTree::Text("user"@)), ("parts"@, parts_tree(prompt@))],
            ),
        ]);
        let mut entries: Vec<(String, Json)> = Vec::new();
        entries.push(("system_instruction".to_owned(), Json::object(instruction)));
        entries.push(("contents".to_owned(), Json::array(contents)));
        assert(entry_trees(entries@) =~= seq![
            (
                "system_instruction"@,
                JsonTree::Object(seq![("parts"@, parts_tree(self.system_prompt@))]),
            ),
            (
                "contents"@,
                JsonTree::Array(
                    seq![
                        JsonTree::Object(
                            seq![
                                ("role"@, JsonTree::Text("user"@)),
                                ("parts"@, parts_tree(prompt@)),
                            ],
                        ),
                    ],
                ),
            ),
        ]);
        let url = "https://generativelanguage.googleapis.com/v1beta".to_owned().concat(
            "/models/",
        ).concat(self.model.as_str()).concat(":generateContent");
        let mut headers: Vec<(String, String)> = Vec::new();
        headers.push(header("x-goog-api-key", self.api_key.as_str()));
        headers.push(header("Content-Type", "application/json"));
        assert(header_models(headers@) =~= seq![key_header(self.api_key@), json_header()]);
        HttpRequest { method: Method::Post, url, headers, body: Some(Json::object(entries)) }
    }

    fn complete(&self, reply: &HttpReply) -> (r: Result<Completion, LlmError>) {
        match reply {
            HttpReply::Success { body } => match Json::parse(body.as_str()) {
                Some(json) => GeminiDriver::answer_from(&json),
                None => Err(LlmError::MalformedResponse { provider: Provider::Gemini }),
            },
            HttpReply::Status { code, body } => Err(
                LlmError::ProviderApi {
                    provider: Provider::Gemini,
                    status: *code,
                    body: body.clone(),
                },
            ),
            HttpReply::Failed { message } => Err(LlmError::Transport { message: message.clone() }),
        }
    }

    fn model(&self) -> (r: &str) {
        self.model.as_str()
    }

    fn system_prompt(&self) -> (r: &str) {
        self.system_prompt.as_str()
    }

    fn models_request(&self) -> (r: HttpRequest) {
        let url = "https://generativelanguage.googleapis.com/v1beta".to_owned().concat("/models");
        let mut headers: Vec<(String, String)> = Vec::new();
        headers.push(header("x-goog-api-key", self.api_key.as_str()));
        assert(header_models(headers@) =~= seq![key_header(self.api_key@)]);
        HttpRequest { method: Method::Get, url, headers, body: None }
    }

    fn list_models(&self, reply: &HttpReply) -> (r: Result<Vec<String>, LlmError>) {
        match reply {
            HttpReply::Success { body } => match Json::parse(body.as_str()) {
                Some(json) => GeminiDriver::models_from(&json),
                None => Err(LlmError::MalformedResponse { provider: Provider::Gemini }),
            },
            HttpReply::Status { code, body } => Err(
                LlmError::ProviderApi {
                    provider: Provider::Gemini,
                    status: *code,
                    body: body.clone(),
                },
            ),
            HttpReply::Failed { message } => Err(LlmError::Transport { message: message.clone() }),
        }
    }
}

} // verus!
