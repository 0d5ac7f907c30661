use askme::config::Service;
use askme::drivers::anthropic::AnthropicDriver;
use askme::drivers::gemini::GeminiDriver;
use askme::drivers::ollama::OllamaDriver;
use askme::drivers::openai::OpenAIDriver;
use askme::drivers::{bearer, collect_names, header, message, split_reasoning, Driver, LLMService};
use askme::error::LlmError;
use askme::http::{HttpReply, HttpRequest, Method};
use askme::json::Json;
use askme::provider::Provider;

fn service(url: Option<&str>, api_key: Option<&str>) -> Service {
    Service {
        url: url.map(|s| s.to_string()),
        class: "openai".to_string(),
        model: Some("unused".to_string()),
        api_key: api_key.map(|s| s.to_string()),
        system_prompt: None,
        description: None,
    }
}

fn pair(k: &str, v: &str) -> (String, String) {
    (k.to_string(), v.to_string())
}

fn text(t: &str) -> Json {
    Json::Text(t.to_string())
}

fn object(entries: Vec<(&str, Json)>) -> Json {
    Json::Object(entries.into_iter().map(|(k, v)| (k.to_string(), v)).collect())
}

fn chat(role: &str, content: &str) -> Json {
    object(vec![("role", text(role)), ("content", text(content))])
}

fn success(body: &str) -> HttpReply {
    HttpReply::Success { body: body.to_string() }
}

fn status(code: u16, body: &str) -> HttpReply {
    HttpReply::Status { code, body: body.to_string() }
}

fn failed(message: &str) -> HttpReply {
    HttpReply::Failed { message: message.to_string() }
}

fn answer(a: &str, reasoning: Option<&str>) -> (String, Option<String>) {
    (a.to_string(), reasoning.map(|r| r.to_string()))
}

fn names(v: &[&str]) -> Vec<String> {
    v.iter().map(|s| s.to_string()).collect()
}

fn openai() -> OpenAIDriver {
    OpenAIDriver::new(&service(None, Some("sk-1")), "gpt-4o", "Be brief.").unwrap()
}

fn ollama() -> OllamaDriver {
    OllamaDriver::new(&service(None, None), "llama3", "Be brief.").unwrap()
}

fn gemini() -> GeminiDriver {
    GeminiDriver::new(&service(None, Some("g-key")), "gemini-pro", "Be brief.").unwrap()
}

fn anthropic() -> AnthropicDriver {
    AnthropicDriver::new(&service(None, Some("a-key")), "large-1", "Be brief.").unwrap()
}

#[test]
fn split_reasoning_takes_the_tagged_part_out() {
    assert_eq!(split_reasoning("<think>ponder</think>final"), answer("final", Some("ponder")));
}

#[test]
fn split_reasoning_leaves_a_text_without_tags_unchanged() {
    assert_eq!(split_reasoning("no tags here"), answer("no tags here", None));
    assert_eq!(split_reasoning("  padded  "), answer("  padded  ", None));
    assert_eq!(split_reasoning(""), answer("", None));
}

#[test]
fn split_reasoning_trims_both_parts() {
    assert_eq!(
        split_reasoning("intro <think>\n  a b \n</think>\n\n the answer \n"),
        answer("the answer", Some("a b"))
    );
}

#[test]
fn split_reasoning_needs_the_closing_tag() {
    assert_eq!(split_reasoning("<think>ponder final"), answer("<think>ponder final", None));
    assert_eq!(split_reasoning("ponder</think>final"), answer("ponder</think>final", None));
}

#[test]
fn split_reasoning_looks_for_the_closing_tag_after_the_opening_one() {
    assert_eq!(split_reasoning("</think>x<think>y</think>z"), answer("z", Some("y")));
    assert_eq!(split_reasoning("</think><think>"), answer("</think><think>", None));
}

#[test]
fn split_reasoning_uses_the_first_pair_of_tags() {
    assert_eq!(
        split_reasoning("<think>a</think>b<think>c</think>d"),
        answer("b<think>c</think>d", Some("a"))
    );
    assert_eq!(split_reasoning("<think><think>a</think>b"), answer("b", Some("<think>a")));
}

#[test]
fn split_reasoning_counts_characters_beyond_ascii() {
    assert_eq!(split_reasoning("é<think>ñ</think>ü"), answer("ü", Some("ñ")));
}

#[test]
fn split_reasoning_of_empty_parts() {
    assert_eq!(split_reasoning("<think></think>"), answer("", Some("")));
}

#[test]
fn headers_and_messages_are_built_from_their_parts() {
    assert_eq!(header("x-api-key", "k"), pair("x-api-key", "k"));
    assert_eq!(bearer("sk-1"), pair("Authorization", "Bearer sk-1"));
    assert_eq!(message("user", "hi"), chat("user", "hi"));
}

#[test]
fn collect_names_takes_the_strings_under_the_key() {
    let items = vec![
        object(vec![("id", text("a"))]),
        object(vec![("name", text("skipped"))]),
        object(vec![("id", Json::Number("3".to_string()))]),
        text("id"),
        object(vec![("id", text("b"))]),
    ];
    assert_eq!(collect_names(&items, "id"), names(&["a", "b"]));
    assert_eq!(collect_names(&Vec::new(), "id"), names(&[]));
}

#[test]
fn openai_needs_an_api_key() {
    let r = OpenAIDriver::new(&service(None, None), "gpt-4o", "Be brief.");
    assert_eq!(r.unwrap_err(), LlmError::MissingCredential { provider: Provider::OpenAI });
}

#[test]
fn openai_needs_a_system_prompt() {
    let r = OpenAIDriver::new(&service(None, Some("sk-1")), "gpt-4o", "");
    assert_eq!(r.unwrap_err(), LlmError::MissingSystemPrompt { provider: Provider::OpenAI });
}

#[test]
fn openai_reports_the_missing_key_before_the_missing_prompt() {
    let r = OpenAIDriver::new(&service(None, None), "gpt-4o", "");
    assert_eq!(r.unwrap_err(), LlmError::MissingCredential { provider: Provider::OpenAI });
}

#[test]
fn openai_keeps_the_model_and_the_prompt() {
    let d = openai();
    assert_eq!(d.model(), "gpt-4o");
    assert_eq!(d.system_prompt(), "Be brief.");
}

#[test]
fn openai_completion_request() {
    let expected = HttpRequest {
        method: Method::Post,
        url: "https://api.openai.com/v1/chat/completions".to_string(),
        headers: vec![
            pair("Authorization", "Bearer sk-1"),
            pair("Content-Type", "application/json"),
        ],
        body: Some(object(vec![
            ("model", text("gpt-4o")),
            ("messages", Json::Array(vec![chat("system", "Be brief."), chat("user", "Hi?")])),
        ])),
    };
    assert_eq!(openai().completion_request("Hi?"), expected);
}

#[test]
fn openai_uses_the_address_of_the_service_without_trailing_slashes() {
    let d = OpenAIDriver::new(&service(Some("http://host:8080//"), Some("k")), "m", "p").unwrap();
    assert_eq!(d.completion_request("x").url, "http://host:8080/v1/chat/completions");
    assert_eq!(d.models_request().url, "http://host:8080/v1/models");
}

#[test]
fn openai_models_request() {
    let expected = HttpRequest {
        method: Method::Get,
        url: "https://api.openai.com/v1/models".to_string(),
        headers: vec![pair("Authorization", "Bearer sk-1")],
        body: None,
    };
    assert_eq!(openai().models_request(), expected);
}

#[test]
fn openai_complete_reads_the_first_choice() {
    let body = r#"{"choices":[{"message":{"role":"assistant","content":"<think>ponder</think>final"}},{"message":{"content":"other"}}]}"#;
    assert_eq!(openai().complete(&success(body)), Ok(answer("final", Some("ponder"))));
    let body = r#"{"choices":[{"message":{"content":"no tags here"}}]}"#;
    assert_eq!(openai().complete(&success(body)), Ok(answer("no tags here", None)));
}

#[test]
fn openai_complete_refuses_a_malformed_reply() {
    let malformed = Err(LlmError::MalformedResponse { provider: Provider::OpenAI });
    assert_eq!(openai().complete(&success("not json")), malformed);
    assert_eq!(openai().complete(&success("{}")), malformed);
    assert_eq!(openai().complete(&success(r#"{"choices":[]}"#)), malformed);
    assert_eq!(openai().complete(&success(r#"{"choices":[{"message":{"content":null}}]}"#)), malformed);
    assert_eq!(openai().complete(&success(r#"{"choices":{"message":{"content":"x"}}}"#)), malformed);
}

#[test]
fn openai_complete_tells_unauthorized_and_not_found_apart() {
    assert_eq!(
        openai().complete(&status(401, "denied")),
        Err(LlmError::Unauthorized { provider: Provider::OpenAI })
    );
    assert_eq!(
        openai().complete(&status(404, "gone")),
        Err(LlmError::NotFound { provider: Provider::OpenAI })
    );
    assert_eq!(
        openai().complete(&status(500, "boom")),
        Err(LlmError::ProviderApi {
            provider: Provider::OpenAI,
            status: 500,
            body: "boom".to_string()
        })
    );
}

#[test]
fn openai_complete_passes_a_transport_failure_on() {
    assert_eq!(
        openai().complete(&failed("connection refused")),
        Err(LlmError::Transport { message: "connection refused".to_string() })
    );
}

#[test]
fn openai_list_models_reads_the_ids() {
    let body = r#"{"object":"list","data":[{"id":"gpt-4o"},{"object":"model"},{"id":"gpt-3.5"}]}"#;
    assert_eq!(openai().list_models(&success(body)), Ok(names(&["gpt-4o", "gpt-3.5"])));
    assert_eq!(openai().list_models(&success(r#"{"data":[]}"#)), Ok(names(&[])));
}

#[test]
fn openai_list_models_refuses_a_reply_without_the_array() {
    let malformed = Err(LlmError::MalformedResponse { provider: Provider::OpenAI });
    assert_eq!(openai().list_models(&success(r#"{"models":[]}"#)), malformed);
    assert_eq!(openai().list_models(&success(r#"{"data":{"id":"x"}}"#)), malformed);
    assert_eq!(openai().list_models(&success("[")), malformed);
}

#[test]
fn openai_list_models_does_not_refine_the_status() {
    assert_eq!(
        openai().list_models(&status(401, "denied")),
        Err(LlmError::ProviderApi {
            provider: Provider::OpenAI,
            status: 401,
            body: "denied".to_string()
        })
    );
    assert_eq!(
        openai().list_models(&failed("timeout")),
        Err(LlmError::Transport { message: "timeout".to_string() })
    );
}

#[test]
fn ollama_needs_no_api_key() {
    let d = OllamaDriver::new(&service(None, None), "llama3", "Be brief.").unwrap();
    assert_eq!(d.model(), "llama3");
    assert_eq!(d.system_prompt(), "Be brief.");
}

#[test]
fn ollama_needs_a_system_prompt() {
    let r = OllamaDriver::new(&service(None, Some("k")), "llama3", "");
    assert_eq!(r.unwrap_err(), LlmError::MissingSystemPrompt { provider: Provider::Ollama });
}

#[test]
fn ollama_completion_request_without_a_key() {
    let expected = HttpRequest {
        method: Method::Post,
        url: "http://localhost:11434/api/chat".to_string(),
        headers: vec![],
        body: Some(object(vec![
            ("model", text("llama3")),
            ("messages", Json::Array(vec![chat("system", "Be brief."), chat("user", "Hi?")])),
            ("stream", Json::Bool(false)),
        ])),
    };
    assert_eq!(ollama().completion_request("Hi?"), expected);
}

#[test]
fn ollama_sends_a_key_that_the_service_has() {
    let d = OllamaDriver::new(&service(Some("http://box:1/"), Some("tok")), "m", "p").unwrap();
    let r = d.completion_request("x");
    assert_eq!(r.url, "http://box:1/api/chat");
    assert_eq!(r.headers, vec![pair("Authorization", "Bearer tok")]);
    let r = d.models_request();
    assert_eq!(r.method, Method::Get);
    assert_eq!(r.url, "http://box:1/api/tags");
    assert_eq!(r.headers, vec![pair("Authorization", "Bearer tok")]);
    assert_eq!(r.body, None);
}

#[test]
fn ollama_models_request_without_a_key() {
    let expected = HttpRequest {
        method: Method::Get,
        url: "http://localhost:11434/api/tags".to_string(),
        headers: vec![],
        body: None,
    };
    assert_eq!(ollama().models_request(), expected);
}

#[test]
fn ollama_reads_the_reasoning_from_the_top_of_the_reply() {
    let body = r#"{"message":{"content":"final","thinking":"inner"},"thinking":"outer"}"#;
    assert_eq!(ollama().complete(&success(body)), Ok(answer("final", Some("outer"))));
}

#[test]
fn ollama_reads_the_reasoning_from_the_message_otherwise() {
    let body = r#"{"message":{"content":"final","thinking":"inner"}}"#;
    assert_eq!(ollama().complete(&success(body)), Ok(answer("final", Some("inner"))));
    let body = r#"{"message":{"content":"final"}}"#;
    assert_eq!(ollama().complete(&success(body)), Ok(answer("final", None)));
}

#[test]
fn ollama_does_not_look_further_where_the_top_has_the_key() {
    let body = r#"{"message":{"content":"final","thinking":"inner"},"thinking":null}"#;
    assert_eq!(ollama().complete(&success(body)), Ok(answer("final", None)));
}

#[test]
fn ollama_does_not_scan_for_tags() {
    let body = r#"{"message":{"content":"<think>ponder</think>final"}}"#;
    assert_eq!(
        ollama().complete(&success(body)),
        Ok(answer("<think>ponder</think>final", None))
    );
}

#[test]
fn ollama_complete_failures() {
    let malformed = Err(LlmError::MalformedResponse { provider: Provider::Ollama });
    assert_eq!(ollama().complete(&success("{")), malformed);
    assert_eq!(ollama().complete(&success(r#"{"message":"final"}"#)), malformed);
    assert_eq!(
        ollama().complete(&status(404, "no model")),
        Err(LlmError::NotFound { provider: Provider::Ollama })
    );
    assert_eq!(
        ollama().complete(&status(401, "denied")),
        Err(LlmError::Unauthorized { provider: Provider::Ollama })
    );
    assert_eq!(
        ollama().complete(&status(500, "boom")),
        Err(LlmError::ProviderApi {
            provider: Provider::Ollama,
            status: 500,
            body: "boom".to_string()
        })
    );
    assert_eq!(
        ollama().complete(&failed("down")),
        Err(LlmError::Transport { message: "down".to_string() })
    );
}

#[test]
fn ollama_list_models_does_not_refine_the_status() {
    assert_eq!(
        ollama().list_models(&status(401, "denied")),
        Err(LlmError::ProviderApi {
            provider: Provider::Ollama,
            status: 401,
            body: "denied".to_string()
        })
    );
}

#[test]
fn ollama_list_models_reads_the_names() {
    let body = r#"{"models":[{"name":"llama3:latest","size":1},{"name":"phi"}]}"#;
    assert_eq!(ollama().list_models(&success(body)), Ok(names(&["llama3:latest", "phi"])));
    assert_eq!(
        ollama().list_models(&success(r#"{"data":[]}"#)),
        Err(LlmError::MalformedResponse { provider: Provider::Ollama })
    );
    assert_eq!(
        ollama().list_models(&status(404, "x")),
        Err(LlmError::ProviderApi { provider: Provider::Ollama, status: 404, body: "x".to_string() })
    );
}

#[test]
fn gemini_needs_an_api_key() {
    let r = GeminiDriver::new(&service(None, None), "gemini-pro", "Be brief.");
    assert_eq!(r.unwrap_err(), LlmError::MissingCredential { provider: Provider::Gemini });
}

#[test]
fn gemini_accepts_an_empty_system_prompt() {
    let d = GeminiDriver::new(&service(None, Some("k")), "gemini-pro", "").unwrap();
    assert_eq!(d.system_prompt(), "");
    assert_eq!(d.model(), "gemini-pro");
}

#[test]
fn gemini_completion_request() {
    let part = |t: &str| Json::Array(vec![object(vec![("text", text(t))])]);
    let expected = HttpRequest {
        method: Method::Post,
        url: "https://generativelanguage.googleapis.com/v1beta/models/gemini-pro:generateContent"
            .to_string(),
        headers: vec![pair("x-goog-api-key", "g-key"), pair("Content-Type", "application/json")],
        body: Some(object(vec![
            ("system_instruction", object(vec![("parts", part("Be brief."))])),
            (
                "contents",
                Json::Array(vec![object(vec![("role", text("user")), ("parts", part("Hi?"))])]),
            ),
        ])),
    };
    assert_eq!(gemini().completion_request("Hi?"), expected);
}

#[test]
fn gemini_ignores_the_address_of_the_service() {
    let d = GeminiDriver::new(&service(Some("http://elsewhere"), Some("k")), "m", "p").unwrap();
    assert_eq!(
        d.completion_request("x").url,
        "https://generativelanguage.googleapis.com/v1beta/models/m:generateContent"
    );
}

#[test]
fn gemini_models_request() {
    let expected = HttpRequest {
        method: Method::Get,
        url: "https://generativelanguage.googleapis.com/v1beta/models".to_string(),
        headers: vec![pair("x-goog-api-key", "g-key")],
        body: None,
    };
    assert_eq!(gemini().models_request(), expected);
}

#[test]
fn gemini_complete_reads_the_first_part_of_the_first_candidate() {
    let body = r#"{"candidates":[{"content":{"parts":[{"text":"<think> why </think> so"},{"text":"more"}]}}]}"#;
    assert_eq!(gemini().complete(&success(body)), Ok(answer("so", Some("why"))));
}

#[test]
fn gemini_complete_failures() {
    let malformed = Err(LlmError::MalformedResponse { provider: Provider::Gemini });
    assert_eq!(gemini().complete(&success(r#"{"candidates":[{"content":{"parts":[]}}]}"#)), malformed);
    assert_eq!(gemini().complete(&success("oops")), malformed);
    assert_eq!(
        gemini().complete(&status(401, "denied")),
        Err(LlmError::ProviderApi {
            provider: Provider::Gemini,
            status: 401,
            body: "denied".to_string()
        })
    );
    assert_eq!(
        gemini().complete(&status(404, "gone")),
        Err(LlmError::ProviderApi {
            provider: Provider::Gemini,
            status: 404,
            body: "gone".to_string()
        })
    );
    assert_eq!(
        gemini().complete(&failed("down")),
        Err(LlmError::Transport { message: "down".to_string() })
    );
}

#[test]
fn gemini_list_models_strips_the_prefix() {
    let body = r#"{"models":[{"name":"models/gemini-pro"},{"name":"plain"},{"name":"models/models/x"},{"displayName":"none"}]}"#;
    assert_eq!(
        gemini().list_models(&success(body)),
        Ok(names(&["gemini-pro", "plain", "models/x"]))
    );
    assert_eq!(
        gemini().list_models(&success(r#"{"models":"none"}"#)),
        Err(LlmError::MalformedResponse { provider: Provider::Gemini })
    );
}

#[test]
fn anthropic_needs_an_api_key() {
    let r = AnthropicDriver::new(&service(None, None), "large-1", "Be brief.");
    assert_eq!(r.unwrap_err(), LlmError::MissingCredential { provider: Provider::Anthropic });
}

#[test]
fn anthropic_accepts_an_empty_system_prompt() {
    let d = AnthropicDriver::new(&service(None, Some("k")), "large-1", "").unwrap();
    assert_eq!(d.system_prompt(), "");
    assert_eq!(d.model(), "large-1");
}

#[test]
fn anthropic_completion_request() {
    let expected = HttpRequest {
        method: Method::Post,
        url: "https://api.anthropic.com/v1/messages".to_string(),
        headers: vec![
            pair("x-api-key", "a-key"),
            pair("anthropic-version", "2023-06-01"),
            pair("Content-Type", "application/json"),
        ],
        body: Some(object(vec![
            ("model", text("large-1")),
            ("system", text("Be brief.")),
            ("messages", Json::Array(vec![chat("user", "Hi?")])),
            ("max_tokens", Json::Number("1024".to_string())),
        ])),
    };
    assert_eq!(anthropic().completion_request("Hi?"), expected);
}

#[test]
fn anthropic_models_request() {
    let expected = HttpRequest {
        method: Method::Get,
        url: "https://api.anthropic.com/v1/models".to_string(),
        headers: vec![pair("x-api-key", "a-key"), pair("anthropic-version", "2023-06-01")],
        body: None,
    };
    assert_eq!(anthropic().models_request(), expected);
}

#[test]
fn anthropic_complete_reads_the_first_block() {
    let body = r#"{"content":[{"type":"text","text":"<think>ponder</think>final"}]}"#;
    assert_eq!(anthropic().complete(&success(body)), Ok(answer("final", Some("ponder"))));
    let body = r#"{"content":[{"type":"text","text":"plain"}]}"#;
    assert_eq!(anthropic().complete(&success(body)), Ok(answer("plain", None)));
}

#[test]
fn anthropic_complete_failures() {
    let malformed = Err(LlmError::MalformedResponse { provider: Provider::Anthropic });
    assert_eq!(anthropic().complete(&success(r#"{"content":"plain"}"#)), malformed);
    assert_eq!(anthropic().complete(&success("")), malformed);
    assert_eq!(
        anthropic().complete(&status(401, "denied")),
        Err(LlmError::ProviderApi {
            provider: Provider::Anthropic,
            status: 401,
            body: "denied".to_string()
        })
    );
    assert_eq!(
        anthropic().complete(&failed("down")),
        Err(LlmError::Transport { message: "down".to_string() })
    );
}

#[test]
fn anthropic_list_models_reads_the_ids() {
    let body = r#"{"data":[{"id":"large-1"},{"id":"small-1"}]}"#;
    assert_eq!(anthropic().list_models(&success(body)), Ok(names(&["large-1", "small-1"])));
    assert_eq!(
        anthropic().list_models(&success("{}")),
        Err(LlmError::MalformedResponse { provider: Provider::Anthropic })
    );
    assert_eq!(
        anthropic().list_models(&status(500, "boom")),
        Err(LlmError::ProviderApi {
            provider: Provider::Anthropic,
            status: 500,
            body: "boom".to_string()
        })
    );
}

#[test]
fn answer_from_reads_a_document_that_was_built_by_hand() {
    let doc = object(vec![(
        "choices",
        Json::Array(vec![object(vec![("message", chat("assistant", "<think>a</think>b"))])]),
    )]);
    assert_eq!(OpenAIDriver::answer_from(&doc), Ok(answer("b", Some("a"))));
    let doc = object(vec![("message", chat("assistant", "b")), ("thinking", text("a"))]);
    assert_eq!(OllamaDriver::answer_from(&doc), Ok(answer("b", Some("a"))));
    let doc = object(vec![("content", Json::Array(vec![object(vec![("text", text("b"))])]))]);
    assert_eq!(AnthropicDriver::answer_from(&doc), Ok(answer("b", None)));
    let parts = Json::Array(vec![object(vec![("text", text("b"))])]);
    let doc = object(vec![(
        "candidates",
        Json::Array(vec![object(vec![("content", object(vec![("parts", parts)]))])]),
    )]);
    assert_eq!(GeminiDriver::answer_from(&doc), Ok(answer("b", None)));
}

#[test]
fn models_from_reads_a_document_that_was_built_by_hand() {
    let ids = || Json::Array(vec![object(vec![("id", text("m1"))])]);
    let named = |n: &str| Json::Array(vec![object(vec![("name", text(n))])]);
    assert_eq!(OpenAIDriver::models_from(&object(vec![("data", ids())])), Ok(names(&["m1"])));
    assert_eq!(AnthropicDriver::models_from(&object(vec![("data", ids())])), Ok(names(&["m1"])));
    assert_eq!(
        OllamaDriver::models_from(&object(vec![("models", named("models/m"))])),
        Ok(names(&["models/m"]))
    );
    assert_eq!(
        GeminiDriver::models_from(&object(vec![("models", named("models/m"))])),
        Ok(names(&["m"]))
    );
}

#[test]
fn an_unknown_class_makes_no_driver() {
    for class in ["foo", "", "OpenAI", "openai ", "open-ai"] {
        let r = Driver::create(class, &service(None, Some("k")), "m", "p");
        assert_eq!(
            r.unwrap_err(),
            LlmError::UnknownProviderClass {
                given: class.to_string(),
                valid: names(&["openai", "ollama", "gemini", "anthropic"]),
            }
        );
    }
}

#[test]
fn an_unknown_class_fails_whatever_the_other_fields_hold() {
    let r = Driver::create("foo", &service(None, None), "", "");
    assert!(matches!(r, Err(LlmError::UnknownProviderClass { .. })));
}

#[test]
fn a_missing_key_stops_openai_and_not_ollama() {
    let s = service(None, None);
    assert_eq!(
        Driver::create("openai", &s, "m", "p").unwrap_err(),
        LlmError::MissingCredential { provider: Provider::OpenAI }
    );
    assert_eq!(
        Driver::create("gemini", &s, "m", "p").unwrap_err(),
        LlmError::MissingCredential { provider: Provider::Gemini }
    );
    assert_eq!(
        Driver::create("anthropic", &s, "m", "p").unwrap_err(),
        LlmError::MissingCredential { provider: Provider::Anthropic }
    );
    assert!(matches!(Driver::create("ollama", &s, "m", "p"), Ok(Driver::Ollama(_))));
}

#[test]
fn create_makes_the_driver_of_the_class() {
    let s = service(None, Some("k"));
    assert!(matches!(Driver::create("openai", &s, "m", "p"), Ok(Driver::OpenAI(_))));
    assert!(matches!(Driver::create("ollama", &s, "m", "p"), Ok(Driver::Ollama(_))));
    assert!(matches!(Driver::create("gemini", &s, "m", "p"), Ok(Driver::Gemini(_))));
    assert!(matches!(Driver::create("anthropic", &s, "m", "p"), Ok(Driver::Anthropic(_))));
}

#[test]
fn a_driver_of_any_class_speaks_as_its_own_kind_does() {
    let s = service(None, Some("sk-1"));
    let d = Driver::build(Provider::OpenAI, &s, "gpt-4o", "Be brief.").unwrap();
    assert_eq!(d.model(), "gpt-4o");
    assert_eq!(d.system_prompt(), "Be brief.");
    assert_eq!(d.completion_request("Hi?"), openai().completion_request("Hi?"));
    assert_eq!(d.models_request(), openai().models_request());
    assert_eq!(
        d.complete(&status(401, "x")),
        Err(LlmError::Unauthorized { provider: Provider::OpenAI })
    );
    assert_eq!(d.list_models(&success(r#"{"data":[{"id":"a"}]}"#)), Ok(names(&["a"])));

    let d = Driver::build(Provider::Gemini, &service(None, Some("g-key")), "gemini-pro", "Be brief.")
        .unwrap();
    assert_eq!(d.completion_request("Hi?"), gemini().completion_request("Hi?"));
    assert_eq!(
        d.list_models(&success(r#"{"models":[{"name":"models/a"}]}"#)),
        Ok(names(&["a"]))
    );
}

#[test]
fn provider_names_are_matched_letter_for_letter() {
    assert_eq!(Provider::from_class("openai"), Some(Provider::OpenAI));
    assert_eq!(Provider::from_class("ollama"), Some(Provider::Ollama));
    assert_eq!(Provider::from_class("gemini"), Some(Provider::Gemini));
    assert_eq!(Provider::from_class("anthropic"), Some(Provider::Anthropic));
    assert_eq!(Provider::from_class("Anthropic"), None);
    assert_eq!(Provider::from_class(""), None);
    for p in [Provider::OpenAI, Provider::Ollama, Provider::Gemini, Provider::Anthropic] {
        assert_eq!(Provider::from_class(p.class_name()), Some(p));
    }
    assert_eq!(Provider::valid_classes(), names(&["openai", "ollama", "gemini", "anthropic"]));
}
