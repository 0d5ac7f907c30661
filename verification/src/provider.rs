//! The provider classes that a service can declare.

use vstd::prelude::*;

verus! {

/// A provider class.
#[derive(Debug, Clone, Copy, PartialEq, Eq, Structural)]
pub enum Provider {
    OpenAI,
    Ollama,
    Gemini,
    Anthropic,
}

/// The class names, in the order in which they are listed to the user.
pub open spec fn class_names() -> Seq<Seq<char>> {
    seq!["openai"@, "ollama"@, "gemini"@, "anthropic"@]
}

impl Provider {
    /// The name under which a service declares this class.
    pub open spec fn class_text(self) -> Seq<char> {
        match self {
            Provider::OpenAI => "openai"@,
            Provider::Ollama => "ollama"@,
            Provider::Gemini => "gemini"@,
            Provider::Anthropic => "anthropic"@,
        }
    }

    /// The class that `class` names, letter for letter.
    pub open spec fn of_class(class: Seq<char>) -> Option<Provider> {
        if class == "openai"@ {
            Some(Provider::OpenAI)
        } else if class == "ollama"@ {
            Some(Provider::Ollama)
        } else if class == "gemini"@ {
            Some(Provider::Gemini)
        } else if class == "anthropic"@ {
            Some(Provider::Anthropic)
        } else {
            None
        }
    }

    /// The name under which a service declares this class.
    pub fn class_name(self) -> (r: &'static str)
        ensures
            r@ == self.class_text(),
    {
        match self {
            Provider::OpenAI => "openai",
            Provider::Ollama => "ollama",
            Provider::Gemini => "gemini",
            Provider::Anthropic => "anthropic",
        }
    }

    /// The class that `class` names, letter for letter.
    pub fn from_class(class: &str) -> (r: Option<Provider>)
        ensures
            r == Provider::of_class(class@),
    {
        if crate::text::same_text(class, "openai") {
            Some(Provider::OpenAI)
        } else if crate::text::same_text(class, "ollama") {
            Some(Provider::Ollama)
        } else if crate::text::same_text(class, "gemini") {
            Some(Provider::Gemini)
        } else if crate::text::same_text(class, "anthropic") {
            Some(Provider::Anthropic)
        } else {
            None
        }
    }

    /// The class names, in the order in which they are listed to the user.
    pub fn valid_classes() -> (r: Vec<String>)
        ensures
            r.deep_view() == class_names(),
    {
        let mut r: Vec<String> = Vec::new();
        r.push("openai".to_owned());
        r.push("ollama".to_owned());
        r.push("gemini".to_owned());
        r.push("anthropic".to_owned());
        r
    }
}

/// Every class is found again under its own name, and under no other name.
pub proof fn lemma_class_round_trip(provider: Provider, class: Seq<char>)
    ensures
        Provider::of_class(provider.class_text()) == Some(provider),
        Provider::of_class(class) == Some(provider) ==> class == provider.class_text(),
{
    reveal_strlit("openai");
    reveal_strlit("ollama");
    reveal_strlit("gemini");
    reveal_strlit("anthropic");
    assert("openai"@[1] != "ollama"@[1]);
    assert("openai"@[0] != "gemini"@[0]);
    assert("ollama"@[0] != "gemini"@[0]);
}

} // verus!
