//! The contents of Ollama's messages, as texts.

use vstd::prelude::*;
use std::convert::Infallible;

verus! {

/// The kind of a system content; Ollama knows text only.
#[derive(Default, Clone, Copy, Debug, PartialEq, Eq, Structural)]
pub enum SystemContentType {
    #[default]
    Text,
}

/// The content of a system message.
#[derive(Clone, Debug, PartialEq)]
pub struct SystemContent {
    kind: SystemContentType,
    text: String,
}

impl View for SystemContent {
    type V = Seq<char>;

    /// The text of the content.
    closed spec fn view(&self) -> Seq<char> {
        self.text@
    }
}

impl SystemContent {
    /// The content that holds `s`.
    pub fn from(s: String) -> (r: SystemContent)
        ensures
            r@ == s@,
    {
        SystemContent { kind: SystemContentType::Text, text: s }
    }

    /// The content that holds `s`; there is one for every text.
    pub fn from_str(s: &str) -> (r: Result<SystemContent, Infallible>)
        ensures
            r is Ok,
            r->Ok_0@ == s@,
    {
        Ok(SystemContent { kind: SystemContentType::Text, text: s.to_owned() })
    }

    /// The text of the content.
    pub fn text(&self) -> (r: &str)
        ensures
            r@ == self@,
    {
        self.text.as_str()
    }
}

/// The content of an assistant message.
#[derive(Clone, Debug, PartialEq)]
pub struct AssistantContent {
    pub text: String,
}

impl AssistantContent {
    /// The content that holds `s`; there is one for every text.
    pub fn from_str(s: &str) -> (r: Result<AssistantContent, Infallible>)
        ensures
            r is Ok,
            r->Ok_0.text@ == s@,
    {
        Ok(AssistantContent { text: s.to_owned() })
    }
}

/// The content of a user message.
#[derive(Clone, Debug, PartialEq)]
pub enum UserContent {
    Text { text: String },
}

impl UserContent {
    /// The text of the content.
    pub open spec fn text(&self) -> Seq<char> {
        match self {
            UserContent::Text { text } => text@,
        }
    }

    /// The content that holds `s`; there is one for every text.
    pub fn from_str(s: &str) -> (r: Result<UserContent, Infallible>)
        ensures
            r is Ok,
            r->Ok_0.text() == s@,
    {
        Ok(UserContent::Text { text: s.to_owned() })
    }
}

} // verus!
