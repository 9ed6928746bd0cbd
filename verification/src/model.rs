//! Models that a team can use.
use vstd::prelude::*;
use crate::text::{quote_all, to_bracketed, to_decimal};

verus! {

/// A connection to a provider of language models. The number stands for the client object
/// that the host holds; the library only tells the providers apart.
#[derive(Clone, Copy, Debug, PartialEq, Eq, Structural)]
pub enum LLMProvider {
    Anthropic(u64),
    DeepSeek(u64),
    Gemini(u64),
    OpenAI(u64),
    OpenRouter(u64),
}

/// Model description for storing in the model registry.
#[derive(Debug)]
pub struct ModelDescription {
    /// Name of the model
    pub name: String,
    /// Description of the model
    pub description: String,
    /// Model capabilities (e.g., "reasoning", "coding", "math")
    pub capabilities: Vec<String>,
    /// Context window size
    pub context_window: usize,
    /// Maximum tokens the model can generate
    pub max_tokens: usize,
}

/// What a [`ModelDescription`] holds.
pub struct ModelDescriptionView {
    pub name: Seq<char>,
    pub description: Seq<char>,
    pub capabilities: Seq<Seq<char>>,
    pub context_window: nat,
    pub max_tokens: nat,
}

impl View for ModelDescription {
    type V = ModelDescriptionView;

    open spec fn view(&self) -> ModelDescriptionView {
        ModelDescriptionView {
            name: self.name@,
            description: self.description@,
            capabilities: crate::text::texts(self.capabilities@),
            context_window: self.context_window as nat,
            max_tokens: self.max_tokens as nat,
        }
    }
}

impl Clone for ModelDescription {
    fn clone(&self) -> (copy: Self)
        ensures
            copy@ == self@,
            copy.name@ == self.name@,
            copy.description@ == self.description@,
            copy.capabilities@.len() == self.capabilities@.len(),
            forall|i: int|
                0 <= i < self.capabilities@.len() ==> (#[trigger] copy.capabilities@[i])@
                    == self.capabilities@[i]@,
            copy.context_window == self.context_window,
            copy.max_tokens == self.max_tokens,
    {
        let capabilities = self.capabilities.clone();
        assert(crate::text::texts(capabilities@) =~= crate::text::texts(self.capabilities@));
        ModelDescription {
            name: self.name.clone(),
            description: self.description.clone(),
            capabilities,
            context_window: self.context_window,
            max_tokens: self.max_tokens,
        }
    }
}

/// The text of a description whose list of capabilities is written `capabilities`.
pub open spec fn described(d: ModelDescriptionView, capabilities: Seq<char>) -> Seq<char> {
    "Model: "@ + d.name + "\nDescription: "@ + d.description + "\nCapabilities: "@ + capabilities
        + "\nContext Window: "@ + crate::text::decimal(d.context_window) + "\nMax Tokens: "@
        + crate::text::decimal(d.max_tokens)
}

/// How `Debug` writes a list of strings.
pub open spec fn debug_list(items: Seq<Seq<char>>) -> Seq<char> {
    crate::text::bracketed(items.map_values(|s: Seq<char>| crate::text::debug_quoted(s)))
}

/// The text of a description.
pub open spec fn description_text(d: ModelDescriptionView) -> Seq<char> {
    described(d, debug_list(d.capabilities))
}

impl ModelDescription {
    /// Writes the description, with its capabilities already written as `capabilities`.
    pub fn describe(&self, capabilities: &str) -> (s: String)
        ensures
            s@ == described(self@, capabilities@),
            ("Model: "@ + self.name@ + "\nDescription: "@ + self.description@
                + "\nCapabilities: "@ + capabilities@).is_prefix_of(s@),
            ("\nContext Window: "@ + crate::text::decimal(self.context_window as nat)
                + "\nMax Tokens: "@ + crate::text::decimal(self.max_tokens as nat)).is_suffix_of(s@),
            s@.len() == "Model: "@.len() + self.name@.len() + "\nDescription: "@.len()
                + self.description@.len() + "\nCapabilities: "@.len() + capabilities@.len()
                + "\nContext Window: "@.len() + crate::text::decimal(
                self.context_window as nat,
            ).len() + "\nMax Tokens: "@.len() + crate::text::decimal(self.max_tokens as nat).len(),
    {
        proof {
            crate::text_laws::law_description_headings(self@, capabilities@);
        }
        let mut s = "Model: ".to_owned();
        s.append(self.name.as_str());
        s.append("\nDescription: ");
        s.append(self.description.as_str());
        s.append("\nCapabilities: ");
        s.append(capabilities);
        s.append("\nContext Window: ");
        s.append(to_decimal(self.context_window).as_str());
        s.append("\nMax Tokens: ");
        s.append(to_decimal(self.max_tokens).as_str());
        s
    }

    /// Writes the description, with its capabilities as `Debug` writes a list of strings. The
    /// capabilities add no line break to the four between the lines and those of the name and the
    /// description.
    pub fn to_string(&self) -> (s: String)
        ensures
            s@ == description_text(self@),
            crate::text::line_breaks(s@) == 4 + crate::text::line_breaks(self@.name)
                + crate::text::line_breaks(self@.description),
            ("Model: "@ + self.name@ + "\nDescription: "@ + self.description@
                + "\nCapabilities: "@ + debug_list(crate::text::texts(self.capabilities@)))
                .is_prefix_of(s@),
            ("\nContext Window: "@ + crate::text::decimal(self.context_window as nat)
                + "\nMax Tokens: "@ + crate::text::decimal(self.max_tokens as nat)).is_suffix_of(s@),
    {
        let quoted = quote_all(&self.capabilities);
        let capabilities = to_bracketed(&quoted);
        proof {
            crate::text::lemma_bracketed_is_one_line(crate::text::texts(quoted@));
            crate::laws::law_description_lines(self@, capabilities@);
        }
        self.describe(capabilities.as_str())
    }
}

} // verus!
