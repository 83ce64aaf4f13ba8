//! The providers a client can be built for: their names, the spellings
//! under which a name is looked up, and the environment variables that hold
//! their API keys.

use vstd::prelude::*;
use vstd::string::StringExecFns;

verus! {

/// A model provider that a client can be built for.
#[derive(Debug, Clone, Copy, PartialEq, Eq, Structural)]
pub enum Provider {
    Anthropic,
    Cohere,
    Gemini,
    HuggingFace,
    OpenAI,
    OpenRouter,
    Together,
    XAI,
    Azure,
    DeepSeek,
    Galadriel,
    Groq,
    Hyperbolic,
    Moonshot,
    Mira,
    Mistral,
    Ollama,
    Perplexity,
}

/// How many providers there are.
pub const PROVIDER_COUNT: usize = 18;

/// The provider at position `i` of the declaration order; name lookup tries
/// the providers in this order.
pub open spec fn provider_at(i: int) -> Provider {
    if i == 0 {
        Provider::Anthropic
    } else if i == 1 {
        Provider::Cohere
    } else if i == 2 {
        Provider::Gemini
    } else if i == 3 {
        Provider::HuggingFace
    } else if i == 4 {
        Provider::OpenAI
    } else if i == 5 {
        Provider::OpenRouter
    } else if i == 6 {
        Provider::Together
    } else if i == 7 {
        Provider::XAI
    } else if i == 8 {
        Provider::Azure
    } else if i == 9 {
        Provider::DeepSeek
    } else if i == 10 {
        Provider::Galadriel
    } else if i == 11 {
        Provider::Groq
    } else if i == 12 {
        Provider::Hyperbolic
    } else if i == 13 {
        Provider::Moonshot
    } else if i == 14 {
        Provider::Mira
    } else if i == 15 {
        Provider::Mistral
    } else if i == 16 {
        Provider::Ollama
    } else {
        Provider::Perplexity
    }
}

/// Lowercase of an ASCII letter; every other character is kept.
pub open spec fn ascii_lower_char(c: char) -> char {
    if 'A' <= c && c <= 'Z' {
        ((c as u32) + 32) as char
    } else {
        c
    }
}

/// `s` with every ASCII letter in lowercase.
pub open spec fn ascii_lower(s: Seq<char>) -> Seq<char> {
    s.map_values(|c: char| ascii_lower_char(c))
}

/// Uppercase of an ASCII letter; every other character is kept.
pub open spec fn ascii_upper_char(c: char) -> char {
    if 'a' <= c && c <= 'z' {
        ((c as u32) - 32) as char
    } else {
        c
    }
}

/// `s` with every ASCII letter in uppercase.
pub open spec fn ascii_upper(s: Seq<char>) -> Seq<char> {
    s.map_values(|c: char| ascii_upper_char(c))
}

/// The case conventions under which a provider's name is looked up besides
/// its display name.
#[derive(Debug, Clone, Copy, PartialEq, Eq, Structural)]
pub enum NameCase {
    /// `snake_case`
    Snake,
    /// `camelCase`
    Camel,
    /// `PascalCase`
    Pascal,
    /// `SCREAMING_SNAKE_CASE`
    ScreamingSnake,
    /// `kebab-case`
    Kebab,
    /// `SCREAMING-KEBAB-CASE`
    ScreamingKebab,
    /// `Title Case`
    Title,
    /// `lowercase`
    Lower,
    /// `UPPERCASE`
    Upper,
}

/// Whether a word of the name `s` starts at position `i`: at the start of
/// the name, and where a lowercase letter is followed by an uppercase one.
pub open spec fn word_starts_at(s: Seq<char>, i: int) -> bool {
    i == 0 || (0 < i < s.len() && 'a' <= s[i - 1] <= 'z' && 'A' <= s[i] <= 'Z')
}

/// What a convention puts between two words.
pub open spec fn word_separator(case: NameCase) -> Seq<char> {
    match case {
        NameCase::Snake | NameCase::ScreamingSnake => seq!['_'],
        NameCase::Kebab | NameCase::ScreamingKebab => seq!['-'],
        NameCase::Title => seq![' '],
        _ => Seq::empty(),
    }
}

/// The character at position `i` of the name `s` as a convention cases it:
/// all lowercase, all uppercase, or each word capitalised (in camelCase all
/// but the first).
pub open spec fn cased_char(case: NameCase, s: Seq<char>, i: int) -> char {
    match case {
        NameCase::Snake | NameCase::Kebab | NameCase::Lower => ascii_lower_char(s[i]),
        NameCase::ScreamingSnake | NameCase::ScreamingKebab | NameCase::Upper => ascii_upper_char(s[i]),
        NameCase::Pascal | NameCase::Title => if word_starts_at(s, i) {
            ascii_upper_char(s[i])
        } else {
            ascii_lower_char(s[i])
        },
        NameCase::Camel => if i > 0 && word_starts_at(s, i) {
            ascii_upper_char(s[i])
        } else {
            ascii_lower_char(s[i])
        },
    }
}

/// The name `s`, from position `i` on, spelled by a convention.
pub open spec fn spelled_from(s: Seq<char>, case: NameCase, i: int) -> Seq<char>
    decreases s.len() - i,
{
    if i < 0 || i >= s.len() {
        Seq::empty()
    } else {
        let sep = if i > 0 && word_starts_at(s, i) {
            word_separator(case)
        } else {
            Seq::empty()
        };
        sep.push(cased_char(case, s, i)) + spelled_from(s, case, i + 1)
    }
}

/// The name `s` spelled by a convention.
pub open spec fn spelled(s: Seq<char>, case: NameCase) -> Seq<char> {
    spelled_from(s, case, 0)
}

impl Provider {
    /// The position of the provider in the declaration order.
    pub open spec fn index(self) -> int {
        match self {
            Provider::Anthropic => 0,
            Provider::Cohere => 1,
            Provider::Gemini => 2,
            Provider::HuggingFace => 3,
            Provider::OpenAI => 4,
            Provider::OpenRouter => 5,
            Provider::Together => 6,
            Provider::XAI => 7,
            Provider::Azure => 8,
            Provider::DeepSeek => 9,
            Provider::Galadriel => 10,
            Provider::Groq => 11,
            Provider::Hyperbolic => 12,
            Provider::Moonshot => 13,
            Provider::Mira => 14,
            Provider::Mistral => 15,
            Provider::Ollama => 16,
            Provider::Perplexity => 17,
        }
    }

    /// The display name of the provider: the name of its variant.
    pub open spec fn display(self) -> Seq<char> {
        match self {
            Provider::Anthropic => "Anthropic"@,
            Provider::Cohere => "Cohere"@,
            Provider::Gemini => "Gemini"@,
            Provider::HuggingFace => "HuggingFace"@,
            Provider::OpenAI => "OpenAI"@,
            Provider::OpenRouter => "OpenRouter"@,
            Provider::Together => "Together"@,
            Provider::XAI => "XAI"@,
            Provider::Azure => "Azure"@,
            Provider::DeepSeek => "DeepSeek"@,
            Provider::Galadriel => "Galadriel"@,
            Provider::Groq => "Groq"@,
            Provider::Hyperbolic => "Hyperbolic"@,
            Provider::Moonshot => "Moonshot"@,
            Provider::Mira => "Mira"@,
            Provider::Mistral => "Mistral"@,
            Provider::Ollama => "Ollama"@,
            Provider::Perplexity => "Perplexity"@,
        }
    }

    /// The lowercase name of the provider, the name a client reports.
    pub open spec fn lowercase_name(self) -> Seq<char> {
        ascii_lower(self.display())
    }

    /// The environment variable that holds the provider's API key.
    pub open spec fn spec_api_key(self) -> Seq<char> {
        match self {
            Provider::Anthropic => "ANTHROPIC_API_KEY"@,
            Provider::Cohere => "COHERE_API_KEY"@,
            Provider::Gemini => "GEMINI_API_KEY"@,
            Provider::HuggingFace => "HUGGINGFACE_API_KEY"@,
            Provider::OpenAI => "OPENAI_API_KEY"@,
            Provider::OpenRouter => "OPENROUTER_API_KEY"@,
            Provider::Together => "TOGETHER_API_KEY"@,
            Provider::XAI => "XAI_API_KEY"@,
            Provider::Azure => "AZURE_API_KEY"@,
            Provider::DeepSeek => "DEEPSEEK_API_KEY"@,
            Provider::Galadriel => "GALADRIEL_API_KEY"@,
            Provider::Groq => "GROQ_API_KEY"@,
            Provider::Hyperbolic => "HYPERBOLIC_API_KEY"@,
            Provider::Moonshot => "MOONSHOT_API_KEY"@,
            Provider::Mira => "MIRA_API_KEY"@,
            Provider::Mistral => "MISTRAL_API_KEY"@,
            Provider::Ollama => "OLLAMA_API_KEY"@,
            Provider::Perplexity => "PERPLEXITY_API_KEY"@,
        }
    }

    /// Whether a client for the provider needs an API key.
    pub open spec fn spec_required(self) -> bool {
        self != Provider::Ollama
    }

    /// Whether `s` is one of the other spellings of the provider's name: the
    /// name in snake_case, camelCase, PascalCase, SCREAMING_SNAKE_CASE,
    /// kebab-case, SCREAMING-KEBAB-CASE, Title Case, lowercase or UPPERCASE,
    /// the words of the name being split where a lowercase letter is followed
    /// by an uppercase one.
    pub open spec fn is_alternative(self, s: Seq<char>) -> bool {
        match self {
            Provider::Anthropic => s == "anthropic"@ || s == "Anthropic"@ || s == "ANTHROPIC"@,
            Provider::Cohere => s == "cohere"@ || s == "Cohere"@ || s == "COHERE"@,
            Provider::Gemini => s == "gemini"@ || s == "Gemini"@ || s == "GEMINI"@,
            Provider::HuggingFace => s == "hugging_face"@ || s == "huggingFace"@ || s == "HuggingFace"@ || s == "HUGGING_FACE"@ || s == "hugging-face"@ || s == "HUGGING-FACE"@ || s == "Hugging Face"@ || s == "huggingface"@ || s == "HUGGINGFACE"@,
            Provider::OpenAI => s == "open_ai"@ || s == "openAi"@ || s == "OpenAi"@ || s == "OPEN_AI"@ || s == "open-ai"@ || s == "OPEN-AI"@ || s == "Open Ai"@ || s == "openai"@ || s == "OPENAI"@,
            Provider::OpenRouter => s == "open_router"@ || s == "openRouter"@ || s == "OpenRouter"@ || s == "OPEN_ROUTER"@ || s == "open-router"@ || s == "OPEN-ROUTER"@ || s == "Open Router"@ || s == "openrouter"@ || s == "OPENROUTER"@,
            Provider::Together => s == "together"@ || s == "Together"@ || s == "TOGETHER"@,
            Provider::XAI => s == "xai"@ || s == "Xai"@ || s == "XAI"@,
            Provider::Azure => s == "azure"@ || s == "Azure"@ || s == "AZURE"@,
            Provider::DeepSeek => s == "deep_seek"@ || s == "deepSeek"@ || s == "DeepSeek"@ || s == "DEEP_SEEK"@ || s == "deep-seek"@ || s == "DEEP-SEEK"@ || s == "Deep Seek"@ || s == "deepseek"@ || s == "DEEPSEEK"@,
            Provider::Galadriel => s == "galadriel"@ || s == "Galadriel"@ || s == "GALADRIEL"@,
            Provider::Groq => s == "groq"@ || s == "Groq"@ || s == "GROQ"@,
            Provider::Hyperbolic => s == "hyperbolic"@ || s == "Hyperbolic"@ || s == "HYPERBOLIC"@,
            Provider::Moonshot => s == "moonshot"@ || s == "Moonshot"@ || s == "MOONSHOT"@,
            Provider::Mira => s == "mira"@ || s == "Mira"@ || s == "MIRA"@,
            Provider::Mistral => s == "mistral"@ || s == "Mistral"@ || s == "MISTRAL"@,
            Provider::Ollama => s == "ollama"@ || s == "Ollama"@ || s == "OLLAMA"@,
            Provider::Perplexity => s == "perplexity"@ || s == "Perplexity"@ || s == "PERPLEXITY"@,
        }
    }

    /// The provider at position `i` of the declaration order.
    pub fn nth(i: usize) -> (r: Provider)
        requires
            i < PROVIDER_COUNT,
        ensures
            r == provider_at(i as int),
    {
        match i {
            0 => Provider::Anthropic,
            1 => Provider::Cohere,
            2 => Provider::Gemini,
            3 => Provider::HuggingFace,
            4 => Provider::OpenAI,
            5 => Provider::OpenRouter,
            6 => Provider::Together,
            7 => Provider::XAI,
            8 => Provider::Azure,
            9 => Provider::DeepSeek,
            10 => Provider::Galadriel,
            11 => Provider::Groq,
            12 => Provider::Hyperbolic,
            13 => Provider::Moonshot,
            14 => Provider::Mira,
            15 => Provider::Mistral,
            16 => Provider::Ollama,
            _ => Provider::Perplexity,
        }
    }

    /// Every provider, in declaration order.
    pub fn all() -> (r: Vec<Provider>)
        ensures
            r@.len() == PROVIDER_COUNT,
            forall|i: int| 0 <= i < PROVIDER_COUNT ==> #[trigger] r@[i] == provider_at(i),
    {
        let mut r: Vec<Provider> = Vec::new();
        let mut i: usize = 0;
        while i < PROVIDER_COUNT
            invariant
                i <= PROVIDER_COUNT,
                r@.len() == i,
                forall|k: int| 0 <= k < i ==> #[trigger] r@[k] == provider_at(k),
            decreases PROVIDER_COUNT - i,
        {
            r.push(Provider::nth(i));
            i += 1;
        }
        r
    }

    /// The display name of the provider.
    pub fn as_str(&self) -> (r: &'static str)
        ensures
            r@ == self.display(),
    {
        match self {
            Provider::Anthropic => "Anthropic",
            Provider::Cohere => "Cohere",
            Provider::Gemini => "Gemini",
            Provider::HuggingFace => "HuggingFace",
            Provider::OpenAI => "OpenAI",
            Provider::OpenRouter => "OpenRouter",
            Provider::Together => "Together",
            Provider::XAI => "XAI",
            Provider::Azure => "Azure",
            Provider::DeepSeek => "DeepSeek",
            Provider::Galadriel => "Galadriel",
            Provider::Groq => "Groq",
            Provider::Hyperbolic => "Hyperbolic",
            Provider::Moonshot => "Moonshot",
            Provider::Mira => "Mira",
            Provider::Mistral => "Mistral",
            Provider::Ollama => "Ollama",
            Provider::Perplexity => "Perplexity",
        }
    }

    /// The lowercase name of the provider.
    pub fn name(&self) -> (r: String)
        ensures
            r@ == self.lowercase_name(),
    {
        proof {
            lemma_lowercase_names();
        }
        let s: &'static str = match self {
            Provider::Anthropic => "anthropic",
            Provider::Cohere => "cohere",
            Provider::Gemini => "gemini",
            Provider::HuggingFace => "huggingface",
            Provider::OpenAI => "openai",
            Provider::OpenRouter => "openrouter",
            Provider::Together => "together",
            Provider::XAI => "xai",
            Provider::Azure => "azure",
            Provider::DeepSeek => "deepseek",
            Provider::Galadriel => "galadriel",
            Provider::Groq => "groq",
            Provider::Hyperbolic => "hyperbolic",
            Provider::Moonshot => "moonshot",
            Provider::Mira => "mira",
            Provider::Mistral => "mistral",
            Provider::Ollama => "ollama",
            Provider::Perplexity => "perplexity",
        };
        s.to_owned()
    }

    /// The environment variable that holds the provider's API key.
    pub fn api_key(&self) -> (r: &'static str)
        ensures
            r@ == self.spec_api_key(),
    {
        match self {
            Provider::Anthropic => "ANTHROPIC_API_KEY",
            Provider::Cohere => "COHERE_API_KEY",
            Provider::Gemini => "GEMINI_API_KEY",
            Provider::HuggingFace => "HUGGINGFACE_API_KEY",
            Provider::OpenAI => "OPENAI_API_KEY",
            Provider::OpenRouter => "OPENROUTER_API_KEY",
            Provider::Together => "TOGETHER_API_KEY",
            Provider::XAI => "XAI_API_KEY",
            Provider::Azure => "AZURE_API_KEY",
            Provider::DeepSeek => "DEEPSEEK_API_KEY",
            Provider::Galadriel => "GALADRIEL_API_KEY",
            Provider::Groq => "GROQ_API_KEY",
            Provider::Hyperbolic => "HYPERBOLIC_API_KEY",
            Provider::Moonshot => "MOONSHOT_API_KEY",
            Provider::Mira => "MIRA_API_KEY",
            Provider::Mistral => "MISTRAL_API_KEY",
            Provider::Ollama => "OLLAMA_API_KEY",
            Provider::Perplexity => "PERPLEXITY_API_KEY",
        }
    }

    /// Whether a client for the provider needs an API key; only Ollama runs without one.
    pub fn required(&self) -> (r: bool)
        ensures
            r == self.spec_required(),
    {
        match self {
            Provider::Ollama => false,
            _ => true,
        }
    }

    /// Whether `s` is one of the other spellings of the provider's name.
    pub fn has_alternative(&self, s: &String) -> (r: bool)
        ensures
            r == self.is_alternative(s@),
    {
        match self {
            Provider::Anthropic => same_text(s, "anthropic") || same_text(s, "Anthropic") || same_text(s, "ANTHROPIC"),
            Provider::Cohere => same_text(s, "cohere") || same_text(s, "Cohere") || same_text(s, "COHERE"),
            Provider::Gemini => same_text(s, "gemini") || same_text(s, "Gemini") || same_text(s, "GEMINI"),
            Provider::HuggingFace => same_text(s, "hugging_face") || same_text(s, "huggingFace") || same_text(s, "HuggingFace") || same_text(s, "HUGGING_FACE") || same_text(s, "hugging-face") || same_text(s, "HUGGING-FACE") || same_text(s, "Hugging Face") || same_text(s, "huggingface") || same_text(s, "HUGGINGFACE"),
            Provider::OpenAI => same_text(s, "open_ai") || same_text(s, "openAi") || same_text(s, "OpenAi") || same_text(s, "OPEN_AI") || same_text(s, "open-ai") || same_text(s, "OPEN-AI") || same_text(s, "Open Ai") || same_text(s, "openai") || same_text(s, "OPENAI"),
            Provider::OpenRouter => same_text(s, "open_router") || same_text(s, "openRouter") || same_text(s, "OpenRouter") || same_text(s, "OPEN_ROUTER") || same_text(s, "open-router") || same_text(s, "OPEN-ROUTER") || same_text(s, "Open Router") || same_text(s, "openrouter") || same_text(s, "OPENROUTER"),
            Provider::Together => same_text(s, "together") || same_text(s, "Together") || same_text(s, "TOGETHER"),
            Provider::XAI => same_text(s, "xai") || same_text(s, "Xai") || same_text(s, "XAI"),
            Provider::Azure => same_text(s, "azure") || same_text(s, "Azure") || same_text(s, "AZURE"),
            Provider::DeepSeek => same_text(s, "deep_seek") || same_text(s, "deepSeek") || same_text(s, "DeepSeek") || same_text(s, "DEEP_SEEK") || same_text(s, "deep-seek") || same_text(s, "DEEP-SEEK") || same_text(s, "Deep Seek") || same_text(s, "deepseek") || same_text(s, "DEEPSEEK"),
            Provider::Galadriel => same_text(s, "galadriel") || same_text(s, "Galadriel") || same_text(s, "GALADRIEL"),
            Provider::Groq => same_text(s, "groq") || same_text(s, "Groq") || same_text(s, "GROQ"),
            Provider::Hyperbolic => same_text(s, "hyperbolic") || same_text(s, "Hyperbolic") || same_text(s, "HYPERBOLIC"),
            Provider::Moonshot => same_text(s, "moonshot") || same_text(s, "Moonshot") || same_text(s, "MOONSHOT"),
            Provider::Mira => same_text(s, "mira") || same_text(s, "Mira") || same_text(s, "MIRA"),
            Provider::Mistral => same_text(s, "mistral") || same_text(s, "Mistral") || same_text(s, "MISTRAL"),
            Provider::Ollama => same_text(s, "ollama") || same_text(s, "Ollama") || same_text(s, "OLLAMA"),
            Provider::Perplexity => same_text(s, "perplexity") || same_text(s, "Perplexity") || same_text(s, "PERPLEXITY"),
        }
    }

    /// Finds the provider that `name` denotes: the first, in declaration
    /// order, whose display name it is; else the first of which it is
    /// another spelling.
    pub fn from_name(name: &str) -> (r: Option<Provider>)
        ensures
            r == parse_provider(name@),
    {
        let target: String = name.to_owned();
        let mut i: usize = 0;
        while i < PROVIDER_COUNT
            invariant
                i <= PROVIDER_COUNT,
                target@ == name@,
                exact_match_from(name@, 0) == exact_match_from(name@, i as int),
            decreases PROVIDER_COUNT - i,
        {
            let p: Provider = Provider::nth(i);
            if same_text(&target, p.as_str()) {
                return Some(p);
            }
            i += 1;
        }
        let mut j: usize = 0;
        while j < PROVIDER_COUNT
            invariant
                j <= PROVIDER_COUNT,
                target@ == name@,
                exact_match_from(name@, 0) is None,
                alternative_match_from(name@, 0) == alternative_match_from(name@, j as int),
            decreases PROVIDER_COUNT - j,
        {
            let p: Provider = Provider::nth(j);
            if p.has_alternative(&target) {
                return Some(p);
            }
            j += 1;
        }
        None
    }
}

/// The error of looking up a provider under a name that none has.
#[derive(Debug, Clone, PartialEq, Eq)]
pub struct ParseProviderError {
    /// The name that was looked up.
    pub name: String,
}

impl ParseProviderError {
    /// The message of the error, as the parse error of a kind enum reads.
    pub open spec fn spec_message(&self) -> Seq<char> {
        "Failed to parse \""@ + self.name@ + "\" as Provider"@
    }

    /// The message of the error: `Failed to parse "<name>" as Provider`.
    pub fn message(&self) -> (r: String)
        ensures
            r@ == self.spec_message(),
    {
        let mut out: String = String::new();
        out.append("Failed to parse \"");
        out.append(self.name.as_str());
        out.append("\" as Provider");
        out
    }
}

impl std::str::FromStr for Provider {
    type Err = ParseProviderError;

    fn from_str(s: &str) -> (r: Result<Provider, ParseProviderError>)
        ensures
            match parse_provider(s@) {
                Some(p) => r == Ok::<Provider, ParseProviderError>(p),
                None => (r matches Err(e) && e.name@ == s@),
            },
    {
        match Provider::from_name(s) {
            Some(p) => Ok(p),
            None => Err(ParseProviderError { name: s.to_owned() }),
        }
    }
}

/// Whether `s` reads `lit`.
fn same_text(s: &String, lit: &str) -> (r: bool)
    ensures
        r == (s@ == lit@),
{
    let other: String = lit.to_owned();
    *s == other
}

/// The first provider, from position `i` on, whose display name is `s`.
pub open spec fn exact_match_from(s: Seq<char>, i: int) -> Option<Provider>
    decreases PROVIDER_COUNT - i,
{
    if i < 0 || i >= PROVIDER_COUNT {
        None
    } else if provider_at(i).display() == s {
        Some(provider_at(i))
    } else {
        exact_match_from(s, i + 1)
    }
}

/// The first provider, from position `i` on, of which `s` is another spelling.
pub open spec fn alternative_match_from(s: Seq<char>, i: int) -> Option<Provider>
    decreases PROVIDER_COUNT - i,
{
    if i < 0 || i >= PROVIDER_COUNT {
        None
    } else if provider_at(i).is_alternative(s) {
        Some(provider_at(i))
    } else {
        alternative_match_from(s, i + 1)
    }
}

/// The provider that a name denotes, if any: the first whose display name
/// it is, else the first of which it is another spelling.
pub open spec fn parse_provider(s: Seq<char>) -> Option<Provider> {
    match exact_match_from(s, 0) {
        Some(p) => Some(p),
        None => alternative_match_from(s, 0),
    }
}

/// Every provider stands in the declaration order, at its index; so
/// `Provider::all` lists every provider.
pub proof fn lemma_every_provider_listed(p: Provider)
    ensures
        0 <= p.index() < PROVIDER_COUNT,
        provider_at(p.index()) == p,
{
}

/// Looking up the display name of a provider finds that provider.
pub proof fn lemma_display_name_found(p: Provider)
    ensures
        parse_provider(p.display()) == Some(p),
{
    lemma_name_heads();
    match p {
        Provider::Anthropic => reveal_with_fuel(exact_match_from, 2),
        Provider::Cohere => reveal_with_fuel(exact_match_from, 3),
        Provider::Gemini => reveal_with_fuel(exact_match_from, 4),
        Provider::HuggingFace => reveal_with_fuel(exact_match_from, 5),
        Provider::OpenAI => reveal_with_fuel(exact_match_from, 6),
        Provider::OpenRouter => reveal_with_fuel(exact_match_from, 7),
        Provider::Together => reveal_with_fuel(exact_match_from, 8),
        Provider::XAI => reveal_with_fuel(exact_match_from, 9),
        Provider::Azure => reveal_with_fuel(exact_match_from, 10),
        Provider::DeepSeek => reveal_with_fuel(exact_match_from, 11),
        Provider::Galadriel => reveal_with_fuel(exact_match_from, 12),
        Provider::Groq => reveal_with_fuel(exact_match_from, 13),
        Provider::Hyperbolic => reveal_with_fuel(exact_match_from, 14),
        Provider::Moonshot => reveal_with_fuel(exact_match_from, 15),
        Provider::Mira => reveal_with_fuel(exact_match_from, 16),
        Provider::Mistral => reveal_with_fuel(exact_match_from, 17),
        Provider::Ollama => reveal_with_fuel(exact_match_from, 18),
        Provider::Perplexity => reveal_with_fuel(exact_match_from, 19),
    }
}

/// Looking up the lowercase name of a provider, the name a client reports,
/// finds that provider.
pub proof fn lemma_lowercase_name_found(p: Provider)
    ensures
        parse_provider(p.lowercase_name()) == Some(p),
{
    lemma_name_heads();
    lemma_lowercase_names();
    reveal_with_fuel(exact_match_from, 19);
    match p {
        Provider::Anthropic => reveal_with_fuel(alternative_match_from, 2),
        Provider::Cohere => reveal_with_fuel(alternative_match_from, 3),
        Provider::Gemini => reveal_with_fuel(alternative_match_from, 4),
        Provider::HuggingFace => reveal_with_fuel(alternative_match_from, 5),
        Provider::OpenAI => reveal_with_fuel(alternative_match_from, 6),
        Provider::OpenRouter => reveal_with_fuel(alternative_match_from, 7),
        Provider::Together => reveal_with_fuel(alternative_match_from, 8),
        Provider::XAI => reveal_with_fuel(alternative_match_from, 9),
        Provider::Azure => reveal_with_fuel(alternative_match_from, 10),
        Provider::DeepSeek => reveal_with_fuel(alternative_match_from, 11),
        Provider::Galadriel => reveal_with_fuel(alternative_match_from, 12),
        Provider::Groq => reveal_with_fuel(alternative_match_from, 13),
        Provider::Hyperbolic => reveal_with_fuel(alternative_match_from, 14),
        Provider::Moonshot => reveal_with_fuel(alternative_match_from, 15),
        Provider::Mira => reveal_with_fuel(alternative_match_from, 16),
        Provider::Mistral => reveal_with_fuel(alternative_match_from, 17),
        Provider::Ollama => reveal_with_fuel(alternative_match_from, 18),
        Provider::Perplexity => reveal_with_fuel(alternative_match_from, 19),
    }
}

/// Looking up the name of a provider in uppercase finds that provider.
pub proof fn lemma_uppercase_name_found(p: Provider)
    ensures
        parse_provider(ascii_upper(p.display())) == Some(p),
{
    lemma_name_heads();
    reveal_with_fuel(exact_match_from, 19);
    match p {
        Provider::Anthropic => {
            assert(ascii_upper(Provider::Anthropic.display()) =~= "ANTHROPIC"@) by {
                reveal_strlit("Anthropic");
                reveal_strlit("ANTHROPIC");
            }
            reveal_with_fuel(alternative_match_from, 2);
        },
        Provider::Cohere => {
            assert(ascii_upper(Provider::Cohere.display()) =~= "COHERE"@) by {
                reveal_strlit("Cohere");
                reveal_strlit("COHERE");
            }
            reveal_with_fuel(alternative_match_from, 3);
        },
        Provider::Gemini => {
            assert(ascii_upper(Provider::Gemini.display()) =~= "GEMINI"@) by {
                reveal_strlit("Gemini");
                reveal_strlit("GEMINI");
            }
            reveal_with_fuel(alternative_match_from, 4);
        },
        Provider::HuggingFace => {
            assert(ascii_upper(Provider::HuggingFace.display()) =~= "HUGGINGFACE"@) by {
                reveal_strlit("HuggingFace");
                reveal_strlit("HUGGINGFACE");
            }
            reveal_with_fuel(alternative_match_from, 5);
        },
        Provider::OpenAI => {
            assert(ascii_upper(Provider::OpenAI.display()) =~= "OPENAI"@) by {
                reveal_strlit("OpenAI");
                reveal_strlit("OPENAI");
            }
            reveal_with_fuel(alternative_match_from, 6);
        },
        Provider::OpenRouter => {
            assert(ascii_upper(Provider::OpenRouter.display()) =~= "OPENROUTER"@) by {
                reveal_strlit("OpenRouter");
                reveal_strlit("OPENROUTER");
            }
            reveal_with_fuel(alternative_match_from, 7);
        },
        Provider::Together => {
            assert(ascii_upper(Provider::Together.display()) =~= "TOGETHER"@) by {
                reveal_strlit("Together");
                reveal_strlit("TOGETHER");
            }
            reveal_with_fuel(alternative_match_from, 8);
        },
        Provider::XAI => {
            assert(ascii_upper(Provider::XAI.display()) =~= "XAI"@) by {
                reveal_strlit("XAI");
                reveal_strlit("XAI");
            }
            reveal_with_fuel(alternative_match_from, 9);
        },
        Provider::Azure => {
            assert(ascii_upper(Provider::Azure.display()) =~= "AZURE"@) by {
                reveal_strlit("Azure");
                reveal_strlit("AZURE");
            }
            reveal_with_fuel(alternative_match_from, 10);
        },
        Provider::DeepSeek => {
            assert(ascii_upper(Provider::DeepSeek.display()) =~= "DEEPSEEK"@) by {
                reveal_strlit("DeepSeek");
                reveal_strlit("DEEPSEEK");
            }
            reveal_with_fuel(alternative_match_from, 11);
        },
        Provider::Galadriel => {
            assert(ascii_upper(Provider::Galadriel.display()) =~= "GALADRIEL"@) by {
                reveal_strlit("Galadriel");
                reveal_strlit("GALADRIEL");
            }
            reveal_with_fuel(alternative_match_from, 12);
        },
        Provider::Groq => {
            assert(ascii_upper(Provider::Groq.display()) =~= "GROQ"@) by {
                reveal_strlit("Groq");
                reveal_strlit("GROQ");
            }
            reveal_with_fuel(alternative_match_from, 13);
        },
        Provider::Hyperbolic => {
            assert(ascii_upper(Provider::Hyperbolic.display()) =~= "HYPERBOLIC"@) by {
                reveal_strlit("Hyperbolic");
                reveal_strlit("HYPERBOLIC");
            }
            reveal_with_fuel(alternative_match_from, 14);
        },
        Provider::Moonshot => {
            assert(ascii_upper(Provider::Moonshot.display()) =~= "MOONSHOT"@) by {
                reveal_strlit("Moonshot");
                reveal_strlit("MOONSHOT");
            }
            reveal_with_fuel(alternative_match_from, 15);
        },
        Provider::Mira => {
            assert(ascii_upper(Provider::Mira.display()) =~= "MIRA"@) by {
                reveal_strlit("Mira");
                reveal_strlit("MIRA");
            }
            reveal_with_fuel(alternative_match_from, 16);
        },
        Provider::Mistral => {
            assert(ascii_upper(Provider::Mistral.display()) =~= "MISTRAL"@) by {
                reveal_strlit("Mistral");
                reveal_strlit("MISTRAL");
            }
            reveal_with_fuel(alternative_match_from, 17);
        },
        Provider::Ollama => {
            assert(ascii_upper(Provider::Ollama.display()) =~= "OLLAMA"@) by {
                reveal_strlit("Ollama");
                reveal_strlit("OLLAMA");
            }
            reveal_with_fuel(alternative_match_from, 18);
        },
        Provider::Perplexity => {
            assert(ascii_upper(Provider::Perplexity.display()) =~= "PERPLEXITY"@) by {
                reveal_strlit("Perplexity");
                reveal_strlit("PERPLEXITY");
            }
            reveal_with_fuel(alternative_match_from, 19);
        },
    }
}

/// Looking up the name of a provider spelled by any of the case conventions
/// finds that provider.
pub proof fn lemma_every_spelling_found(p: Provider, case: NameCase)
    ensures
        parse_provider(spelled(p.display(), case)) == Some(p),
{
    lemma_name_heads();
    reveal_with_fuel(exact_match_from, 19);
    match p {
        Provider::Anthropic => {
            lemma_spellings_of_anthropic();
            reveal_with_fuel(alternative_match_from, 2);
        },
        Provider::Cohere => {
            lemma_spellings_of_cohere();
            reveal_with_fuel(alternative_match_from, 3);
        },
        Provider::Gemini => {
            lemma_spellings_of_gemini();
            reveal_with_fuel(alternative_match_from, 4);
        },
        Provider::HuggingFace => {
            lemma_spellings_of_huggingface();
            reveal_with_fuel(alternative_match_from, 5);
        },
        Provider::OpenAI => {
            lemma_spellings_of_openai();
            reveal_with_fuel(alternative_match_from, 6);
        },
        Provider::OpenRouter => {
            lemma_spellings_of_openrouter();
            reveal_with_fuel(alternative_match_from, 7);
        },
        Provider::Together => {
            lemma_spellings_of_together();
            reveal_with_fuel(alternative_match_from, 8);
        },
        Provider::XAI => {
            lemma_spellings_of_xai();
            reveal_with_fuel(alternative_match_from, 9);
        },
        Provider::Azure => {
            lemma_spellings_of_azure();
            reveal_with_fuel(alternative_match_from, 10);
        },
        Provider::DeepSeek => {
            lemma_spellings_of_deepseek();
            reveal_with_fuel(alternative_match_from, 11);
        },
        Provider::Galadriel => {
            lemma_spellings_of_galadriel();
            reveal_with_fuel(alternative_match_from, 12);
        },
        Provider::Groq => {
            lemma_spellings_of_groq();
            reveal_with_fuel(alternative_match_from, 13);
        },
        Provider::Hyperbolic => {
            lemma_spellings_of_hyperbolic();
            reveal_with_fuel(alternative_match_from, 14);
        },
        Provider::Moonshot => {
            lemma_spellings_of_moonshot();
            reveal_with_fuel(alternative_match_from, 15);
        },
        Provider::Mira => {
            lemma_spellings_of_mira();
            reveal_with_fuel(alternative_match_from, 16);
        },
        Provider::Mistral => {
            lemma_spellings_of_mistral();
            reveal_with_fuel(alternative_match_from, 17);
        },
        Provider::Ollama => {
            lemma_spellings_of_ollama();
            reveal_with_fuel(alternative_match_from, 18);
        },
        Provider::Perplexity => {
            lemma_spellings_of_perplexity();
            reveal_with_fuel(alternative_match_from, 19);
        },
    }
}

/// The other spellings under which a provider's name is looked up are
/// exactly its name spelled by the case conventions.
pub proof fn lemma_alternatives_are_spellings(p: Provider, s: Seq<char>)
    ensures
        p.is_alternative(s) <==> exists|case: NameCase| s == #[trigger] spelled(p.display(), case),
{
    match p {
        Provider::Anthropic => lemma_spellings_of_anthropic(),
        Provider::Cohere => lemma_spellings_of_cohere(),
        Provider::Gemini => lemma_spellings_of_gemini(),
        Provider::HuggingFace => lemma_spellings_of_huggingface(),
        Provider::OpenAI => lemma_spellings_of_openai(),
        Provider::OpenRouter => lemma_spellings_of_openrouter(),
        Provider::Together => lemma_spellings_of_together(),
        Provider::XAI => lemma_spellings_of_xai(),
        Provider::Azure => lemma_spellings_of_azure(),
        Provider::DeepSeek => lemma_spellings_of_deepseek(),
        Provider::Galadriel => lemma_spellings_of_galadriel(),
        Provider::Groq => lemma_spellings_of_groq(),
        Provider::Hyperbolic => lemma_spellings_of_hyperbolic(),
        Provider::Moonshot => lemma_spellings_of_moonshot(),
        Provider::Mira => lemma_spellings_of_mira(),
        Provider::Mistral => lemma_spellings_of_mistral(),
        Provider::Ollama => lemma_spellings_of_ollama(),
        Provider::Perplexity => lemma_spellings_of_perplexity(),
    }
}

/// The environment variable that holds a provider's API key is the
/// provider's name in uppercase followed by `_API_KEY`.
pub proof fn lemma_api_key_named_after_provider(p: Provider)
    ensures
        p.spec_api_key() == ascii_upper(p.display()) + "_API_KEY"@,
{
    match p {
        Provider::Anthropic => {
            assert(ascii_upper(Provider::Anthropic.display()) + "_API_KEY"@ =~= "ANTHROPIC_API_KEY"@) by {
                reveal_strlit("Anthropic");
                reveal_strlit("_API_KEY");
                reveal_strlit("ANTHROPIC_API_KEY");
            }
        },
        Provider::Cohere => {
            assert(ascii_upper(Provider::Cohere.display()) + "_API_KEY"@ =~= "COHERE_API_KEY"@) by {
                reveal_strlit("Cohere");
                reveal_strlit("_API_KEY");
                reveal_strlit("COHERE_API_KEY");
            }
        },
        Provider::Gemini => {
            assert(ascii_upper(Provider::Gemini.display()) + "_API_KEY"@ =~= "GEMINI_API_KEY"@) by {
                reveal_strlit("Gemini");
                reveal_strlit("_API_KEY");
                reveal_strlit("GEMINI_API_KEY");
            }
        },
        Provider::HuggingFace => {
            assert(ascii_upper(Provider::HuggingFace.display()) + "_API_KEY"@ =~= "HUGGINGFACE_API_KEY"@) by {
                reveal_strlit("HuggingFace");
                reveal_strlit("_API_KEY");
                reveal_strlit("HUGGINGFACE_API_KEY");
            }
        },
        Provider::OpenAI => {
            assert(ascii_upper(Provider::OpenAI.display()) + "_API_KEY"@ =~= "OPENAI_API_KEY"@) by {
                reveal_strlit("OpenAI");
                reveal_strlit("_API_KEY");
                reveal_strlit("OPENAI_API_KEY");
            }
        },
        Provider::OpenRouter => {
            assert(ascii_upper(Provider::OpenRouter.display()) + "_API_KEY"@ =~= "OPENROUTER_API_KEY"@) by {
                reveal_strlit("OpenRouter");
                reveal_strlit("_API_KEY");
                reveal_strlit("OPENROUTER_API_KEY");
            }
        },
        Provider::Together => {
            assert(ascii_upper(Provider::Together.display()) + "_API_KEY"@ =~= "TOGETHER_API_KEY"@) by {
                reveal_strlit("Together");
                reveal_strlit("_API_KEY");
                reveal_strlit("TOGETHER_API_KEY");
            }
        },
        Provider::XAI => {
            assert(ascii_upper(Provider::XAI.display()) + "_API_KEY"@ =~= "XAI_API_KEY"@) by {
                reveal_strlit("XAI");
                reveal_strlit("_API_KEY");
                reveal_strlit("XAI_API_KEY");
            }
        },
        Provider::Azure => {
            assert(ascii_upper(Provider::Azure.display()) + "_API_KEY"@ =~= "AZURE_API_KEY"@) by {
                reveal_strlit("Azure");
                reveal_strlit("_API_KEY");
                reveal_strlit("AZURE_API_KEY");
            }
        },
        Provider::DeepSeek => {
            assert(ascii_upper(Provider::DeepSeek.display()) + "_API_KEY"@ =~= "DEEPSEEK_API_KEY"@) by {
                reveal_strlit("DeepSeek");
                reveal_strlit("_API_KEY");
                reveal_strlit("DEEPSEEK_API_KEY");
            }
        },
        Provider::Galadriel => {
            assert(ascii_upper(Provider::Galadriel.display()) + "_API_KEY"@ =~= "GALADRIEL_API_KEY"@) by {
                reveal_strlit("Galadriel");
                reveal_strlit("_API_KEY");
                reveal_strlit("GALADRIEL_API_KEY");
            }
        },
        Provider::Groq => {
            assert(ascii_upper(Provider::Groq.display()) + "_API_KEY"@ =~= "GROQ_API_KEY"@) by {
                reveal_strlit("Groq");
                reveal_strlit("_API_KEY");
                reveal_strlit("GROQ_API_KEY");
            }
        },
        Provider::Hyperbolic => {
            assert(ascii_upper(Provider::Hyperbolic.display()) + "_API_KEY"@ =~= "HYPERBOLIC_API_KEY"@) by {
                reveal_strlit("Hyperbolic");
                reveal_strlit("_API_KEY");
                reveal_strlit("HYPERBOLIC_API_KEY");
            }
        },
        Provider::Moonshot => {
            assert(ascii_upper(Provider::Moonshot.display()) + "_API_KEY"@ =~= "MOONSHOT_API_KEY"@) by {
                reveal_strlit("Moonshot");
                reveal_strlit("_API_KEY");
                reveal_strlit("MOONSHOT_API_KEY");
            }
        },
        Provider::Mira => {
            assert(ascii_upper(Provider::Mira.display()) + "_API_KEY"@ =~= "MIRA_API_KEY"@) by {
                reveal_strlit("Mira");
                reveal_strlit("_API_KEY");
                reveal_strlit("MIRA_API_KEY");
            }
        },
        Provider::Mistral => {
            assert(ascii_upper(Provider::Mistral.display()) + "_API_KEY"@ =~= "MISTRAL_API_KEY"@) by {
                reveal_strlit("Mistral");
                reveal_strlit("_API_KEY");
                reveal_strlit("MISTRAL_API_KEY");
            }
        },
        Provider::Ollama => {
            assert(ascii_upper(Provider::Ollama.display()) + "_API_KEY"@ =~= "OLLAMA_API_KEY"@) by {
                reveal_strlit("Ollama");
                reveal_strlit("_API_KEY");
                reveal_strlit("OLLAMA_API_KEY");
            }
        },
        Provider::Perplexity => {
            assert(ascii_upper(Provider::Perplexity.display()) + "_API_KEY"@ =~= "PERPLEXITY_API_KEY"@) by {
                reveal_strlit("Perplexity");
                reveal_strlit("_API_KEY");
                reveal_strlit("PERPLEXITY_API_KEY");
            }
        },
    }
}

/// How each case convention spells the name of `Provider::Anthropic`.
proof fn lemma_spellings_of_anthropic()
    ensures
        spelled(Provider::Anthropic.display(), NameCase::Snake) == "anthropic"@,
        spelled(Provider::Anthropic.display(), NameCase::Camel) == "anthropic"@,
        spelled(Provider::Anthropic.display(), NameCase::Pascal) == "Anthropic"@,
        spelled(Provider::Anthropic.display(), NameCase::ScreamingSnake) == "ANTHROPIC"@,
        spelled(Provider::Anthropic.display(), NameCase::Kebab) == "anthropic"@,
        spelled(Provider::Anthropic.display(), NameCase::ScreamingKebab) == "ANTHROPIC"@,
        spelled(Provider::Anthropic.display(), NameCase::Title) == "Anthropic"@,
        spelled(Provider::Anthropic.display(), NameCase::Lower) == "anthropic"@,
        spelled(Provider::Anthropic.display(), NameCase::Upper) == "ANTHROPIC"@,
{
    assert(spelled(Provider::Anthropic.display(), NameCase::Snake) =~= "anthropic"@) by {
        reveal_strlit("Anthropic");
        reveal_strlit("anthropic");
        reveal_with_fuel(spelled_from, 10);
    }
    assert(spelled(Provider::Anthropic.display(), NameCase::Camel) =~= "anthropic"@) by {
        reveal_strlit("Anthropic");
        reveal_strlit("anthropic");
        reveal_with_fuel(spelled_from, 10);
    }
    assert(spelled(Provider::Anthropic.display(), NameCase::Pascal) =~= "Anthropic"@) by {
        reveal_strlit("Anthropic");
        reveal_strlit("Anthropic");
        reveal_with_fuel(spelled_from, 10);
    }
    assert(spelled(Provider::Anthropic.display(), NameCase::ScreamingSnake) =~= "ANTHROPIC"@) by {
        reveal_strlit("Anthropic");
        reveal_strlit("ANTHROPIC");
        reveal_with_fuel(spelled_from, 10);
    }
    assert(spelled(Provider::Anthropic.display(), NameCase::Kebab) =~= "anthropic"@) by {
        reveal_strlit("Anthropic");
        reveal_strlit("anthropic");
        reveal_with_fuel(spelled_from, 10);
    }
    assert(spelled(Provider::Anthropic.display(), NameCase::ScreamingKebab) =~= "ANTHROPIC"@) by {
        reveal_strlit("Anthropic");
        reveal_strlit("ANTHROPIC");
        reveal_with_fuel(spelled_from, 10);
    }
    assert(spelled(Provider::Anthropic.display(), NameCase::Title) =~= "Anthropic"@) by {
        reveal_strlit("Anthropic");
        reveal_strlit("Anthropic");
        reveal_with_fuel(spelled_from, 10);
    }
    assert(spelled(Provider::Anthropic.display(), NameCase::Lower) =~= "anthropic"@) by {
        reveal_strlit("Anthropic");
        reveal_strlit("anthropic");
        reveal_with_fuel(spelled_from, 10);
    }
    assert(spelled(Provider::Anthropic.display(), NameCase::Upper) =~= "ANTHROPIC"@) by {
        reveal_strlit("Anthropic");
        reveal_strlit("ANTHROPIC");
        reveal_with_fuel(spelled_from, 10);
    }
}

/// How each case convention spells the name of `Provider::Cohere`.
proof fn lemma_spellings_of_cohere()
    ensures
        spelled(Provider::Cohere.display(), NameCase::Snake) == "cohere"@,
        spelled(Provider::Cohere.display(), NameCase::Camel) == "cohere"@,
        spelled(Provider::Cohere.display(), NameCase::Pascal) == "Cohere"@,
        spelled(Provider::Cohere.display(), NameCase::ScreamingSnake) == "COHERE"@,
        spelled(Provider::Cohere.display(), NameCase::Kebab) == "cohere"@,
        spelled(Provider::Cohere.display(), NameCase::ScreamingKebab) == "COHERE"@,
        spelled(Provider::Cohere.display(), NameCase::Title) == "Cohere"@,
        spelled(Provider::Cohere.display(), NameCase::Lower) == "cohere"@,
        spelled(Provider::Cohere.display(), NameCase::Upper) == "COHERE"@,
{
    assert(spelled(Provider::Cohere.display(), NameCase::Snake) =~= "cohere"@) by {
        reveal_strlit("Cohere");
        reveal_strlit("cohere");
        reveal_with_fuel(spelled_from, 7);
    }
    assert(spelled(Provider::Cohere.display(), NameCase::Camel) =~= "cohere"@) by {
        reveal_strlit("Cohere");
        reveal_strlit("cohere");
        reveal_with_fuel(spelled_from, 7);
    }
    assert(spelled(Provider::Cohere.display(), NameCase::Pascal) =~= "Cohere"@) by {
        reveal_strlit("Cohere");
        reveal_strlit("Cohere");
        reveal_with_fuel(spelled_from, 7);
    }
    assert(spelled(Provider::Cohere.display(), NameCase::ScreamingSnake) =~= "COHERE"@) by {
        reveal_strlit("Cohere");
        reveal_strlit("COHERE");
        reveal_with_fuel(spelled_from, 7);
    }
    assert(spelled(Provider::Cohere.display(), NameCase::Kebab) =~= "cohere"@) by {
        reveal_strlit("Cohere");
        reveal_strlit("cohere");
        reveal_with_fuel(spelled_from, 7);
    }
    assert(spelled(Provider::Cohere.display(), NameCase::ScreamingKebab) =~= "COHERE"@) by {
        reveal_strlit("Cohere");
        reveal_strlit("COHERE");
        reveal_with_fuel(spelled_from, 7);
    }
    assert(spelled(Provider::Cohere.display(), NameCase::Title) =~= "Cohere"@) by {
        reveal_strlit("Cohere");
        reveal_strlit("Cohere");
        reveal_with_fuel(spelled_from, 7);
    }
    assert(spelled(Provider::Cohere.display(), NameCase::Lower) =~= "cohere"@) by {
        reveal_strlit("Cohere");
        reveal_strlit("cohere");
        reveal_with_fuel(spelled_from, 7);
    }
    assert(spelled(Provider::Cohere.display(), NameCase::Upper) =~= "COHERE"@) by {
        reveal_strlit("Cohere");
        reveal_strlit("COHERE");
        reveal_with_fuel(spelled_from, 7);
    }
}

/// How each case convention spells the name of `Provider::Gemini`.
proof fn lemma_spellings_of_gemini()
    ensures
        spelled(Provider::Gemini.display(), NameCase::Snake) == "gemini"@,
        spelled(Provider::Gemini.display(), NameCase::Camel) == "gemini"@,
        spelled(Provider::Gemini.display(), NameCase::Pascal) == "Gemini"@,
        spelled(Provider::Gemini.display(), NameCase::ScreamingSnake) == "GEMINI"@,
        spelled(Provider::Gemini.display(), NameCase::Kebab) == "gemini"@,
        spelled(Provider::Gemini.display(), NameCase::ScreamingKebab) == "GEMINI"@,
        spelled(Provider::Gemini.display(), NameCase::Title) == "Gemini"@,
        spelled(Provider::Gemini.display(), NameCase::Lower) == "gemini"@,
        spelled(Provider::Gemini.display(), NameCase::Upper) == "GEMINI"@,
{
    assert(spelled(Provider::Gemini.display(), NameCase::Snake) =~= "gemini"@) by {
        reveal_strlit("Gemini");
        reveal_strlit("gemini");
        reveal_with_fuel(spelled_from, 7);
    }
    assert(spelled(Provider::Gemini.display(), NameCase::Camel) =~= "gemini"@) by {
        reveal_strlit("Gemini");
        reveal_strlit("gemini");
        reveal_with_fuel(spelled_from, 7);
    }
    assert(spelled(Provider::Gemini.display(), NameCase::Pascal) =~= "Gemini"@) by {
        reveal_strlit("Gemini");
        reveal_strlit("Gemini");
        reveal_with_fuel(spelled_from, 7);
    }
    assert(spelled(Provider::Gemini.display(), NameCase::ScreamingSnake) =~= "GEMINI"@) by {
        reveal_strlit("Gemini");
        reveal_strlit("GEMINI");
        reveal_with_fuel(spelled_from, 7);
    }
    assert(spelled(Provider::Gemini.display(), NameCase::Kebab) =~= "gemini"@) by {
        reveal_strlit("Gemini");
        reveal_strlit("gemini");
        reveal_with_fuel(spelled_from, 7);
    }
    assert(spelled(Provider::Gemini.display(), NameCase::ScreamingKebab) =~= "GEMINI"@) by {
        reveal_strlit("Gemini");
        reveal_strlit("GEMINI");
        reveal_with_fuel(spelled_from, 7);
    }
    assert(spelled(Provider::Gemini.display(), NameCase::Title) =~= "Gemini"@) by {
        reveal_strlit("Gemini");
        reveal_strlit("Gemini");
        reveal_with_fuel(spelled_from, 7);
    }
    assert(spelled(Provider::Gemini.display(), NameCase::Lower) =~= "gemini"@) by {
        reveal_strlit("Gemini");
        reveal_strlit("gemini");
        reveal_with_fuel(spelled_from, 7);
    }
    assert(spelled(Provider::Gemini.display(), NameCase::Upper) =~= "GEMINI"@) by {
        reveal_strlit("Gemini");
        reveal_strlit("GEMINI");
        reveal_with_fuel(spelled_from, 7);
    }
}

/// How each case convention spells the name of `Provider::HuggingFace`.
proof fn lemma_spellings_of_huggingface()
    ensures
        spelled(Provider::HuggingFace.display(), NameCase::Snake) == "hugging_face"@,
        spelled(Provider::HuggingFace.display(), NameCase::Camel) == "huggingFace"@,
        spelled(Provider::HuggingFace.display(), NameCase::Pascal) == "HuggingFace"@,
        spelled(Provider::HuggingFace.display(), NameCase::ScreamingSnake) == "HUGGING_FACE"@,
        spelled(Provider::HuggingFace.display(), NameCase::Kebab) == "hugging-face"@,
        spelled(Provider::HuggingFace.display(), NameCase::ScreamingKebab) == "HUGGING-FACE"@,
        spelled(Provider::HuggingFace.display(), NameCase::Title) == "Hugging Face"@,
        spelled(Provider::HuggingFace.display(), NameCase::Lower) == "huggingface"@,
        spelled(Provider::HuggingFace.display(), NameCase::Upper) == "HUGGINGFACE"@,
{
    assert(spelled(Provider::HuggingFace.display(), NameCase::Snake) =~= "hugging_face"@) by {
        reveal_strlit("HuggingFace");
        reveal_strlit("hugging_face");
        reveal_with_fuel(spelled_from, 12);
    }
    assert(spelled(Provider::HuggingFace.display(), NameCase::Camel) =~= "huggingFace"@) by {
        reveal_strlit("HuggingFace");
        reveal_strlit("huggingFace");
        reveal_with_fuel(spelled_from, 12);
    }
    assert(spelled(Provider::HuggingFace.display(), NameCase::Pascal) =~= "HuggingFace"@) by {
        reveal_strlit("HuggingFace");
        reveal_strlit("HuggingFace");
        reveal_with_fuel(spelled_from, 12);
    }
    assert(spelled(Provider::HuggingFace.display(), NameCase::ScreamingSnake) =~= "HUGGING_FACE"@) by {
        reveal_strlit("HuggingFace");
        reveal_strlit("HUGGING_FACE");
        reveal_with_fuel(spelled_from, 12);
    }
    assert(spelled(Provider::HuggingFace.display(), NameCase::Kebab) =~= "hugging-face"@) by {
        reveal_strlit("HuggingFace");
        reveal_strlit("hugging-face");
        reveal_with_fuel(spelled_from, 12);
    }
    assert(spelled(Provider::HuggingFace.display(), NameCase::ScreamingKebab) =~= "HUGGING-FACE"@) by {
        reveal_strlit("HuggingFace");
        reveal_strlit("HUGGING-FACE");
        reveal_with_fuel(spelled_from, 12);
    }
    assert(spelled(Provider::HuggingFace.display(), NameCase::Title) =~= "Hugging Face"@) by {
        reveal_strlit("HuggingFace");
        reveal_strlit("Hugging Face");
        reveal_with_fuel(spelled_from, 12);
    }
    assert(spelled(Provider::HuggingFace.display(), NameCase::Lower) =~= "huggingface"@) by {
        reveal_strlit("HuggingFace");
        reveal_strlit("huggingface");
        reveal_with_fuel(spelled_from, 12);
    }
    assert(spelled(Provider::HuggingFace.display(), NameCase::Upper) =~= "HUGGINGFACE"@) by {
        reveal_strlit("HuggingFace");
        reveal_strlit("HUGGINGFACE");
        reveal_with_fuel(spelled_from, 12);
    }
}

/// How each case convention spells the name of `Provider::OpenAI`.
proof fn lemma_spellings_of_openai()
    ensures
        spelled(Provider::OpenAI.display(), NameCase::Snake) == "open_ai"@,
        spelled(Provider::OpenAI.display(), NameCase::Camel) == "openAi"@,
        spelled(Provider::OpenAI.display(), NameCase::Pascal) == "OpenAi"@,
        spelled(Provider::OpenAI.display(), NameCase::ScreamingSnake) == "OPEN_AI"@,
        spelled(Provider::OpenAI.display(), NameCase::Kebab) == "open-ai"@,
        spelled(Provider::OpenAI.display(), NameCase::ScreamingKebab) == "OPEN-AI"@,
        spelled(Provider::OpenAI.display(), NameCase::Title) == "Open Ai"@,
        spelled(Provider::OpenAI.display(), NameCase::Lower) == "openai"@,
        spelled(Provider::OpenAI.display(), NameCase::Upper) == "OPENAI"@,
{
    assert(spelled(Provider::OpenAI.display(), NameCase::Snake) =~= "open_ai"@) by {
        reveal_strlit("OpenAI");
        reveal_strlit("open_ai");
        reveal_with_fuel(spelled_from, 7);
    }
    assert(spelled(Provider::OpenAI.display(), NameCase::Camel) =~= "openAi"@) by {
        reveal_strlit("OpenAI");
        reveal_strlit("openAi");
        reveal_with_fuel(spelled_from, 7);
    }
    assert(spelled(Provider::OpenAI.display(), NameCase::Pascal) =~= "OpenAi"@) by {
        reveal_strlit("OpenAI");
        reveal_strlit("OpenAi");
        reveal_with_fuel(spelled_from, 7);
    }
    assert(spelled(Provider::OpenAI.display(), NameCase::ScreamingSnake) =~= "OPEN_AI"@) by {
        reveal_strlit("OpenAI");
        reveal_strlit("OPEN_AI");
        reveal_with_fuel(spelled_from, 7);
    }
    assert(spelled(Provider::OpenAI.display(), NameCase::Kebab) =~= "open-ai"@) by {
        reveal_strlit("OpenAI");
        reveal_strlit("open-ai");
        reveal_with_fuel(spelled_from, 7);
    }
    assert(spelled(Provider::OpenAI.display(), NameCase::ScreamingKebab) =~= "OPEN-AI"@) by {
        reveal_strlit("OpenAI");
        reveal_strlit("OPEN-AI");
        reveal_with_fuel(spelled_from, 7);
    }
    assert(spelled(Provider::OpenAI.display(), NameCase::Title) =~= "Open Ai"@) by {
        reveal_strlit("OpenAI");
        reveal_strlit("Open Ai");
        reveal_with_fuel(spelled_from, 7);
    }
    assert(spelled(Provider::OpenAI.display(), NameCase::Lower) =~= "openai"@) by {
        reveal_strlit("OpenAI");
        reveal_strlit("openai");
        reveal_with_fuel(spelled_from, 7);
    }
    assert(spelled(Provider::OpenAI.display(), NameCase::Upper) =~= "OPENAI"@) by {
        reveal_strlit("OpenAI");
        reveal_strlit("OPENAI");
        reveal_with_fuel(spelled_from, 7);
    }
}

/// How each case convention spells the name of `Provider::OpenRouter`.
proof fn lemma_spellings_of_openrouter()
    ensures
        spelled(Provider::OpenRouter.display(), NameCase::Snake) == "open_router"@,
        spelled(Provider::OpenRouter.display(), NameCase::Camel) == "openRouter"@,
        spelled(Provider::OpenRouter.display(), NameCase::Pascal) == "OpenRouter"@,
        spelled(Provider::OpenRouter.display(), NameCase::ScreamingSnake) == "OPEN_ROUTER"@,
        spelled(Provider::OpenRouter.display(), NameCase::Kebab) == "open-router"@,
        spelled(Provider::OpenRouter.display(), NameCase::ScreamingKebab) == "OPEN-ROUTER"@,
        spelled(Provider::OpenRouter.display(), NameCase::Title) == "Open Router"@,
        spelled(Provider::OpenRouter.display(), NameCase::Lower) == "openrouter"@,
        spelled(Provider::OpenRouter.display(), NameCase::Upper) == "OPENROUTER"@,
{
    assert(spelled(Provider::OpenRouter.display(), NameCase::Snake) =~= "open_router"@) by {
        reveal_strlit("OpenRouter");
        reveal_strlit("open_router");
        reveal_with_fuel(spelled_from, 11);
    }
    assert(spelled(Provider::OpenRouter.display(), NameCase::Camel) =~= "openRouter"@) by {
        reveal_strlit("OpenRouter");
        reveal_strlit("openRouter");
        reveal_with_fuel(spelled_from, 11);
    }
    assert(spelled(Provider::OpenRouter.display(), NameCase::Pascal) =~= "OpenRouter"@) by {
        reveal_strlit("OpenRouter");
        reveal_strlit("OpenRouter");
        reveal_with_fuel(spelled_from, 11);
    }
    assert(spelled(Provider::OpenRouter.display(), NameCase::ScreamingSnake) =~= "OPEN_ROUTER"@) by {
        reveal_strlit("OpenRouter");
        reveal_strlit("OPEN_ROUTER");
        reveal_with_fuel(spelled_from, 11);
    }
    assert(spelled(Provider::OpenRouter.display(), NameCase::Kebab) =~= "open-router"@) by {
        reveal_strlit("OpenRouter");
        reveal_strlit("open-router");
        reveal_with_fuel(spelled_from, 11);
    }
    assert(spelled(Provider::OpenRouter.display(), NameCase::ScreamingKebab) =~= "OPEN-ROUTER"@) by {
        reveal_strlit("OpenRouter");
        reveal_strlit("OPEN-ROUTER");
        reveal_with_fuel(spelled_from, 11);
    }
    assert(spelled(Provider::OpenRouter.display(), NameCase::Title) =~= "Open Router"@) by {
        reveal_strlit("OpenRouter");
        reveal_strlit("Open Router");
        reveal_with_fuel(spelled_from, 11);
    }
    assert(spelled(Provider::OpenRouter.display(), NameCase::Lower) =~= "openrouter"@) by {
        reveal_strlit("OpenRouter");
        reveal_strlit("openrouter");
        reveal_with_fuel(spelled_from, 11);
    }
    assert(spelled(Provider::OpenRouter.display(), NameCase::Upper) =~= "OPENROUTER"@) by {
        reveal_strlit("OpenRouter");
        reveal_strlit("OPENROUTER");
        reveal_with_fuel(spelled_from, 11);
    }
}

/// How each case convention spells the name of `Provider::Together`.
proof fn lemma_spellings_of_together()
    ensures
        spelled(Provider::Together.display(), NameCase::Snake) == "together"@,
        spelled(Provider::Together.display(), NameCase::Camel) == "together"@,
        spelled(Provider::Together.display(), NameCase::Pascal) == "Together"@,
        spelled(Provider::Together.display(), NameCase::ScreamingSnake) == "TOGETHER"@,
        spelled(Provider::Together.display(), NameCase::Kebab) == "together"@,
        spelled(Provider::Together.display(), NameCase::ScreamingKebab) == "TOGETHER"@,
        spelled(Provider::Together.display(), NameCase::Title) == "Together"@,
        spelled(Provider::Together.display(), NameCase::Lower) == "together"@,
        spelled(Provider::Together.display(), NameCase::Upper) == "TOGETHER"@,
{
    assert(spelled(Provider::Together.display(), NameCase::Snake) =~= "together"@) by {
        reveal_strlit("Together");
        reveal_strlit("together");
        reveal_with_fuel(spelled_from, 9);
    }
    assert(spelled(Provider::Together.display(), NameCase::Camel) =~= "together"@) by {
        reveal_strlit("Together");
        reveal_strlit("together");
        reveal_with_fuel(spelled_from, 9);
    }
    assert(spelled(Provider::Together.display(), NameCase::Pascal) =~= "Together"@) by {
        reveal_strlit("Together");
        reveal_strlit("Together");
        reveal_with_fuel(spelled_from, 9);
    }
    assert(spelled(Provider::Together.display(), NameCase::ScreamingSnake) =~= "TOGETHER"@) by {
        reveal_strlit("Together");
        reveal_strlit("TOGETHER");
        reveal_with_fuel(spelled_from, 9);
    }
    assert(spelled(Provider::Together.display(), NameCase::Kebab) =~= "together"@) by {
        reveal_strlit("Together");
        reveal_strlit("together");
        reveal_with_fuel(spelled_from, 9);
    }
    assert(spelled(Provider::Together.display(), NameCase::ScreamingKebab) =~= "TOGETHER"@) by {
        reveal_strlit("Together");
        reveal_strlit("TOGETHER");
        reveal_with_fuel(spelled_from, 9);
    }
    assert(spelled(Provider::Together.display(), NameCase::Title) =~= "Together"@) by {
        reveal_strlit("Together");
        reveal_strlit("Together");
        reveal_with_fuel(spelled_from, 9);
    }
    assert(spelled(Provider::Together.display(), NameCase::Lower) =~= "together"@) by {
        reveal_strlit("Together");
        reveal_strlit("together");
        reveal_with_fuel(spelled_from, 9);
    }
    assert(spelled(Provider::Together.display(), NameCase::Upper) =~= "TOGETHER"@) by {
        reveal_strlit("Together");
        reveal_strlit("TOGETHER");
        reveal_with_fuel(spelled_from, 9);
    }
}

/// How each case convention spells the name of `Provider::XAI`.
proof fn lemma_spellings_of_xai()
    ensures
        spelled(Provider::XAI.display(), NameCase::Snake) == "xai"@,
        spelled(Provider::XAI.display(), NameCase::Camel) == "xai"@,
        spelled(Provider::XAI.display(), NameCase::Pascal) == "Xai"@,
        spelled(Provider::XAI.display(), NameCase::ScreamingSnake) == "XAI"@,
        spelled(Provider::XAI.display(), NameCase::Kebab) == "xai"@,
        spelled(Provider::XAI.display(), NameCase::ScreamingKebab) == "XAI"@,
        spelled(Provider::XAI.display(), NameCase::Title) == "Xai"@,
        spelled(Provider::XAI.display(), NameCase::Lower) == "xai"@,
        spelled(Provider::XAI.display(), NameCase::Upper) == "XAI"@,
{
    assert(spelled(Provider::XAI.display(), NameCase::Snake) =~= "xai"@) by {
        reveal_strlit("XAI");
        reveal_strlit("xai");
        reveal_with_fuel(spelled_from, 4);
    }
    assert(spelled(Provider::XAI.display(), NameCase::Camel) =~= "xai"@) by {
        reveal_strlit("XAI");
        reveal_strlit("xai");
        reveal_with_fuel(spelled_from, 4);
    }
    assert(spelled(Provider::XAI.display(), NameCase::Pascal) =~= "Xai"@) by {
        reveal_strlit("XAI");
        reveal_strlit("Xai");
        reveal_with_fuel(spelled_from, 4);
    }
    assert(spelled(Provider::XAI.display(), NameCase::ScreamingSnake) =~= "XAI"@) by {
        reveal_strlit("XAI");
        reveal_strlit("XAI");
        reveal_with_fuel(spelled_from, 4);
    }
    assert(spelled(Provider::XAI.display(), NameCase::Kebab) =~= "xai"@) by {
        reveal_strlit("XAI");
        reveal_strlit("xai");
        reveal_with_fuel(spelled_from, 4);
    }
    assert(spelled(Provider::XAI.display(), NameCase::ScreamingKebab) =~= "XAI"@) by {
        reveal_strlit("XAI");
        reveal_strlit("XAI");
        reveal_with_fuel(spelled_from, 4);
    }
    assert(spelled(Provider::XAI.display(), NameCase::Title) =~= "Xai"@) by {
        reveal_strlit("XAI");
        reveal_strlit("Xai");
        reveal_with_fuel(spelled_from, 4);
    }
    assert(spelled(Provider::XAI.display(), NameCase::Lower) =~= "xai"@) by {
        reveal_strlit("XAI");
        reveal_strlit("xai");
        reveal_with_fuel(spelled_from, 4);
    }
    assert(spelled(Provider::XAI.display(), NameCase::Upper) =~= "XAI"@) by {
        reveal_strlit("XAI");
        reveal_strlit("XAI");
        reveal_with_fuel(spelled_from, 4);
    }
}

/// How each case convention spells the name of `Provider::Azure`.
proof fn lemma_spellings_of_azure()
    ensures
        spelled(Provider::Azure.display(), NameCase::Snake) == "azure"@,
        spelled(Provider::Azure.display(), NameCase::Camel) == "azure"@,
        spelled(Provider::Azure.display(), NameCase::Pascal) == "Azure"@,
        spelled(Provider::Azure.display(), NameCase::ScreamingSnake) == "AZURE"@,
        spelled(Provider::Azure.display(), NameCase::Kebab) == "azure"@,
        spelled(Provider::Azure.display(), NameCase::ScreamingKebab) == "AZURE"@,
        spelled(Provider::Azure.display(), NameCase::Title) == "Azure"@,
        spelled(Provider::Azure.display(), NameCase::Lower) == "azure"@,
        spelled(Provider::Azure.display(), NameCase::Upper) == "AZURE"@,
{
    assert(spelled(Provider::Azure.display(), NameCase::Snake) =~= "azure"@) by {
        reveal_strlit("Azure");
        reveal_strlit("azure");
        reveal_with_fuel(spelled_from, 6);
    }
    assert(spelled(Provider::Azure.display(), NameCase::Camel) =~= "azure"@) by {
        reveal_strlit("Azure");
        reveal_strlit("azure");
        reveal_with_fuel(spelled_from, 6);
    }
    assert(spelled(Provider::Azure.display(), NameCase::Pascal) =~= "Azure"@) by {
        reveal_strlit("Azure");
        reveal_strlit("Azure");
        reveal_with_fuel(spelled_from, 6);
    }
    assert(spelled(Provider::Azure.display(), NameCase::ScreamingSnake) =~= "AZURE"@) by {
        reveal_strlit("Azure");
        reveal_strlit("AZURE");
        reveal_with_fuel(spelled_from, 6);
    }
    assert(spelled(Provider::Azure.display(), NameCase::Kebab) =~= "azure"@) by {
        reveal_strlit("Azure");
        reveal_strlit("azure");
        reveal_with_fuel(spelled_from, 6);
    }
    assert(spelled(Provider::Azure.display(), NameCase::ScreamingKebab) =~= "AZURE"@) by {
        reveal_strlit("Azure");
        reveal_strlit("AZURE");
        reveal_with_fuel(spelled_from, 6);
    }
    assert(spelled(Provider::Azure.display(), NameCase::Title) =~= "Azure"@) by {
        reveal_strlit("Azure");
        reveal_strlit("Azure");
        reveal_with_fuel(spelled_from, 6);
    }
    assert(spelled(Provider::Azure.display(), NameCase::Lower) =~= "azure"@) by {
        reveal_strlit("Azure");
        reveal_strlit("azure");
        reveal_with_fuel(spelled_from, 6);
    }
    assert(spelled(Provider::Azure.display(), NameCase::Upper) =~= "AZURE"@) by {
        reveal_strlit("Azure");
        reveal_strlit("AZURE");
        reveal_with_fuel(spelled_from, 6);
    }
}

/// How each case convention spells the name of `Provider::DeepSeek`.
proof fn lemma_spellings_of_deepseek()
    ensures
        spelled(Provider::DeepSeek.display(), NameCase::Snake) == "deep_seek"@,
        spelled(Provider::DeepSeek.display(), NameCase::Camel) == "deepSeek"@,
        spelled(Provider::DeepSeek.display(), NameCase::Pascal) == "DeepSeek"@,
        spelled(Provider::DeepSeek.display(), NameCase::ScreamingSnake) == "DEEP_SEEK"@,
        spelled(Provider::DeepSeek.display(), NameCase::Kebab) == "deep-seek"@,
        spelled(Provider::DeepSeek.display(), NameCase::ScreamingKebab) == "DEEP-SEEK"@,
        spelled(Provider::DeepSeek.display(), NameCase::Title) == "Deep Seek"@,
        spelled(Provider::DeepSeek.display(), NameCase::Lower) == "deepseek"@,
        spelled(Provider::DeepSeek.display(), NameCase::Upper) == "DEEPSEEK"@,
{
    assert(spelled(Provider::DeepSeek.display(), NameCase::Snake) =~= "deep_seek"@) by {
        reveal_strlit("DeepSeek");
        reveal_strlit("deep_seek");
        reveal_with_fuel(spelled_from, 9);
    }
    assert(spelled(Provider::DeepSeek.display(), NameCase::Camel) =~= "deepSeek"@) by {
        reveal_strlit("DeepSeek");
        reveal_strlit("deepSeek");
        reveal_with_fuel(spelled_from, 9);
    }
    assert(spelled(Provider::DeepSeek.display(), NameCase::Pascal) =~= "DeepSeek"@) by {
        reveal_strlit("DeepSeek");
        reveal_strlit("DeepSeek");
        reveal_with_fuel(spelled_from, 9);
    }
    assert(spelled(Provider::DeepSeek.display(), NameCase::ScreamingSnake) =~= "DEEP_SEEK"@) by {
        reveal_strlit("DeepSeek");
        reveal_strlit("DEEP_SEEK");
        reveal_with_fuel(spelled_from, 9);
    }
    assert(spelled(Provider::DeepSeek.display(), NameCase::Kebab) =~= "deep-seek"@) by {
        reveal_strlit("DeepSeek");
        reveal_strlit("deep-seek");
        reveal_with_fuel(spelled_from, 9);
    }
    assert(spelled(Provider::DeepSeek.display(), NameCase::ScreamingKebab) =~= "DEEP-SEEK"@) by {
        reveal_strlit("DeepSeek");
        reveal_strlit("DEEP-SEEK");
        reveal_with_fuel(spelled_from, 9);
    }
    assert(spelled(Provider::DeepSeek.display(), NameCase::Title) =~= "Deep Seek"@) by {
        reveal_strlit("DeepSeek");
        reveal_strlit("Deep Seek");
        reveal_with_fuel(spelled_from, 9);
    }
    assert(spelled(Provider::DeepSeek.display(), NameCase::Lower) =~= "deepseek"@) by {
        reveal_strlit("DeepSeek");
        reveal_strlit("deepseek");
        reveal_with_fuel(spelled_from, 9);
    }
    assert(spelled(Provider::DeepSeek.display(), NameCase::Upper) =~= "DEEPSEEK"@) by {
        reveal_strlit("DeepSeek");
        reveal_strlit("DEEPSEEK");
        reveal_with_fuel(spelled_from, 9);
    }
}

/// How each case convention spells the name of `Provider::Galadriel`.
proof fn lemma_spellings_of_galadriel()
    ensures
        spelled(Provider::Galadriel.display(), NameCase::Snake) == "galadriel"@,
        spelled(Provider::Galadriel.display(), NameCase::Camel) == "galadriel"@,
        spelled(Provider::Galadriel.display(), NameCase::Pascal) == "Galadriel"@,
        spelled(Provider::Galadriel.display(), NameCase::ScreamingSnake) == "GALADRIEL"@,
        spelled(Provider::Galadriel.display(), NameCase::Kebab) == "galadriel"@,
        spelled(Provider::Galadriel.display(), NameCase::ScreamingKebab) == "GALADRIEL"@,
        spelled(Provider::Galadriel.display(), NameCase::Title) == "Galadriel"@,
        spelled(Provider::Galadriel.display(), NameCase::Lower) == "galadriel"@,
        spelled(Provider::Galadriel.display(), NameCase::Upper) == "GALADRIEL"@,
{
    assert(spelled(Provider::Galadriel.display(), NameCase::Snake) =~= "galadriel"@) by {
        reveal_strlit("Galadriel");
        reveal_strlit("galadriel");
        reveal_with_fuel(spelled_from, 10);
    }
    assert(spelled(Provider::Galadriel.display(), NameCase::Camel) =~= "galadriel"@) by {
        reveal_strlit("Galadriel");
        reveal_strlit("galadriel");
        reveal_with_fuel(spelled_from, 10);
    }
    assert(spelled(Provider::Galadriel.display(), NameCase::Pascal) =~= "Galadriel"@) by {
        reveal_strlit("Galadriel");
        reveal_strlit("Galadriel");
        reveal_with_fuel(spelled_from, 10);
    }
    assert(spelled(Provider::Galadriel.display(), NameCase::ScreamingSnake) =~= "GALADRIEL"@) by {
        reveal_strlit("Galadriel");
        reveal_strlit("GALADRIEL");
        reveal_with_fuel(spelled_from, 10);
    }
    assert(spelled(Provider::Galadriel.display(), NameCase::Kebab) =~= "galadriel"@) by {
        reveal_strlit("Galadriel");
        reveal_strlit("galadriel");
        reveal_with_fuel(spelled_from, 10);
    }
    assert(spelled(Provider::Galadriel.display(), NameCase::ScreamingKebab) =~= "GALADRIEL"@) by {
        reveal_strlit("Galadriel");
        reveal_strlit("GALADRIEL");
        reveal_with_fuel(spelled_from, 10);
    }
    assert(spelled(Provider::Galadriel.display(), NameCase::Title) =~= "Galadriel"@) by {
        reveal_strlit("Galadriel");
        reveal_strlit("Galadriel");
        reveal_with_fuel(spelled_from, 10);
    }
    assert(spelled(Provider::Galadriel.display(), NameCase::Lower) =~= "galadriel"@) by {
        reveal_strlit("Galadriel");
        reveal_strlit("galadriel");
        reveal_with_fuel(spelled_from, 10);
    }
    assert(spelled(Provider::Galadriel.display(), NameCase::Upper) =~= "GALADRIEL"@) by {
        reveal_strlit("Galadriel");
        reveal_strlit("GALADRIEL");
        reveal_with_fuel(spelled_from, 10);
    }
}

/// How each case convention spells the name of `Provider::Groq`.
proof fn lemma_spellings_of_groq()
    ensures
        spelled(Provider::Groq.display(), NameCase::Snake) == "groq"@,
        spelled(Provider::Groq.display(), NameCase::Camel) == "groq"@,
        spelled(Provider::Groq.display(), NameCase::Pascal) == "Groq"@,
        spelled(Provider::Groq.display(), NameCase::ScreamingSnake) == "GROQ"@,
        spelled(Provider::Groq.display(), NameCase::Kebab) == "groq"@,
        spelled(Provider::Groq.display(), NameCase::ScreamingKebab) == "GROQ"@,
        spelled(Provider::Groq.display(), NameCase::Title) == "Groq"@,
        spelled(Provider::Groq.display(), NameCase::Lower) == "groq"@,
        spelled(Provider::Groq.display(), NameCase::Upper) == "GROQ"@,
{
    assert(spelled(Provider::Groq.display(), NameCase::Snake) =~= "groq"@) by {
        reveal_strlit("Groq");
        reveal_strlit("groq");
        reveal_with_fuel(spelled_from, 5);
    }
    assert(spelled(Provider::Groq.display(), NameCase::Camel) =~= "groq"@) by {
        reveal_strlit("Groq");
        reveal_strlit("groq");
        reveal_with_fuel(spelled_from, 5);
    }
    assert(spelled(Provider::Groq.display(), NameCase::Pascal) =~= "Groq"@) by {
        reveal_strlit("Groq");
        reveal_strlit("Groq");
        reveal_with_fuel(spelled_from, 5);
    }
    assert(spelled(Provider::Groq.display(), NameCase::ScreamingSnake) =~= "GROQ"@) by {
        reveal_strlit("Groq");
        reveal_strlit("GROQ");
        reveal_with_fuel(spelled_from, 5);
    }
    assert(spelled(Provider::Groq.display(), NameCase::Kebab) =~= "groq"@) by {
        reveal_strlit("Groq");
        reveal_strlit("groq");
        reveal_with_fuel(spelled_from, 5);
    }
    assert(spelled(Provider::Groq.display(), NameCase::ScreamingKebab) =~= "GROQ"@) by {
        reveal_strlit("Groq");
        reveal_strlit("GROQ");
        reveal_with_fuel(spelled_from, 5);
    }
    assert(spelled(Provider::Groq.display(), NameCase::Title) =~= "Groq"@) by {
        reveal_strlit("Groq");
        reveal_strlit("Groq");
        reveal_with_fuel(spelled_from, 5);
    }
    assert(spelled(Provider::Groq.display(), NameCase::Lower) =~= "groq"@) by {
        reveal_strlit("Groq");
        reveal_strlit("groq");
        reveal_with_fuel(spelled_from, 5);
    }
    assert(spelled(Provider::Groq.display(), NameCase::Upper) =~= "GROQ"@) by {
        reveal_strlit("Groq");
        reveal_strlit("GROQ");
        reveal_with_fuel(spelled_from, 5);
    }
}

/// How each case convention spells the name of `Provider::Hyperbolic`.
proof fn lemma_spellings_of_hyperbolic()
    ensures
        spelled(Provider::Hyperbolic.display(), NameCase::Snake) == "hyperbolic"@,
        spelled(Provider::Hyperbolic.display(), NameCase::Camel) == "hyperbolic"@,
        spelled(Provider::Hyperbolic.display(), NameCase::Pascal) == "Hyperbolic"@,
        spelled(Provider::Hyperbolic.display(), NameCase::ScreamingSnake) == "HYPERBOLIC"@,
        spelled(Provider::Hyperbolic.display(), NameCase::Kebab) == "hyperbolic"@,
        spelled(Provider::Hyperbolic.display(), NameCase::ScreamingKebab) == "HYPERBOLIC"@,
        spelled(Provider::Hyperbolic.display(), NameCase::Title) == "Hyperbolic"@,
        spelled(Provider::Hyperbolic.display(), NameCase::Lower) == "hyperbolic"@,
        spelled(Provider::Hyperbolic.display(), NameCase::Upper) == "HYPERBOLIC"@,
{
    assert(spelled(Provider::Hyperbolic.display(), NameCase::Snake) =~= "hyperbolic"@) by {
        reveal_strlit("Hyperbolic");
        reveal_strlit("hyperbolic");
        reveal_with_fuel(spelled_from, 11);
    }
    assert(spelled(Provider::Hyperbolic.display(), NameCase::Camel) =~= "hyperbolic"@) by {
        reveal_strlit("Hyperbolic");
        reveal_strlit("hyperbolic");
        reveal_with_fuel(spelled_from, 11);
    }
    assert(spelled(Provider::Hyperbolic.display(), NameCase::Pascal) =~= "Hyperbolic"@) by {
        reveal_strlit("Hyperbolic");
        reveal_strlit("Hyperbolic");
        reveal_with_fuel(spelled_from, 11);
    }
    assert(spelled(Provider::Hyperbolic.display(), NameCase::ScreamingSnake) =~= "HYPERBOLIC"@) by {
        reveal_strlit("Hyperbolic");
        reveal_strlit("HYPERBOLIC");
        reveal_with_fuel(spelled_from, 11);
    }
    assert(spelled(Provider::Hyperbolic.display(), NameCase::Kebab) =~= "hyperbolic"@) by {
        reveal_strlit("Hyperbolic");
        reveal_strlit("hyperbolic");
        reveal_with_fuel(spelled_from, 11);
    }
    assert(spelled(Provider::Hyperbolic.display(), NameCase::ScreamingKebab) =~= "HYPERBOLIC"@) by {
        reveal_strlit("Hyperbolic");
        reveal_strlit("HYPERBOLIC");
        reveal_with_fuel(spelled_from, 11);
    }
    assert(spelled(Provider::Hyperbolic.display(), NameCase::Title) =~= "Hyperbolic"@) by {
        reveal_strlit("Hyperbolic");
        reveal_strlit("Hyperbolic");
        reveal_with_fuel(spelled_from, 11);
    }
    assert(spelled(Provider::Hyperbolic.display(), NameCase::Lower) =~= "hyperbolic"@) by {
        reveal_strlit("Hyperbolic");
        reveal_strlit("hyperbolic");
        reveal_with_fuel(spelled_from, 11);
    }
    assert(spelled(Provider::Hyperbolic.display(), NameCase::Upper) =~= "HYPERBOLIC"@) by {
        reveal_strlit("Hyperbolic");
        reveal_strlit("HYPERBOLIC");
        reveal_with_fuel(spelled_from, 11);
    }
}

/// How each case convention spells the name of `Provider::Moonshot`.
proof fn lemma_spellings_of_moonshot()
    ensures
        spelled(Provider::Moonshot.display(), NameCase::Snake) == "moonshot"@,
        spelled(Provider::Moonshot.display(), NameCase::Camel) == "moonshot"@,
        spelled(Provider::Moonshot.display(), NameCase::Pascal) == "Moonshot"@,
        spelled(Provider::Moonshot.display(), NameCase::ScreamingSnake) == "MOONSHOT"@,
        spelled(Provider::Moonshot.display(), NameCase::Kebab) == "moonshot"@,
        spelled(Provider::Moonshot.display(), NameCase::ScreamingKebab) == "MOONSHOT"@,
        spelled(Provider::Moonshot.display(), NameCase::Title) == "Moonshot"@,
        spelled(Provider::Moonshot.display(), NameCase::Lower) == "moonshot"@,
        spelled(Provider::Moonshot.display(), NameCase::Upper) == "MOONSHOT"@,
{
    assert(spelled(Provider::Moonshot.display(), NameCase::Snake) =~= "moonshot"@) by {
        reveal_strlit("Moonshot");
        reveal_strlit("moonshot");
        reveal_with_fuel(spelled_from, 9);
    }
    assert(spelled(Provider::Moonshot.display(), NameCase::Camel) =~= "moonshot"@) by {
        reveal_strlit("Moonshot");
        reveal_strlit("moonshot");
        reveal_with_fuel(spelled_from, 9);
    }
    assert(spelled(Provider::Moonshot.display(), NameCase::Pascal) =~= "Moonshot"@) by {
        reveal_strlit("Moonshot");
        reveal_strlit("Moonshot");
        reveal_with_fuel(spelled_from, 9);
    }
    assert(spelled(Provider::Moonshot.display(), NameCase::ScreamingSnake) =~= "MOONSHOT"@) by {
        reveal_strlit("Moonshot");
        reveal_strlit("MOONSHOT");
        reveal_with_fuel(spelled_from, 9);
    }
    assert(spelled(Provider::Moonshot.display(), NameCase::Kebab) =~= "moonshot"@) by {
        reveal_strlit("Moonshot");
        reveal_strlit("moonshot");
        reveal_with_fuel(spelled_from, 9);
    }
    assert(spelled(Provider::Moonshot.display(), NameCase::ScreamingKebab) =~= "MOONSHOT"@) by {
        reveal_strlit("Moonshot");
        reveal_strlit("MOONSHOT");
        reveal_with_fuel(spelled_from, 9);
    }
    assert(spelled(Provider::Moonshot.display(), NameCase::Title) =~= "Moonshot"@) by {
        reveal_strlit("Moonshot");
        reveal_strlit("Moonshot");
        reveal_with_fuel(spelled_from, 9);
    }
    assert(spelled(Provider::Moonshot.display(), NameCase::Lower) =~= "moonshot"@) by {
        reveal_strlit("Moonshot");
        reveal_strlit("moonshot");
        reveal_with_fuel(spelled_from, 9);
    }
    assert(spelled(Provider::Moonshot.display(), NameCase::Upper) =~= "MOONSHOT"@) by {
        reveal_strlit("Moonshot");
        reveal_strlit("MOONSHOT");
        reveal_with_fuel(spelled_from, 9);
    }
}

/// How each case convention spells the name of `Provider::Mira`.
proof fn lemma_spellings_of_mira()
    ensures
        spelled(Provider::Mira.display(), NameCase::Snake) == "mira"@,
        spelled(Provider::Mira.display(), NameCase::Camel) == "mira"@,
        spelled(Provider::Mira.display(), NameCase::Pascal) == "Mira"@,
        spelled(Provider::Mira.display(), NameCase::ScreamingSnake) == "MIRA"@,
        spelled(Provider::Mira.display(), NameCase::Kebab) == "mira"@,
        spelled(Provider::Mira.display(), NameCase::ScreamingKebab) == "MIRA"@,
        spelled(Provider::Mira.display(), NameCase::Title) == "Mira"@,
        spelled(Provider::Mira.display(), NameCase::Lower) == "mira"@,
        spelled(Provider::Mira.display(), NameCase::Upper) == "MIRA"@,
{
    assert(spelled(Provider::Mira.display(), NameCase::Snake) =~= "mira"@) by {
        reveal_strlit("Mira");
        reveal_strlit("mira");
        reveal_with_fuel(spelled_from, 5);
    }
    assert(spelled(Provider::Mira.display(), NameCase::Camel) =~= "mira"@) by {
        reveal_strlit("Mira");
        reveal_strlit("mira");
        reveal_with_fuel(spelled_from, 5);
    }
    assert(spelled(Provider::Mira.display(), NameCase::Pascal) =~= "Mira"@) by {
        reveal_strlit("Mira");
        reveal_strlit("Mira");
        reveal_with_fuel(spelled_from, 5);
    }
    assert(spelled(Provider::Mira.display(), NameCase::ScreamingSnake) =~= "MIRA"@) by {
        reveal_strlit("Mira");
        reveal_strlit("MIRA");
        reveal_with_fuel(spelled_from, 5);
    }
    assert(spelled(Provider::Mira.display(), NameCase::Kebab) =~= "mira"@) by {
        reveal_strlit("Mira");
        reveal_strlit("mira");
        reveal_with_fuel(spelled_from, 5);
    }
    assert(spelled(Provider::Mira.display(), NameCase::ScreamingKebab) =~= "MIRA"@) by {
        reveal_strlit("Mira");
        reveal_strlit("MIRA");
        reveal_with_fuel(spelled_from, 5);
    }
    assert(spelled(Provider::Mira.display(), NameCase::Title) =~= "Mira"@) by {
        reveal_strlit("Mira");
        reveal_strlit("Mira");
        reveal_with_fuel(spelled_from, 5);
    }
    assert(spelled(Provider::Mira.display(), NameCase::Lower) =~= "mira"@) by {
        reveal_strlit("Mira");
        reveal_strlit("mira");
        reveal_with_fuel(spelled_from, 5);
    }
    assert(spelled(Provider::Mira.display(), NameCase::Upper) =~= "MIRA"@) by {
        reveal_strlit("Mira");
        reveal_strlit("MIRA");
        reveal_with_fuel(spelled_from, 5);
    }
}

/// How each case convention spells the name of `Provider::Mistral`.
proof fn lemma_spellings_of_mistral()
    ensures
        spelled(Provider::Mistral.display(), NameCase::Snake) == "mistral"@,
        spelled(Provider::Mistral.display(), NameCase::Camel) == "mistral"@,
        spelled(Provider::Mistral.display(), NameCase::Pascal) == "Mistral"@,
        spelled(Provider::Mistral.display(), NameCase::ScreamingSnake) == "MISTRAL"@,
        spelled(Provider::Mistral.display(), NameCase::Kebab) == "mistral"@,
        spelled(Provider::Mistral.display(), NameCase::ScreamingKebab) == "MISTRAL"@,
        spelled(Provider::Mistral.display(), NameCase::Title) == "Mistral"@,
        spelled(Provider::Mistral.display(), NameCase::Lower) == "mistral"@,
        spelled(Provider::Mistral.display(), NameCase::Upper) == "MISTRAL"@,
{
    assert(spelled(Provider::Mistral.display(), NameCase::Snake) =~= "mistral"@) by {
        reveal_strlit("Mistral");
        reveal_strlit("mistral");
        reveal_with_fuel(spelled_from, 8);
    }
    assert(spelled(Provider::Mistral.display(), NameCase::Camel) =~= "mistral"@) by {
        reveal_strlit("Mistral");
        reveal_strlit("mistral");
        reveal_with_fuel(spelled_from, 8);
    }
    assert(spelled(Provider::Mistral.display(), NameCase::Pascal) =~= "Mistral"@) by {
        reveal_strlit("Mistral");
        reveal_strlit("Mistral");
        reveal_with_fuel(spelled_from, 8);
    }
    assert(spelled(Provider::Mistral.display(), NameCase::ScreamingSnake) =~= "MISTRAL"@) by {
        reveal_strlit("Mistral");
        reveal_strlit("MISTRAL");
        reveal_with_fuel(spelled_from, 8);
    }
    assert(spelled(Provider::Mistral.display(), NameCase::Kebab) =~= "mistral"@) by {
        reveal_strlit("Mistral");
        reveal_strlit("mistral");
        reveal_with_fuel(spelled_from, 8);
    }
    assert(spelled(Provider::Mistral.display(), NameCase::ScreamingKebab) =~= "MISTRAL"@) by {
        reveal_strlit("Mistral");
        reveal_strlit("MISTRAL");
        reveal_with_fuel(spelled_from, 8);
    }
    assert(spelled(Provider::Mistral.display(), NameCase::Title) =~= "Mistral"@) by {
        reveal_strlit("Mistral");
        reveal_strlit("Mistral");
        reveal_with_fuel(spelled_from, 8);
    }
    assert(spelled(Provider::Mistral.display(), NameCase::Lower) =~= "mistral"@) by {
        reveal_strlit("Mistral");
        reveal_strlit("mistral");
        reveal_with_fuel(spelled_from, 8);
    }
    assert(spelled(Provider::Mistral.display(), NameCase::Upper) =~= "MISTRAL"@) by {
        reveal_strlit("Mistral");
        reveal_strlit("MISTRAL");
        reveal_with_fuel(spelled_from, 8);
    }
}

/// How each case convention spells the name of `Provider::Ollama`.
proof fn lemma_spellings_of_ollama()
    ensures
        spelled(Provider::Ollama.display(), NameCase::Snake) == "ollama"@,
        spelled(Provider::Ollama.display(), NameCase::Camel) == "ollama"@,
        spelled(Provider::Ollama.display(), NameCase::Pascal) == "Ollama"@,
        spelled(Provider::Ollama.display(), NameCase::ScreamingSnake) == "OLLAMA"@,
        spelled(Provider::Ollama.display(), NameCase::Kebab) == "ollama"@,
        spelled(Provider::Ollama.display(), NameCase::ScreamingKebab) == "OLLAMA"@,
        spelled(Provider::Ollama.display(), NameCase::Title) == "Ollama"@,
        spelled(Provider::Ollama.display(), NameCase::Lower) == "ollama"@,
        spelled(Provider::Ollama.display(), NameCase::Upper) == "OLLAMA"@,
{
    assert(spelled(Provider::Ollama.display(), NameCase::Snake) =~= "ollama"@) by {
        reveal_strlit("Ollama");
        reveal_strlit("ollama");
        reveal_with_fuel(spelled_from, 7);
    }
    assert(spelled(Provider::Ollama.display(), NameCase::Camel) =~= "ollama"@) by {
        reveal_strlit("Ollama");
        reveal_strlit("ollama");
        reveal_with_fuel(spelled_from, 7);
    }
    assert(spelled(Provider::Ollama.display(), NameCase::Pascal) =~= "Ollama"@) by {
        reveal_strlit("Ollama");
        reveal_strlit("Ollama");
        reveal_with_fuel(spelled_from, 7);
    }
    assert(spelled(Provider::Ollama.display(), NameCase::ScreamingSnake) =~= "OLLAMA"@) by {
        reveal_strlit("Ollama");
        reveal_strlit("OLLAMA");
        reveal_with_fuel(spelled_from, 7);
    }
    assert(spelled(Provider::Ollama.display(), NameCase::Kebab) =~= "ollama"@) by {
        reveal_strlit("Ollama");
        reveal_strlit("ollama");
        reveal_with_fuel(spelled_from, 7);
    }
    assert(spelled(Provider::Ollama.display(), NameCase::ScreamingKebab) =~= "OLLAMA"@) by {
        reveal_strlit("Ollama");
        reveal_strlit("OLLAMA");
        reveal_with_fuel(spelled_from, 7);
    }
    assert(spelled(Provider::Ollama.display(), NameCase::Title) =~= "Ollama"@) by {
        reveal_strlit("Ollama");
        reveal_strlit("Ollama");
        reveal_with_fuel(spelled_from, 7);
    }
    assert(spelled(Provider::Ollama.display(), NameCase::Lower) =~= "ollama"@) by {
        reveal_strlit("Ollama");
        reveal_strlit("ollama");
        reveal_with_fuel(spelled_from, 7);
    }
    assert(spelled(Provider::Ollama.display(), NameCase::Upper) =~= "OLLAMA"@) by {
        reveal_strlit("Ollama");
        reveal_strlit("OLLAMA");
        reveal_with_fuel(spelled_from, 7);
    }
}

/// How each case convention spells the name of `Provider::Perplexity`.
proof fn lemma_spellings_of_perplexity()
    ensures
        spelled(Provider::Perplexity.display(), NameCase::Snake) == "perplexity"@,
        spelled(Provider::Perplexity.display(), NameCase::Camel) == "perplexity"@,
        spelled(Provider::Perplexity.display(), NameCase::Pascal) == "Perplexity"@,
        spelled(Provider::Perplexity.display(), NameCase::ScreamingSnake) == "PERPLEXITY"@,
        spelled(Provider::Perplexity.display(), NameCase::Kebab) == "perplexity"@,
        spelled(Provider::Perplexity.display(), NameCase::ScreamingKebab) == "PERPLEXITY"@,
        spelled(Provider::Perplexity.display(), NameCase::Title) == "Perplexity"@,
        spelled(Provider::Perplexity.display(), NameCase::Lower) == "perplexity"@,
        spelled(Provider::Perplexity.display(), NameCase::Upper) == "PERPLEXITY"@,
{
    assert(spelled(Provider::Perplexity.display(), NameCase::Snake) =~= "perplexity"@) by {
        reveal_strlit("Perplexity");
        reveal_strlit("perplexity");
        reveal_with_fuel(spelled_from, 11);
    }
    assert(spelled(Provider::Perplexity.display(), NameCase::Camel) =~= "perplexity"@) by {
        reveal_strlit("Perplexity");
        reveal_strlit("perplexity");
        reveal_with_fuel(spelled_from, 11);
    }
    assert(spelled(Provider::Perplexity.display(), NameCase::Pascal) =~= "Perplexity"@) by {
        reveal_strlit("Perplexity");
        reveal_strlit("Perplexity");
        reveal_with_fuel(spelled_from, 11);
    }
    assert(spelled(Provider::Perplexity.display(), NameCase::ScreamingSnake) =~= "PERPLEXITY"@) by {
        reveal_strlit("Perplexity");
        reveal_strlit("PERPLEXITY");
        reveal_with_fuel(spelled_from, 11);
    }
    assert(spelled(Provider::Perplexity.display(), NameCase::Kebab) =~= "perplexity"@) by {
        reveal_strlit("Perplexity");
        reveal_strlit("perplexity");
        reveal_with_fuel(spelled_from, 11);
    }
    assert(spelled(Provider::Perplexity.display(), NameCase::ScreamingKebab) =~= "PERPLEXITY"@) by {
        reveal_strlit("Perplexity");
        reveal_strlit("PERPLEXITY");
        reveal_with_fuel(spelled_from, 11);
    }
    assert(spelled(Provider::Perplexity.display(), NameCase::Title) =~= "Perplexity"@) by {
        reveal_strlit("Perplexity");
        reveal_strlit("Perplexity");
        reveal_with_fuel(spelled_from, 11);
    }
    assert(spelled(Provider::Perplexity.display(), NameCase::Lower) =~= "perplexity"@) by {
        reveal_strlit("Perplexity");
        reveal_strlit("perplexity");
        reveal_with_fuel(spelled_from, 11);
    }
    assert(spelled(Provider::Perplexity.display(), NameCase::Upper) =~= "PERPLEXITY"@) by {
        reveal_strlit("Perplexity");
        reveal_strlit("PERPLEXITY");
        reveal_with_fuel(spelled_from, 11);
    }
}

/// The lowercase name of each provider is the literal that `Provider::name` returns.
proof fn lemma_lowercase_names()
    ensures
        Provider::Anthropic.lowercase_name() == "anthropic"@,
        Provider::Cohere.lowercase_name() == "cohere"@,
        Provider::Gemini.lowercase_name() == "gemini"@,
        Provider::HuggingFace.lowercase_name() == "huggingface"@,
        Provider::OpenAI.lowercase_name() == "openai"@,
        Provider::OpenRouter.lowercase_name() == "openrouter"@,
        Provider::Together.lowercase_name() == "together"@,
        Provider::XAI.lowercase_name() == "xai"@,
        Provider::Azure.lowercase_name() == "azure"@,
        Provider::DeepSeek.lowercase_name() == "deepseek"@,
        Provider::Galadriel.lowercase_name() == "galadriel"@,
        Provider::Groq.lowercase_name() == "groq"@,
        Provider::Hyperbolic.lowercase_name() == "hyperbolic"@,
        Provider::Moonshot.lowercase_name() == "moonshot"@,
        Provider::Mira.lowercase_name() == "mira"@,
        Provider::Mistral.lowercase_name() == "mistral"@,
        Provider::Ollama.lowercase_name() == "ollama"@,
        Provider::Perplexity.lowercase_name() == "perplexity"@,
{
    assert(Provider::Anthropic.lowercase_name() =~= "anthropic"@) by {
        reveal_strlit("Anthropic");
        reveal_strlit("anthropic");
    }
    assert(Provider::Cohere.lowercase_name() =~= "cohere"@) by {
        reveal_strlit("Cohere");
        reveal_strlit("cohere");
    }
    assert(Provider::Gemini.lowercase_name() =~= "gemini"@) by {
        reveal_strlit("Gemini");
        reveal_strlit("gemini");
    }
    assert(Provider::HuggingFace.lowercase_name() =~= "huggingface"@) by {
        reveal_strlit("HuggingFace");
        reveal_strlit("huggingface");
    }
    assert(Provider::OpenAI.lowercase_name() =~= "openai"@) by {
        reveal_strlit("OpenAI");
        reveal_strlit("openai");
    }
    assert(Provider::OpenRouter.lowercase_name() =~= "openrouter"@) by {
        reveal_strlit("OpenRouter");
        reveal_strlit("openrouter");
    }
    assert(Provider::Together.lowercase_name() =~= "together"@) by {
        reveal_strlit("Together");
        reveal_strlit("together");
    }
    assert(Provider::XAI.lowercase_name() =~= "xai"@) by {
        reveal_strlit("XAI");
        reveal_strlit("xai");
    }
    assert(Provider::Azure.lowercase_name() =~= "azure"@) by {
        reveal_strlit("Azure");
        reveal_strlit("azure");
    }
    assert(Provider::DeepSeek.lowercase_name() =~= "deepseek"@) by {
        reveal_strlit("DeepSeek");
        reveal_strlit("deepseek");
    }
    assert(Provider::Galadriel.lowercase_name() =~= "galadriel"@) by {
        reveal_strlit("Galadriel");
        reveal_strlit("galadriel");
    }
    assert(Provider::Groq.lowercase_name() =~= "groq"@) by {
        reveal_strlit("Groq");
        reveal_strlit("groq");
    }
    assert(Provider::Hyperbolic.lowercase_name() =~= "hyperbolic"@) by {
        reveal_strlit("Hyperbolic");
        reveal_strlit("hyperbolic");
    }
    assert(Provider::Moonshot.lowercase_name() =~= "moonshot"@) by {
        reveal_strlit("Moonshot");
        reveal_strlit("moonshot");
    }
    assert(Provider::Mira.lowercase_name() =~= "mira"@) by {
        reveal_strlit("Mira");
        reveal_strlit("mira");
    }
    assert(Provider::Mistral.lowercase_name() =~= "mistral"@) by {
        reveal_strlit("Mistral");
        reveal_strlit("mistral");
    }
    assert(Provider::Ollama.lowercase_name() =~= "ollama"@) by {
        reveal_strlit("Ollama");
        reveal_strlit("ollama");
    }
    assert(Provider::Perplexity.lowercase_name() =~= "perplexity"@) by {
        reveal_strlit("Perplexity");
        reveal_strlit("perplexity");
    }
}

/// Length and first two characters of each name and spelling; these tell
/// all of them apart where lookup needs it.
proof fn lemma_name_heads()
    ensures
        "Anthropic"@.len() == 9 && "Anthropic"@[0] == 'A' && "Anthropic"@[1] == 'n' && "Anthropic"@[8] == 'c',
        "anthropic"@.len() == 9 && "anthropic"@[0] == 'a' && "anthropic"@[1] == 'n' && "anthropic"@[8] == 'c',
        "ANTHROPIC"@.len() == 9 && "ANTHROPIC"@[0] == 'A' && "ANTHROPIC"@[1] == 'N' && "ANTHROPIC"@[8] == 'C',
        "Cohere"@.len() == 6 && "Cohere"@[0] == 'C' && "Cohere"@[1] == 'o' && "Cohere"@[5] == 'e',
        "cohere"@.len() == 6 && "cohere"@[0] == 'c' && "cohere"@[1] == 'o' && "cohere"@[5] == 'e',
        "COHERE"@.len() == 6 && "COHERE"@[0] == 'C' && "COHERE"@[1] == 'O' && "COHERE"@[5] == 'E',
        "Gemini"@.len() == 6 && "Gemini"@[0] == 'G' && "Gemini"@[1] == 'e' && "Gemini"@[5] == 'i',
        "gemini"@.len() == 6 && "gemini"@[0] == 'g' && "gemini"@[1] == 'e' && "gemini"@[5] == 'i',
        "GEMINI"@.len() == 6 && "GEMINI"@[0] == 'G' && "GEMINI"@[1] == 'E' && "GEMINI"@[5] == 'I',
        "HuggingFace"@.len() == 11 && "HuggingFace"@[0] == 'H' && "HuggingFace"@[1] == 'u' && "HuggingFace"@[10] == 'e',
        "hugging_face"@.len() == 12 && "hugging_face"@[0] == 'h' && "hugging_face"@[1] == 'u' && "hugging_face"@[11] == 'e',
        "huggingFace"@.len() == 11 && "huggingFace"@[0] == 'h' && "huggingFace"@[1] == 'u' && "huggingFace"@[10] == 'e',
        "HUGGING_FACE"@.len() == 12 && "HUGGING_FACE"@[0] == 'H' && "HUGGING_FACE"@[1] == 'U' && "HUGGING_FACE"@[11] == 'E',
        "hugging-face"@.len() == 12 && "hugging-face"@[0] == 'h' && "hugging-face"@[1] == 'u' && "hugging-face"@[11] == 'e',
        "HUGGING-FACE"@.len() == 12 && "HUGGING-FACE"@[0] == 'H' && "HUGGING-FACE"@[1] == 'U' && "HUGGING-FACE"@[11] == 'E',
        "Hugging Face"@.len() == 12 && "Hugging Face"@[0] == 'H' && "Hugging Face"@[1] == 'u' && "Hugging Face"@[11] == 'e',
        "huggingface"@.len() == 11 && "huggingface"@[0] == 'h' && "huggingface"@[1] == 'u' && "huggingface"@[10] == 'e',
        "HUGGINGFACE"@.len() == 11 && "HUGGINGFACE"@[0] == 'H' && "HUGGINGFACE"@[1] == 'U' && "HUGGINGFACE"@[10] == 'E',
        "OpenAI"@.len() == 6 && "OpenAI"@[0] == 'O' && "OpenAI"@[1] == 'p' && "OpenAI"@[5] == 'I',
        "open_ai"@.len() == 7 && "open_ai"@[0] == 'o' && "open_ai"@[1] == 'p' && "open_ai"@[6] == 'i',
        "openAi"@.len() == 6 && "openAi"@[0] == 'o' && "openAi"@[1] == 'p' && "openAi"@[5] == 'i',
        "OpenAi"@.len() == 6 && "OpenAi"@[0] == 'O' && "OpenAi"@[1] == 'p' && "OpenAi"@[5] == 'i',
        "OPEN_AI"@.len() == 7 && "OPEN_AI"@[0] == 'O' && "OPEN_AI"@[1] == 'P' && "OPEN_AI"@[6] == 'I',
        "open-ai"@.len() == 7 && "open-ai"@[0] == 'o' && "open-ai"@[1] == 'p' && "open-ai"@[6] == 'i',
        "OPEN-AI"@.len() == 7 && "OPEN-AI"@[0] == 'O' && "OPEN-AI"@[1] == 'P' && "OPEN-AI"@[6] == 'I',
        "Open Ai"@.len() == 7 && "Open Ai"@[0] == 'O' && "Open Ai"@[1] == 'p' && "Open Ai"@[6] == 'i',
        "openai"@.len() == 6 && "openai"@[0] == 'o' && "openai"@[1] == 'p' && "openai"@[5] == 'i',
        "OPENAI"@.len() == 6 && "OPENAI"@[0] == 'O' && "OPENAI"@[1] == 'P' && "OPENAI"@[5] == 'I',
        "OpenRouter"@.len() == 10 && "OpenRouter"@[0] == 'O' && "OpenRouter"@[1] == 'p' && "OpenRouter"@[9] == 'r',
        "open_router"@.len() == 11 && "open_router"@[0] == 'o' && "open_router"@[1] == 'p' && "open_router"@[10] == 'r',
        "openRouter"@.len() == 10 && "openRouter"@[0] == 'o' && "openRouter"@[1] == 'p' && "openRouter"@[9] == 'r',
        "OPEN_ROUTER"@.len() == 11 && "OPEN_ROUTER"@[0] == 'O' && "OPEN_ROUTER"@[1] == 'P' && "OPEN_ROUTER"@[10] == 'R',
        "open-router"@.len() == 11 && "open-router"@[0] == 'o' && "open-router"@[1] == 'p' && "open-router"@[10] == 'r',
        "OPEN-ROUTER"@.len() == 11 && "OPEN-ROUTER"@[0] == 'O' && "OPEN-ROUTER"@[1] == 'P' && "OPEN-ROUTER"@[10] == 'R',
        "Open Router"@.len() == 11 && "Open Router"@[0] == 'O' && "Open Router"@[1] == 'p' && "Open Router"@[10] == 'r',
        "openrouter"@.len() == 10 && "openrouter"@[0] == 'o' && "openrouter"@[1] == 'p' && "openrouter"@[9] == 'r',
        "OPENROUTER"@.len() == 10 && "OPENROUTER"@[0] == 'O' && "OPENROUTER"@[1] == 'P' && "OPENROUTER"@[9] == 'R',
        "Together"@.len() == 8 && "Together"@[0] == 'T' && "Together"@[1] == 'o' && "Together"@[7] == 'r',
        "together"@.len() == 8 && "together"@[0] == 't' && "together"@[1] == 'o' && "together"@[7] == 'r',
        "TOGETHER"@.len() == 8 && "TOGETHER"@[0] == 'T' && "TOGETHER"@[1] == 'O' && "TOGETHER"@[7] == 'R',
        "XAI"@.len() == 3 && "XAI"@[0] == 'X' && "XAI"@[1] == 'A' && "XAI"@[2] == 'I',
        "xai"@.len() == 3 && "xai"@[0] == 'x' && "xai"@[1] == 'a' && "xai"@[2] == 'i',
        "Xai"@.len() == 3 && "Xai"@[0] == 'X' && "Xai"@[1] == 'a' && "Xai"@[2] == 'i',
        "Azure"@.len() == 5 && "Azure"@[0] == 'A' && "Azure"@[1] == 'z' && "Azure"@[4] == 'e',
        "azure"@.len() == 5 && "azure"@[0] == 'a' && "azure"@[1] == 'z' && "azure"@[4] == 'e',
        "AZURE"@.len() == 5 && "AZURE"@[0] == 'A' && "AZURE"@[1] == 'Z' && "AZURE"@[4] == 'E',
        "DeepSeek"@.len() == 8 && "DeepSeek"@[0] == 'D' && "DeepSeek"@[1] == 'e' && "DeepSeek"@[7] == 'k',
        "deep_seek"@.len() == 9 && "deep_seek"@[0] == 'd' && "deep_seek"@[1] == 'e' && "deep_seek"@[8] == 'k',
        "deepSeek"@.len() == 8 && "deepSeek"@[0] == 'd' && "deepSeek"@[1] == 'e' && "deepSeek"@[7] == 'k',
        "DEEP_SEEK"@.len() == 9 && "DEEP_SEEK"@[0] == 'D' && "DEEP_SEEK"@[1] == 'E' && "DEEP_SEEK"@[8] == 'K',
        "deep-seek"@.len() == 9 && "deep-seek"@[0] == 'd' && "deep-seek"@[1] == 'e' && "deep-seek"@[8] == 'k',
        "DEEP-SEEK"@.len() == 9 && "DEEP-SEEK"@[0] == 'D' && "DEEP-SEEK"@[1] == 'E' && "DEEP-SEEK"@[8] == 'K',
        "Deep Seek"@.len() == 9 && "Deep Seek"@[0] == 'D' && "Deep Seek"@[1] == 'e' && "Deep Seek"@[8] == 'k',
        "deepseek"@.len() == 8 && "deepseek"@[0] == 'd' && "deepseek"@[1] == 'e' && "deepseek"@[7] == 'k',
        "DEEPSEEK"@.len() == 8 && "DEEPSEEK"@[0] == 'D' && "DEEPSEEK"@[1] == 'E' && "DEEPSEEK"@[7] == 'K',
        "Galadriel"@.len() == 9 && "Galadriel"@[0] == 'G' && "Galadriel"@[1] == 'a' && "Galadriel"@[8] == 'l',
        "galadriel"@.len() == 9 && "galadriel"@[0] == 'g' && "galadriel"@[1] == 'a' && "galadriel"@[8] == 'l',
        "GALADRIEL"@.len() == 9 && "GALADRIEL"@[0] == 'G' && "GALADRIEL"@[1] == 'A' && "GALADRIEL"@[8] == 'L',
        "Groq"@.len() == 4 && "Groq"@[0] == 'G' && "Groq"@[1] == 'r' && "Groq"@[3] == 'q',
        "groq"@.len() == 4 && "groq"@[0] == 'g' && "groq"@[1] == 'r' && "groq"@[3] == 'q',
        "GROQ"@.len() == 4 && "GROQ"@[0] == 'G' && "GROQ"@[1] == 'R' && "GROQ"@[3] == 'Q',
        "Hyperbolic"@.len() == 10 && "Hyperbolic"@[0] == 'H' && "Hyperbolic"@[1] == 'y' && "Hyperbolic"@[9] == 'c',
        "hyperbolic"@.len() == 10 && "hyperbolic"@[0] == 'h' && "hyperbolic"@[1] == 'y' && "hyperbolic"@[9] == 'c',
        "HYPERBOLIC"@.len() == 10 && "HYPERBOLIC"@[0] == 'H' && "HYPERBOLIC"@[1] == 'Y' && "HYPERBOLIC"@[9] == 'C',
        "Moonshot"@.len() == 8 && "Moonshot"@[0] == 'M' && "Moonshot"@[1] == 'o' && "Moonshot"@[7] == 't',
        "moonshot"@.len() == 8 && "moonshot"@[0] == 'm' && "moonshot"@[1] == 'o' && "moonshot"@[7] == 't',
        "MOONSHOT"@.len() == 8 && "MOONSHOT"@[0] == 'M' && "MOONSHOT"@[1] == 'O' && "MOONSHOT"@[7] == 'T',
        "Mira"@.len() == 4 && "Mira"@[0] == 'M' && "Mira"@[1] == 'i' && "Mira"@[3] == 'a',
        "mira"@.len() == 4 && "mira"@[0] == 'm' && "mira"@[1] == 'i' && "mira"@[3] == 'a',
        "MIRA"@.len() == 4 && "MIRA"@[0] == 'M' && "MIRA"@[1] == 'I' && "MIRA"@[3] == 'A',
        "Mistral"@.len() == 7 && "Mistral"@[0] == 'M' && "Mistral"@[1] == 'i' && "Mistral"@[6] == 'l',
        "mistral"@.len() == 7 && "mistral"@[0] == 'm' && "mistral"@[1] == 'i' && "mistral"@[6] == 'l',
        "MISTRAL"@.len() == 7 && "MISTRAL"@[0] == 'M' && "MISTRAL"@[1] == 'I' && "MISTRAL"@[6] == 'L',
        "Ollama"@.len() == 6 && "Ollama"@[0] == 'O' && "Ollama"@[1] == 'l' && "Ollama"@[5] == 'a',
        "ollama"@.len() == 6 && "ollama"@[0] == 'o' && "ollama"@[1] == 'l' && "ollama"@[5] == 'a',
        "OLLAMA"@.len() == 6 && "OLLAMA"@[0] == 'O' && "OLLAMA"@[1] == 'L' && "OLLAMA"@[5] == 'A',
        "Perplexity"@.len() == 10 && "Perplexity"@[0] == 'P' && "Perplexity"@[1] == 'e' && "Perplexity"@[9] == 'y',
        "perplexity"@.len() == 10 && "perplexity"@[0] == 'p' && "perplexity"@[1] == 'e' && "perplexity"@[9] == 'y',
        "PERPLEXITY"@.len() == 10 && "PERPLEXITY"@[0] == 'P' && "PERPLEXITY"@[1] == 'E' && "PERPLEXITY"@[9] == 'Y',
{
    reveal_strlit("Anthropic");
    reveal_strlit("anthropic");
    reveal_strlit("ANTHROPIC");
    reveal_strlit("Cohere");
    reveal_strlit("cohere");
    reveal_strlit("COHERE");
    reveal_strlit("Gemini");
    reveal_strlit("gemini");
    reveal_strlit("GEMINI");
    reveal_strlit("HuggingFace");
    reveal_strlit("hugging_face");
    reveal_strlit("huggingFace");
    reveal_strlit("HUGGING_FACE");
    reveal_strlit("hugging-face");
    reveal_strlit("HUGGING-FACE");
    reveal_strlit("Hugging Face");
    reveal_strlit("huggingface");
    reveal_strlit("HUGGINGFACE");
    reveal_strlit("OpenAI");
    reveal_strlit("open_ai");
    reveal_strlit("openAi");
    reveal_strlit("OpenAi");
    reveal_strlit("OPEN_AI");
    reveal_strlit("open-ai");
    reveal_strlit("OPEN-AI");
    reveal_strlit("Open Ai");
    reveal_strlit("openai");
    reveal_strlit("OPENAI");
    reveal_strlit("OpenRouter");
    reveal_strlit("open_router");
    reveal_strlit("openRouter");
    reveal_strlit("OPEN_ROUTER");
    reveal_strlit("open-router");
    reveal_strlit("OPEN-ROUTER");
    reveal_strlit("Open Router");
    reveal_strlit("openrouter");
    reveal_strlit("OPENROUTER");
    reveal_strlit("Together");
    reveal_strlit("together");
    reveal_strlit("TOGETHER");
    reveal_strlit("XAI");
    reveal_strlit("xai");
    reveal_strlit("Xai");
    reveal_strlit("Azure");
    reveal_strlit("azure");
    reveal_strlit("AZURE");
    reveal_strlit("DeepSeek");
    reveal_strlit("deep_seek");
    reveal_strlit("deepSeek");
    reveal_strlit("DEEP_SEEK");
    reveal_strlit("deep-seek");
    reveal_strlit("DEEP-SEEK");
    reveal_strlit("Deep Seek");
    reveal_strlit("deepseek");
    reveal_strlit("DEEPSEEK");
    reveal_strlit("Galadriel");
    reveal_strlit("galadriel");
    reveal_strlit("GALADRIEL");
    reveal_strlit("Groq");
    reveal_strlit("groq");
    reveal_strlit("GROQ");
    reveal_strlit("Hyperbolic");
    reveal_strlit("hyperbolic");
    reveal_strlit("HYPERBOLIC");
    reveal_strlit("Moonshot");
    reveal_strlit("moonshot");
    reveal_strlit("MOONSHOT");
    reveal_strlit("Mira");
    reveal_strlit("mira");
    reveal_strlit("MIRA");
    reveal_strlit("Mistral");
    reveal_strlit("mistral");
    reveal_strlit("MISTRAL");
    reveal_strlit("Ollama");
    reveal_strlit("ollama");
    reveal_strlit("OLLAMA");
    reveal_strlit("Perplexity");
    reveal_strlit("perplexity");
    reveal_strlit("PERPLEXITY");
}

} // verus!
