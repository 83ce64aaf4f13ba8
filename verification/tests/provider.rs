use rig_dynclient::provider::Provider;
use rig_dynclient::ParseProviderError;
use std::str::FromStr;

#[test]
fn display_names_are_found() {
    for p in Provider::all() {
        assert_eq!(Provider::from_name(p.as_str()), Some(p));
    }
}

#[test]
fn lowercase_names_are_found() {
    for p in Provider::all() {
        assert_eq!(Provider::from_name(&p.name()), Some(p));
    }
}

#[test]
fn lowercase_names_are_lowercased_display_names() {
    for p in Provider::all() {
        assert_eq!(p.name(), p.as_str().to_lowercase());
    }
    assert_eq!(Provider::OpenAI.name(), "openai");
    assert_eq!(Provider::HuggingFace.name(), "huggingface");
    assert_eq!(Provider::XAI.name(), "xai");
}

#[test]
fn all_lists_every_provider_in_order() {
    let all = Provider::all();
    assert_eq!(all.len(), 18);
    assert_eq!(all[0], Provider::Anthropic);
    assert_eq!(all[4], Provider::OpenAI);
    assert_eq!(all[16], Provider::Ollama);
    assert_eq!(all[17], Provider::Perplexity);
}

#[test]
fn case_spellings_of_two_word_names_are_found() {
    for s in [
        "OpenAI", "open_ai", "openAi", "OpenAi", "OPEN_AI", "open-ai", "OPEN-AI", "Open Ai", "openai",
        "OPENAI",
    ] {
        assert_eq!(Provider::from_name(s), Some(Provider::OpenAI), "{}", s);
    }
    for s in ["hugging_face", "huggingFace", "HUGGING-FACE", "Hugging Face", "HUGGINGFACE"] {
        assert_eq!(Provider::from_name(s), Some(Provider::HuggingFace), "{}", s);
    }
    for s in ["open_router", "openRouter", "Open Router", "OPENROUTER"] {
        assert_eq!(Provider::from_name(s), Some(Provider::OpenRouter), "{}", s);
    }
    for s in ["deep_seek", "deepSeek", "DEEP-SEEK", "Deep Seek", "deepseek"] {
        assert_eq!(Provider::from_name(s), Some(Provider::DeepSeek), "{}", s);
    }
}

#[test]
fn case_spellings_of_one_word_names_are_found() {
    assert_eq!(Provider::from_name("ANTHROPIC"), Some(Provider::Anthropic));
    assert_eq!(Provider::from_name("ollama"), Some(Provider::Ollama));
    assert_eq!(Provider::from_name("Xai"), Some(Provider::XAI));
    assert_eq!(Provider::from_name("XAI"), Some(Provider::XAI));
    assert_eq!(Provider::from_name("xai"), Some(Provider::XAI));
}

#[test]
fn other_spellings_are_not_found() {
    for s in ["", "openAI", "Openai", "oPeNaI", "open ai", "Open-AI", "x_ai", "Hugging-Face", "mystery", " openai"] {
        assert_eq!(Provider::from_name(s), None, "{}", s);
    }
}

#[test]
fn from_str_reports_the_unknown_name() {
    assert_eq!(Provider::from_str("groq"), Ok(Provider::Groq));
    assert_eq!(
        Provider::from_str("grok"),
        Err(ParseProviderError { name: "grok".to_string() })
    );
    assert_eq!("Mistral".parse::<Provider>(), Ok(Provider::Mistral));
}

#[test]
fn api_key_variables() {
    assert_eq!(Provider::Anthropic.api_key(), "ANTHROPIC_API_KEY");
    assert_eq!(Provider::HuggingFace.api_key(), "HUGGINGFACE_API_KEY");
    assert_eq!(Provider::OpenAI.api_key(), "OPENAI_API_KEY");
    assert_eq!(Provider::XAI.api_key(), "XAI_API_KEY");
    assert_eq!(Provider::Ollama.api_key(), "OLLAMA_API_KEY");
    assert_eq!(Provider::Perplexity.api_key(), "PERPLEXITY_API_KEY");
}

#[test]
fn only_ollama_needs_no_key() {
    for p in Provider::all() {
        assert_eq!(p.required(), p != Provider::Ollama);
    }
}

#[test]
fn nth_follows_declaration_order() {
    assert_eq!(Provider::nth(0), Provider::Anthropic);
    assert_eq!(Provider::nth(7), Provider::XAI);
    assert_eq!(Provider::nth(9), Provider::DeepSeek);
}

#[test]
fn parse_error_message_names_the_text() {
    let e = Provider::from_str("grok").unwrap_err();
    assert_eq!(e.message(), "Failed to parse \"grok\" as Provider");
}
