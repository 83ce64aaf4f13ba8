use rig_dynclient::provider::Provider;
use rig_dynclient::{AnyClient, DynClientBuilder, Error};

fn vars(pairs: &[(&str, &str)]) -> Vec<(String, String)> {
    pairs.iter().map(|(k, v)| (k.to_string(), v.to_string())).collect()
}

#[test]
fn later_pairs_override_earlier_ones() {
    let b = DynClientBuilder::with_env(vars(&[("A", "1"), ("B", "2"), ("A", "3")]));
    assert_eq!(b.env_var("A").map(String::as_str), Some("3"));
    assert_eq!(b.env_var("B").map(String::as_str), Some("2"));
    assert_eq!(b.env_var("C"), None);
}

#[test]
fn new_reads_the_given_environment() {
    let b = DynClientBuilder::new(vars(&[("OPENAI_API_KEY", "sk-1")]));
    assert_eq!(b.env_var("OPENAI_API_KEY").map(String::as_str), Some("sk-1"));
    assert_eq!(DynClientBuilder::new(Vec::new()).env_var("OPENAI_API_KEY"), None);
}

#[test]
fn given_key_wins_over_environment() {
    let b = DynClientBuilder::with_env(vars(&[("GROQ_API_KEY", "from-env")]));
    assert_eq!(b.api_key_for(Provider::Groq, Some("given")).unwrap(), "given");
    assert_eq!(b.api_key_for(Provider::Groq, None).unwrap(), "from-env");
}

#[test]
fn missing_key_names_the_variable() {
    let b = DynClientBuilder::with_env(vars(&[("OPENAI_API_KEY", "x")]));
    match b.api_key_for(Provider::Anthropic, None) {
        Err(Error::MissingEnv(v)) => assert_eq!(v, "ANTHROPIC_API_KEY"),
        other => panic!("unexpected {:?}", other),
    }
}

#[test]
fn ollama_runs_with_empty_key() {
    let b = DynClientBuilder::with_env(Vec::new());
    assert_eq!(b.api_key_for(Provider::Ollama, None).unwrap(), "");
    let b = DynClientBuilder::with_env(vars(&[("OLLAMA_API_KEY", "k")]));
    assert_eq!(b.api_key_for(Provider::Ollama, None).unwrap(), "k");
}

#[test]
fn unknown_provider_is_not_found() {
    let b = DynClientBuilder::with_env(Vec::new());
    match b.client("no-such-provider", Some("k")) {
        Err(Error::NotFound(n)) => assert_eq!(n, "no-such-provider"),
        other => panic!("unexpected {:?}", other.map(|c| c.name())),
    }
}

#[test]
fn client_without_key_reports_missing_env() {
    let b = DynClientBuilder::with_env(Vec::new());
    match b.client("openai", None) {
        Err(Error::MissingEnv(v)) => assert_eq!(v, "OPENAI_API_KEY"),
        other => panic!("unexpected {:?}", other.map(|c| c.name())),
    }
}

#[test]
fn client_is_built_for_the_named_provider() {
    let b = DynClientBuilder::with_env(vars(&[("ANTHROPIC_API_KEY", "sk-ant-test")]));
    let c = b.client("anthropic", None).expect("client");
    assert_eq!(c.kind(), Provider::Anthropic);
    assert_eq!(c.name(), "anthropic");
    assert!(matches!(c, AnyClient::Anthropic(..)));

    let c = b.client("OPEN_AI", Some("sk-test")).expect("client");
    assert_eq!(c.kind(), Provider::OpenAI);
    assert_eq!(c.name(), "openai");
}

#[test]
fn ollama_client_needs_no_key() {
    let b = DynClientBuilder::with_env(Vec::new());
    let c = b.client("ollama", None).expect("client");
    assert_eq!(c.kind(), Provider::Ollama);
}

#[test]
fn every_provider_but_azure_builds_from_a_key() {
    for p in Provider::all() {
        if p == Provider::Azure {
            continue;
        }
        let c = p.from_key("test-key").expect("client");
        assert_eq!(c.kind(), p);
        assert_eq!(c.name(), p.name());
        assert_eq!(Provider::from_name(&c.name()), Some(p));
    }
}

#[test]
fn not_capable_names_provider_and_role() {
    let c = Provider::Groq.from_key("k").expect("client");
    match c.not_capable("Completion Model") {
        Error::NotCapable { provider, role } => {
            assert_eq!(provider, "groq");
            assert_eq!(role, "Completion Model");
        }
        other => panic!("unexpected {:?}", other),
    }
}

#[test]
fn error_messages() {
    assert_eq!(Error::NotFound("foo".into()).message(), "Provider 'foo' not found");
    assert_eq!(
        Error::MissingEnv("GROQ_API_KEY".into()).message(),
        "Environment Variable 'GROQ_API_KEY' not found"
    );
    assert_eq!(
        Error::NotCapable { provider: "groq".into(), role: "Completion".into() }.message(),
        "Provider 'groq' cannot be coerced to a 'Completion'"
    );
}

#[test]
fn builder_clones_keep_environment() {
    let b = DynClientBuilder::with_env(vars(&[("X", "1")]));
    let c = b.clone();
    assert_eq!(c.env_var("X").map(String::as_str), Some("1"));
}

#[test]
fn outside_errors_show_their_own_text() {
    let e = Error::Completion(rig_core::completion::CompletionError::ProviderError("boom".into()));
    assert_eq!(e.message(), "Error generating response\nProviderError: boom");
    let e = Error::Client(rig_core::client::ProviderClientError::InvalidConfiguration("bad"));
    assert_eq!(e.message(), "Error from provider client\nbad");
}

#[test]
fn from_env_reports_unknown_provider() {
    let b = DynClientBuilder::with_env(Vec::new());
    match b.from_env::<(), &str>("unknown-provider", "model") {
        Err(Error::NotFound(n)) => assert_eq!(n, "unknown-provider"),
        other => panic!("unexpected {:?}", other.map(|c| c.name())),
    }
}

#[test]
fn clients_from_the_process_environment_belong_to_their_provider() {
    for p in [Provider::Ollama, Provider::Groq, Provider::OpenAI] {
        if let Ok(c) = p.from_env() {
            assert_eq!(c.kind(), p);
        }
    }
    let b = DynClientBuilder::with_env(Vec::new());
    if let Ok(c) = b.from_env::<(), &str>("ollama", "llama3") {
        assert_eq!(c.kind(), Provider::Ollama);
    }
}

#[test]
fn outside_errors_convert_into_the_builder_error() {
    let e: Error = rig_core::client::ProviderClientError::InvalidConfiguration("x").into();
    assert!(matches!(e, Error::Client(_)));
    let e: Error = rig_core::completion::CompletionError::ResponseError("y".into()).into();
    assert!(matches!(e, Error::Completion(_)));
}

#[test]
fn not_capable_errors_name_their_roles() {
    let c = Provider::Mistral.from_key("k").expect("client");
    match c.not_capable_for_agent() {
        Error::NotCapable { provider, role } => {
            assert_eq!(provider, "mistral");
            assert_eq!(role, "Completion");
        }
        other => panic!("unexpected {:?}", other),
    }
    match c.not_capable_for_completion_model() {
        Error::NotCapable { provider, role } => {
            assert_eq!(provider, "mistral");
            assert_eq!(role, "Completion Model");
        }
        other => panic!("unexpected {:?}", other),
    }
}

#[test]
fn key_depends_only_on_the_provider_variable() {
    let b1 = DynClientBuilder::with_env(vars(&[("GROQ_API_KEY", "g"), ("OTHER", "1")]));
    let b2 = DynClientBuilder::with_env(vars(&[("GROQ_API_KEY", "g"), ("OPENAI_API_KEY", "o")]));
    assert_eq!(b1.api_key_for(Provider::Groq, None).unwrap(), b2.api_key_for(Provider::Groq, None).unwrap());
    assert_eq!(b1.api_key_for(Provider::Groq, Some("k")).unwrap(), "k");
    assert_eq!(b2.api_key_for(Provider::Groq, Some("k")).unwrap(), "k");
}
