//! The builder that picks a provider by name and finds its API key.

use vstd::prelude::*;
use crate::client::{azure_keyed, read_from_env, AnyClient, ClientSettings};
use crate::error::Error;
use crate::provider::{parse_provider, Provider};

verus! {

/// The variables of an environment given as name-value pairs, a later pair
/// overriding an earlier one of the same name.
pub open spec fn env_map(vars: Seq<(String, String)>) -> Map<Seq<char>, Seq<char>>
    decreases vars.len(),
{
    if vars.len() == 0 {
        Map::empty()
    } else {
        env_map(vars.drop_last()).insert(vars.last().0@, vars.last().1@)
    }
}

/// The text of an optional string.
pub open spec fn opt_view(s: Option<&str>) -> Option<Seq<char>> {
    match s {
        Some(t) => Some(t@),
        None => None,
    }
}

/// The API key that a client of `p` gets, if any: the one given, else the
/// value of the provider's variable in `env`, else the empty key where the
/// provider needs none.
pub open spec fn resolved_key(
    env: Map<Seq<char>, Seq<char>>,
    p: Provider,
    given: Option<Seq<char>>,
) -> Option<Seq<char>> {
    match given {
        Some(k) => Some(k),
        None => if env.contains_key(p.spec_api_key()) {
            Some(env[p.spec_api_key()])
        } else if !p.spec_required() {
            Some(Seq::<char>::empty())
        } else {
            None
        },
    }
}

/// A name with no pair at or after position `from` in `vars`.
pub open spec fn unset_from(vars: Seq<(String, String)>, name: Seq<char>, from: int) -> bool {
    forall|k: int| from <= k < vars.len() ==> #[trigger] vars[k].0@ != name
}

/// A variable that no pair names is not set.
pub proof fn lemma_env_unset(vars: Seq<(String, String)>, name: Seq<char>)
    requires
        unset_from(vars, name, 0),
    ensures
        !env_map(vars).contains_key(name),
    decreases vars.len(),
{
    if vars.len() > 0 {
        assert(unset_from(vars.drop_last(), name, 0)) by {
            assert forall|k: int| 0 <= k < vars.drop_last().len() implies #[trigger] vars.drop_last()[k].0@ != name by {
                assert(vars.drop_last()[k] == vars[k]);
            }
        }
        lemma_env_unset(vars.drop_last(), name);
    }
}

/// A variable takes the value of the last pair that names it.
pub proof fn lemma_env_last_pair(vars: Seq<(String, String)>, name: Seq<char>, j: int)
    requires
        0 <= j < vars.len(),
        vars[j].0@ == name,
        unset_from(vars, name, j + 1),
    ensures
        env_map(vars).contains_key(name),
        env_map(vars)[name] == vars[j].1@,
    decreases vars.len(),
{
    if j < vars.len() - 1 {
        let rest = vars.drop_last();
        assert(rest[j] == vars[j]);
        assert(unset_from(rest, name, j + 1)) by {
            assert forall|k: int| j + 1 <= k < rest.len() implies #[trigger] rest[k].0@ != name by {
                assert(rest[k] == vars[k]);
            }
        }
        lemma_env_last_pair(rest, name, j);
        assert(vars[vars.len() - 1].0@ != name);
    }
}

/// A key given to the builder is the key the client gets, whatever the
/// environment holds.
pub proof fn lemma_given_key_wins(env: Map<Seq<char>, Seq<char>>, p: Provider, key: Seq<char>)
    ensures
        resolved_key(env, p, Some(key)) == Some(key),
{
}

/// With no key given and the provider's variable unset, only Ollama gets a
/// key (the empty one); every other provider gets none.
pub proof fn lemma_only_ollama_runs_keyless(env: Map<Seq<char>, Seq<char>>, p: Provider)
    requires
        !env.contains_key(p.spec_api_key()),
    ensures
        resolved_key(env, p, None) is Some <==> p == Provider::Ollama,
        p == Provider::Ollama ==> resolved_key(env, p, None) == Some(Seq::<char>::empty()),
{
}

/// With no key given, a set variable of the provider is the key the client gets.
pub proof fn lemma_env_key_used(env: Map<Seq<char>, Seq<char>>, p: Provider)
    requires
        env.contains_key(p.spec_api_key()),
    ensures
        resolved_key(env, p, None) == Some(env[p.spec_api_key()]),
{
}

/// The key that a client of `p` gets depends on the environment only
/// through the provider's own variable: two environments that agree on it
/// give the same key, or both none.
pub proof fn lemma_key_depends_only_on_provider_variable(
    env1: Map<Seq<char>, Seq<char>>,
    env2: Map<Seq<char>, Seq<char>>,
    p: Provider,
    given: Option<Seq<char>>,
)
    requires
        env1.contains_key(p.spec_api_key()) == env2.contains_key(p.spec_api_key()),
        env1.contains_key(p.spec_api_key()) ==> env1[p.spec_api_key()] == env2[p.spec_api_key()],
    ensures
        resolved_key(env1, p, given) == resolved_key(env2, p, given),
{
}

/// Builds clients of the provider that a name denotes, taking API keys from
/// a snapshot of the environment when none is given.
#[derive(Debug, Clone)]
pub struct DynClientBuilder {
    env: Vec<(String, String)>,
}

impl View for DynClientBuilder {
    type V = Map<Seq<char>, Seq<char>>;

    /// The environment variables that the builder reads.
    closed spec fn view(&self) -> Map<Seq<char>, Seq<char>> {
        env_map(self.env@)
    }
}

impl DynClientBuilder {
    /// A builder over the environment `vars`, given as name-value pairs (the
    /// environment of the process, as `std::env::vars` lists it); a later
    /// pair overrides an earlier one of the same name.
    pub fn new(vars: Vec<(String, String)>) -> (r: Self)
        ensures
            r@ == env_map(vars@),
    {
        Self::with_env(vars)
    }

    /// A builder over the environment `vars`, given as name-value pairs; a
    /// later pair overrides an earlier one of the same name.
    pub fn with_env(vars: Vec<(String, String)>) -> (r: Self)
        ensures
            r@ == env_map(vars@),
    {
        DynClientBuilder { env: vars }
    }

    /// The value of the environment variable `name`, if it is set.
    pub fn env_var(&self, name: &str) -> (r: Option<&String>)
        ensures
            r is Some <==> self@.contains_key(name@),
            r matches Some(v) ==> v@ == self@[name@],
    {
        let target: String = name.to_owned();
        let mut i: usize = self.env.len();
        while i > 0
            invariant
                i <= self.env@.len(),
                target@ == name@,
                unset_from(self.env@, name@, i as int),
            decreases i,
        {
            i -= 1;
            if self.env[i].0 == target {
                proof {
                    lemma_env_last_pair(self.env@, name@, i as int);
                }
                return Some(&self.env[i].1);
            }
        }
        proof {
            lemma_env_unset(self.env@, name@);
        }
        None
    }

    /// The API key for a client of `provider`: `api_key` when given, else the
    /// value of the provider's environment variable, else the empty key when
    /// the provider needs none; `MissingEnv` with the variable's name otherwise.
    pub fn api_key_for(&self, provider: Provider, api_key: Option<&str>) -> (r: Result<
        String,
        Error,
    >)
        ensures
            match resolved_key(self@, provider, opt_view(api_key)) {
                Some(k) => (r matches Ok(s) && s@ == k),
                None => (r matches Err(Error::MissingEnv(v)) && v@ == provider.spec_api_key()),
            },
    {
        match api_key {
            Some(key) => Ok(key.to_owned()),
            None => match self.env_var(provider.api_key()) {
                Some(key) => Ok(key.clone()),
                None => if !provider.required() {
                    Ok(String::new())
                } else {
                    Err(Error::MissingEnv(provider.api_key().to_owned()))
                },
            },
        }
    }

    /// Builds a client of the provider that `provider_name` denotes,
    /// configured from the environment of the process as the provider's
    /// client reads it; `model` is not used. Superseded by `client` with no key.
    pub fn from_env<T, Models>(&self, provider_name: &str, model: Models) -> (r: Result<
        AnyClient,
        Error,
    >)
        ensures
            match parse_provider(provider_name@) {
                None => (r matches Err(Error::NotFound(n)) && n@ == provider_name@),
                Some(p) => (r matches Ok(c) ==> c.spec_kind() == p && read_from_env(
                    p,
                    c.spec_settings(),
                )) && (r is Err ==> r matches Err(Error::Client(_))),
            },
    {
        let provider: Provider = match Provider::from_name(provider_name) {
            Some(p) => p,
            None => return Err(Error::NotFound(provider_name.to_owned())),
        };
        match provider.from_env() {
            Ok(c) => Ok(c),
            Err(e) => Err(Error::Client(e)),
        }
    }

    /// Builds a client of the provider that `provider_name` denotes, with
    /// `api_key`, or the key that the environment holds for it.
    pub fn client(&self, provider_name: &str, api_key: Option<&str>) -> (r: Result<
        AnyClient,
        Error,
    >)
        ensures
            match parse_provider(provider_name@) {
                None => (r matches Err(Error::NotFound(n)) && n@ == provider_name@),
                Some(p) => match resolved_key(self@, p, opt_view(api_key)) {
                    None => (r matches Err(Error::MissingEnv(v)) && v@ == p.spec_api_key()),
                    Some(k) => (r matches Ok(c) ==> c.spec_kind() == p && c.spec_settings().key == k
                        && !c.spec_settings().key_is_token && (p != Provider::Azure
                        ==> c.spec_settings() == ClientSettings::keyed(k)) && (p == Provider::Azure
                        ==> azure_keyed(k, c.spec_settings()))) && (r is Err ==> r matches Err(
                        Error::Client(_),
                    )),
                },
            },
    {
        let provider: Provider = match Provider::from_name(provider_name) {
            Some(p) => p,
            None => return Err(Error::NotFound(provider_name.to_owned())),
        };
        let key: String = match self.api_key_for(provider, api_key) {
            Ok(k) => k,
            Err(e) => return Err(e),
        };
        match provider.from_key(&key) {
            Ok(c) => Ok(c),
            Err(e) => Err(Error::Client(e)),
        }
    }
}

} // verus!
