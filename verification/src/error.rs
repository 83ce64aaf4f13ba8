//! The errors of the client builder.

use vstd::prelude::*;
use vstd::string::StringExecFns;

verus! {

/// `rig_core::completion::CompletionError`, the error of a completion request;
/// the builder only carries it.
#[verifier::external_type_specification]
#[verifier::external_body]
pub struct ExCompletionError(rig_core::completion::CompletionError);

/// `rig_core::client::ProviderClientError`, the error of building a provider
/// client; the builder only carries it.
#[verifier::external_type_specification]
#[verifier::external_body]
pub struct ExProviderClientError(rig_core::client::ProviderClientError);

/// What can go wrong while picking a provider and building its client.
#[derive(Debug)]
pub enum Error {
    /// No provider is known under the given name.
    NotFound(String),
    /// The environment variable that should hold the provider's API key is not set.
    MissingEnv(String),
    /// The provider's client cannot act in the requested role.
    NotCapable { provider: String, role: String },
    /// A completion request failed.
    Completion(rig_core::completion::CompletionError),
    /// The provider's client could not be built.
    Client(rig_core::client::ProviderClientError),
}

impl Error {
    /// The message of the error, as its text shows it; for an outside error,
    /// after the first line comes that error's own text.
    pub open spec fn spec_message_head(&self) -> Seq<char> {
        match self {
            Error::NotFound(name) => "Provider '"@ + name@ + "' not found"@,
            Error::MissingEnv(name) => "Environment Variable '"@ + name@ + "' not found"@,
            Error::NotCapable { provider, role } => "Provider '"@ + provider@
                + "' cannot be coerced to a '"@ + role@ + "'"@,
            Error::Completion(_) => "Error generating response\n"@,
            Error::Client(_) => "Error from provider client\n"@,
        }
    }

    /// Whether the message of the error goes on after its head.
    pub open spec fn has_inner_message(&self) -> bool {
        self is Completion || self is Client
    }

    /// The message of the error: the head, then for an outside error that
    /// error's own text.
    pub fn message(&self) -> (r: String)
        ensures
            !self.has_inner_message() ==> r@ == self.spec_message_head(),
            self.has_inner_message() ==> r@.len() >= self.spec_message_head().len() && r@.subrange(
                0,
                self.spec_message_head().len() as int,
            ) == self.spec_message_head(),
    {
        let mut out: String = String::new();
        match self {
            Error::NotFound(name) => {
                out.append("Provider '");
                out.append(name.as_str());
                out.append("' not found");
            },
            Error::MissingEnv(name) => {
                out.append("Environment Variable '");
                out.append(name.as_str());
                out.append("' not found");
            },
            Error::NotCapable { provider, role } => {
                out.append("Provider '");
                out.append(provider.as_str());
                out.append("' cannot be coerced to a '");
                out.append(role.as_str());
                out.append("'");
            },
            Error::Completion(e) => {
                out.append("Error generating response\n");
                let inner: String = completion_error_text(e);
                let ghost head = out@;
                out.append(inner.as_str());
                assert(out@.subrange(0, head.len() as int) =~= head);
            },
            Error::Client(e) => {
                out.append("Error from provider client\n");
                let inner: String = client_error_text(e);
                let ghost head = out@;
                out.append(inner.as_str());
                assert(out@.subrange(0, head.len() as int) =~= head);
            },
        }
        proof {
            assert(out@ =~= self.spec_message_head() || self.has_inner_message());
        }
        out
    }
}

impl From<rig_core::completion::CompletionError> for Error {
    fn from(e: rig_core::completion::CompletionError) -> (r: Error) {
        Error::Completion(e)
    }
}

impl vstd::std_specs::convert::FromSpecImpl<rig_core::completion::CompletionError> for Error {
    open spec fn obeys_from_spec() -> bool {
        true
    }

    open spec fn from_spec(v: rig_core::completion::CompletionError) -> Error {
        Error::Completion(v)
    }
}

impl From<rig_core::client::ProviderClientError> for Error {
    fn from(e: rig_core::client::ProviderClientError) -> (r: Error) {
        Error::Client(e)
    }
}

impl vstd::std_specs::convert::FromSpecImpl<rig_core::client::ProviderClientError> for Error {
    open spec fn obeys_from_spec() -> bool {
        true
    }

    open spec fn from_spec(v: rig_core::client::ProviderClientError) -> Error {
        Error::Client(v)
    }
}

/// Calls `to_string` on the `CompletionError`, through its `Display`
/// (written with `thiserror`). Nothing is claimed of the text.
#[verifier::external_body]
fn completion_error_text(e: &rig_core::completion::CompletionError) -> String {
    e.to_string()
}

/// Calls `to_string` on the `ProviderClientError`, through its `Display`
/// (written with `thiserror`). Nothing is claimed of the text.
#[verifier::external_body]
fn client_error_text(e: &rig_core::client::ProviderClientError) -> String {
    e.to_string()
}

} // verus!
