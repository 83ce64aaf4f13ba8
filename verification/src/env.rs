//! Reading the environment of the process, with a record of each read.

use vstd::prelude::*;
use rig_core::client::ProviderClientError;

verus! {

/// One read of an environment variable: the variable's name, the value that
/// the read gave, if the variable was set, and whether the read was one that
/// fails where the variable is unset. Only the reads below make one.
pub struct EnvReading {
    var: Seq<char>,
    value: Option<Seq<char>>,
    fails_when_unset: bool,
}

impl EnvReading {
    /// The name of the variable that was read.
    pub closed spec fn var(self) -> Seq<char> {
        self.var
    }

    /// The value that the read gave, if the variable was set.
    pub closed spec fn value(self) -> Option<Seq<char>> {
        self.value
    }

    /// Whether the read was one that fails where the variable is unset,
    /// rather than one that gives no value there.
    pub closed spec fn fails_when_unset(self) -> bool {
        self.fails_when_unset
    }
}

/// Calls `rig_core::client::required_env_var` on `name`: the value of that
/// variable in the environment of the process. Claimed: a value that comes
/// back is recorded as a read of `name` that gave it, made by a read that
/// fails where the variable is unset. Nothing is claimed of whether a value
/// comes back, which depends on the environment.
#[verifier::external_body]
pub fn required_env_var(name: &'static str) -> (r: Result<(String, Ghost<EnvReading>), ProviderClientError>)
    ensures
        r matches Ok((v, rd)) ==> rd@.var() == name@ && rd@.value() == Some(v@) && rd@.fails_when_unset(),
{
    let value = rig_core::client::required_env_var(name)?;
    let reading = Ghost(EnvReading { var: name@, value: Some(value@), fails_when_unset: true });
    Ok((value, reading))
}

/// Calls `rig_core::client::optional_env_var` on `name`: the value of that
/// variable in the environment of the process, if it is set, and no value,
/// not an error, where it is unset. Claimed: what comes back is recorded as
/// a read of `name` that gave it, made by a read that does not fail where the
/// variable is unset. Nothing is claimed of what comes back, which depends on
/// the environment.
#[verifier::external_body]
pub fn optional_env_var(name: &'static str) -> (r: Result<(Option<String>, Ghost<EnvReading>), ProviderClientError>)
    ensures
        r matches Ok((v, rd)) ==> rd@.var() == name@ && rd@.value() == match v {
            Some(s) => Some(s@),
            None => None::<Seq<char>>,
        } && !rd@.fails_when_unset(),
{
    let value = rig_core::client::optional_env_var(name)?;
    let reading = Ghost(EnvReading { var: name@, value: match &value { Some(s) => Some(s@), None => None }, fails_when_unset: false });
    Ok((value, reading))
}

} // verus!
