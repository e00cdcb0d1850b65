//! What the operator can set, and the check that it has to pass.

use vstd::prelude::*;

verus! {

/// The directory in which the kubelet keeps the sockets of device plugins.
pub const DEFAULT_KUBELET_DIR: &'static str = "/var/lib/kubelet/device-plugins";

/// The file name of this plugin's socket in that directory.
pub const DEFAULT_SOCKET_NAME: &'static str = "nvidia-cdi-device-plugin.sock";

/// The resource name under which the devices are advertised.
pub const DEFAULT_RESOURCE_NAME: &'static str = "nvidia.com/gpu";

/// A setting that the plugin cannot start with.
#[derive(Clone, Copy, Debug, PartialEq, Eq, Structural)]
pub enum ConfigError {
    /// The resource name has no vendor domain in front of a slash.
    UnqualifiedResourceName,
}

/// Whether a resource name is fully qualified: it holds a slash.
pub open spec fn fully_qualified(name: Seq<char>) -> bool {
    name.contains('/')
}

/// What an operator is told about a configuration error.
pub open spec fn config_error_text(error: ConfigError) -> Seq<char> {
    match error {
        ConfigError::UnqualifiedResourceName =>
            "resource-name must be fully qualified, e.g. nvidia.com/gpu"@,
    }
}

impl ConfigError {
    /// What the operator is told.
    pub fn message(&self) -> (text: &'static str)
        ensures
            text@ == config_error_text(*self),
    {
        match self {
            ConfigError::UnqualifiedResourceName => {
                "resource-name must be fully qualified, e.g. nvidia.com/gpu"
            },
        }
    }
}

/// Accepts a resource name if and only if it is fully qualified.
pub fn check_resource_name(name: &str) -> (r: Result<(), ConfigError>)
    ensures
        r is Ok == fully_qualified(name@),
        r is Err ==> r == Err::<(), ConfigError>(ConfigError::UnqualifiedResourceName),
{
    let mut found = false;
    for c in it: name.chars()
        invariant
            found == exists|j: int| 0 <= j < it.index() && it.seq()[j] == '/',
            it.seq() == name@,
    {
        if c == '/' {
            found = true;
        }
    }
    if found {
        Ok(())
    } else {
        Err(ConfigError::UnqualifiedResourceName)
    }
}

} // verus!
