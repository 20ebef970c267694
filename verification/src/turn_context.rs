use vstd::prelude::*;

verus! {

/// One execution environment of a turn, as the session holds it.
#[derive(Debug, PartialEq)]
pub struct TurnEnvironment {
    pub environment_id: Option<String>,
    pub cwd: String,
}

/// The domain lists of the network requirements: `None` where the
/// configuration gives no list of that kind.
#[derive(Debug, PartialEq)]
pub struct NetworkDomainPermissions {
    pub allowed_domains: Option<Vec<String>>,
    pub denied_domains: Option<Vec<String>>,
}

/// The network requirements of the configuration.
#[derive(Debug, PartialEq)]
pub struct NetworkRequirements {
    pub domains: Option<NetworkDomainPermissions>,
}

/// What the environment context reads of the live state of a turn.
#[derive(Debug, PartialEq)]
pub struct TurnContext {
    /// The working directory of the turn.
    pub cwd: String,
    /// The working directory of the default environment.
    pub default_environment_cwd: String,
    pub environments: Vec<TurnEnvironment>,
    /// Whether the tools that address several environments are enabled.
    pub multi_environment_tools: bool,
    pub current_date: Option<String>,
    pub timezone: Option<String>,
    /// The network requirements, where the configuration has any.
    pub network: Option<NetworkRequirements>,
}

/// The network policy recorded for a past turn.
#[derive(Debug, PartialEq)]
pub struct TurnContextNetworkItem {
    pub allowed_domains: Vec<String>,
    pub denied_domains: Vec<String>,
}

/// One environment recorded for a past turn.
#[derive(Debug, PartialEq)]
pub struct TurnContextEnvironmentItem {
    pub environment_id: String,
    pub cwd: String,
}

/// What the environment context reads of the record of a past turn.
#[derive(Debug, PartialEq)]
pub struct TurnContextItem {
    pub cwd: String,
    pub current_date: Option<String>,
    pub timezone: Option<String>,
    pub network: Option<TurnContextNetworkItem>,
    pub environments: Option<Vec<TurnContextEnvironmentItem>>,
}

} // verus!
