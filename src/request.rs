use vstd::prelude::*;

verus! {

/// Everything the watcher needs to know about the run it watches.
/// It is fixed for the whole watch.
#[derive(Clone, Debug, PartialEq, Eq)]
pub struct WatchTarget {
    /// Identifier of the run in the status source.
    pub run_id: String,
    /// Label that the notification carries as its step name.
    pub display_name: String,
    /// Token presented to the status source.
    pub credential: String,
}

impl WatchTarget {
    pub fn new(run_id: String, display_name: String, credential: String) -> (r: WatchTarget)
        ensures
            r.run_id == run_id,
            r.display_name == display_name,
            r.credential == credential,
    {
        WatchTarget { run_id, display_name, credential }
    }
}

/// Address of the collection of runs in the status source; a run's own
/// address is this followed by its identifier.
pub const RUNS_ENDPOINT: &'static str = "https://api.github.com/repos/rancher/rancher/actions/runs/";

/// Scheme word put before the token in the authorization header.
pub const AUTH_SCHEME: &'static str = "token ";

/// How the watcher identifies itself to the status source.
pub const CLIENT_ID: &'static str = "Actions-Reader/0.0.1 beta testing";

/// The structured format asked of the status source.
pub const ACCEPT_FORMAT: &'static str = "application/vnd.github+json";

/// The header values of one status query, ready to be sent.
#[derive(Clone, Debug, PartialEq, Eq)]
pub struct StatusRequest {
    pub url: String,
    pub user_agent: String,
    pub accept: String,
    pub authorization: String,
}

/// The address of a run in the status source.
pub fn status_url(run_id: &str) -> (r: String)
    ensures
        r@ == RUNS_ENDPOINT@ + run_id@,
{
    String::from_str(RUNS_ENDPOINT).concat(run_id)
}

/// The authorization header value that presents a credential.
pub fn authorization_value(credential: &str) -> (r: String)
    ensures
        r@ == AUTH_SCHEME@ + credential@,
{
    String::from_str(AUTH_SCHEME).concat(credential)
}

impl StatusRequest {
    /// The query for the current status of the target's run.
    pub fn for_target(target: &WatchTarget) -> (r: StatusRequest)
        ensures
            r.url@ == RUNS_ENDPOINT@ + target.run_id@,
            r.user_agent@ == CLIENT_ID@,
            r.accept@ == ACCEPT_FORMAT@,
            r.authorization@ == AUTH_SCHEME@ + target.credential@,
    {
        StatusRequest {
            url: status_url(target.run_id.as_str()),
            user_agent: String::from_str(CLIENT_ID),
            accept: String::from_str(ACCEPT_FORMAT),
            authorization: authorization_value(target.credential.as_str()),
        }
    }
}

} // verus!
