//! The Observatory's view of the Updater: what `wyn-update --json` reports,
//! and the state that checking for and installing updates moves through.
//!
//! Running `wyn-update` and the worker threads belong to the caller; the
//! state that each outcome leads to, and the error texts, are decided here.
use vstd::prelude::*;

use crate::text::{copy_str, push_str, trim, trimmed};

verus! {

/// One component as `wyn-update --json` reports it.
#[derive(Debug, Clone)]
pub struct ComponentUpdate {
    pub name: String,
    pub installed: Option<String>,
    pub latest: Option<String>,
    pub status: String,
}

/// The report of `wyn-update --json`.
#[derive(Debug, Clone)]
pub struct UpdateSnapshot {
    pub components: Vec<ComponentUpdate>,
    pub updates_available: usize,
}

/// Where checking for and installing updates stands.
#[derive(Debug, Clone)]
pub enum UpdateState {
    Idle,
    Checking,
    Current(UpdateSnapshot),
    Available(UpdateSnapshot),
    Installing,
    Installed(UpdateSnapshot),
    Error(String),
}

/// The state after a check: updates are available exactly when the report
/// counts at least one.
pub open spec fn spec_check_outcome(result: Result<UpdateSnapshot, String>) -> UpdateState {
    match result {
        Ok(snapshot) => if snapshot.updates_available > 0 {
            UpdateState::Available(snapshot)
        } else {
            UpdateState::Current(snapshot)
        },
        Err(error) => UpdateState::Error(error),
    }
}

/// The state after a check that gave `result`.
pub fn check_outcome(result: Result<UpdateSnapshot, String>) -> (r: UpdateState)
    ensures
        r == spec_check_outcome(result),
{
    match result {
        Ok(snapshot) => {
            if snapshot.updates_available > 0 {
                UpdateState::Available(snapshot)
            } else {
                UpdateState::Current(snapshot)
            }
        },
        Err(error) => UpdateState::Error(error),
    }
}

/// The state once `wyn-update --install --yes` has run: an error ends the
/// installation, success (`None`) leads to a fresh report.
pub fn install_outcome(result: Result<(), String>) -> (r: Option<UpdateState>)
    ensures
        result is Ok ==> r is None,
        result matches Err(e) ==> r == Some(UpdateState::Error(e)),
{
    match result {
        Ok(()) => None,
        Err(error) => Some(UpdateState::Error(error)),
    }
}

/// The state after the report that follows a successful installation.
pub fn refresh_outcome(result: Result<UpdateSnapshot, String>) -> (r: UpdateState)
    ensures
        result matches Ok(s) ==> r == UpdateState::Installed(s),
        result matches Err(e) ==> r is Error && r->Error_0@ == "update installed, but refresh failed: "@
            + e@,
{
    match result {
        Ok(snapshot) => UpdateState::Installed(snapshot),
        Err(error) => UpdateState::Error(prefixed("update installed, but refresh failed: ", error.as_str())),
    }
}

/// `prefix` followed by `text`.
fn prefixed(prefix: &str, text: &str) -> (r: String)
    ensures
        r@ == prefix@ + text@,
{
    let mut s = copy_str(prefix);
    push_str(&mut s, text);
    s
}

/// `wyn-update` could not be started.
pub fn launch_failure(error: &str) -> (r: String)
    ensures
        r@ == "could not launch wyn-update: "@ + error@,
{
    prefixed("could not launch wyn-update: ", error)
}

/// `wyn-update --json` exited unsuccessfully; its standard error, trimmed,
/// says why.
pub fn report_failure(stderr: &str) -> (r: String)
    ensures
        r@ == "wyn-update --json failed: "@ + trim(stderr@),
{
    let t = trimmed(stderr);
    prefixed("wyn-update --json failed: ", t.as_str())
}

/// The report of `wyn-update --json` could not be read.
pub fn parse_failure(error: &str) -> (r: String)
    ensures
        r@ == "could not parse updater JSON: "@ + error@,
{
    prefixed("could not parse updater JSON: ", error)
}

/// `wyn-update --install --yes` exited unsuccessfully with `status`.
pub fn install_failure(status: &str) -> (r: String)
    ensures
        r@ == "wyn-update exited with "@ + status@,
{
    prefixed("wyn-update exited with ", status)
}

} // verus!
