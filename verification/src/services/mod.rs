//! The application's use cases, as decisions over values: what the
//! command-line front end reads and writes is handed in and out.

use vstd::prelude::*;
use vstd::string::*;
use crate::persistence::schema::spec_join;
use crate::persistence::schema::join_path;
use crate::text::opt_view;

pub mod config_service;
pub mod health_service;
pub mod live_check_flow;
pub mod live_flow;
pub mod live_service;
pub mod paper_flow;
pub mod paper_service;
pub mod signals;
pub mod research_service;
pub mod risk_service;

pub use research_service::{
    ApprovalReport, BacktestFixture, BacktestReport, LiveApprovalArtifact, ResearchEvidence,
};
pub use config_service::{check_config, ConfigReport};
pub use health_service::{health, HealthReport};
pub use live_service::{LiveCheckReport, LiveSubmitReport};
pub use paper_service::{PaperExecutionStatus, PaperRunReport};
pub use risk_service::{explain_risk, RiskExplainFixture, RiskReport};

verus! {

/// The parent of the path `p` as std's `Path::parent` computes it on this
/// platform: the path without its final component, or nothing for a root,
/// a prefix or the empty path.
pub uninterp spec fn spec_path_parent(p: Seq<char>) -> Option<Seq<char>>;

/// Calls `std::path::Path::parent` on `p`. Claimed: the result, as text,
/// is `spec_path_parent(p)`; what that is on given paths is not stated.
#[verifier::external_body]
fn path_parent(p: &str) -> (r: Option<String>)
    ensures
        opt_view(r) == spec_path_parent(p@),
{
    std::path::Path::new(p).parent().map(|q| q.to_string_lossy().into_owned())
}

/// The development data directory beside a configuration directory:
/// `<repo_root>/var/dev`, where the repository root is the configuration
/// directory's parent, or the configuration directory itself when it has
/// none.
pub open spec fn spec_data_dir_for(config_dir: Seq<char>, repo_root: Option<Seq<char>>) -> Seq<char> {
    let root = match repo_root {
        Some(r) => r,
        None => config_dir,
    };
    spec_join(spec_join(root, "var"@), "dev"@)
}

/// The data directory for the configuration directory `config_dir`,
/// given that directory's parent, if it has one.
pub fn data_dir_for(config_dir: &str, repo_root: Option<String>) -> (r: String)
    ensures
        r@ == spec_data_dir_for(config_dir@, opt_view(repo_root)),
{
    let root = match repo_root {
        Some(r) => r,
        None => config_dir.to_owned(),
    };
    let var = join_path(root.as_str(), "var");
    join_path(var.as_str(), "dev")
}

/// The directory a configuration file lives in: its parent, or `.` when
/// it has none.
pub open spec fn spec_config_dir(config_path: Seq<char>) -> Seq<char> {
    match spec_path_parent(config_path) {
        Some(d) => d,
        None => "."@,
    }
}

/// The development data directory for the configuration at
/// `config_path`.
pub open spec fn spec_derive_data_dir(config_path: Seq<char>) -> Seq<char> {
    spec_data_dir_for(
        spec_config_dir(config_path),
        spec_path_parent(spec_config_dir(config_path)),
    )
}

/// The development data directory for the configuration at
/// `config_path`: `var/dev` under the configuration directory's parent.
pub fn derive_data_dir(config_path: &str) -> (r: String)
    ensures
        r@ == spec_derive_data_dir(config_path@),
{
    let config_dir = match path_parent(config_path) {
        Some(d) => d,
        None => ".".to_owned(),
    };
    let repo_root = path_parent(config_dir.as_str());
    data_dir_for(config_dir.as_str(), repo_root)
}

} // verus!
