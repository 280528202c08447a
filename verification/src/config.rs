//! Configuration of the command-line tool.

use vstd::prelude::*;

verus! {

/// The configuration of a project.
#[derive(Debug)]
pub struct PinoConfig {
    pub version: String,
    pub build: BuildConfig,
    pub deploy: DeployConfig,
}

/// How a project is built.
#[derive(Debug)]
pub struct BuildConfig {
    pub target: String,
    pub optimization: String,
}

/// Where a project is deployed.
#[derive(Debug)]
pub struct DeployConfig {
    pub cluster: String,
    pub program_id: Option<String>,
}

impl Default for PinoConfig {
    /// Version 0.1.0, a release build for the BPF target, deployed to
    /// devnet under no fixed program id.
    fn default() -> (r: Self)
        ensures
            r.version@ == "0.1.0"@,
            r.build.target@ == "bpf-unknown-unknown"@,
            r.build.optimization@ == "release"@,
            r.deploy.cluster@ == "devnet"@,
            r.deploy.program_id is None,
    {
        PinoConfig {
            version: "0.1.0".to_string(),
            build: BuildConfig {
                target: "bpf-unknown-unknown".to_string(),
                optimization: "release".to_string(),
            },
            deploy: DeployConfig { cluster: "devnet".to_string(), program_id: None },
        }
    }
}

} // verus!
