//! Binary artifact specification for lifecycle-managed executables.
use vstd::prelude::*;

verus! {

/// Restart policy of a binary workload.
#[derive(Debug, Clone, Copy, PartialEq, Eq, Structural)]
pub enum RestartPolicy {
    Never,
    OnFailure,
    Always,
}

/// The gRPC protocol number of a restart policy.
pub open spec fn proto_value(p: RestartPolicy) -> i32 {
    match p {
        RestartPolicy::Never => 0,
        RestartPolicy::OnFailure => 1,
        RestartPolicy::Always => 2,
    }
}

impl Default for RestartPolicy {
    /// A policy that is not given is `Never`.
    fn default() -> (r: Self)
        ensures
            r == RestartPolicy::Never,
    {
        RestartPolicy::Never
    }
}

impl RestartPolicy {
    /// Converts to the gRPC protocol value: `Never` 0, `OnFailure` 1, `Always` 2.
    pub fn to_proto_value(&self) -> (r: i32)
        ensures
            r == proto_value(*self),
    {
        match self {
            RestartPolicy::Never => 0,
            RestartPolicy::OnFailure => 1,
            RestartPolicy::Always => 2,
        }
    }
}

/// Specification for a binary executable workload.
#[derive(Debug, Clone)]
pub struct BinarySpec {
    /// Path to the executable binary.
    pub path: String,
    /// Command-line arguments.
    pub args: Vec<String>,
    /// Restart policy: Never, OnFailure, Always.
    pub restart_policy: RestartPolicy,
    /// Maximum retry count (0 = unlimited when the policy allows).
    pub max_retries: u32,
    /// Delay in seconds before a restart.
    pub restart_delay_secs: u32,
    /// Target node name.
    pub node: Option<String>,
}

/// Artifact metadata.
#[derive(Debug, Clone)]
pub struct Metadata {
    pub name: String,
}

/// A `kind: Binary` artifact: its metadata and its specification.
#[derive(Debug, Clone)]
pub struct Binary {
    pub metadata: Metadata,
    pub spec: BinarySpec,
}

impl Binary {
    /// The artifact's name, which is also the lifecycle service name.
    pub fn get_name(&self) -> (r: String)
        ensures
            r@ == self.metadata.name@,
    {
        self.metadata.name.clone()
    }

    /// The binary specification.
    pub fn get_spec(&self) -> (r: &BinarySpec)
        ensures
            *r == self.spec,
    {
        &self.spec
    }

    /// The target node, when one is given.
    pub fn get_node(&self) -> (r: Option<&str>)
        ensures
            match r {
                Some(n) => self.spec.node matches Some(m) && n@ == m@,
                None => self.spec.node is None,
            },
    {
        match &self.spec.node {
            Some(n) => Some(n.as_str()),
            None => None,
        }
    }
}

} // verus!
