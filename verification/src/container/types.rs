//! The records that describe a container.

use std::collections::HashMap;
use vstd::prelude::*;

verus! {

/// The state of a container.
#[derive(Debug, Clone, Copy, PartialEq, Eq, Structural)]
pub enum ContainerState {
    Created,
    Running,
    Paused,
    Restarting,
    Removing,
    Exited,
    Dead,
}

impl ContainerState {
    /// The lower-case word for the state.
    pub open spec fn spec_name(self) -> Seq<char> {
        match self {
            ContainerState::Created => "created"@,
            ContainerState::Running => "running"@,
            ContainerState::Paused => "paused"@,
            ContainerState::Restarting => "restarting"@,
            ContainerState::Removing => "removing"@,
            ContainerState::Exited => "exited"@,
            ContainerState::Dead => "dead"@,
        }
    }

    /// The lower-case word for the state, as the engines print it.
    pub fn to_string(&self) -> (s: String)
        ensures
            s@ == self.spec_name(),
    {
        match self {
            ContainerState::Created => "created".to_string(),
            ContainerState::Running => "running".to_string(),
            ContainerState::Paused => "paused".to_string(),
            ContainerState::Restarting => "restarting".to_string(),
            ContainerState::Removing => "removing".to_string(),
            ContainerState::Exited => "exited".to_string(),
            ContainerState::Dead => "dead".to_string(),
        }
    }
}

impl Default for ContainerState {
    /// A container starts as `Created`.
    fn default() -> (state: ContainerState)
        ensures
            state == ContainerState::Created,
    {
        ContainerState::Created
    }
}

/// The status of a container in detail.
#[derive(Debug)]
pub struct ContainerStatus {
    pub state: ContainerState,
    pub status: String,
    pub running: bool,
    pub paused: bool,
    pub restarting: bool,
    pub oom_killed: bool,
    pub dead: bool,
    pub pid: i64,
    pub exit_code: i32,
    pub error: String,
    pub started_at: String,
    pub finished_at: String,
}

/// A port of a container and the host port that it is bound to.
#[derive(Debug)]
pub struct PortBinding {
    pub container_port: u16,
    /// Zero where the port is not published.
    pub host_port: u16,
    pub protocol: String,
    /// Empty where the port is not published.
    pub host_ip: String,
}

/// The mathematical content of a [`PortBinding`].
pub struct PortBindingView {
    pub container_port: nat,
    pub host_port: nat,
    pub protocol: Seq<char>,
    pub host_ip: Seq<char>,
}

impl View for PortBinding {
    type V = PortBindingView;

    open spec fn view(&self) -> PortBindingView {
        PortBindingView {
            container_port: self.container_port as nat,
            host_port: self.host_port as nat,
            protocol: self.protocol@,
            host_ip: self.host_ip@,
        }
    }
}

/// A network that a container is attached to.
#[derive(Debug)]
pub struct ContainerNetwork {
    pub network_id: String,
    pub endpoint_id: String,
    pub gateway: String,
    pub ip_address: String,
    pub ip_prefix_len: i64,
    pub mac_address: String,
}

/// A mount of a container.
#[derive(Debug)]
pub struct Mount {
    pub mount_type: String,
    pub source: String,
    pub destination: String,
    pub mode: String,
    pub rw: bool,
    pub propagation: String,
}

/// A container as the engine lists it.
#[derive(Debug)]
pub struct Container {
    pub id: String,
    pub name: String,
    pub image: String,
    pub image_id: String,
    pub command: String,
    pub created: i64,
    pub state: ContainerState,
    pub status: String,
    pub ports: Vec<PortBinding>,
    pub labels: HashMap<String, String>,
    pub size_rw: Option<i64>,
    pub size_root_fs: Option<i64>,
    pub networks: HashMap<String, ContainerNetwork>,
    pub mounts: Vec<Mount>,
}

/// What to list.
#[derive(Debug)]
pub struct ContainerListOptions {
    /// Stopped containers too.
    pub all: bool,
    pub limit: Option<i64>,
    /// With the sizes.
    pub size: bool,
    pub filters: Option<HashMap<String, Vec<String>>>,
}

impl Default for ContainerListOptions {
    /// Running containers only, without sizes, limit or filters.
    fn default() -> (options: ContainerListOptions)
        ensures
            !options.all,
            options.limit is None,
            !options.size,
            options.filters is None,
    {
        ContainerListOptions { all: false, limit: None, size: false, filters: None }
    }
}

} // verus!
