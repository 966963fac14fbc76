//! What is shown of the objects of the container engine.

use vstd::prelude::*;

verus! {

/// An image as it is listed.
#[derive(Debug, Clone, PartialEq, Eq)]
pub struct DockerImage {
    pub id: String,
    pub repository: String,
    pub tag: String,
    pub size: i64,
    pub created: i64,
}

/// A volume as it is listed.
#[derive(Debug, Clone, PartialEq, Eq)]
pub struct DockerVolume {
    pub name: String,
    pub driver: String,
    pub mountpoint: String,
    pub created: Option<i64>,
}

/// A network as it is listed.
#[derive(Debug, Clone, PartialEq, Eq)]
pub struct DockerNetwork {
    pub id: String,
    pub name: String,
    pub driver: String,
    pub scope: String,
    pub subnet: Option<String>,
}

/// How an operation on an object ended.
#[derive(Debug, Clone, PartialEq, Eq)]
pub struct DockerResponse {
    pub success: bool,
    pub message: String,
}

/// The log of a container.
#[derive(Debug, Clone, PartialEq, Eq)]
pub struct DockerLogsResponse {
    pub logs: String,
}

/// A container as it is listed, apart from the use it makes of memory.
#[derive(Debug, Clone, PartialEq, Eq)]
pub struct ContainerSummary {
    pub id: String,
    pub name: String,
    pub image: String,
    pub state: String,
    pub status: String,
    pub ports: String,
    pub created: i64,
}

/// A port of a container, and the port of the host that leads to it, if any.
#[derive(Debug, Clone, Copy, PartialEq, Eq)]
pub struct PortMapping {
    pub public_port: Option<u16>,
    pub private_port: u16,
}

} // verus!
