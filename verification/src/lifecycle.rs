//! Container lifecycle core: builds the create request with its host/container
//! port mapping, decides the outcome of the create/start sequence, and frames
//! the stop request with its grace period.

use crate::text::{dec_str_int, i64_to_string};
use vstd::prelude::*;
use vstd::string::*;

verus! {

/// One host/container port mapping. Host and container port are equal by
/// construction in this design: there is no remapping support.
#[derive(Debug)]
pub struct PortMapping {
    pub container_port: i64,
    pub host_ip: String,
    pub host_port: i64,
}

/// A well-formed mapping binds the same port on host and container, on every
/// host interface.
pub open spec fn wf_mapping(m: &PortMapping) -> bool {
    &&& m.container_port == m.host_port
    &&& m.host_ip@ == "0.0.0.0"@
}

/// Builds the single mapping used for a started container: container and host
/// port are the same, bound on every interface.
pub fn make_port_mapping(port: i64) -> (m: PortMapping)
    ensures
        m.container_port == port,
        m.host_port == port,
        m.host_ip@ == "0.0.0.0"@,
        wf_mapping(&m),
{
    PortMapping {
        container_port: port,
        host_ip: String::from_str("0.0.0.0"),
        host_port: port,
    }
}

/// The runtime's key for an exposed TCP port: the decimal port followed by
/// `/tcp`.
pub open spec fn spec_port_key(port: int) -> Seq<char> {
    dec_str_int(port) + "/tcp"@
}

/// Renders the exposed-port key for one port.
pub fn port_key(port: i64) -> (r: String)
    ensures
        r@ == spec_port_key(port as int),
{
    i64_to_string(port).concat("/tcp")
}

/// Everything the runtime needs to create a container: the image to run, the
/// container name (the image identifier, as this design names containers
/// after their image), attached output streams, and the one exposed port with
/// its binding.
#[derive(Debug)]
pub struct CreateRequest {
    pub name: String,
    pub image: String,
    pub attach_stdout: bool,
    pub attach_stderr: bool,
    pub port_key: String,
    pub binding: PortMapping,
}

/// Builds the create request for an image and a port.
pub fn create_request(image_id: &str, port: i64) -> (r: CreateRequest)
    ensures
        r.name@ == image_id@,
        r.image@ == image_id@,
        r.attach_stdout,
        r.attach_stderr,
        r.port_key@ == spec_port_key(port as int),
        r.binding.container_port == port,
        r.binding.host_port == port,
        wf_mapping(&r.binding),
{
    CreateRequest {
        name: String::from_str(image_id),
        image: String::from_str(image_id),
        attach_stdout: true,
        attach_stderr: true,
        port_key: port_key(port),
        binding: make_port_mapping(port),
    }
}

/// A create, start or stop call failed at the runtime boundary.
#[derive(Debug)]
pub enum LifecycleError {
    CreateFailed(String),
    StartFailed(String),
    StopFailed(String),
}

/// Decides the first half of `start`: a failed creation ends the attempt, a
/// successful one hands the runtime-assigned container id to the start step.
pub fn create_step(create_result: Result<String, String>) -> (r: Result<String, LifecycleError>)
    ensures
        create_result matches Ok(id) ==> r matches Ok(rid) && rid == id,
        create_result matches Err(e) ==> r == Result::<String, LifecycleError>::Err(
            LifecycleError::CreateFailed(e),
        ),
{
    match create_result {
        Result::Ok(id) => Result::Ok(id),
        Result::Err(e) => Result::Err(LifecycleError::CreateFailed(e)),
    }
}

/// Decides the second half of `start`: only when the runtime reports the
/// container started is its id handed to the caller. When the start call
/// fails, no id is returned — the created-but-unstarted container is the
/// caller's to reconcile.
pub fn start_step(container_id: String, start_result: Result<(), String>) -> (r: Result<
    String,
    LifecycleError,
>)
    ensures
        start_result matches Ok(_) ==> r matches Ok(id) && id == container_id,
        start_result matches Err(e) ==> r == Result::<String, LifecycleError>::Err(
            LifecycleError::StartFailed(e),
        ),
{
    match start_result {
        Result::Ok(_) => Result::Ok(container_id),
        Result::Err(e) => Result::Err(LifecycleError::StartFailed(e)),
    }
}

/// A stop request: the container to stop and the grace period, in seconds,
/// the runtime waits before force-terminating.
#[derive(Debug)]
pub struct StopRequest {
    pub container_id: String,
    pub grace_seconds: i64,
}

/// The default grace period for a stop.
pub const DEFAULT_STOP_GRACE_SECONDS: i64 = 10;

/// Frames a stop request; without an explicit grace period the default of ten
/// seconds stands.
pub fn stop_request(container_id: String, grace_seconds: Option<i64>) -> (r: StopRequest)
    ensures
        r.container_id == container_id,
        grace_seconds matches Some(g) ==> r.grace_seconds == g,
        grace_seconds is None ==> r.grace_seconds == DEFAULT_STOP_GRACE_SECONDS,
{
    StopRequest {
        container_id,
        grace_seconds: match grace_seconds {
            Option::Some(g) => g,
            Option::None => DEFAULT_STOP_GRACE_SECONDS,
        },
    }
}

/// Maps the runtime's answer to a stop request: a failure to stop is
/// surfaced, never swallowed.
pub fn stop_outcome(stop_result: Result<(), String>) -> (r: Result<(), LifecycleError>)
    ensures
        stop_result matches Ok(_) <==> r is Ok,
        stop_result matches Err(e) ==> r == Result::<(), LifecycleError>::Err(
            LifecycleError::StopFailed(e),
        ),
{
    match stop_result {
        Result::Ok(_) => Result::Ok(()),
        Result::Err(e) => Result::Err(LifecycleError::StopFailed(e)),
    }
}

/// The lifecycle states this component drives a container through, in order.
#[derive(Clone, Copy, Debug, PartialEq, Eq, Structural)]
pub enum ContainerState {
    Absent,
    Created,
    Running,
    Stopped,
}

/// Position of a state in the forward order of the lifecycle.
pub open spec fn state_rank(s: ContainerState) -> int {
    match s {
        ContainerState::Absent => 0,
        ContainerState::Created => 1,
        ContainerState::Running => 2,
        ContainerState::Stopped => 3,
    }
}

/// The transitions this component drives: creation, start, stop. It never
/// moves a container backward.
pub open spec fn forward_step(from: ContainerState, to: ContainerState) -> bool {
    ||| (from is Absent && to is Created)
    ||| (from is Created && to is Running)
    ||| (from is Running && to is Stopped)
}

/// Every transition this component drives moves a container strictly forward
/// in the lifecycle order.
pub proof fn lemma_forward_step_increases_rank(from: ContainerState, to: ContainerState)
    requires
        forward_step(from, to),
    ensures
        state_rank(to) == state_rank(from) + 1,
{
}

} // verus!
