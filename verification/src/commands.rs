//! The uniform shape of the one-shot commands and the fixed parameters
//! the session layer must put on every engine request.
//!
//! Each command resolves the slot, fails with the no-connection error when
//! it is empty, runs one engine call, and returns the call's result
//! verbatim on success or the mapped error on failure. The functions here
//! are that shape's two verified halves, together with the builders that
//! pin the request parameters down.

use vstd::prelude::*;
use vstd::string::StringExecFns;
use crate::engine::classify_error;
use crate::errors::{
    error_wf, lemma_error_totality, map_error, no_connection_error, spec_no_connection_error,
    ErrorKind, StructuredError,
};
use crate::session::SessionSlot;

verus! {

/// Nano-cpus per hundredth of a core: the engine counts cpu shares in
/// billionths of a core, the UI hands them over in hundredths.
pub const NANO_CPUS_PER_HUNDREDTH: i64 = 10_000_000;

/// The first half of every command: a clone of the validated handle, or
/// the no-connection error when the slot is empty.
pub fn require_connection(slot: &SessionSlot) -> (r: Result<bollard::Docker, StructuredError>)
    ensures
        r is Ok <==> slot.occupied(),
        !slot.occupied() ==> r == Err::<bollard::Docker, StructuredError>(
            spec_no_connection_error(),
        ),
{
    match slot.current() {
        Some(handle) => Ok(handle),
        None => Err(no_connection_error()),
    }
}

/// The second half of every command: a successful engine result is passed
/// through verbatim; a failed one is reduced to the plain taxonomy and
/// mapped, which always yields a well-formed error other than the
/// no-connection kind.
pub fn finish_command<T>(outcome: Result<T, bollard::errors::Error>) -> (r: Result<
    T,
    StructuredError,
>)
    ensures
        outcome matches Ok(v) ==> r == Ok::<T, StructuredError>(v),
        outcome is Err ==> (r matches Err(e) && error_wf(e) && e.kind != ErrorKind::NoConnection),
{
    match outcome {
        Ok(v) => Ok(v),
        Err(err) => {
            let te = classify_error(err);
            proof {
                lemma_error_totality(te);
            }
            Err(map_error(te))
        },
    }
}

/// Parameters of a list request: both inventory queries always include
/// stopped containers and unused images.
pub struct ListAllOptions {
    pub all: bool,
}

/// The inventory queries set the `all` flag unconditionally.
pub fn list_all_options() -> (r: ListAllOptions)
    ensures
        r.all,
{
    ListAllOptions { all: true }
}

/// Parameters of an inspect request.
pub struct InspectOptions {
    pub size: bool,
}

/// Container inspection never asks the engine to compute sizes.
pub fn inspect_options() -> (r: InspectOptions)
    ensures
        !r.size,
{
    InspectOptions { size: false }
}

/// Parameters of a start request.
pub struct StartOptions {
    pub detach_keys: String,
}

/// Starting a container fixes the detach key sequence.
pub fn start_options() -> (r: StartOptions)
    ensures
        r.detach_keys@ == "ctrl-^"@,
{
    StartOptions { detach_keys: String::from_str("ctrl-^") }
}

/// Parameters of a stop or restart request.
pub struct GracePeriodOptions {
    pub grace_period_s: i64,
}

/// Stopping and restarting both give the container ten seconds of grace.
pub fn grace_period_options() -> (r: GracePeriodOptions)
    ensures
        r.grace_period_s == 10,
{
    GracePeriodOptions { grace_period_s: 10 }
}

/// Parameters of a container removal: the three independent flags the
/// caller chooses.
pub struct RemoveContainerOptions {
    pub force: bool,
    pub volumes: bool,
    pub links: bool,
}

/// Container removal passes the caller's three flags through unchanged.
pub fn remove_container_options(force: bool, volumes: bool, links: bool) -> (r:
    RemoveContainerOptions)
    ensures
        r.force == force,
        r.volumes == volumes,
        r.links == links,
{
    RemoveContainerOptions { force, volumes, links }
}

/// Parameters of an attach request: which stdio streams to couple,
/// whether to stream and to replay historical logs, and the detach keys.
pub struct AttachOptions {
    pub stdin: bool,
    pub stdout: bool,
    pub stderr: bool,
    pub stream: bool,
    pub logs: bool,
    pub detach_keys: String,
}

/// An attach request enables stdin, stdout, stderr, streaming and
/// historical logs, and fixes the detach key sequence.
pub fn attach_options() -> (r: AttachOptions)
    ensures
        r.stdin && r.stdout && r.stderr && r.stream && r.logs,
        r.detach_keys@ == "ctrl-c"@,
{
    AttachOptions {
        stdin: true,
        stdout: true,
        stderr: true,
        stream: true,
        logs: true,
        detach_keys: String::from_str("ctrl-c"),
    }
}

/// Parameters of an image removal: the caller's force flag.
pub struct RemoveImageOptions {
    pub force: bool,
}

/// Image removal passes the caller's force flag through unchanged.
pub fn remove_image_options(force: bool) -> (r: RemoveImageOptions)
    ensures
        r.force == force,
{
    RemoveImageOptions { force }
}

/// The engine request a container creation issues: the caller's name and
/// image, the cpu share translated to nano-cpus, and the memory cap in
/// bytes; every other host-config field is defaulted.
pub struct CreateContainerRequest {
    pub name: String,
    pub image: String,
    pub nano_cpus: i64,
    pub memory: i64,
}

/// Whether a cpu share in hundredths of a core can be translated without
/// leaving the engine's signed 64-bit nano-cpus field.
pub open spec fn cpu_share_translatable(cpu_hundredths: i64) -> bool {
    0 <= cpu_hundredths <= i64::MAX as int / NANO_CPUS_PER_HUNDREDTH as int
}

/// Builds the creation request: the cpu share is multiplied by
/// 10,000,000 to obtain nano-cpus, name, image and memory pass through
/// verbatim. A share that is negative or too large to translate yields
/// `None` and no request is issued.
pub fn build_create_request(name: String, image: String, cpu_hundredths: i64, memory: i64) -> (r:
    Option<CreateContainerRequest>)
    ensures
        cpu_share_translatable(cpu_hundredths) ==> (r matches Some(req) && req.name == name
            && req.image == image && req.nano_cpus == cpu_hundredths * NANO_CPUS_PER_HUNDREDTH
            && req.memory == memory),
        !cpu_share_translatable(cpu_hundredths) ==> r is None,
{
    if 0 <= cpu_hundredths && cpu_hundredths <= i64::MAX / NANO_CPUS_PER_HUNDREDTH {
        Some(
            CreateContainerRequest {
                name,
                image,
                nano_cpus: cpu_hundredths * NANO_CPUS_PER_HUNDREDTH,
                memory,
            },
        )
    } else {
        None
    }
}

} // verus!
