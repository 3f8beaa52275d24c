//! The operations on runs: spawn, send, kill and list.
//!
//! Each operation works on the table of live runs that the caller hands in.
//! What touches a process is handed in as well, as a function: one that
//! starts the child, one that writes to it, one that terminates it. The
//! operation decides whether that function is called and with what, and what
//! becomes of the table and of the answer for each outcome.
use vstd::prelude::*;
use vstd::string::*;
use vstd::utf8::*;
use crate::errors::{KillError, SendError, SpawnError};
use crate::forward::{Forwarder, ForwarderModel};
use crate::invocation::{build_invocation, invocation};
use crate::permissions::{RunnerPermissions, permission_model};
use crate::registry::{RunnerManager, registered, taken};

verus! {

/// How a spawn ends once the launcher has answered: a started child is
/// registered under `id` and gets its forwarding loop, a failed start is
/// reported with the launcher's reason and leaves the table alone.
pub open spec fn spawn_settled<H>(
    before: Map<Seq<char>, H>,
    after: Map<Seq<char>, H>,
    id: String,
    launched: Result<H, String>,
    started: Result<Forwarder, SpawnError>,
) -> bool {
    match launched {
        Ok(handle) => {
            &&& after == registered(before, id@, handle)
            &&& if before.contains_key(id@) {
                started == Err::<Forwarder, SpawnError>(SpawnError::DuplicateRun(id))
            } else {
                started matches Ok(forwarder) && forwarder@ == (ForwarderModel {
                    id: id@,
                    finished: false,
                })
            }
        },
        Err(reason) => started == Err::<Forwarder, SpawnError>(SpawnError::Launch(reason)) && after
            == before,
    }
}

/// The answer of a send whose write ended with `written`.
pub open spec fn send_outcome(written: Result<(), String>) -> Result<(), SendError> {
    match written {
        Ok(()) => Ok(()),
        Err(reason) => Err(SendError::Io(reason)),
    }
}

/// The answer of a kill whose termination ended with `terminated`.
pub open spec fn kill_outcome(terminated: Result<(), String>) -> Result<(), KillError> {
    match terminated {
        Ok(()) => Ok(()),
        Err(reason) => Err(KillError::Terminate(reason)),
    }
}

/// Finishes a spawn with the launcher's answer. A child that started under
/// an identifier that is live by now is not registered.
pub fn settle_spawn<H>(manager: &mut RunnerManager<H>, id: String, launched: Result<H, String>) -> (started:
    Result<Forwarder, SpawnError>)
    ensures
        spawn_settled(old(manager)@, final(manager)@, id, launched, started),
{
    match launched {
        Ok(handle) => {
            let key = id.clone();
            match manager.insert(key, handle) {
                Ok(()) => Ok(Forwarder::new(id)),
                Err(_) => Err(SpawnError::DuplicateRun(id)),
            }
        },
        Err(reason) => Err(SpawnError::Launch(reason)),
    }
}

/// Turns the result of a write into the answer of a send.
pub fn settle_send(written: Result<(), String>) -> (sent: Result<(), SendError>)
    ensures
        sent == send_outcome(written),
{
    match written {
        Ok(()) => Ok(()),
        Err(reason) => Err(SendError::Io(reason)),
    }
}

/// Turns the result of a termination into the answer of a kill.
pub fn settle_kill(terminated: Result<(), String>) -> (killed: Result<(), KillError>)
    ensures
        killed == kill_outcome(terminated),
{
    match terminated {
        Ok(()) => Ok(()),
        Err(reason) => Err(KillError::Terminate(reason)),
    }
}

/// Starts a run under `id`.
///
/// An identifier that is live is refused before anything is started.
/// Otherwise `launch` is called once, with the command line of the run, and
/// its answer settles the spawn.
pub fn runner_spawn<H, L: FnOnce(Vec<String>) -> Result<H, String>>(
    manager: &mut RunnerManager<H>,
    id: String,
    script: String,
    args: Vec<String>,
    permissions: Option<RunnerPermissions>,
    launch: L,
) -> (started: Result<Forwarder, SpawnError>)
    requires
        forall|line: Vec<String>|
            line.deep_view() == invocation(script@, args.deep_view(), permission_model(permissions))
                ==> #[trigger] launch.requires((line,)),
    ensures
        old(manager)@.contains_key(id@) ==> started == Err::<Forwarder, SpawnError>(
            SpawnError::DuplicateRun(id),
        ) && final(manager)@ == old(manager)@,
        !old(manager)@.contains_key(id@) ==> exists|line: Vec<String>, launched: Result<H, String>|
            {
                &&& line.deep_view() == invocation(
                    script@,
                    args.deep_view(),
                    permission_model(permissions),
                )
                &&& #[trigger] launch.ensures((line,), launched)
                &&& spawn_settled(old(manager)@, final(manager)@, id, launched, started)
            },
{
    if manager.contains(&id) {
        return Err(SpawnError::DuplicateRun(id));
    }
    let line = build_invocation(script, args, &permissions);
    let ghost given = line;
    let launched = launch(line);
    let started = settle_spawn(manager, id, launched);
    proof {
        assert(launch.ensures((given,), launched));
    }
    started
}

/// Sends `input` to the run under `id`.
///
/// Without such a run the send fails and nothing is written. Otherwise
/// `write` is called once, with the run's handle and the bytes of `input`,
/// and its result is the answer.
pub fn runner_send<H, W: FnOnce(&mut H, &[u8]) -> Result<(), String>>(
    manager: &mut RunnerManager<H>,
    id: &String,
    input: &String,
    write: W,
) -> (sent: Result<(), SendError>)
    requires
        forall|handle: &mut H, bytes: &[u8]|
            taken(old(manager)@, id@) == Some(*handle) && bytes@ == encode_utf8(input@)
                ==> #[trigger] write.requires((handle, bytes)),
    ensures
        !old(manager)@.contains_key(id@) ==> sent == Err::<(), SendError>(SendError::NotFound(*id))
            && final(manager)@ == old(manager)@,
        old(manager)@.contains_key(id@) ==> exists|
            handle: &mut H,
            bytes: &[u8],
            written: Result<(), String>,
        |
            {
                &&& *handle == old(manager)@[id@]
                &&& bytes@ == encode_utf8(input@)
                &&& #[trigger] write.ensures((handle, bytes), written)
                &&& final(manager)@ == old(manager)@.insert(id@, *final(handle))
                &&& sent == send_outcome(written)
            },
{
    match manager.get_mut(id) {
        Some(handle) => {
            let written = write(handle, input.as_str().as_bytes());
            settle_send(written)
        },
        None => Err(SendError::NotFound(id.clone())),
    }
}

/// Kills the run under `id`.
///
/// The run leaves the table first. Without such a run there is nothing to
/// do, and that is a success. Otherwise `terminate` is called once, with the
/// run's handle, and its result is the answer.
pub fn runner_kill<H, T: FnOnce(H) -> Result<(), String>>(
    manager: &mut RunnerManager<H>,
    id: &String,
    terminate: T,
) -> (killed: Result<(), KillError>)
    requires
        forall|handle: H|
            taken(old(manager)@, id@) == Some(handle) ==> #[trigger] terminate.requires((handle,)),
    ensures
        final(manager)@ == old(manager)@.remove(id@),
        !old(manager)@.contains_key(id@) ==> killed is Ok && final(manager)@ == old(manager)@,
        taken(old(manager)@, id@) matches Some(handle) ==> exists|terminated: Result<(), String>|
            {
                &&& #[trigger] terminate.ensures((handle,), terminated)
                &&& killed == kill_outcome(terminated)
            },
{
    match manager.remove(id) {
        Some(handle) => {
            let terminated = terminate(handle);
            settle_kill(terminated)
        },
        None => {
            assert(old(manager)@.remove(id@) =~= old(manager)@);
            Ok(())
        },
    }
}

/// The identifiers of all live runs, each once, in no particular order.
pub fn runner_list<H>(manager: &RunnerManager<H>) -> (ids: Vec<String>)
    ensures
        ids.deep_view().no_duplicates(),
        ids.deep_view().to_set() == manager@.dom(),
{
    manager.list()
}

} // verus!
