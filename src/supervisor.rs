//! The decisions of the process that brings a device up, serves it until a
//! termination signal and tears it down. The caller performs each action and
//! hands back what came of it.
use vstd::prelude::*;

use crate::abi::{EEXIST, UBLK_S_DEV_DEAD, UBLK_S_DEV_FAIL_IO, UBLK_S_DEV_LIVE, UBLK_S_DEV_QUIESCED};

verus! {

/// Where start-up or teardown stands.
#[derive(Debug, Clone, Copy, PartialEq, Eq, Structural)]
pub enum Phase {
    AddingDevice,
    GettingInfo,
    StartingRecovery,
    SettingParams,
    SpawningWorkers,
    StartingDevice,
    Running,
    Stopping,
    Joining,
    Deleting,
    Done,
    Failed,
}

/// What the caller does next.
#[derive(Debug, Clone, Copy, PartialEq, Eq, Structural)]
pub enum Action {
    /// Send `ADD_DEV`.
    AddDevice,
    /// Send `GET_DEV_INFO`.
    GetDeviceInfo,
    /// Send `START_USER_RECOVERY`.
    StartRecovery,
    /// Send `SET_PARAMS`.
    SetParams,
    /// Set the file-system ids, block the termination signals, open the
    /// per-device character device and start one worker per queue.
    SpawnWorkers,
    /// Send `START_DEV` (new device) or `END_USER_RECOVERY` (recovered one).
    StartDevice { is_new_device: bool },
    /// Wait for a termination signal.
    WaitForSignal,
    /// Send `STOP_DEV`.
    StopDevice,
    /// Wait for the workers to end.
    JoinWorkers,
    /// Send `DEL_DEV_ASYNC`.
    DeleteDevice,
    /// Nothing is left to do.
    Finish,
    /// Start-up failed; nothing more is done.
    Fail(StartError),
}

/// Why start-up failed.
#[derive(Debug, Clone, Copy, PartialEq, Eq, Structural)]
pub enum StartError {
    /// `ADD_DEV` failed with this result.
    AddFailed(i32),
    /// `GET_DEV_INFO` failed with this result.
    InfoFailed(i32),
    /// The device exists and is served by a running server.
    AlreadyRunning,
    /// The device exists, is dead and cannot be recovered.
    Unrecoverable,
    /// The device exists in a state the server does not know.
    UnknownState(u16),
    /// `START_USER_RECOVERY` failed with this result.
    RecoveryFailed(i32),
    /// `SET_PARAMS` failed with this result.
    ParamsFailed(i32),
    /// Starting the workers failed.
    SpawnFailed,
    /// `START_DEV` or `END_USER_RECOVERY` failed with this result.
    StartFailed(i32),
    /// An event came that the current phase does not expect.
    UnexpectedEvent,
}

/// What came of an action.
#[derive(Debug, Clone, Copy, PartialEq, Eq, Structural)]
pub enum Event {
    /// `ADD_DEV` completed with this result.
    Added(i32),
    /// `GET_DEV_INFO` completed with this result and device state.
    Info { result: i32, state: u16 },
    /// `START_USER_RECOVERY` completed with this result.
    RecoveryStarted(i32),
    /// `SET_PARAMS` completed with this result.
    ParamsSet(i32),
    /// The workers started, or failed to.
    WorkersSpawned(bool),
    /// `START_DEV` or `END_USER_RECOVERY` completed with this result.
    Started(i32),
    /// A termination signal came.
    Signalled,
    /// `STOP_DEV` completed with this result.
    Stopped(i32),
    /// The workers ended.
    Joined,
    /// `DEL_DEV_ASYNC` completed with this result.
    Deleted(i32),
}

/// The supervisor's state.
pub struct Supervisor {
    phase: Phase,
    is_new_device: bool,
}

/// A step of the supervisor: the phase, whether the device is new, and the
/// action, after `ev` in `phase`.
pub open spec fn transition(phase: Phase, is_new: bool, ev: Event) -> (Phase, bool, Action) {
    match (phase, ev) {
        (Phase::AddingDevice, Event::Added(res)) => if res == 0 {
            (Phase::SettingParams, true, Action::SetParams)
        } else if res == -EEXIST {
            (Phase::GettingInfo, false, Action::GetDeviceInfo)
        } else {
            (Phase::Failed, is_new, Action::Fail(StartError::AddFailed(res)))
        },
        (Phase::GettingInfo, Event::Info { result, state }) => if result != 0 {
            (Phase::Failed, is_new, Action::Fail(StartError::InfoFailed(result)))
        } else if state == UBLK_S_DEV_QUIESCED || state == UBLK_S_DEV_FAIL_IO {
            (Phase::StartingRecovery, is_new, Action::StartRecovery)
        } else if state == UBLK_S_DEV_LIVE {
            (Phase::Failed, is_new, Action::Fail(StartError::AlreadyRunning))
        } else if state == UBLK_S_DEV_DEAD {
            (Phase::Failed, is_new, Action::Fail(StartError::Unrecoverable))
        } else {
            (Phase::Failed, is_new, Action::Fail(StartError::UnknownState(state)))
        },
        (Phase::StartingRecovery, Event::RecoveryStarted(res)) => if res == 0 {
            (Phase::SpawningWorkers, is_new, Action::SpawnWorkers)
        } else {
            (Phase::Failed, is_new, Action::Fail(StartError::RecoveryFailed(res)))
        },
        (Phase::SettingParams, Event::ParamsSet(res)) => if res == 0 {
            (Phase::SpawningWorkers, is_new, Action::SpawnWorkers)
        } else {
            (Phase::Failed, is_new, Action::Fail(StartError::ParamsFailed(res)))
        },
        (Phase::SpawningWorkers, Event::WorkersSpawned(ok)) => if ok {
            (Phase::StartingDevice, is_new, Action::StartDevice { is_new_device: is_new })
        } else {
            (Phase::Failed, is_new, Action::Fail(StartError::SpawnFailed))
        },
        (Phase::StartingDevice, Event::Started(res)) => if res == 0 {
            (Phase::Running, is_new, Action::WaitForSignal)
        } else {
            (Phase::Failed, is_new, Action::Fail(StartError::StartFailed(res)))
        },
        (Phase::Running, Event::Signalled) => (Phase::Stopping, is_new, Action::StopDevice),
        (Phase::Stopping, Event::Stopped(_)) => (Phase::Joining, is_new, Action::JoinWorkers),
        (Phase::Joining, Event::Joined) => (Phase::Deleting, is_new, Action::DeleteDevice),
        (Phase::Deleting, Event::Deleted(_)) => (Phase::Done, is_new, Action::Finish),
        (Phase::Done, _) => (Phase::Done, is_new, Action::Finish),
        (Phase::Failed, _) => (Phase::Failed, is_new, Action::Fail(StartError::UnexpectedEvent)),
        _ => (Phase::Failed, is_new, Action::Fail(StartError::UnexpectedEvent)),
    }
}

impl Supervisor {
    pub closed spec fn phase(&self) -> Phase {
        self.phase
    }

    pub closed spec fn is_new(&self) -> bool {
        self.is_new_device
    }

    /// A supervisor about to add the device; its first action is `AddDevice`.
    pub fn new() -> (r: (Supervisor, Action))
        ensures
            r.0.phase() == Phase::AddingDevice,
            !r.0.is_new(),
            r.1 == Action::AddDevice,
    {
        (Supervisor { phase: Phase::AddingDevice, is_new_device: false }, Action::AddDevice)
    }

    /// Whether the device was created by this start rather than recovered.
    pub fn is_new_device(&self) -> (r: bool)
        ensures
            r == self.is_new(),
    {
        self.is_new_device
    }

    /// Takes what came of the last action and gives the next one. A new
    /// device gets its parameters before the workers start; an existing one
    /// that is quiesced or failing I/O is recovered; one that is live or dead
    /// ends start-up. During teardown a failed command does not stop the
    /// following steps.
    pub fn step(&mut self, ev: Event) -> (r: Action)
        ensures
            (final(self).phase(), final(self).is_new(), r) == transition(old(self).phase(), old(self).is_new(), ev),
    {
        let (phase, is_new, action) = match (self.phase, ev) {
            (Phase::AddingDevice, Event::Added(res)) => if res == 0 {
                (Phase::SettingParams, true, Action::SetParams)
            } else if res == -EEXIST {
                (Phase::GettingInfo, false, Action::GetDeviceInfo)
            } else {
                (Phase::Failed, self.is_new_device, Action::Fail(StartError::AddFailed(res)))
            },
            (Phase::GettingInfo, Event::Info { result, state }) => if result != 0 {
                (Phase::Failed, self.is_new_device, Action::Fail(StartError::InfoFailed(result)))
            } else if state == UBLK_S_DEV_QUIESCED || state == UBLK_S_DEV_FAIL_IO {
                (Phase::StartingRecovery, self.is_new_device, Action::StartRecovery)
            } else if state == UBLK_S_DEV_LIVE {
                (Phase::Failed, self.is_new_device, Action::Fail(StartError::AlreadyRunning))
            } else if state == UBLK_S_DEV_DEAD {
                (Phase::Failed, self.is_new_device, Action::Fail(StartError::Unrecoverable))
            } else {
                (Phase::Failed, self.is_new_device, Action::Fail(StartError::UnknownState(state)))
            },
            (Phase::StartingRecovery, Event::RecoveryStarted(res)) => if res == 0 {
                (Phase::SpawningWorkers, self.is_new_device, Action::SpawnWorkers)
            } else {
                (Phase::Failed, self.is_new_device, Action::Fail(StartError::RecoveryFailed(res)))
            },
            (Phase::SettingParams, Event::ParamsSet(res)) => if res == 0 {
                (Phase::SpawningWorkers, self.is_new_device, Action::SpawnWorkers)
            } else {
                (Phase::Failed, self.is_new_device, Action::Fail(StartError::ParamsFailed(res)))
            },
            (Phase::SpawningWorkers, Event::WorkersSpawned(ok)) => if ok {
                (
                    Phase::StartingDevice,
                    self.is_new_device,
                    Action::StartDevice { is_new_device: self.is_new_device },
                )
            } else {
                (Phase::Failed, self.is_new_device, Action::Fail(StartError::SpawnFailed))
            },
            (Phase::StartingDevice, Event::Started(res)) => if res == 0 {
                (Phase::Running, self.is_new_device, Action::WaitForSignal)
            } else {
                (Phase::Failed, self.is_new_device, Action::Fail(StartError::StartFailed(res)))
            },
            (Phase::Running, Event::Signalled) => (Phase::Stopping, self.is_new_device, Action::StopDevice),
            (Phase::Stopping, Event::Stopped(_)) => (Phase::Joining, self.is_new_device, Action::JoinWorkers),
            (Phase::Joining, Event::Joined) => (Phase::Deleting, self.is_new_device, Action::DeleteDevice),
            (Phase::Deleting, Event::Deleted(_)) => (Phase::Done, self.is_new_device, Action::Finish),
            (Phase::Done, _) => (Phase::Done, self.is_new_device, Action::Finish),
            _ => (Phase::Failed, self.is_new_device, Action::Fail(StartError::UnexpectedEvent)),
        };
        self.phase = phase;
        self.is_new_device = is_new;
        action
    }
}

} // verus!
