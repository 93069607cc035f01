//! A resident service's lifecycle as a state machine over six states.

use vstd::prelude::*;
use vstd::string::*;
use crate::error::CubeMelonPluginErrorCode;
use crate::interfaces::{CubeMelonResidentInterface, ResidentCommand};
use crate::types::CubeMelonExecutionStatus;

verus! {

/// Code and next status of a lifecycle command issued in `status`.
pub open spec fn resident_transition(status: CubeMelonExecutionStatus, command: ResidentCommand) -> (
    CubeMelonPluginErrorCode,
    CubeMelonExecutionStatus,
) {
    match command {
        ResidentCommand::Suspend => if status == CubeMelonExecutionStatus::Running {
            (CubeMelonPluginErrorCode::Success, CubeMelonExecutionStatus::Suspended)
        } else {
            (CubeMelonPluginErrorCode::InvalidState, status)
        },
        ResidentCommand::Resume => if status == CubeMelonExecutionStatus::Suspended {
            (CubeMelonPluginErrorCode::Success, CubeMelonExecutionStatus::Running)
        } else {
            (CubeMelonPluginErrorCode::InvalidState, status)
        },
        ResidentCommand::Stop => if status == CubeMelonExecutionStatus::Running || status
            == CubeMelonExecutionStatus::Suspended {
            (CubeMelonPluginErrorCode::Success, CubeMelonExecutionStatus::Completed)
        } else {
            (CubeMelonPluginErrorCode::InvalidState, status)
        },
        ResidentCommand::Reset => if status == CubeMelonExecutionStatus::Completed || status
            == CubeMelonExecutionStatus::Error || status == CubeMelonExecutionStatus::Cancelled {
            (CubeMelonPluginErrorCode::Success, CubeMelonExecutionStatus::Idle)
        } else {
            (CubeMelonPluginErrorCode::InvalidState, status)
        },
    }
}

/// Code and next status of `start`: only Idle may start, and only with a
/// configuration.
pub open spec fn resident_start(status: CubeMelonExecutionStatus, has_config: bool) -> (
    CubeMelonPluginErrorCode,
    CubeMelonExecutionStatus,
) {
    if status != CubeMelonExecutionStatus::Idle {
        (CubeMelonPluginErrorCode::InvalidState, status)
    } else if !has_config {
        (CubeMelonPluginErrorCode::NullPointer, status)
    } else {
        (CubeMelonPluginErrorCode::Success, CubeMelonExecutionStatus::Running)
    }
}

/// A resident service: its status and its configuration. The status is
/// changed by one assignment per transition, so no intermediate state is
/// ever observable.
#[derive(Debug)]
pub struct ResidentService {
    pub status: CubeMelonExecutionStatus,
    pub config: Option<String>,
}

impl ResidentService {
    /// A fresh, idle service without configuration.
    pub fn new() -> (r: Self)
        ensures
            r.status == CubeMelonExecutionStatus::Idle,
            r.config is None,
    {
        ResidentService { status: CubeMelonExecutionStatus::Idle, config: None }
    }

    /// Applies a lifecycle command; a reset also clears the configuration.
    pub fn apply(&mut self, command: ResidentCommand) -> (r: CubeMelonPluginErrorCode)
        ensures
            (r, final(self).status) == resident_transition(old(self).status, command),
            (command == ResidentCommand::Reset && r == CubeMelonPluginErrorCode::Success) ==> final(self).config is None,
            !(command == ResidentCommand::Reset && r == CubeMelonPluginErrorCode::Success) ==> final(self).config == old(self).config,
    {
        match command {
            ResidentCommand::Suspend => {
                if self.status == CubeMelonExecutionStatus::Running {
                    self.status = CubeMelonExecutionStatus::Suspended;
                    CubeMelonPluginErrorCode::Success
                } else {
                    CubeMelonPluginErrorCode::InvalidState
                }
            },
            ResidentCommand::Resume => {
                if self.status == CubeMelonExecutionStatus::Suspended {
                    self.status = CubeMelonExecutionStatus::Running;
                    CubeMelonPluginErrorCode::Success
                } else {
                    CubeMelonPluginErrorCode::InvalidState
                }
            },
            ResidentCommand::Stop => {
                if self.status == CubeMelonExecutionStatus::Running || self.status
                    == CubeMelonExecutionStatus::Suspended {
                    self.status = CubeMelonExecutionStatus::Completed;
                    CubeMelonPluginErrorCode::Success
                } else {
                    CubeMelonPluginErrorCode::InvalidState
                }
            },
            ResidentCommand::Reset => {
                if self.status == CubeMelonExecutionStatus::Completed || self.status
                    == CubeMelonExecutionStatus::Error || self.status
                    == CubeMelonExecutionStatus::Cancelled {
                    self.status = CubeMelonExecutionStatus::Idle;
                    self.config = None;
                    CubeMelonPluginErrorCode::Success
                } else {
                    CubeMelonPluginErrorCode::InvalidState
                }
            },
        }
    }
}

impl CubeMelonResidentInterface for ResidentService {
    open spec fn spec_status(&self) -> CubeMelonExecutionStatus {
        self.status
    }

    open spec fn spec_config(&self) -> Option<String> {
        self.config
    }

    fn get_status(&self) -> (r: CubeMelonExecutionStatus) {
        self.status
    }

    fn get_configuration(&self) -> (r: Option<String>) {
        match &self.config {
            Some(c) => Some(c.clone()),
            None => None,
        }
    }

    fn update_configuration(&mut self, config_json: Option<&str>) -> (r: CubeMelonPluginErrorCode)
        ensures
            config_json matches Some(c) ==> r == CubeMelonPluginErrorCode::Success && (final(self).config matches Some(n) && n@ == c@),
            config_json is None ==> final(self).config == old(self).config,
    {
        match config_json {
            Some(c) => {
                self.config = Some(String::from_str(c));
                CubeMelonPluginErrorCode::Success
            },
            None => CubeMelonPluginErrorCode::NullPointer,
        }
    }

    fn start(&mut self, config_json: Option<&str>) -> (r: CubeMelonPluginErrorCode) {
        if self.status != CubeMelonExecutionStatus::Idle {
            return CubeMelonPluginErrorCode::InvalidState;
        }
        match config_json {
            Some(c) => {
                self.config = Some(String::from_str(c));
                self.status = CubeMelonExecutionStatus::Running;
                CubeMelonPluginErrorCode::Success
            },
            None => CubeMelonPluginErrorCode::NullPointer,
        }
    }

    fn suspend(&mut self) -> (r: CubeMelonPluginErrorCode) {
        self.apply(ResidentCommand::Suspend)
    }

    fn resume(&mut self) -> (r: CubeMelonPluginErrorCode) {
        self.apply(ResidentCommand::Resume)
    }

    fn stop(&mut self) -> (r: CubeMelonPluginErrorCode) {
        self.apply(ResidentCommand::Stop)
    }

    fn reset(&mut self) -> (r: CubeMelonPluginErrorCode) {
        self.apply(ResidentCommand::Reset)
    }
}

/// Lifecycle legality from Idle: suspend, resume, stop and reset are each
/// refused with `InvalidState` and leave the status Idle; start with a
/// configuration is the one command that succeeds, moving to Running.
pub proof fn lemma_idle_only_starts(command: ResidentCommand)
    ensures
        resident_transition(CubeMelonExecutionStatus::Idle, command) == (
            CubeMelonPluginErrorCode::InvalidState,
            CubeMelonExecutionStatus::Idle,
        ),
        resident_start(CubeMelonExecutionStatus::Idle, true) == (
            CubeMelonPluginErrorCode::Success,
            CubeMelonExecutionStatus::Running,
        ),
{
}

} // verus!
