//! Records exchanged between hosts and plugins: catalogue entries, task
//! requests and task results.

use vstd::prelude::*;
use crate::error::CubeMelonPluginErrorCode;
use crate::instance::CubeMelonPlugin;
use crate::memory::{CubeMelonString, CubeMelonValue};
use crate::types::{
    CubeMelonExecutionStatus, CubeMelonLanguage, CubeMelonTaskType, CubeMelonUUID,
    CubeMelonVersion,
};

verus! {

/// Catalogue entry of one plugin.
#[derive(Debug)]
pub struct CubeMelonPluginBasicInfo {
    pub uuid: CubeMelonUUID,
    pub version: CubeMelonVersion,
    pub name: CubeMelonString,
    pub description: CubeMelonString,
    /// Capability mask the plugin advertises.
    pub supported_types: u64,
}

impl CubeMelonPluginBasicInfo {
    pub fn new(
        uuid: CubeMelonUUID,
        version: CubeMelonVersion,
        name: CubeMelonString,
        description: CubeMelonString,
        supported_types: u64,
    ) -> (r: Self)
        ensures
            r.uuid == uuid,
            r.version == version,
            r.name == name,
            r.description == description,
            r.supported_types == supported_types,
    {
        CubeMelonPluginBasicInfo { uuid, version, name, description, supported_types }
    }
}

/// One unit of work. The caller owns it for the whole call.
#[derive(Debug)]
pub struct CubeMelonTaskRequest {
    /// The calling instance, or null.
    pub caller: CubeMelonPlugin,
    pub input_data: Option<CubeMelonValue>,
    /// Additional information in JSON.
    pub input_json: CubeMelonString,
    pub task_type: CubeMelonTaskType,
    pub language: CubeMelonLanguage,
    /// Start time in microseconds.
    pub request_time_us: i64,
    /// Advisory timeout in microseconds.
    pub timeout_us: i64,
    /// Opaque application data.
    pub user_data: usize,
}

impl CubeMelonTaskRequest {
    pub fn new(
        caller: CubeMelonPlugin,
        input_data: Option<CubeMelonValue>,
        input_json: CubeMelonString,
        task_type: CubeMelonTaskType,
        language: CubeMelonLanguage,
        request_time_us: i64,
        timeout_us: i64,
    ) -> (r: Self)
        ensures
            r.caller == caller,
            r.input_data == input_data,
            r.input_json == input_json,
            r.task_type == task_type,
            r.language == language,
            r.request_time_us == request_time_us,
            r.timeout_us == timeout_us,
            r.user_data == 0,
    {
        CubeMelonTaskRequest {
            caller,
            input_data,
            input_json,
            task_type,
            language,
            request_time_us,
            timeout_us,
            user_data: 0,
        }
    }

    pub fn empty() -> (r: Self)
        ensures
            r.caller.id == 0,
            r.input_data is None,
            r.input_json.text is None,
            r.task_type == CubeMelonTaskType::Unspecified,
            r.language == CubeMelonLanguage::EN_US,
            r.request_time_us == 0,
            r.timeout_us == 0,
            r.user_data == 0,
    {
        CubeMelonTaskRequest {
            caller: CubeMelonPlugin::null(),
            input_data: None,
            input_json: CubeMelonString::empty(),
            task_type: CubeMelonTaskType::Unspecified,
            language: CubeMelonLanguage::EN_US,
            request_time_us: 0,
            timeout_us: 0,
            user_data: 0,
        }
    }
}

/// Largest progress value: progress is counted in millionths.
pub const PROGRESS_COMPLETE: u32 = 1000000;

/// Remaining-time value meaning "unknown".
pub const UNKNOWN_REMAINING: u64 = 0xffff_ffff_ffff_ffff;

/// `result` with a failure recorded: status Error and the failing code.
pub open spec fn marked_error(result: CubeMelonTaskResult, code: CubeMelonPluginErrorCode) -> CubeMelonTaskResult {
    CubeMelonTaskResult { status: CubeMelonExecutionStatus::Error, error_code: code, ..result }
}

/// The outcome of a unit of work.
#[derive(Debug)]
pub struct CubeMelonTaskResult {
    /// The executing instance, or null.
    pub callee: CubeMelonPlugin,
    /// Output data, allocated by the plugin and released by the caller.
    pub output_data: Option<CubeMelonValue>,
    pub output_json: CubeMelonString,
    pub status: CubeMelonExecutionStatus,
    pub error_code: CubeMelonPluginErrorCode,
    /// Completion time in microseconds.
    pub completion_time_us: i64,
    /// Progress in millionths of the whole; `None` when unknown.
    pub progress: Option<u32>,
    pub progress_message: CubeMelonString,
    pub progress_stage: CubeMelonString,
    /// Estimated remaining time in microseconds; all ones when unknown.
    pub estimated_remaining_us: u64,
}

impl CubeMelonTaskResult {
    pub fn new(
        callee: CubeMelonPlugin,
        output_data: Option<CubeMelonValue>,
        output_json: CubeMelonString,
        status: CubeMelonExecutionStatus,
        error_code: CubeMelonPluginErrorCode,
        completion_time_us: i64,
    ) -> (r: Self)
        ensures
            r.callee == callee,
            r.output_data == output_data,
            r.output_json == output_json,
            r.status == status,
            r.error_code == error_code,
            r.completion_time_us == completion_time_us,
            r.progress is None,
            r.progress_message.text is None,
            r.progress_stage.text is None,
            r.estimated_remaining_us == UNKNOWN_REMAINING,
    {
        CubeMelonTaskResult {
            callee,
            output_data,
            output_json,
            status,
            error_code,
            completion_time_us,
            progress: None,
            progress_message: CubeMelonString::empty(),
            progress_stage: CubeMelonString::empty(),
            estimated_remaining_us: UNKNOWN_REMAINING,
        }
    }

    /// A completed, successful result.
    pub fn success(
        callee: CubeMelonPlugin,
        output_data: Option<CubeMelonValue>,
        output_json: CubeMelonString,
        completion_time_us: i64,
    ) -> (r: Self)
        ensures
            r.callee == callee,
            r.output_data == output_data,
            r.output_json == output_json,
            r.status == CubeMelonExecutionStatus::Completed,
            r.error_code == CubeMelonPluginErrorCode::Success,
            r.completion_time_us == completion_time_us,
            r.progress is None,
            r.estimated_remaining_us == UNKNOWN_REMAINING,
    {
        Self::new(
            callee,
            output_data,
            output_json,
            CubeMelonExecutionStatus::Completed,
            CubeMelonPluginErrorCode::Success,
            completion_time_us,
        )
    }

    /// A failed result carrying `error_code` and a message.
    pub fn error(
        callee: CubeMelonPlugin,
        error_code: CubeMelonPluginErrorCode,
        error_message: CubeMelonString,
    ) -> (r: Self)
        ensures
            r.callee == callee,
            r.output_data is None,
            r.output_json == error_message,
            r.status == CubeMelonExecutionStatus::Error,
            r.error_code == error_code,
            r.completion_time_us == 0,
            r.progress is None,
    {
        Self::new(callee, None, error_message, CubeMelonExecutionStatus::Error, error_code, 0)
    }

    /// A fresh result: idle, successful code, nothing known yet.
    pub fn empty() -> (r: Self)
        ensures
            r.callee.id == 0,
            r.output_data is None,
            r.output_json.text is None,
            r.status == CubeMelonExecutionStatus::Idle,
            r.error_code == CubeMelonPluginErrorCode::Success,
            r.completion_time_us == 0,
            r.progress is None,
            r.estimated_remaining_us == UNKNOWN_REMAINING,
    {
        Self::new(
            CubeMelonPlugin::null(),
            None,
            CubeMelonString::empty(),
            CubeMelonExecutionStatus::Idle,
            CubeMelonPluginErrorCode::Success,
            0,
        )
    }

    /// Updates the progress fields.
    pub fn set_progress(
        &mut self,
        progress: Option<u32>,
        message: CubeMelonString,
        stage: CubeMelonString,
        estimated_remaining_us: u64,
    )
        requires
            progress matches Some(p) ==> p <= PROGRESS_COMPLETE,
        ensures
            final(self).progress == progress,
            final(self).progress_message == message,
            final(self).progress_stage == stage,
            final(self).estimated_remaining_us == estimated_remaining_us,
            final(self).status == old(self).status,
            final(self).error_code == old(self).error_code,
            final(self).callee == old(self).callee,
    {
        self.progress = progress;
        self.progress_message = message;
        self.progress_stage = stage;
        self.estimated_remaining_us = estimated_remaining_us;
    }

    /// Successful code while running or completed.
    pub fn is_success(&self) -> (r: bool)
        ensures
            r == (self.error_code == CubeMelonPluginErrorCode::Success && (self.status
                == CubeMelonExecutionStatus::Completed || self.status
                == CubeMelonExecutionStatus::Running)),
    {
        self.error_code == CubeMelonPluginErrorCode::Success && (self.status
            == CubeMelonExecutionStatus::Completed || self.status
            == CubeMelonExecutionStatus::Running)
    }

    /// Error status or a failing code.
    pub fn is_error(&self) -> (r: bool)
        ensures
            r == (self.status == CubeMelonExecutionStatus::Error || self.error_code
                != CubeMelonPluginErrorCode::Success),
    {
        self.status == CubeMelonExecutionStatus::Error || self.error_code
            != CubeMelonPluginErrorCode::Success
    }

    pub fn has_progress(&self) -> (r: bool)
        ensures
            r == self.progress is Some,
    {
        self.progress.is_some()
    }

    pub fn has_estimated_time(&self) -> (r: bool)
        ensures
            r == (self.estimated_remaining_us != UNKNOWN_REMAINING),
    {
        self.estimated_remaining_us != UNKNOWN_REMAINING
    }

    /// Records a failure: status Error with the failing code.
    pub fn mark_error(&mut self, code: CubeMelonPluginErrorCode)
        ensures
            final(self).status == CubeMelonExecutionStatus::Error,
            final(self).error_code == code,
            final(self).callee == old(self).callee,
            final(self).progress == old(self).progress,
            final(self).estimated_remaining_us == old(self).estimated_remaining_us,
            *final(self) == marked_error(*old(self), code),
    {
        self.status = CubeMelonExecutionStatus::Error;
        self.error_code = code;
    }
}

} // verus!
