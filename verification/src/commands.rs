//! The command surface: thin, independently invocable operations that each
//! resolve the currently active session through the lifecycle manager and
//! hand the host an exact dispatch to run against the engine.
//!
//! No operation here mutates the session slot, so a command can have no side
//! effect on the lifecycle state; while unconfigured, every one of them
//! returns the distinguished `NotConfigured` failure.

use vstd::prelude::*;

use crate::config::Configuration;
use crate::encoding::base64_decode;
use crate::encoding::decode_base64;
use crate::errors::CommandError;
use crate::lifecycle::LifecycleManager;
use crate::lifecycle::SessionId;

verus! {

/// A job-scoped dispatch: which session to address, and which job in it.
#[derive(Debug, Clone, Copy, PartialEq, Eq, Structural)]
pub struct JobRef {
    pub session: SessionId,
    pub job: usize,
}

/// An add-from-locator dispatch: the session to address and the locator,
/// passed through verbatim.
#[derive(Debug)]
pub struct AddFromUrl {
    pub session: SessionId,
    pub url: String,
}

/// An add-from-bytes dispatch: the session to address and the decoded job
/// description.
#[derive(Debug)]
pub struct AddFromBytes {
    pub session: SessionId,
    pub payload: Vec<u8>,
}

impl LifecycleManager {
    /// List the active session's jobs: resolves the session, which the host
    /// queries for its ordered job summaries.
    pub fn list_jobs(&self) -> (r: Result<SessionId, CommandError>)
        ensures
            match self.record() {
                Some(rec) => r == Ok::<SessionId, CommandError>(rec.session),
                None => r == Err::<SessionId, CommandError>(CommandError::NotConfigured),
            },
    {
        self.api_handle()
    }

    /// Look up one job's detail record.
    pub fn job_details(&self, id: usize) -> (r: Result<JobRef, CommandError>)
        ensures
            match self.record() {
                Some(rec) => r == Ok::<JobRef, CommandError>(
                    JobRef { session: rec.session, job: id },
                ),
                None => r == Err::<JobRef, CommandError>(CommandError::NotConfigured),
            },
    {
        match self.api_handle() {
            Ok(session) => Ok(JobRef { session, job: id }),
            Err(e) => Err(e),
        }
    }

    /// Look up one job's transfer statistics.
    pub fn job_stats(&self, id: usize) -> (r: Result<JobRef, CommandError>)
        ensures
            match self.record() {
                Some(rec) => r == Ok::<JobRef, CommandError>(
                    JobRef { session: rec.session, job: id },
                ),
                None => r == Err::<JobRef, CommandError>(CommandError::NotConfigured),
            },
    {
        match self.api_handle() {
            Ok(session) => Ok(JobRef { session, job: id }),
            Err(e) => Err(e),
        }
    }

    /// Pause one job.
    pub fn job_pause(&self, id: usize) -> (r: Result<JobRef, CommandError>)
        ensures
            match self.record() {
                Some(rec) => r == Ok::<JobRef, CommandError>(
                    JobRef { session: rec.session, job: id },
                ),
                None => r == Err::<JobRef, CommandError>(CommandError::NotConfigured),
            },
    {
        match self.api_handle() {
            Ok(session) => Ok(JobRef { session, job: id }),
            Err(e) => Err(e),
        }
    }

    /// Resume one paused job.
    pub fn job_resume(&self, id: usize) -> (r: Result<JobRef, CommandError>)
        ensures
            match self.record() {
                Some(rec) => r == Ok::<JobRef, CommandError>(
                    JobRef { session: rec.session, job: id },
                ),
                None => r == Err::<JobRef, CommandError>(CommandError::NotConfigured),
            },
    {
        match self.api_handle() {
            Ok(session) => Ok(JobRef { session, job: id }),
            Err(e) => Err(e),
        }
    }

    /// Delete one job together with its downloaded data.
    pub fn job_delete(&self, id: usize) -> (r: Result<JobRef, CommandError>)
        ensures
            match self.record() {
                Some(rec) => r == Ok::<JobRef, CommandError>(
                    JobRef { session: rec.session, job: id },
                ),
                None => r == Err::<JobRef, CommandError>(CommandError::NotConfigured),
            },
    {
        match self.api_handle() {
            Ok(session) => Ok(JobRef { session, job: id }),
            Err(e) => Err(e),
        }
    }

    /// Forget one job, keeping its downloaded data.
    pub fn job_forget(&self, id: usize) -> (r: Result<JobRef, CommandError>)
        ensures
            match self.record() {
                Some(rec) => r == Ok::<JobRef, CommandError>(
                    JobRef { session: rec.session, job: id },
                ),
                None => r == Err::<JobRef, CommandError>(CommandError::NotConfigured),
            },
    {
        match self.api_handle() {
            Ok(session) => Ok(JobRef { session, job: id }),
            Err(e) => Err(e),
        }
    }

    /// Add a job from a remote-resource locator, passed through verbatim to
    /// the resolved session.
    pub fn add_job_from_url(&self, url: String) -> (r: Result<AddFromUrl, CommandError>)
        ensures
            match self.record() {
                Some(rec) => r == Ok::<AddFromUrl, CommandError>(
                    AddFromUrl { session: rec.session, url },
                ),
                None => r == Err::<AddFromUrl, CommandError>(CommandError::NotConfigured),
            },
    {
        match self.api_handle() {
            Ok(session) => Ok(AddFromUrl { session, url }),
            Err(e) => Err(e),
        }
    }

    /// Add a job from a base64-encoded job description. Like every command,
    /// the session is resolved first: while unconfigured the result is
    /// `NotConfigured`, whatever the payload holds. Against a resolved
    /// session, a payload that is not valid base64 is rejected as
    /// `InvalidEncoding` — never as a panic or an engine-level error — and
    /// otherwise the decoded bytes are dispatched to that session.
    pub fn add_job_from_bytes(&self, contents: &str) -> (r: Result<AddFromBytes, CommandError>)
        ensures
            match self.record() {
                None => r == Err::<AddFromBytes, CommandError>(CommandError::NotConfigured),
                Some(rec) => match base64_decode(contents@) {
                    None => r == Err::<AddFromBytes, CommandError>(CommandError::InvalidEncoding),
                    Some(bytes) => r matches Ok(a) && a.session == rec.session && a.payload@
                        == bytes,
                },
            },
    {
        let session = match self.api_handle() {
            Ok(session) => session,
            Err(e) => {
                return Err(e);
            },
        };
        match decode_base64(contents) {
            Some(payload) => Ok(AddFromBytes { session, payload }),
            None => Err(CommandError::InvalidEncoding),
        }
    }
}

/// The fixed default configuration, for a front end to offer before any has
/// been applied.
pub fn get_default_configuration() -> (r: Configuration)
    ensures
        crate::config::is_default_configuration(r),
{
    Configuration::default()
}

/// The running version string.
pub fn get_version() -> (r: &'static str)
    ensures
        r@ == "0.1.0"@,
{
    "0.1.0"
}

} // verus!
