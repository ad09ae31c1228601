//! A crash as the dispatcher reports it, and the user it happened to.

use crate::error::{ErrorView, PipelineError};
use crate::paths::{latin1_to_path, RawPath};
use crate::text::{exe_name, full_exe_path, latin1, latin1_to_string, base_name, restore_slashes};
use vstd::prelude::*;

verus! {

/// What the dispatcher says of a crash. A `core_limit` of 0 or 1 is the
/// kernel's way of saying that no dump is wanted.
#[derive(Clone, Debug, PartialEq, Eq)]
pub struct CrashRequest {
    /// Real user ID of the crashed process.
    pub uid: u32,
    /// ID of the crashed process.
    pub pid: u32,
    /// When the process crashed, as the dispatcher counts time.
    pub crash_time: u32,
    /// Path of the executable, with `!` in place of each `/`.
    pub exe_encoded: String,
    /// The largest number of bytes to take from the dump.
    pub core_limit: u64,
    /// Where the policy script is.
    pub config_script_path: String,
}

/// A request as a mathematical value.
pub struct RequestView {
    pub uid: u32,
    pub pid: u32,
    pub crash_time: u32,
    pub exe_encoded: Seq<char>,
    pub core_limit: u64,
    pub config_script_path: Seq<char>,
}

impl View for CrashRequest {
    type V = RequestView;

    open spec fn view(&self) -> RequestView {
        RequestView {
            uid: self.uid,
            pid: self.pid,
            crash_time: self.crash_time,
            exe_encoded: self.exe_encoded@,
            core_limit: self.core_limit,
            config_script_path: self.config_script_path@,
        }
    }
}

impl CrashRequest {
    /// The path of the executable, decoded.
    pub fn full_exe(&self) -> (path: String)
        ensures
            path@ == restore_slashes(self.exe_encoded@),
    {
        full_exe_path(self.exe_encoded.as_str())
    }

    /// The name of the executable: what follows the last `/` of its path.
    pub fn exe(&self) -> (name: String)
        ensures
            name@ == base_name(restore_slashes(self.exe_encoded@)),
    {
        exe_name(self.full_exe().as_str())
    }

    /// Whether the limit is one of the kernel's two ways of asking for no dump.
    pub fn wants_no_dump(&self) -> (none: bool)
        ensures
            none == (self.core_limit <= 1),
    {
        self.core_limit <= 1
    }

    pub fn duplicate(&self) -> (copy: CrashRequest)
        ensures
            copy@ == self@,
    {
        CrashRequest {
            uid: self.uid,
            pid: self.pid,
            crash_time: self.crash_time,
            exe_encoded: self.exe_encoded.clone(),
            core_limit: self.core_limit,
            config_script_path: self.config_script_path.clone(),
        }
    }
}

/// The entry of the user database for one user, as the database holds it:
/// bytes in a legacy encoding of one byte per character.
#[derive(Clone, Debug, PartialEq, Eq)]
pub struct PasswdEntry {
    pub name: Vec<u8>,
    pub dir: Vec<u8>,
}

/// Who a process ran as.
#[derive(Clone, Debug, PartialEq, Eq)]
pub struct Identity {
    pub username: String,
    pub home: RawPath,
}

/// An identity as a mathematical value.
pub struct IdentityView {
    pub username: Seq<char>,
    pub home: Seq<u8>,
}

impl View for Identity {
    type V = IdentityView;

    open spec fn view(&self) -> IdentityView {
        IdentityView { username: self.username@, home: self.home@ }
    }
}

impl Identity {
    pub fn duplicate(&self) -> (copy: Identity)
        ensures
            copy@ == self@,
    {
        Identity { username: self.username.clone(), home: self.home.duplicate() }
    }
}

/// The identity that an entry of the user database stands for.
pub open spec fn identity_of(name: Seq<u8>, dir: Seq<u8>) -> IdentityView {
    IdentityView { username: latin1(name), home: dir }
}

/// Turns the answer of the user database into an identity. An answer of
/// `Err` is the system's word on why there is no entry; it becomes an
/// `IdentityLookup` error that names the user.
pub fn get_user_details(uid: u32, lookup: Result<PasswdEntry, String>) -> (details: Result<
    Identity,
    PipelineError,
>)
    ensures
        match lookup {
            Ok(entry) => details matches Ok(identity) && identity@ == identity_of(
                entry.name@,
                entry.dir@,
            ),
            Err(detail) => details matches Err(error) && error@ == (ErrorView::IdentityLookup {
                uid,
                detail: detail@,
            }),
        },
{
    match lookup {
        Ok(entry) => Ok(
            Identity {
                username: latin1_to_string(entry.name.as_slice()),
                home: latin1_to_path(entry.dir.as_slice()),
            },
        ),
        Err(detail) => Err(PipelineError::IdentityLookup { uid, detail }),
    }
}

/// Turns the system's answer to a change of user into the handler's own terms.
pub fn set_uid(uid: u32, outcome: Result<(), String>) -> (dropped: Result<(), PipelineError>)
    ensures
        match outcome {
            Ok(_) => dropped is Ok,
            Err(detail) => dropped matches Err(error) && error@ == (ErrorView::PrivilegeDrop {
                uid,
                detail: detail@,
            }),
        },
{
    match outcome {
        Ok(_) => Ok(()),
        Err(detail) => Err(PipelineError::PrivilegeDrop { uid, detail }),
    }
}

} // verus!
