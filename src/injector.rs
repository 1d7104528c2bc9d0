use vstd::prelude::*;
use crate::text::{decimal, decimal_string};

verus! {

/// Why placing a module inside a target process failed.
#[derive(Debug, Clone, Copy, PartialEq, Eq, Structural)]
pub enum InjectionError {
    ProcessNotFound,
    PermissionDenied,
    AttachFailed,
    LoadCallFailed,
}

pub open spec fn injection_error_text(e: InjectionError) -> Seq<char> {
    match e {
        InjectionError::ProcessNotFound => "process not found"@,
        InjectionError::PermissionDenied => "permission denied"@,
        InjectionError::AttachFailed => "attach failed"@,
        InjectionError::LoadCallFailed => "load call failed"@,
    }
}

impl InjectionError {
    /// A short description of the error for the operator.
    pub fn message(&self) -> (r: &'static str)
        ensures
            r@ == injection_error_text(*self),
    {
        match self {
            InjectionError::ProcessNotFound => "process not found",
            InjectionError::PermissionDenied => "permission denied",
            InjectionError::AttachFailed => "attach failed",
            InjectionError::LoadCallFailed => "load call failed",
        }
    }
}

/// The operator's view of the injector: a status line and the process id
/// found last.
pub struct InjectorGUI {
    pub status: String,
    pub pid: Option<u32>,
}

impl InjectorGUI {
    /// The injector before any search: a greeting and no process id.
    pub fn new() -> (r: InjectorGUI)
        ensures
            r.status@ == "Hello, welcome to DarkClient Injector:"@,
            r.pid is None,
    {
        InjectorGUI { status: String::from_str("Hello, welcome to DarkClient Injector:"), pid: None }
    }

    /// Records the outcome of a search for the target process.
    pub fn on_find(&mut self, found: Option<u32>)
        ensures
            final(self).pid == found,
            found is None ==> final(self).status@ == "Failed to find PID"@,
            found matches Some(pid) ==> final(self).status@ == "Found PID: "@ + decimal(
                pid as nat,
            ),
    {
        self.pid = found;
        match found {
            None => {
                self.status = String::from_str("Failed to find PID");
            },
            Some(pid) => {
                let mut status = String::from_str("Found PID: ");
                let digits = decimal_string(pid as u64);
                status.append(digits.as_str());
                self.status = status;
            },
        }
    }

    /// Asked to inject: the process id to inject into, or `None` (and a
    /// prompt in the status line) when no process has been found yet.
    pub fn on_inject_request(&mut self) -> (r: Option<u32>)
        ensures
            r == old(self).pid,
            final(self).pid == old(self).pid,
            old(self).pid is None ==> final(self).status@ == "Please find the PID first"@,
            old(self).pid is Some ==> final(self).status == old(self).status,
    {
        if self.pid.is_none() {
            self.status = String::from_str("Please find the PID first");
        }
        self.pid
    }

    /// Records the outcome of an injection.
    pub fn on_inject_result(&mut self, result: Result<(), InjectionError>)
        ensures
            final(self).pid == old(self).pid,
            result is Ok ==> final(self).status@ == "Injected successfully!"@,
            result matches Err(e) ==> final(self).status@ == "Failed to inject: "@
                + injection_error_text(e),
    {
        match result {
            Ok(()) => {
                self.status = String::from_str("Injected successfully!");
            },
            Err(e) => {
                let mut status = String::from_str("Failed to inject: ");
                status.append(e.message());
                self.status = status;
            },
        }
    }
}

} // verus!
