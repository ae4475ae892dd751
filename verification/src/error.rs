use vstd::prelude::*;

verus! {

/// What can go wrong with a command or with a running session. Every failure
/// is told apart by kind.
#[derive(Clone, Copy, Debug, PartialEq, Eq, Structural)]
pub enum CaptureError {
    /// The operating system refuses audio capture.
    PermissionDenied,
    /// No suitable loopback-capable device exists.
    DeviceUnavailable,
    /// A session is already active.
    AlreadyCapturing,
    /// A configuration field is out of range.
    InvalidConfig,
    /// The background task did not end within the shutdown timeout.
    ShutdownTimeout,
    /// The command needs an active session and there is none.
    NoActiveSession,
    /// The audio path failed after the session had started.
    StreamError,
}

impl CaptureError {
    /// The name by which the kind of failure is told to the caller.
    pub open spec fn label(self) -> Seq<char> {
        match self {
            CaptureError::PermissionDenied => "PermissionDenied"@,
            CaptureError::DeviceUnavailable => "DeviceUnavailable"@,
            CaptureError::AlreadyCapturing => "AlreadyCapturing"@,
            CaptureError::InvalidConfig => "InvalidConfig"@,
            CaptureError::ShutdownTimeout => "ShutdownTimeout"@,
            CaptureError::NoActiveSession => "NoActiveSession"@,
            CaptureError::StreamError => "StreamError"@,
        }
    }

    pub fn as_str(&self) -> (r: &'static str)
        ensures
            r@ == self.label(),
    {
        match self {
            CaptureError::PermissionDenied => "PermissionDenied",
            CaptureError::DeviceUnavailable => "DeviceUnavailable",
            CaptureError::AlreadyCapturing => "AlreadyCapturing",
            CaptureError::InvalidConfig => "InvalidConfig",
            CaptureError::ShutdownTimeout => "ShutdownTimeout",
            CaptureError::NoActiveSession => "NoActiveSession",
            CaptureError::StreamError => "StreamError",
        }
    }

    /// Whether the failure is returned to the caller of the command that met
    /// it. A stream that fails in mid-session has no caller waiting: that
    /// failure is handled by the controller and passed on as a notification.
    pub open spec fn returned_to_caller(self) -> bool {
        self != CaptureError::StreamError
    }

    pub fn is_synchronous(&self) -> (r: bool)
        ensures
            r == self.returned_to_caller(),
    {
        match self {
            CaptureError::StreamError => false,
            _ => true,
        }
    }
}

} // verus!
