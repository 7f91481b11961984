use vstd::prelude::*;

verus! {

#[derive(Debug, Clone, Copy, PartialEq, Eq, Structural)]
pub enum PermissionKind {
    Accessibility,
    InputMonitoring,
    WindowsInput,
}

#[derive(Debug)]
pub enum InputError {
    Unsupported,
    PermissionDenied(&'static str),
    CaptureAlreadyRunning,
    Platform(String),
}

/// The text that explains an input error.
pub open spec fn input_error_text(e: &InputError) -> Seq<char> {
    match e {
        InputError::Unsupported => "input platform is unsupported"@,
        InputError::PermissionDenied(what) => "permission is not granted: "@ + what@,
        InputError::CaptureAlreadyRunning => "capture is already running"@,
        InputError::Platform(detail) => "platform error: "@ + detail@,
    }
}

impl InputError {
    /// The text that explains the error.
    pub fn message(&self) -> (text: String)
        ensures
            text@ == input_error_text(self),
    {
        match self {
            InputError::Unsupported => String::from_str("input platform is unsupported"),
            InputError::PermissionDenied(what) => {
                let mut text = String::from_str("permission is not granted: ");
                text.append(what);
                text
            },
            InputError::CaptureAlreadyRunning => String::from_str("capture is already running"),
            InputError::Platform(detail) => {
                let mut text = String::from_str("platform error: ");
                text.append(detail.as_str());
                text
            },
        }
    }
}

} // verus!
