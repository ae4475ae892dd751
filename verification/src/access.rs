use vstd::prelude::*;

verus! {

/// The permission state for recording system audio.
#[derive(Clone, Copy, Debug, PartialEq, Eq, Structural)]
pub enum AccessStatus {
    Granted,
    Denied,
    NotDetermined,
}

impl AccessStatus {
    /// The status's name as the front end reads it.
    pub open spec fn label(self) -> Seq<char> {
        match self {
            AccessStatus::Granted => "Granted"@,
            AccessStatus::Denied => "Denied"@,
            AccessStatus::NotDetermined => "NotDetermined"@,
        }
    }

    pub fn as_str(&self) -> (r: &'static str)
        ensures
            r@ == self.label(),
    {
        match self {
            AccessStatus::Granted => "Granted",
            AccessStatus::Denied => "Denied",
            AccessStatus::NotDetermined => "NotDetermined",
        }
    }
}

/// What has to happen when access is requested.
#[derive(Clone, Copy, Debug, PartialEq, Eq, Structural)]
pub enum AccessRequest {
    /// Access is already there; nothing is asked of the user.
    AlreadyGranted,
    /// The consent prompt has to be shown.
    Prompt,
    /// The user has refused before; the prompt cannot be shown again.
    Refused,
}

/// The status that `platform` amounts to: a platform without a permission
/// model (`None`) always grants access.
pub open spec fn access_of(platform: Option<AccessStatus>) -> AccessStatus {
    match platform {
        Some(s) => s,
        None => AccessStatus::Granted,
    }
}

/// What a request does in a given status.
pub open spec fn request_of(status: AccessStatus) -> AccessRequest {
    match status {
        AccessStatus::Granted => AccessRequest::AlreadyGranted,
        AccessStatus::NotDetermined => AccessRequest::Prompt,
        AccessStatus::Denied => AccessRequest::Refused,
    }
}

/// Whether a request ends with access granted, given the status before it and
/// the user's answer to the prompt where one was shown.
pub open spec fn granted_after(status: AccessStatus, answer: bool) -> bool {
    match request_of(status) {
        AccessRequest::AlreadyGranted => true,
        AccessRequest::Prompt => answer,
        AccessRequest::Refused => false,
    }
}

/// The current permission state, from what the platform reports.
pub fn check_access(platform: Option<AccessStatus>) -> (r: AccessStatus)
    ensures
        r == access_of(platform),
{
    match platform {
        Some(s) => s,
        None => AccessStatus::Granted,
    }
}

/// Decides what a request for access has to do in the given status.
pub fn plan_request(status: AccessStatus) -> (r: AccessRequest)
    ensures
        r == request_of(status),
{
    match status {
        AccessStatus::Granted => AccessRequest::AlreadyGranted,
        AccessStatus::NotDetermined => AccessRequest::Prompt,
        AccessStatus::Denied => AccessRequest::Refused,
    }
}

/// The outcome of a request: `answer` is the user's reply to the prompt and
/// counts only where `plan_request` asked for one.
pub fn request_access(status: AccessStatus, answer: bool) -> (r: bool)
    ensures
        r == granted_after(status, answer),
{
    match plan_request(status) {
        AccessRequest::AlreadyGranted => true,
        AccessRequest::Prompt => answer,
        AccessRequest::Refused => false,
    }
}

/// A platform without a permission model grants every request.
pub proof fn lemma_no_model_grants(answer: bool)
    ensures
        access_of(None) == AccessStatus::Granted,
        granted_after(access_of(None), answer),
{
}

} // verus!
