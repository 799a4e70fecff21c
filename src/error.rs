use vstd::prelude::*;
use vstd::string::StringExecFns;

verus! {

/// Failure of an update-source query. Neither kind is fatal to the host.
#[derive(Debug)]
pub enum CheckError {
    /// The endpoint could not be reached.
    Network(String),
    /// The endpoint answered with something that is not a valid manifest.
    MalformedResponse(String),
}

impl CheckError {
    /// The underlying description carried by the error.
    pub open spec fn detail(&self) -> Seq<char> {
        match self {
            CheckError::Network(m) => m@,
            CheckError::MalformedResponse(m) => m@,
        }
    }

    pub fn message(&self) -> (r: String)
        ensures
            r@ == self.detail(),
    {
        match self {
            CheckError::Network(m) => m.clone(),
            CheckError::MalformedResponse(m) => m.clone(),
        }
    }
}

/// Failure while downloading or installing an artifact.
#[derive(Debug)]
pub enum InstallError {
    Transport(String),
    Integrity(String),
    Platform(String),
}

impl InstallError {
    pub open spec fn detail(&self) -> Seq<char> {
        match self {
            InstallError::Transport(m) => m@,
            InstallError::Integrity(m) => m@,
            InstallError::Platform(m) => m@,
        }
    }

    pub fn message(&self) -> (r: String)
        ensures
            r@ == self.detail(),
    {
        match self {
            InstallError::Transport(m) => m.clone(),
            InstallError::Integrity(m) => m.clone(),
            InstallError::Platform(m) => m.clone(),
        }
    }
}

/// Every way an orchestrator operation can end without success.
#[derive(Debug)]
pub enum UpdateError {
    /// The update source could not be queried.
    Check(CheckError),
    /// The source reports that the running build is current.
    NoUpdatesAvailable,
    /// Another check or installation is still in flight.
    ConcurrentOperation,
    /// Installation was asked for without a check that found an update.
    NoSession,
    /// The update found earlier was withdrawn before the download began.
    NoLongerAvailable,
    /// The download or the installer failed.
    Install(InstallError),
}

pub open spec fn check_failed_prefix() -> Seq<char> {
    "Error checking for updates: "@
}

pub open spec fn install_failed_prefix() -> Seq<char> {
    "Error installing update: "@
}

impl UpdateError {
    /// The text under which the error is reported to the host.
    pub open spec fn text(&self) -> Seq<char> {
        match self {
            UpdateError::Check(e) => check_failed_prefix() + e.detail(),
            UpdateError::NoUpdatesAvailable => "No updates available"@,
            UpdateError::ConcurrentOperation => "Another update operation is in progress"@,
            UpdateError::NoSession => "No update has been found to install"@,
            UpdateError::NoLongerAvailable => "No updates available to install"@,
            UpdateError::Install(e) => install_failed_prefix() + e.detail(),
        }
    }

    pub fn message(&self) -> (r: String)
        ensures
            r@ == self.text(),
    {
        match self {
            UpdateError::Check(e) => {
                let detail = e.message();
                String::from_str("Error checking for updates: ").concat(detail.as_str())
            },
            UpdateError::NoUpdatesAvailable => String::from_str("No updates available"),
            UpdateError::ConcurrentOperation => String::from_str(
                "Another update operation is in progress",
            ),
            UpdateError::NoSession => String::from_str("No update has been found to install"),
            UpdateError::NoLongerAvailable => String::from_str("No updates available to install"),
            UpdateError::Install(e) => {
                let detail = e.message();
                String::from_str("Error installing update: ").concat(detail.as_str())
            },
        }
    }
}

} // verus!
