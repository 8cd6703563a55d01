//! What a check needs to have observed, and what an observation brings back.
//!
//! Observing is the caller's business. A probe names what to look at; the
//! caller looks, and reports what it found as an observation.

use vstd::prelude::*;

verus! {

/// What has to be observed on the machine before a check can be decided.
#[derive(Debug, PartialEq, Eq)]
pub enum Probe {
    /// Whether anything stands at this path.
    PathPresence { file_path: String },
    /// The whole content of the file at this path.
    FileContent { file_path: String },
    /// What the service manager prints when asked whether this service is
    /// active.
    ServiceState { service_name: String },
    /// What the tool that searches the executable path prints for this name.
    BinaryLocation { binary_name: String },
    /// What the identity tool prints for this user: its groups and roles.
    Identity { user: String },
    /// The accounts that the machine's user directory lists.
    UserDirectory,
}

/// The mathematical value of a [`Probe`].
pub ghost enum ProbeView {
    PathPresence { file_path: Seq<char> },
    FileContent { file_path: Seq<char> },
    ServiceState { service_name: Seq<char> },
    BinaryLocation { binary_name: Seq<char> },
    Identity { user: Seq<char> },
    UserDirectory,
}

impl View for Probe {
    type V = ProbeView;

    open spec fn view(&self) -> ProbeView {
        match *self {
            Probe::PathPresence { file_path } => ProbeView::PathPresence { file_path: file_path@ },
            Probe::FileContent { file_path } => ProbeView::FileContent { file_path: file_path@ },
            Probe::ServiceState { service_name } => ProbeView::ServiceState {
                service_name: service_name@,
            },
            Probe::BinaryLocation { binary_name } => ProbeView::BinaryLocation {
                binary_name: binary_name@,
            },
            Probe::Identity { user } => ProbeView::Identity { user: user@ },
            Probe::UserDirectory => ProbeView::UserDirectory,
        }
    }
}

/// What a probe found.
#[derive(Debug, PartialEq, Eq)]
pub enum Observation {
    /// Whether something stands at the path.
    Presence(bool),
    /// The content of the file, or `None` where the file is missing or cannot
    /// be read.
    FileText(Option<String>),
    /// What the tool printed, or `None` where the tool could not be started.
    ToolOutput(Option<String>),
    /// The entries of the user directory, each with the account's name, or
    /// `None` for an entry that names no account.
    Accounts(Vec<Option<String>>),
}

/// The mathematical value of an [`Observation`].
pub ghost enum ObservationView {
    Presence(bool),
    FileText(Option<Seq<char>>),
    ToolOutput(Option<Seq<char>>),
    Accounts(Seq<Option<Seq<char>>>),
}

impl View for Observation {
    type V = ObservationView;

    open spec fn view(&self) -> ObservationView {
        match *self {
            Observation::Presence(present) => ObservationView::Presence(present),
            Observation::FileText(text) => ObservationView::FileText(text.deep_view()),
            Observation::ToolOutput(output) => ObservationView::ToolOutput(output.deep_view()),
            Observation::Accounts(accounts) => ObservationView::Accounts(accounts.deep_view()),
        }
    }
}

/// Why a check could not be decided.
#[derive(Debug, Clone, Copy, PartialEq, Eq, Structural)]
pub enum CheckError {
    /// The tool that the probe needs could not be started.
    ProbeSpawnError,
    /// The observation is not an answer to the probe that the check asks for.
    UnexpectedObservation,
}

/// Whether an observation is of the form that answers a probe.
pub open spec fn answers(probe: ProbeView, seen: ObservationView) -> bool {
    match probe {
        ProbeView::PathPresence { .. } => seen is Presence,
        ProbeView::FileContent { .. } => seen is FileText,
        ProbeView::ServiceState { .. }
        | ProbeView::BinaryLocation { .. }
        | ProbeView::Identity { .. } => seen is ToolOutput,
        ProbeView::UserDirectory => seen is Accounts,
    }
}

} // verus!
