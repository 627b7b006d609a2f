//! The installation itself: where the archive comes from, where its parts
//! go, and how far the download has come.

use vstd::prelude::*;
use crate::paths::{join, join_of};
use crate::validate::FRAMEWORK_DIR;

verus! {

/// Where the framework's release archive is fetched from.
pub const FRAMEWORK_DOWNLOAD_URL: &'static str =
    "https://github.com/atampy25/simple-mod-framework/releases/latest/download/Release.zip";

/// The folder that the archive is extracted into.
pub open spec fn extraction_dir_of(root: Seq<char>) -> Seq<char> {
    join_of(root, FRAMEWORK_DIR@)
}

/// The program that the shortcut starts.
pub open spec fn shortcut_target_of(root: Seq<char>) -> Seq<char> {
    join_of(join_of(extraction_dir_of(root), "Mod Manager"@), "Mod Manager.exe"@)
}

/// The shortcut file, in the Start Menu of the user whose home is given.
pub open spec fn shortcut_file_of(home: Seq<char>) -> Seq<char> {
    join_of(
        join_of(
            join_of(
                join_of(join_of(join_of(join_of(home, "AppData"@), "Roaming"@), "Microsoft"@), "Windows"@),
                "Start Menu"@,
            ),
            "Programs"@,
        ),
        "Simple Mod Framework.lnk"@,
    )
}

/// The folder under the game folder that the archive is extracted into.
pub fn extraction_dir(root: &str) -> (dir: String)
    ensures
        dir@ == extraction_dir_of(root@),
{
    join(root, FRAMEWORK_DIR)
}

/// The program inside the extracted tree that the shortcut points at.
pub fn shortcut_target(root: &str) -> (target: String)
    ensures
        target@ == shortcut_target_of(root@),
{
    let dir = extraction_dir(root);
    let manager = join(dir.as_str(), "Mod Manager");
    join(manager.as_str(), "Mod Manager.exe")
}

/// The shortcut file to create under the user's home folder.
pub fn shortcut_file(home: &str) -> (file: String)
    ensures
        file@ == shortcut_file_of(home@),
{
    let a = join(home, "AppData");
    let b = join(a.as_str(), "Roaming");
    let c = join(b.as_str(), "Microsoft");
    let d = join(c.as_str(), "Windows");
    let e = join(d.as_str(), "Start Menu");
    let f = join(e.as_str(), "Programs");
    join(f.as_str(), "Simple Mod Framework.lnk")
}

/// How far the download of the archive has come.
#[derive(Debug)]
pub enum DownloadState {
    /// Nothing was asked for yet.
    NotStarted,
    /// The request is on its way.
    InFlight,
    /// The archive has arrived.
    Succeeded(Vec<u8>),
    /// The request failed, for the given reason.
    Failed(String),
}

/// A download state as a mathematical value.
pub enum DownloadStateView {
    NotStarted,
    InFlight,
    Succeeded(Seq<u8>),
    Failed(Seq<char>),
}

impl View for DownloadState {
    type V = DownloadStateView;

    open spec fn view(&self) -> DownloadStateView {
        match self {
            DownloadState::NotStarted => DownloadStateView::NotStarted,
            DownloadState::InFlight => DownloadStateView::InFlight,
            DownloadState::Succeeded(bytes) => DownloadStateView::Succeeded(bytes@),
            DownloadState::Failed(reason) => DownloadStateView::Failed(reason@),
        }
    }
}

/// What came back from the network.
pub open spec fn payload_view(payload: Result<Vec<u8>, String>) -> Result<Seq<u8>, Seq<char>> {
    match payload {
        Ok(bytes) => Ok(bytes@),
        Err(reason) => Err(reason@),
    }
}

/// The state after the user asked for the installation. Only the first
/// request starts a download; a download under way or finished is left as
/// it is.
pub open spec fn after_request(state: DownloadStateView) -> DownloadStateView {
    match state {
        DownloadStateView::NotStarted => DownloadStateView::InFlight,
        _ => state,
    }
}

/// The state after the network answered. An answer that no request is
/// waiting for changes nothing.
pub open spec fn after_answer(state: DownloadStateView, payload: Result<Seq<u8>, Seq<char>>) -> DownloadStateView {
    match state {
        DownloadStateView::InFlight => match payload {
            Ok(bytes) => DownloadStateView::Succeeded(bytes),
            Err(reason) => DownloadStateView::Failed(reason),
        },
        _ => state,
    }
}

/// Whether the install button is offered: a folder is selected and the
/// size of the download is known, which it is only with network access.
pub open spec fn install_offered(selection: Option<usize>, size_known: bool) -> bool {
    selection is Some && size_known
}

impl DownloadState {
    /// The state before anything was asked for.
    pub fn new() -> (state: DownloadState)
        ensures
            state@ == DownloadStateView::NotStarted,
    {
        DownloadState::NotStarted
    }

    /// Takes the user's request to install. Returns the next state and
    /// whether the caller is to send the request for the archive now.
    pub fn request(self) -> (next: (DownloadState, bool))
        ensures
            next.0@ == after_request(self@),
            next.1 == (self@ is NotStarted),
    {
        match self {
            DownloadState::NotStarted => (DownloadState::InFlight, true),
            other => (other, false),
        }
    }

    /// Takes the network's answer.
    pub fn answer(self, payload: Result<Vec<u8>, String>) -> (next: DownloadState)
        ensures
            next@ == after_answer(self@, payload_view(payload)),
    {
        match self {
            DownloadState::InFlight => match payload {
                Ok(bytes) => DownloadState::Succeeded(bytes),
                Err(reason) => DownloadState::Failed(reason),
            },
            other => other,
        }
    }

    /// Whether the request is on its way, so that the caller shows that it
    /// is waiting.
    pub fn waiting(&self) -> (r: bool)
        ensures
            r == (self@ is InFlight),
    {
        match self {
            DownloadState::InFlight => true,
            _ => false,
        }
    }

    /// The archive, once it has arrived.
    pub fn archive(&self) -> (bytes: Option<&Vec<u8>>)
        ensures
            match bytes {
                Some(b) => self@ == DownloadStateView::Succeeded(b@),
                None => !(self@ is Succeeded),
            },
    {
        match self {
            DownloadState::Succeeded(bytes) => Some(bytes),
            _ => None,
        }
    }

    /// The reason of the failure, where the download failed.
    pub fn failure(&self) -> (reason: Option<&String>)
        ensures
            match reason {
                Some(r) => self@ == DownloadStateView::Failed(r@),
                None => !(self@ is Failed),
            },
    {
        match self {
            DownloadState::Failed(reason) => Some(reason),
            _ => None,
        }
    }
}

/// What the caller does next about the installation.
#[derive(Clone, Copy, Debug, PartialEq, Eq, Structural)]
pub enum Step {
    /// Nothing: no download was asked for.
    Idle,
    /// Show that the download is under way.
    ShowProgress,
    /// Extract the archive and create the shortcut.
    Extract,
    /// Tell the user that the installation is done.
    ShowDone,
    /// Show the reason of the failure.
    ShowFailure,
}

/// The step that the state of the download calls for, given whether the
/// archive was already extracted.
pub open spec fn step_of(state: DownloadStateView, installed: bool) -> Step {
    match state {
        DownloadStateView::NotStarted => Step::Idle,
        DownloadStateView::InFlight => Step::ShowProgress,
        DownloadStateView::Succeeded(_) => if installed {
            Step::ShowDone
        } else {
            Step::Extract
        },
        DownloadStateView::Failed(_) => Step::ShowFailure,
    }
}

/// Decides the next step. The archive is extracted once: after that the
/// step is to show that the installation is done.
pub fn next_step(state: &DownloadState, installed: bool) -> (step: Step)
    ensures
        step == step_of(state@, installed),
{
    match state {
        DownloadState::NotStarted => Step::Idle,
        DownloadState::InFlight => Step::ShowProgress,
        DownloadState::Succeeded(_) => if installed {
            Step::ShowDone
        } else {
            Step::Extract
        },
        DownloadState::Failed(_) => Step::ShowFailure,
    }
}

/// Whether the install button is offered.
pub fn offers_install(selection: Option<usize>, size_known: bool) -> (offered: bool)
    ensures
        offered == install_offered(selection, size_known),
{
    selection.is_some() && size_known
}

/// A download that has started cannot be started again or called off: a
/// further request leaves the state as it is, whatever it has become.
pub proof fn lemma_request_starts_once(state: DownloadStateView)
    ensures
        after_request(after_request(state)) == after_request(state),
        !(after_request(state) is NotStarted),
{
}

/// The archive arrives only as the answer to a request: from a state other
/// than in flight no answer leads to success or failure.
pub proof fn lemma_answer_needs_request(state: DownloadStateView, payload: Result<Seq<u8>, Seq<char>>)
    requires
        !(state is InFlight),
    ensures
        after_answer(state, payload) == state,
{
}

} // verus!
