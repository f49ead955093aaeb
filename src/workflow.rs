//! The scaffold workflow: ask for a folder, resolve it, ask for a template,
//! download the archive and extract it.
use vstd::prelude::*;
use vstd::string::StringExecFns;
use crate::archive::{open_archive, readable_archive, Archive};
use crate::palette::Colors;
use crate::prompts::KPrompts;
use crate::text::{owned, same_text};

verus! {

/// Why a run failed.
#[derive(PartialEq, Eq, Structural, Clone, Copy, Debug)]
pub enum ScaffoldError {
    /// The target folder could not be created or canonicalised.
    Path,
    /// The archive could not be fetched, or the host did not answer with success.
    Download,
    /// The fetched bytes are not a zip archive.
    Archive,
    /// Writing the extracted files failed.
    Extraction,
}

impl ScaffoldError {
    /// The text reported for this error.
    pub open spec fn spec_message(self) -> Seq<char> {
        match self {
            ScaffoldError::Path => "Could not prepare the target folder."@,
            ScaffoldError::Download => "Could not download the template."@,
            ScaffoldError::Archive => "The downloaded template is not a valid archive."@,
            ScaffoldError::Extraction => "Could not extract the template."@,
        }
    }

    /// The text reported for this error.
    pub fn message(&self) -> (r: String)
        ensures
            r@ == self.spec_message(),
    {
        match self {
            ScaffoldError::Path => owned("Could not prepare the target folder."),
            ScaffoldError::Download => owned("Could not download the template."),
            ScaffoldError::Archive => owned("The downloaded template is not a valid archive."),
            ScaffoldError::Extraction => owned("Could not extract the template."),
        }
    }
}

/// Where a run stands between two events.
pub enum Stage {
    /// Nothing has happened yet.
    Start,
    /// Waiting for the target folder.
    Folder,
    /// Waiting to learn whether `folder` exists.
    Existence { folder: String },
    /// Waiting for `folder` to be created.
    Creation { folder: String },
    /// Waiting for the canonical form of the target folder.
    Resolution,
    /// Waiting for the template choice; `target` is the resolved folder.
    Template { target: String },
    /// Waiting for the archive download.
    Fetching { target: String },
    /// Waiting for the extraction to finish.
    Extraction,
    /// The project was set up.
    Done,
    /// The run stopped on `error`.
    Failed { error: ScaffoldError },
}

/// The outcome of the last action, handed back by the driver.
pub enum RunEvent {
    /// The run begins.
    Started,
    /// A question was answered with `answer`.
    Answered { answer: String },
    /// Whether the folder exists.
    Checked { exists: bool },
    /// Whether creating the folder succeeded.
    Created { ok: bool },
    /// The canonical path, or `None` when canonicalisation failed.
    Resolved { path: Option<String> },
    /// The host could not be reached.
    Unreachable,
    /// The host answered with `status` and `body`.
    Received { status: u16, body: Vec<u8> },
    /// Whether every entry was written.
    Extracted { ok: bool },
}

/// What the driver is asked to do next.
pub enum RunAction {
    /// Ask `message` as a free-form question; answers must be non-empty when
    /// `non_empty` holds.
    Ask { message: String, non_empty: bool },
    /// Find out whether `path` exists.
    CheckExists { path: String },
    /// Create the single directory `path`.
    CreateDir { path: String },
    /// Canonicalise `path`.
    Canonicalize { path: String },
    /// Show `notice`, then fetch `url`.
    Download { url: String, notice: String },
    /// Extract `archive` into `target`.
    Extract { archive: Archive, target: String },
    /// Print `lines`; the run succeeded.
    Finish { lines: Vec<String> },
    /// Report `error`; the run failed.
    Abort { error: ScaffoldError },
    /// The event does not belong to the current stage; nothing changes.
    Ignore,
}

/// The question for the target folder.
pub open spec fn folder_question() -> Seq<char> {
    "Setup the project in (specify folder)...?"@
}

/// The question for the template.
pub open spec fn template_question() -> Seq<char> {
    "What scaffold do you want to start with?"@
}

/// The known templates; the first is the default.
pub open spec fn catalog() -> Seq<Seq<char>> {
    seq!["template"@, "apitemplate"@, "DJS14Template"@]
}

/// The template used for a choice: the choice itself when it is known,
/// otherwise the default.
pub open spec fn chosen_template(choice: Seq<char>) -> Seq<char> {
    if catalog().contains(choice) {
        choice
    } else {
        catalog()[0]
    }
}

/// Whether a status code reports success.
pub open spec fn is_success(status: u16) -> bool {
    200 <= status < 300
}

/// The validator for the target folder: the answer must not be empty.
pub fn non_empty(value: &str) -> (r: bool)
    ensures
        r == (value@.len() > 0),
{
    value.unicode_len() > 0
}

/// Whether a status code reports success.
pub fn success_status(status: u16) -> (r: bool)
    ensures
        r == is_success(status),
{
    200 <= status && status < 300
}

/// The scaffolding tool: where templates come from, and how output looks.
pub struct CreateKapp {
    pub user: String,
    pub branch: String,
    pub urls: Vec<String>,
    pub colors: Colors,
    pub prompt: KPrompts,
}

impl CreateKapp {
    /// Whether the tool holds the standard catalog and palette.
    pub open spec fn wf(&self) -> bool {
        &&& self.urls@.map_values(|u: String| u@) == catalog()
        &&& self.colors.is_standard()
        &&& self.prompt.colors.is_standard()
    }

    /// The address of the archive of the source branch.
    pub open spec fn spec_download_url(&self) -> Seq<char> {
        "https://github.com/"@ + self.user@ + "/archive/refs/heads/"@ + self.branch@ + ".zip"@
    }

    /// The notice shown when the download of `template` starts.
    pub open spec fn spec_notice(&self, template: Seq<char>) -> Seq<char> {
        self.colors.white@ + self.colors.cyan@ + "\u{2202} Downloading template "@ + template
            + "..."@ + self.colors.white@
    }

    /// A status line holding `message`, styled for success or failure.
    pub open spec fn spec_answer(&self, message: Seq<char>, success: bool) -> Seq<char> {
        (if success {
            self.colors.green@
        } else {
            self.colors.red@
        }) + message
    }

    /// A tool that fetches templates from `branch` of `user`'s repository.
    pub fn new(user: String, branch: String) -> (r: CreateKapp)
        ensures
            r.wf(),
            r.user@ == user@,
            r.branch@ == branch@,
    {
        let mut urls: Vec<String> = Vec::new();
        urls.push(owned("template"));
        urls.push(owned("apitemplate"));
        urls.push(owned("DJS14Template"));
        proof {
            assert(urls@.map_values(|u: String| u@) =~= catalog());
        }
        CreateKapp { user, branch, urls, colors: Colors::new(), prompt: KPrompts::new() }
    }

    /// The address of the archive of the source branch; it does not depend
    /// on the template chosen.
    pub fn download_url(&self) -> (r: String)
        ensures
            r@ == self.spec_download_url(),
    {
        owned("https://github.com/").concat(self.user.as_str()).concat(
            "/archive/refs/heads/",
        ).concat(self.branch.as_str()).concat(".zip")
    }

    /// The notice shown when the download of `template` starts.
    pub fn notice(&self, template: &str) -> (r: String)
        ensures
            r@ == self.spec_notice(template@),
    {
        owned(self.colors.white.as_str()).concat(self.colors.cyan.as_str()).concat(
            "\u{2202} Downloading template ",
        ).concat(template).concat("...").concat(self.colors.white.as_str())
    }

    /// A status line holding `message`, styled for success or failure.
    pub fn answer(&self, message: &str, success: bool) -> (r: String)
        ensures
            r@ == self.spec_answer(message@, success),
    {
        let style = if success {
            self.colors.green.as_str()
        } else {
            self.colors.red.as_str()
        };
        owned(style).concat(message)
    }

    /// The template used for `choice`: the choice when the catalog holds it,
    /// otherwise the catalog's first entry.
    pub fn select_template(&self, choice: &str) -> (r: String)
        requires
            self.wf(),
        ensures
            r@ == chosen_template(choice@),
    {
        let ghost names = self.urls@.map_values(|u: String| u@);
        let mut i: usize = 0;
        while i < self.urls.len()
            invariant
                self.wf(),
                names == catalog(),
                i <= self.urls@.len(),
                forall|j: int| 0 <= j < i ==> names[j] != choice@,
            decreases self.urls@.len() - i,
        {
            if same_text(self.urls[i].as_str(), choice) {
                proof {
                    assert(names[i as int] == choice@);
                    assert(catalog().contains(choice@));
                }
                return owned(choice);
            }
            i = i + 1;
        }
        proof {
            assert(!catalog().contains(choice@)) by {
                if catalog().contains(choice@) {
                    let k = choose|k: int| 0 <= k < catalog().len() && catalog()[k] == choice@;
                    assert(names[k] == choice@);
                }
            }
        }
        self.urls[0].clone()
    }
    /// Whether handling `event` in `stage` may lead to `next` with `action`.
    pub open spec fn steps(&self, stage: Stage, event: RunEvent, next: Stage, action: RunAction) -> bool {
        match (stage, event) {
            (Stage::Start, RunEvent::Started) => {
                &&& next is Folder
                &&& action matches RunAction::Ask { message, non_empty }
                &&& message@ == folder_question() && non_empty
            },
            (Stage::Folder, RunEvent::Answered { answer }) => if answer@ == "."@ {
                &&& next is Resolution
                &&& action matches RunAction::Canonicalize { path } && path@ == "."@
            } else {
                &&& next matches Stage::Existence { folder } && folder@ == answer@
                &&& action matches RunAction::CheckExists { path } && path@ == answer@
            },
            (Stage::Existence { folder }, RunEvent::Checked { exists }) => if exists {
                &&& next is Resolution
                &&& action matches RunAction::Canonicalize { path } && path@ == folder@
            } else {
                &&& next matches Stage::Creation { folder: f } && f@ == folder@
                &&& action matches RunAction::CreateDir { path } && path@ == folder@
            },
            (Stage::Creation { folder }, RunEvent::Created { ok }) => if ok {
                &&& next is Resolution
                &&& action matches RunAction::Canonicalize { path } && path@ == folder@
            } else {
                &&& next == Stage::Failed { error: ScaffoldError::Path }
                &&& action == RunAction::Abort { error: ScaffoldError::Path }
            },
            (Stage::Resolution, RunEvent::Resolved { path }) => match path {
                Some(p) => {
                    &&& next matches Stage::Template { target } && target@ == p@
                    &&& action matches RunAction::Ask { message, non_empty }
                    &&& message@ == template_question() && !non_empty
                },
                None => {
                    &&& next == Stage::Failed { error: ScaffoldError::Path }
                    &&& action == RunAction::Abort { error: ScaffoldError::Path }
                },
            },
            (Stage::Template { target }, RunEvent::Answered { answer }) => {
                &&& next matches Stage::Fetching { target: t } && t@ == target@
                &&& action matches RunAction::Download { url, notice }
                &&& url@ == self.spec_download_url()
                &&& notice@ == self.spec_notice(chosen_template(answer@))
            },
            (Stage::Fetching { target }, RunEvent::Unreachable) => {
                &&& next == Stage::Failed { error: ScaffoldError::Download }
                &&& action == RunAction::Abort { error: ScaffoldError::Download }
            },
            (Stage::Fetching { target }, RunEvent::Received { status, body }) => if !is_success(
                status,
            ) {
                &&& next == Stage::Failed { error: ScaffoldError::Download }
                &&& action == RunAction::Abort { error: ScaffoldError::Download }
            } else if !readable_archive(body@) {
                &&& next == Stage::Failed { error: ScaffoldError::Archive }
                &&& action == RunAction::Abort { error: ScaffoldError::Archive }
            } else {
                &&& next is Extraction
                &&& action matches RunAction::Extract { archive, target: t } && t@ == target@
            },
            (Stage::Extraction, RunEvent::Extracted { ok }) => if ok {
                &&& next is Done
                &&& action matches RunAction::Finish { lines }
                &&& lines@.len() == 2
                &&& lines@[0]@ == self.spec_answer("Download and extraction complete!"@, true)
                &&& lines@[1]@ == self.spec_answer("Successfully set up project :D"@, true)
            } else {
                &&& next == Stage::Failed { error: ScaffoldError::Extraction }
                &&& action == RunAction::Abort { error: ScaffoldError::Extraction }
            },
            _ => next == stage && action is Ignore,
        }
    }

    /// Handles one event of a run: updates the stage and says what the
    /// driver must do next.
    pub fn run(&self, stage: &mut Stage, event: RunEvent) -> (r: RunAction)
        requires
            self.wf(),
        ensures
            self.steps(*old(stage), event, *final(stage), r),
    {
        let mut current = Stage::Start;
        core::mem::swap(stage, &mut current);
        let (next, action) = self.advance(current, event);
        *stage = next;
        action
    }

    /// Handles one event in `stage`, giving the next stage and action.
    fn advance(&self, stage: Stage, event: RunEvent) -> (r: (Stage, RunAction))
        requires
            self.wf(),
        ensures
            self.steps(stage, event, r.0, r.1),
    {
        match (stage, event) {
            (Stage::Start, RunEvent::Started) => (
                Stage::Folder,
                RunAction::Ask {
                    message: owned("Setup the project in (specify folder)...?"),
                    non_empty: true,
                },
            ),
            (Stage::Folder, RunEvent::Answered { answer }) => {
                if same_text(answer.as_str(), ".") {
                    (Stage::Resolution, RunAction::Canonicalize { path: owned(".") })
                } else {
                    let path = answer.clone();
                    (Stage::Existence { folder: answer }, RunAction::CheckExists { path })
                }
            },
            (Stage::Existence { folder }, RunEvent::Checked { exists }) => {
                if exists {
                    (Stage::Resolution, RunAction::Canonicalize { path: folder })
                } else {
                    let path = folder.clone();
                    (Stage::Creation { folder }, RunAction::CreateDir { path })
                }
            },
            (Stage::Creation { folder }, RunEvent::Created { ok }) => {
                if ok {
                    (Stage::Resolution, RunAction::Canonicalize { path: folder })
                } else {
                    (
                        Stage::Failed { error: ScaffoldError::Path },
                        RunAction::Abort { error: ScaffoldError::Path },
                    )
                }
            },
            (Stage::Resolution, RunEvent::Resolved { path }) => match path {
                Some(p) => (
                    Stage::Template { target: p },
                    RunAction::Ask {
                        message: owned("What scaffold do you want to start with?"),
                        non_empty: false,
                    },
                ),
                None => (
                    Stage::Failed { error: ScaffoldError::Path },
                    RunAction::Abort { error: ScaffoldError::Path },
                ),
            },
            (Stage::Template { target }, RunEvent::Answered { answer }) => {
                let template = self.select_template(answer.as_str());
                let notice = self.notice(template.as_str());
                (
                    Stage::Fetching { target },
                    RunAction::Download { url: self.download_url(), notice },
                )
            },
            (Stage::Fetching { target }, RunEvent::Unreachable) => (
                Stage::Failed { error: ScaffoldError::Download },
                RunAction::Abort { error: ScaffoldError::Download },
            ),
            (Stage::Fetching { target }, RunEvent::Received { status, body }) => {
                if !success_status(status) {
                    (
                        Stage::Failed { error: ScaffoldError::Download },
                        RunAction::Abort { error: ScaffoldError::Download },
                    )
                } else {
                    match open_archive(body) {
                        Some(archive) => (Stage::Extraction, RunAction::Extract { archive, target }),
                        None => (
                            Stage::Failed { error: ScaffoldError::Archive },
                            RunAction::Abort { error: ScaffoldError::Archive },
                        ),
                    }
                }
            },
            (Stage::Extraction, RunEvent::Extracted { ok }) => {
                if ok {
                    let mut lines: Vec<String> = Vec::new();
                    lines.push(self.answer("Download and extraction complete!", true));
                    lines.push(self.answer("Successfully set up project :D", true));
                    (Stage::Done, RunAction::Finish { lines })
                } else {
                    (
                        Stage::Failed { error: ScaffoldError::Extraction },
                        RunAction::Abort { error: ScaffoldError::Extraction },
                    )
                }
            },
            (stage, _) => (stage, RunAction::Ignore),
        }
    }
}

} // verus!
