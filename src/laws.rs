//! Properties of the prompt engine and the workflow, proved from the
//! contracts of their functions.
use vstd::prelude::*;
use crate::prompts::{is_yes_no, may_accept, Completed, KPrompts, PromptStep};
use crate::workflow::{
    catalog, chosen_template, is_success, CreateKapp, RunAction, RunEvent, ScaffoldError, Stage,
};

verus! {

/// A free-form answer that the engine accepts is one that the validator
/// accepted: a rejected answer never leaves the prompt.
pub proof fn accepted_answer_passes_validator<F: Fn(&str) -> bool>(
    prompts: KPrompts,
    message: Seq<char>,
    f: &F,
    keep: Option<bool>,
    answer: Seq<char>,
    step: PromptStep,
)
    requires
        prompts.decided(Completed::Input, message, Some(f), keep, answer, step),
    ensures
        step matches PromptStep::Accept { answer: a, echo } ==> may_accept(*f, a@),
{
}

/// A yes/no answer is accepted exactly when, once normalised, it is `y` or
/// `n`, and it is then returned as it is.
pub proof fn yes_no_answers_are_exact<F: Fn(&str) -> bool>(
    prompts: KPrompts,
    message: Seq<char>,
    validate: Option<&F>,
    keep: Option<bool>,
    answer: Seq<char>,
    step: PromptStep,
)
    requires
        prompts.decided(Completed::Confirm, message, validate, keep, answer, step),
    ensures
        step is Accept <==> is_yes_no(answer),
        step matches PromptStep::Accept { answer: a, echo } ==> a@ == "y"@ || a@ == "n"@,
{
}

/// A template choice is kept unchanged exactly when the catalog holds it;
/// any other choice becomes the catalog's first entry.
pub proof fn template_kept_iff_known(choice: Seq<char>)
    ensures
        (chosen_template(choice) == choice) <==> catalog().contains(choice),
        !catalog().contains(choice) ==> chosen_template(choice) == catalog()[0],
{
    assert(catalog().contains(catalog()[0])) by {
        assert(catalog()[0] == catalog()[0]);
    }
}

/// Resolving a folder that already exists never creates it again.
pub proof fn existing_folder_not_recreated(
    app: CreateKapp,
    folder: String,
    next: Stage,
    action: RunAction,
)
    requires
        app.steps(Stage::Existence { folder }, RunEvent::Checked { exists: true }, next, action),
    ensures
        action matches RunAction::Canonicalize { path } && path@ == folder@,
        !(action is CreateDir),
{
}

/// The current directory is canonicalised directly: it is neither checked
/// nor created.
pub proof fn current_folder_resolved_directly(
    app: CreateKapp,
    answer: String,
    next: Stage,
    action: RunAction,
)
    requires
        answer@ == "."@,
        app.steps(Stage::Folder, RunEvent::Answered { answer }, next, action),
    ensures
        action matches RunAction::Canonicalize { path } && path@ == "."@,
{
}

/// A download that does not answer with success ends the run with a
/// download error, before anything is extracted.
pub proof fn failed_download_extracts_nothing(
    app: CreateKapp,
    target: String,
    status: u16,
    body: Vec<u8>,
    next: Stage,
    action: RunAction,
)
    requires
        !is_success(status),
        app.steps(Stage::Fetching { target }, RunEvent::Received { status, body }, next, action),
    ensures
        next == (Stage::Failed { error: ScaffoldError::Download }),
        action == (RunAction::Abort { error: ScaffoldError::Download }),
{
}

} // verus!
