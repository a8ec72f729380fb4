use vstd::prelude::*;

mod git_runner;
mod repo_service;
mod text;

pub use git_runner::{
    failure_message, joined_message, outcome_of, preamble, success_text, text_result, Execution, GitRunner,
    Invocation, PROGRAM,
};
pub use repo_service::{
    handle_result, lemma_blank_lookup_is_not_a_repository, lemma_root_is_reported_top_level,
    locate_args, opened, RepoService, NOT_A_REPOSITORY,
};
pub use text::trimmed;

verus! {

/// The one error kind of the library: a message meant for a person to read.
#[derive(Debug, Clone)]
pub enum AppError {
    Message { message: String },
}

impl View for AppError {
    type V = Seq<char>;

    open spec fn view(&self) -> Seq<char> {
        match self {
            AppError::Message { message } => message@,
        }
    }
}

impl AppError {
    /// An error carrying `message`.
    pub fn new(message: String) -> (r: AppError)
        ensures
            r@ == message@,
    {
        AppError::Message { message }
    }

    /// The text of the error.
    pub fn message(&self) -> (r: String)
        ensures
            r@ == self@,
    {
        match self {
            AppError::Message { message } => message.clone(),
        }
    }
}

} // verus!
