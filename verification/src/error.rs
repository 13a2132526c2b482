//! What can go wrong, and the trail of remarks a failure gathers on its way up.

use vstd::prelude::*;
use vstd::string::StringExecFns;
use crate::text::{append_decimal, decimal_text};

verus! {

/// The kinds of failure.
#[derive(Debug, PartialEq, Eq)]
pub enum Failure {
    /// The configuration is missing or cannot be used.
    Config { detail: String },
    /// A request did not get through to the service.
    Request { detail: String },
    /// A reply of the service did not have the expected shape.
    Decode { detail: String },
    /// The player's list and the game's list differ in length.
    SizeMismatch { player_achievements: usize, game_achievements: usize },
    /// The user left the chooser without picking a game.
    NoSelection,
}

/// The mathematical content of a [`Failure`].
pub enum FailureView {
    Config { detail: Seq<char> },
    Request { detail: Seq<char> },
    Decode { detail: Seq<char> },
    SizeMismatch { player_achievements: nat, game_achievements: nat },
    NoSelection,
}

impl View for Failure {
    type V = FailureView;

    open spec fn view(&self) -> FailureView {
        match self {
            Failure::Config { detail } => FailureView::Config { detail: detail@ },
            Failure::Request { detail } => FailureView::Request { detail: detail@ },
            Failure::Decode { detail } => FailureView::Decode { detail: detail@ },
            Failure::SizeMismatch { player_achievements, game_achievements } => FailureView::SizeMismatch {
                player_achievements: *player_achievements as nat,
                game_achievements: *game_achievements as nat,
            },
            Failure::NoSelection => FailureView::NoSelection,
        }
    }
}

impl FailureView {
    /// What the failure says of itself.
    pub open spec fn message(self) -> Seq<char> {
        match self {
            FailureView::Config { detail } => detail,
            FailureView::Request { detail } => detail,
            FailureView::Decode { detail } => detail,
            FailureView::SizeMismatch { player_achievements, game_achievements } => {
                "Player achievements size "@ + decimal_text(player_achievements)
                    + ", game achievements size "@ + decimal_text(game_achievements)
            },
            FailureView::NoSelection => "You did not choose a game."@,
        }
    }
}

impl Failure {
    /// What the failure says of itself.
    pub fn message(&self) -> (text: String)
        ensures
            text@ == self@.message(),
    {
        match self {
            Failure::Config { detail } => detail.clone(),
            Failure::Request { detail } => detail.clone(),
            Failure::Decode { detail } => detail.clone(),
            Failure::SizeMismatch { player_achievements, game_achievements } => {
                let mut text = String::from_str("Player achievements size ");
                append_decimal(&mut text, *player_achievements as u64);
                text.append(", game achievements size ");
                append_decimal(&mut text, *game_achievements as u64);
                text
            },
            Failure::NoSelection => String::from_str("You did not choose a game."),
        }
    }
}

/// A failure together with the remarks added where it passed, the first
/// added first.
#[derive(Debug, PartialEq, Eq)]
pub struct Error {
    pub failure: Failure,
    pub context: Vec<String>,
}

/// The mathematical content of an [`Error`].
pub struct ErrorView {
    pub failure: FailureView,
    pub context: Seq<Seq<char>>,
}

impl ErrorView {
    /// A failure that nothing has been said about yet.
    pub open spec fn new(failure: FailureView) -> ErrorView {
        ErrorView { failure, context: Seq::empty() }
    }

    /// The error with one more remark.
    pub open spec fn with_context(self, remark: Seq<char>) -> ErrorView {
        ErrorView { failure: self.failure, context: self.context.push(remark) }
    }
}

impl View for Error {
    type V = ErrorView;

    open spec fn view(&self) -> ErrorView {
        ErrorView { failure: self.failure@, context: self.context.deep_view() }
    }
}

impl DeepView for Error {
    type V = ErrorView;

    open spec fn deep_view(&self) -> ErrorView {
        self@
    }
}

/// The mathematical content of a result: that of the value, or that of what
/// came in its place.
pub open spec fn outcome_view<T: DeepView, E: DeepView>(outcome: Result<T, E>) -> Result<T::V, E::V> {
    match outcome {
        Ok(value) => Ok(value.deep_view()),
        Err(error) => Err(error.deep_view()),
    }
}

impl Error {
    /// A failure that nothing has been said about yet.
    pub fn new(failure: Failure) -> (error: Error)
        ensures
            error@ == ErrorView::new(failure@),
    {
        let error = Error { failure, context: Vec::new() };
        assert(error.context.deep_view() =~= Seq::empty());
        error
    }

    /// Adds a remark on what was being done when the failure passed.
    pub fn with_context(self, remark: &str) -> (error: Error)
        ensures
            error@ == self@.with_context(remark@),
    {
        let Error { failure, context } = self;
        let mut context = context;
        let ghost before = context.deep_view();
        context.push(String::from_str(remark));
        assert(context.deep_view() =~= before.push(remark@));
        Error { failure, context }
    }

    /// What the failure says of itself, without the remarks.
    pub fn message(&self) -> (text: String)
        ensures
            text@ == self@.failure.message(),
    {
        self.failure.message()
    }
}

} // verus!
