//! The ways in which a probe, a generation, an insert or a connection fails,
//! and the message that each failure is reported with.

use crate::status::{display_status, status_line};
use crate::text::{decimal, decimal_digits};
use vstd::prelude::*;
use vstd::string::*;

verus! {

/// The generation service is unreachable or unhealthy.
#[derive(Debug, PartialEq, Eq)]
pub enum HealthError {
    /// The service answered with a status outside the success class.
    Status(u16),
    /// The probe did not get through; the text is the transport's cause.
    Transport(String),
}

/// The view of [`HealthError`]: the same value with every text as a sequence of
/// characters.
pub enum HealthErrorView {
    Status(u16),
    Transport(Seq<char>),
}

impl View for HealthError {
    type V = HealthErrorView;

    open spec fn view(&self) -> HealthErrorView {
        match self {
            HealthError::Status(code) => HealthErrorView::Status(*code),
            HealthError::Transport(cause) => HealthErrorView::Transport(cause@),
        }
    }
}

/// A generation that did not give a text.
#[derive(Debug, PartialEq, Eq)]
pub enum GenerationError {
    /// The request did not reach the service, or no answer came back.
    Transport(String),
    /// An answer came back whose body is no JSON document.
    Parse(String),
}

/// The view of [`GenerationError`]: the same value with every text as a sequence of
/// characters.
pub enum GenerationErrorView {
    Transport(Seq<char>),
    Parse(Seq<char>),
}

impl View for GenerationError {
    type V = GenerationErrorView;

    open spec fn view(&self) -> GenerationErrorView {
        match self {
            GenerationError::Transport(cause) => GenerationErrorView::Transport(cause@),
            GenerationError::Parse(cause) => GenerationErrorView::Parse(cause@),
        }
    }
}

/// The store did not take a record.
#[derive(Debug, PartialEq, Eq)]
pub struct StoreError {
    pub cause: String,
}

impl View for StoreError {
    type V = Seq<char>;

    open spec fn view(&self) -> Seq<char> {
        self.cause@
    }
}

/// The store could not be opened.
#[derive(Debug, PartialEq, Eq)]
pub enum ConnectError {
    /// The connection string was not understood.
    InvalidUri(String),
    /// The connection string was understood, but no client came of it.
    ClientInit(String),
}

/// The view of [`ConnectError`]: the same value with every text as a sequence of
/// characters.
pub enum ConnectErrorView {
    InvalidUri(Seq<char>),
    ClientInit(Seq<char>),
}

impl View for ConnectError {
    type V = ConnectErrorView;

    open spec fn view(&self) -> ConnectErrorView {
        match self {
            ConnectError::InvalidUri(cause) => ConnectErrorView::InvalidUri(cause@),
            ConnectError::ClientInit(cause) => ConnectErrorView::ClientInit(cause@),
        }
    }
}

/// Why a generate-and-log run gave no text.
#[derive(Debug, PartialEq, Eq)]
pub enum OrchestratorError {
    /// No text was generated; nothing was handed to the store.
    Generation(GenerationError),
    /// A text was generated, but the store did not take its record.
    Persist(StoreError),
}

/// The view of [`OrchestratorError`]: the same value with every text as a sequence of
/// characters.
pub enum OrchestratorErrorView {
    Generation(GenerationErrorView),
    Persist(Seq<char>),
}

impl View for OrchestratorError {
    type V = OrchestratorErrorView;

    open spec fn view(&self) -> OrchestratorErrorView {
        match self {
            OrchestratorError::Generation(error) => OrchestratorErrorView::Generation(error@),
            OrchestratorError::Persist(error) => OrchestratorErrorView::Persist(error@),
        }
    }
}

impl Clone for HealthError {
    fn clone(&self) -> (copy: Self)
        ensures
            copy@ == self@,
    {
        match self {
            HealthError::Status(code) => HealthError::Status(*code),
            HealthError::Transport(cause) => HealthError::Transport(cause.clone()),
        }
    }
}

impl Clone for GenerationError {
    fn clone(&self) -> (copy: Self)
        ensures
            copy@ == self@,
    {
        match self {
            GenerationError::Transport(cause) => GenerationError::Transport(cause.clone()),
            GenerationError::Parse(cause) => GenerationError::Parse(cause.clone()),
        }
    }
}

impl Clone for StoreError {
    fn clone(&self) -> (copy: Self)
        ensures
            copy@ == self@,
    {
        StoreError { cause: self.cause.clone() }
    }
}

impl Clone for ConnectError {
    fn clone(&self) -> (copy: Self)
        ensures
            copy@ == self@,
    {
        match self {
            ConnectError::InvalidUri(cause) => ConnectError::InvalidUri(cause.clone()),
            ConnectError::ClientInit(cause) => ConnectError::ClientInit(cause.clone()),
        }
    }
}

impl Clone for OrchestratorError {
    fn clone(&self) -> (copy: Self)
        ensures
            copy@ == self@,
    {
        match self {
            OrchestratorError::Generation(error) => OrchestratorError::Generation(error.clone()),
            OrchestratorError::Persist(error) => OrchestratorError::Persist(error.clone()),
        }
    }
}

/// A `Result` with both of its sides taken by their views.
pub open spec fn result_view<T: View, E: View>(result: Result<T, E>) -> Result<T::V, E::V> {
    match result {
        Ok(value) => Ok(value@),
        Err(error) => Err(error@),
    }
}

/// How a status outside the success class is shown: its status line, or the
/// bare number where it has none.
pub open spec fn status_text(code: u16) -> Seq<char> {
    match status_line(code) {
        Some(line) => line,
        None => decimal_digits(code as nat),
    }
}

pub open spec fn health_message(error: HealthErrorView) -> Seq<char> {
    match error {
        HealthErrorView::Status(code) => "Health check failed: "@ + status_text(code),
        HealthErrorView::Transport(cause) => cause,
    }
}

pub open spec fn generation_message(error: GenerationErrorView) -> Seq<char> {
    match error {
        GenerationErrorView::Transport(cause) => "Failed to contact AI service: "@ + cause,
        GenerationErrorView::Parse(cause) => "Failed to parse AI response: "@ + cause,
    }
}

pub open spec fn store_message(cause: Seq<char>) -> Seq<char> {
    "Failed to insert document: "@ + cause
}

pub open spec fn connect_message(error: ConnectErrorView) -> Seq<char> {
    match error {
        ConnectErrorView::InvalidUri(cause) => "Failed to parse MongoDB URI: "@ + cause,
        ConnectErrorView::ClientInit(cause) => "Failed to initialize MongoDB client: "@ + cause,
    }
}

pub open spec fn orchestrator_message(error: OrchestratorErrorView) -> Seq<char> {
    match error {
        OrchestratorErrorView::Generation(inner) => generation_message(inner),
        OrchestratorErrorView::Persist(cause) => "Failed to store AI response in MongoDB: "@
            + store_message(cause),
    }
}

impl HealthError {
    /// The message that the failure is reported with.
    pub fn message(&self) -> (text: String)
        ensures
            text@ == health_message(self@),
    {
        match self {
            HealthError::Status(code) => {
                let shown = match display_status(*code) {
                    Some(line) => line,
                    None => decimal(*code as u32),
                };
                String::from_str("Health check failed: ").concat(shown.as_str())
            },
            HealthError::Transport(cause) => cause.clone(),
        }
    }
}

impl GenerationError {
    /// The message that the failure is reported with.
    pub fn message(&self) -> (text: String)
        ensures
            text@ == generation_message(self@),
    {
        match self {
            GenerationError::Transport(cause) => String::from_str(
                "Failed to contact AI service: ",
            ).concat(cause.as_str()),
            GenerationError::Parse(cause) => String::from_str(
                "Failed to parse AI response: ",
            ).concat(cause.as_str()),
        }
    }
}

impl StoreError {
    /// The message that the failure is reported with.
    pub fn message(&self) -> (text: String)
        ensures
            text@ == store_message(self@),
    {
        String::from_str("Failed to insert document: ").concat(self.cause.as_str())
    }
}

impl ConnectError {
    /// The message that the failure is reported with.
    pub fn message(&self) -> (text: String)
        ensures
            text@ == connect_message(self@),
    {
        match self {
            ConnectError::InvalidUri(cause) => String::from_str(
                "Failed to parse MongoDB URI: ",
            ).concat(cause.as_str()),
            ConnectError::ClientInit(cause) => String::from_str(
                "Failed to initialize MongoDB client: ",
            ).concat(cause.as_str()),
        }
    }
}

impl OrchestratorError {
    /// The message that the failure is reported with.
    pub fn message(&self) -> (text: String)
        ensures
            text@ == orchestrator_message(self@),
    {
        match self {
            OrchestratorError::Generation(error) => error.message(),
            OrchestratorError::Persist(error) => String::from_str(
                "Failed to store AI response in MongoDB: ",
            ).concat(error.message().as_str()),
        }
    }
}

} // verus!
