//! The audit record of one exchange with the generation service, and the
//! store that such records are appended to.
//!
//! The library holds no connection. Whoever drives it opens the store and
//! performs each insert, and tells the library how that went; the library
//! decides what follows.

use crate::config::{Config, ConfigView};
use crate::error::{result_view, ConnectError, ConnectErrorView, StoreError};
use vstd::prelude::*;
use vstd::string::*;

verus! {

/// How long the generation service took to answer.
#[derive(Clone, Copy, Debug, PartialEq, Eq, Structural)]
pub struct GenerationStats {
    /// Wall-clock time around the call to the service and nothing else, in
    /// nanoseconds.
    pub generation_time_nanos: u64,
}

/// What came of one generation.
#[derive(Debug, PartialEq, Eq)]
pub struct AIResponse {
    /// The prompt that the text was generated for.
    pub prompt: String,
    /// The generated text.
    pub response: String,
    pub stats: GenerationStats,
}

/// The view of [`AIResponse`]: the same value with every text as a sequence of
/// characters.
pub struct AIResponseView {
    pub prompt: Seq<char>,
    pub response: Seq<char>,
    pub stats: GenerationStats,
}

impl View for AIResponse {
    type V = AIResponseView;

    open spec fn view(&self) -> AIResponseView {
        AIResponseView { prompt: self.prompt@, response: self.response@, stats: self.stats }
    }
}

impl Clone for AIResponse {
    fn clone(&self) -> (copy: Self)
        ensures
            copy@ == self@,
    {
        AIResponse {
            prompt: self.prompt.clone(),
            response: self.response.clone(),
            stats: self.stats,
        }
    }
}

/// The audit record of one exchange: what was asked, what came back, and when.
#[derive(Debug, PartialEq, Eq)]
pub struct AIRequest {
    /// The identifier that the store assigned; `None` until the record is
    /// stored.
    pub _id: Option<[u8; 12]>,
    /// When the record was made, as an ISO-8601 instant.
    pub timestamp: String,
    pub prompt: String,
    pub max_length: u32,
    pub response: AIResponse,
}

/// The view of [`AIRequest`]: the same value with every text as a sequence of
/// characters.
pub struct AIRequestView {
    pub id: Option<[u8; 12]>,
    pub timestamp: Seq<char>,
    pub prompt: Seq<char>,
    pub max_length: u32,
    pub response: AIResponseView,
}

impl View for AIRequest {
    type V = AIRequestView;

    open spec fn view(&self) -> AIRequestView {
        AIRequestView {
            id: self._id,
            timestamp: self.timestamp@,
            prompt: self.prompt@,
            max_length: self.max_length,
            response: self.response@,
        }
    }
}

impl Clone for AIRequest {
    fn clone(&self) -> (copy: Self)
        ensures
            copy@ == self@,
    {
        AIRequest {
            _id: self._id,
            timestamp: self.timestamp.clone(),
            prompt: self.prompt.clone(),
            max_length: self.max_length,
            response: self.response.clone(),
        }
    }
}

impl AIRequestView {
    /// The same record under the identifier `id`.
    pub open spec fn stored_as(self, id: [u8; 12]) -> AIRequestView {
        AIRequestView { id: Some(id), ..self }
    }
}

/// How an attempt to open the store went.
#[derive(Debug, PartialEq, Eq)]
pub enum ConnectOutcome {
    /// A client stands ready.
    Connected,
    /// The connection string was refused, with the driver's cause.
    UriRejected(String),
    /// No client could be made of the options, with the driver's cause.
    ClientRejected(String),
}

/// The view of [`ConnectOutcome`]: the same value with every text as a sequence of
/// characters.
pub enum ConnectOutcomeView {
    Connected,
    UriRejected(Seq<char>),
    ClientRejected(Seq<char>),
}

impl View for ConnectOutcome {
    type V = ConnectOutcomeView;

    open spec fn view(&self) -> ConnectOutcomeView {
        match self {
            ConnectOutcome::Connected => ConnectOutcomeView::Connected,
            ConnectOutcome::UriRejected(cause) => ConnectOutcomeView::UriRejected(cause@),
            ConnectOutcome::ClientRejected(cause) => ConnectOutcomeView::ClientRejected(cause@),
        }
    }
}

/// How an insert went.
#[derive(Debug, PartialEq, Eq)]
pub enum InsertOutcome {
    /// The store took the record and assigned it this identifier.
    Inserted([u8; 12]),
    /// The store did not take the record, with the driver's cause.
    Rejected(String),
}

/// The view of [`InsertOutcome`]: the same value with every text as a sequence of
/// characters.
pub enum InsertOutcomeView {
    Inserted([u8; 12]),
    Rejected(Seq<char>),
}

impl View for InsertOutcome {
    type V = InsertOutcomeView;

    open spec fn view(&self) -> InsertOutcomeView {
        match self {
            InsertOutcome::Inserted(id) => InsertOutcomeView::Inserted(*id),
            InsertOutcome::Rejected(cause) => InsertOutcomeView::Rejected(cause@),
        }
    }
}

/// An open store: the one collection that every record goes to.
#[derive(Debug, PartialEq, Eq)]
pub struct Database {
    db_name: String,
    collection_name: String,
}

/// The view of [`Database`]: the same value with every text as a sequence of
/// characters.
pub struct DatabaseView {
    pub db_name: Seq<char>,
    pub collection_name: Seq<char>,
}

impl View for Database {
    type V = DatabaseView;

    closed spec fn view(&self) -> DatabaseView {
        DatabaseView { db_name: self.db_name@, collection_name: self.collection_name@ }
    }
}

impl Clone for Database {
    fn clone(&self) -> (copy: Self)
        ensures
            copy@ == self@,
    {
        Database { db_name: self.db_name.clone(), collection_name: self.collection_name.clone() }
    }
}

/// What opening the store comes to: the store on the configured collection
/// where a client stands ready, else the failure with the driver's cause.
pub open spec fn opened(config: ConfigView, outcome: ConnectOutcomeView) -> Result<
    DatabaseView,
    ConnectErrorView,
> {
    match outcome {
        ConnectOutcomeView::Connected => Ok(
            DatabaseView { db_name: config.db_name, collection_name: config.collection_name },
        ),
        ConnectOutcomeView::UriRejected(cause) => Err(ConnectErrorView::InvalidUri(cause)),
        ConnectOutcomeView::ClientRejected(cause) => Err(ConnectErrorView::ClientInit(cause)),
    }
}

/// What appending `request` comes to: the record under the identifier that
/// the store assigned, else the failure with the driver's cause.
pub open spec fn appended(request: AIRequestView, outcome: InsertOutcomeView) -> Result<
    AIRequestView,
    Seq<char>,
> {
    match outcome {
        InsertOutcomeView::Inserted(id) => Ok(request.stored_as(id)),
        InsertOutcomeView::Rejected(cause) => Err(cause),
    }
}

impl Database {
    /// Settles an attempt to open the store that `config` names.
    ///
    /// The store is open exactly where the attempt ended with a client; a
    /// failed attempt gives no `Database`, so none can be passed on.
    pub fn new(config: &Config, outcome: ConnectOutcome) -> (result: Result<
        Database,
        ConnectError,
    >)
        ensures
            result_view(result) == opened(config@, outcome@),
    {
        match outcome {
            ConnectOutcome::Connected => Ok(
                Database {
                    db_name: String::from_str(config.db_name()),
                    collection_name: String::from_str(config.collection_name()),
                },
            ),
            ConnectOutcome::UriRejected(cause) => Err(ConnectError::InvalidUri(cause)),
            ConnectOutcome::ClientRejected(cause) => Err(ConnectError::ClientInit(cause)),
        }
    }

    /// The name of the database that holds the collection.
    pub fn db_name(&self) -> (name: &str)
        ensures
            name@ == self@.db_name,
    {
        self.db_name.as_str()
    }

    /// The name of the collection that records go to.
    pub fn collection_name(&self) -> (name: &str)
        ensures
            name@ == self@.collection_name,
    {
        self.collection_name.as_str()
    }

    /// Settles the insert of `request`.
    ///
    /// Where the store took the record, the record comes back unchanged but
    /// for the identifier that the store assigned. Where it did not, the
    /// record is dropped and the cause is reported.
    pub fn log_request(&self, request: AIRequest, outcome: InsertOutcome) -> (result: Result<
        AIRequest,
        StoreError,
    >)
        ensures
            result_view(result) == appended(request@, outcome@),
    {
        match outcome {
            InsertOutcome::Inserted(id) => Ok(
                AIRequest {
                    _id: Some(id),
                    timestamp: request.timestamp,
                    prompt: request.prompt,
                    max_length: request.max_length,
                    response: request.response,
                },
            ),
            InsertOutcome::Rejected(cause) => Err(StoreError { cause }),
        }
    }
}

} // verus!
