//! The operations a user can ask for, and what each one means for the
//! client: which request it makes or which collection it lists, and how the
//! result is shown.

use crate::json::{collect_listed, listed_under, parse_text, read_text};
use crate::paginator::{Listing, ListingView};
use crate::transport::{
    create, fetch_by_id, record_path, request_for, update, Method, Request, RequestView,
};
use serde_json::Value;
use vstd::prelude::*;

verus! {

/// The collection of publishers.
pub const PUBLISHERS: &'static str = "publishers";

/// The collection of software entries.
pub const SOFTWARE: &'static str = "software";

/// The activity log. It can only be listed.
pub const LOGS: &'static str = "logs";

/// The member of a publisher that lists its code hosting entries.
pub const CODE_HOSTING: &'static str = "codeHosting";

/// What the user asked for.
#[derive(Debug)]
pub enum Command {
    CreatePublisher { data: String },
    CreateSoftware { data: String },
    UpdateSoftware { software_id: String, data: String },
    ListSoftware,
    ListPublishers { code_hostings: bool },
    ShowSoftware { software_id: String },
    ShowPublisher { publisher_id: String },
    Logs,
}

/// How a result is shown.
#[derive(Clone, Copy, Debug, PartialEq, Eq, Structural)]
pub enum Shown {
    /// The JSON value as the server returned it.
    Json,
    /// The value in full, laid out over several lines.
    Detail,
    /// The value as a software entry, on one line.
    Software,
    /// The value as a publisher, on one line.
    Publisher,
    /// Each code hosting entry of a publisher, in full.
    CodeHosting,
}

/// What the client does for a command.
#[derive(Debug)]
pub enum Operation {
    /// One request, whose answer is shown.
    Call(Request, Shown),
    /// A listing, each of whose items is shown.
    List(Listing, Shown),
}

/// The mathematical content of an [`Operation`].
pub enum OperationView {
    Call(RequestView, Shown),
    List(ListingView, Shown),
}

impl View for Operation {
    type V = OperationView;

    open spec fn view(&self) -> OperationView {
        match *self {
            Operation::Call(request, shown) => OperationView::Call(request@, shown),
            Operation::List(listing, shown) => OperationView::List(listing@, shown),
        }
    }
}

/// The body that the user gave for a create or an update is not valid JSON.
#[derive(Debug)]
pub struct MalformedInput {
    pub reason: serde_json::Error,
}

impl From<serde_json::Error> for MalformedInput {
    fn from(reason: serde_json::Error) -> (refusal: MalformedInput) {
        MalformedInput { reason }
    }
}

impl vstd::std_specs::convert::FromSpecImpl<serde_json::Error> for MalformedInput {
    open spec fn obeys_from_spec() -> bool {
        true
    }

    open spec fn from_spec(reason: serde_json::Error) -> MalformedInput {
        MalformedInput { reason }
    }
}

/// What the body text of a create or an update is read as: the document it
/// encodes, or the refusal that says why it is not valid JSON.
pub open spec fn body_of(text: Seq<char>) -> Result<Value, MalformedInput> {
    match read_text(text) {
        Ok(body) => Ok(body),
        Err(reason) => Err(MalformedInput { reason }),
    }
}

/// The operation that sends the body `text` to `path`: the call that carries
/// the document the text encodes, or the refusal of the text.
pub open spec fn write_operation(
    text: Seq<char>,
    path: Seq<char>,
    method: Method,
    bearer: Seq<char>,
) -> Result<OperationView, MalformedInput> {
    match body_of(text) {
        Ok(body) => Ok(
            OperationView::Call(request_for(path, method, Some(body), bearer), Shown::Json),
        ),
        Err(refusal) => Err(refusal),
    }
}

impl Command {
    /// The operation that the command stands for, or the refusal of the body
    /// it carries where that is not valid JSON.
    pub open spec fn operation(&self, bearer: Seq<char>) -> Result<OperationView, MalformedInput> {
        match *self {
            Command::CreatePublisher { data } => write_operation(
                data@,
                PUBLISHERS@,
                Method::Post,
                bearer,
            ),
            Command::CreateSoftware { data } => write_operation(
                data@,
                SOFTWARE@,
                Method::Post,
                bearer,
            ),
            Command::UpdateSoftware { software_id, data } => write_operation(
                data@,
                record_path(SOFTWARE@, software_id@),
                Method::Patch,
                bearer,
            ),
            Command::ListSoftware => Ok(
                OperationView::List(ListingView::start(SOFTWARE@, bearer), Shown::Software),
            ),
            Command::ListPublishers { code_hostings } => Ok(
                OperationView::List(
                    ListingView::start(PUBLISHERS@, bearer),
                    if code_hostings {
                        Shown::CodeHosting
                    } else {
                        Shown::Publisher
                    },
                ),
            ),
            Command::ShowSoftware { software_id } => Ok(
                OperationView::Call(
                    request_for(record_path(SOFTWARE@, software_id@), Method::Get, None, bearer),
                    Shown::Software,
                ),
            ),
            Command::ShowPublisher { publisher_id } => Ok(
                OperationView::Call(
                    request_for(
                        record_path(PUBLISHERS@, publisher_id@),
                        Method::Get,
                        None,
                        bearer,
                    ),
                    Shown::Publisher,
                ),
            ),
            Command::Logs => Ok(
                OperationView::List(ListingView::start(LOGS@, bearer), Shown::Detail),
            ),
        }
    }

    /// Works out what to do for the command. A body is read before anything
    /// else: where it is not valid JSON the command is refused and there is
    /// no request to send.
    pub fn plan(&self, bearer: &str) -> (planned: Result<Operation, MalformedInput>)
        ensures
            match planned {
                Ok(operation) => self.operation(bearer@) == Ok::<OperationView, MalformedInput>(
                    operation@,
                ),
                Err(refusal) => self.operation(bearer@) == Err::<OperationView, MalformedInput>(
                    refusal,
                ),
            },
    {
        match self {
            Command::CreatePublisher { data } => match parse_body(data.as_str()) {
                Ok(body) => Ok(Operation::Call(create(PUBLISHERS, body, bearer), Shown::Json)),
                Err(refusal) => Err(refusal),
            },
            Command::CreateSoftware { data } => match parse_body(data.as_str()) {
                Ok(body) => Ok(Operation::Call(create(SOFTWARE, body, bearer), Shown::Json)),
                Err(refusal) => Err(refusal),
            },
            Command::UpdateSoftware { software_id, data } => match parse_body(data.as_str()) {
                Ok(body) => Ok(
                    Operation::Call(
                        update(SOFTWARE, software_id.as_str(), body, bearer),
                        Shown::Json,
                    ),
                ),
                Err(refusal) => Err(refusal),
            },
            Command::ListSoftware => Ok(
                Operation::List(Listing::new(SOFTWARE, bearer), Shown::Software),
            ),
            Command::ListPublishers { code_hostings } => {
                let shown = if *code_hostings {
                    Shown::CodeHosting
                } else {
                    Shown::Publisher
                };
                Ok(Operation::List(Listing::new(PUBLISHERS, bearer), shown))
            },
            Command::ShowSoftware { software_id } => Ok(
                Operation::Call(
                    fetch_by_id(SOFTWARE, software_id.as_str(), bearer),
                    Shown::Software,
                ),
            ),
            Command::ShowPublisher { publisher_id } => Ok(
                Operation::Call(
                    fetch_by_id(PUBLISHERS, publisher_id.as_str(), bearer),
                    Shown::Publisher,
                ),
            ),
            Command::Logs => Ok(Operation::List(Listing::new(LOGS, bearer), Shown::Detail)),
        }
    }
}

/// Reads the body that the user gave for a create or an update.
pub fn parse_body(text: &str) -> (parsed: Result<Value, MalformedInput>)
    ensures
        parsed == body_of(text@),
{
    match parse_text(text) {
        Ok(body) => Ok(body),
        Err(reason) => Err(MalformedInput::from(reason)),
    }
}

/// The code hosting entries of a publisher, in order: the elements of its
/// `codeHosting` array, or none where it has no such member or the member is
/// not an array.
pub fn code_hosting_entries(publisher: &Value) -> (entries: Vec<Value>)
    ensures
        entries@ == listed_under(*publisher, CODE_HOSTING@),
{
    let mut entries: Vec<Value> = Vec::new();
    collect_listed(publisher, CODE_HOSTING, &mut entries);
    assert(Seq::<Value>::empty() + listed_under(*publisher, CODE_HOSTING@) =~= listed_under(
        *publisher,
        CODE_HOSTING@,
    ));
    entries
}

} // verus!
