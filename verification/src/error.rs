use vstd::prelude::*;
use vstd::string::StringExecFns;

verus! {

/// Failure reported by a repository.
pub enum RepoError {
    NotFound,
    Unknown(String),
}

/// Failure of a message queue.
pub enum QueueError {
    Unknown(String),
}

/// Failure of a message handler in a worker.
pub enum HandlerError {
    Repo(RepoError),
    Email(String),
    Decode(String),
}

/// Failure of a backend request, before it becomes an HTTP reply.
pub enum BackendError {
    NotFound,
    BadRequest(String),
    Unknown(String),
}

/// What a failed request is answered with: an HTTP status and the text that
/// goes into the `message` field of the JSON body.
pub struct ErrorReply {
    pub status: u16,
    pub message: String,
}

pub const STATUS_BAD_REQUEST: u16 = 400;

pub const STATUS_UNAUTHORIZED: u16 = 401;

pub const STATUS_NOT_FOUND: u16 = 404;

pub const STATUS_INTERNAL_SERVER_ERROR: u16 = 500;

/// A repository error with its text taken by its view.
pub enum RepoErrorView {
    NotFound,
    Unknown(Seq<char>),
}

/// A backend error with its text taken by its view.
pub enum BackendErrorView {
    NotFound,
    BadRequest(Seq<char>),
    Unknown(Seq<char>),
}

impl View for RepoError {
    type V = RepoErrorView;

    open spec fn view(&self) -> RepoErrorView {
        match self {
            RepoError::NotFound => RepoErrorView::NotFound,
            RepoError::Unknown(s) => RepoErrorView::Unknown(s@),
        }
    }
}

/// A queue error with its text taken by its view.
pub enum QueueErrorView {
    Unknown(Seq<char>),
}

impl View for QueueError {
    type V = QueueErrorView;

    open spec fn view(&self) -> QueueErrorView {
        match self {
            QueueError::Unknown(s) => QueueErrorView::Unknown(s@),
        }
    }
}

/// A handler error with its texts taken by their views.
pub enum HandlerErrorView {
    Repo(RepoErrorView),
    Email(Seq<char>),
    Decode(Seq<char>),
}

impl View for HandlerError {
    type V = HandlerErrorView;

    open spec fn view(&self) -> HandlerErrorView {
        match self {
            HandlerError::Repo(e) => HandlerErrorView::Repo(e@),
            HandlerError::Email(s) => HandlerErrorView::Email(s@),
            HandlerError::Decode(s) => HandlerErrorView::Decode(s@),
        }
    }
}

impl View for BackendError {
    type V = BackendErrorView;

    open spec fn view(&self) -> BackendErrorView {
        match self {
            BackendError::NotFound => BackendErrorView::NotFound,
            BackendError::BadRequest(s) => BackendErrorView::BadRequest(s@),
            BackendError::Unknown(s) => BackendErrorView::Unknown(s@),
        }
    }
}

/// The outcome of a repository call whose value the caller does not keep.
pub open spec fn outcome_view(o: Result<(), RepoError>) -> Result<(), RepoErrorView> {
    match o {
        Ok(()) => Ok(()),
        Err(e) => Err(e@),
    }
}

/// The backend error that a repository error becomes, by their views.
pub open spec fn backend_error_view_of(e: RepoErrorView) -> BackendErrorView {
    match e {
        RepoErrorView::NotFound => BackendErrorView::NotFound,
        RepoErrorView::Unknown(s) => BackendErrorView::Unknown(s),
    }
}

/// The backend error that a repository error becomes.
pub open spec fn backend_error_of(err: RepoError) -> BackendError {
    match err {
        RepoError::NotFound => BackendError::NotFound,
        RepoError::Unknown(s) => BackendError::Unknown(s),
    }
}

/// The HTTP status that answers a backend error.
pub open spec fn status_of(err: BackendError) -> u16 {
    match err {
        BackendError::NotFound => STATUS_NOT_FOUND,
        BackendError::BadRequest(_) => STATUS_BAD_REQUEST,
        BackendError::Unknown(_) => STATUS_INTERNAL_SERVER_ERROR,
    }
}

/// The message that answers a backend error.
pub open spec fn message_of(err: BackendError) -> Seq<char> {
    match err {
        BackendError::NotFound => "not found"@,
        BackendError::BadRequest(s) => s@,
        BackendError::Unknown(s) => s@,
    }
}

impl From<RepoError> for BackendError {
    fn from(err: RepoError) -> (res: BackendError) {
        match err {
            RepoError::NotFound => BackendError::NotFound,
            RepoError::Unknown(s) => BackendError::Unknown(s),
        }
    }
}

impl vstd::std_specs::convert::FromSpecImpl<RepoError> for BackendError {
    open spec fn obeys_from_spec() -> bool {
        true
    }

    open spec fn from_spec(err: RepoError) -> BackendError {
        backend_error_of(err)
    }
}

impl From<RepoError> for HandlerError {
    fn from(err: RepoError) -> (res: HandlerError) {
        HandlerError::Repo(err)
    }
}

impl vstd::std_specs::convert::FromSpecImpl<RepoError> for HandlerError {
    open spec fn obeys_from_spec() -> bool {
        true
    }

    open spec fn from_spec(err: RepoError) -> HandlerError {
        HandlerError::Repo(err)
    }
}

impl BackendError {
    /// The reply that answers this error: 404 with "not found", 400 or 500
    /// with the error's own text.
    pub fn into_response(self) -> (reply: ErrorReply)
        ensures
            reply.status == status_of(self),
            reply.message@ == message_of(self),
    {
        match self {
            BackendError::NotFound => ErrorReply {
                status: STATUS_NOT_FOUND,
                message: String::from_str("not found"),
            },
            BackendError::BadRequest(s) => ErrorReply { status: STATUS_BAD_REQUEST, message: s },
            BackendError::Unknown(s) => ErrorReply {
                status: STATUS_INTERNAL_SERVER_ERROR,
                message: s,
            },
        }
    }
}

/// A repository failure reaches the client unchanged in kind: a missing row is
/// answered 404 with "not found", any other failure 500 with its own text.
pub proof fn lemma_repo_error_reply(err: RepoError)
    ensures
        err is NotFound ==> status_of(backend_error_of(err)) == STATUS_NOT_FOUND
            && message_of(backend_error_of(err)) == "not found"@,
        err matches RepoError::Unknown(s) ==> status_of(backend_error_of(err))
            == STATUS_INTERNAL_SERVER_ERROR && message_of(backend_error_of(err)) == s@,
{
}

} // verus!
