//! Errors reported by the pool and by the handles of submitted tasks.
use vstd::prelude::*;
use vstd::string::*;

verus! {

/// What went wrong with a submission or with the retrieval of a task's result.
#[derive(Debug, Clone, Copy, PartialEq, Eq, Structural)]
pub enum ErrorKind {
    PoolEnded,
    ResultAlreadyTaken,
    TimeOut,
    TaskRejected,
    TaskCancelled,
    TaskRunning,
    Panic,
}

/// The label under which each kind is shown.
pub open spec fn kind_label(kind: ErrorKind) -> Seq<char> {
    match kind {
        ErrorKind::PoolEnded => "PoolEnded"@,
        ErrorKind::ResultAlreadyTaken => "ResultAlreadyTaken"@,
        ErrorKind::TaskRejected => "TaskRejected"@,
        ErrorKind::TaskCancelled => "TaskCancelled"@,
        ErrorKind::TaskRunning => "TaskStarted"@,
        ErrorKind::TimeOut => "TimeOUt"@,
        ErrorKind::Panic => "Panic"@,
    }
}

/// The shown form of a kind: its label in double quotes.
pub open spec fn kind_text(kind: ErrorKind) -> Seq<char> {
    "\""@ + kind_label(kind) + "\""@
}

impl ErrorKind {
    /// The label of this kind, without quotes.
    pub fn label(&self) -> (s: &'static str)
        ensures
            s@ == kind_label(*self),
    {
        match self {
            ErrorKind::PoolEnded => "PoolEnded",
            ErrorKind::ResultAlreadyTaken => "ResultAlreadyTaken",
            ErrorKind::TaskRejected => "TaskRejected",
            ErrorKind::TaskCancelled => "TaskCancelled",
            ErrorKind::TaskRunning => "TaskStarted",
            ErrorKind::TimeOut => "TimeOUt",
            ErrorKind::Panic => "Panic",
        }
    }

    /// The text a user sees for this kind: the label in double quotes.
    pub fn to_string(&self) -> (s: String)
        ensures
            s@ == kind_text(*self),
    {
        let mut s = String::new();
        s.append("\"");
        s.append(self.label());
        s.append("\"");
        s
    }
}

/// The abstract content of an error whose cause, if any, is a `C`.
pub struct ErrorView<C> {
    pub kind: ErrorKind,
    pub message: Seq<char>,
    pub cause: Option<C>,
}

/// An error of the pool: its kind, a message, and for a panic the payload
/// the task panicked with, of type `C`.
#[derive(Debug)]
pub struct ExecutorError<C> {
    kind: ErrorKind,
    message: String,
    cause: Option<C>,
}

impl<C> View for ExecutorError<C> {
    type V = ErrorView<C>;

    closed spec fn view(&self) -> ErrorView<C> {
        ErrorView { kind: self.kind, message: self.message@, cause: self.cause }
    }
}

/// The text a user sees for an error with this content.
pub open spec fn error_text<C>(e: ErrorView<C>) -> Seq<char> {
    "ExecutorError [kind: "@ + kind_text(e.kind) + ", message: "@ + e.message + "]"@
}

impl<C> ExecutorError<C> {
    /// An error of `kind` with `message` and no cause.
    pub fn new(kind: ErrorKind, message: String) -> (e: ExecutorError<C>)
        ensures
            e@ == (ErrorView::<C> { kind, message: message@, cause: None }),
    {
        ExecutorError { kind, message, cause: None }
    }

    /// An error of `kind` with `message`, caused by the payload a task
    /// panicked with.
    pub fn with_cause(kind: ErrorKind, message: String, cause: C) -> (e: ExecutorError<C>)
        ensures
            e@ == (ErrorView { kind, message: message@, cause: Some(cause) }),
    {
        ExecutorError { kind, message, cause: Some(cause) }
    }

    pub fn kind(&self) -> (k: &ErrorKind)
        ensures
            *k == self@.kind,
    {
        &self.kind
    }

    pub fn message(&self) -> (m: &String)
        ensures
            m@ == self@.message,
    {
        &self.message
    }

    pub fn cause(&self) -> (c: &Option<C>)
        ensures
            *c == self@.cause,
    {
        &self.cause
    }

    /// The text a user sees for this error.
    pub fn to_string(&self) -> (s: String)
        ensures
            s@ == error_text(self@),
    {
        let mut s = String::new();
        s.append("ExecutorError [kind: ");
        let k = self.kind.to_string();
        s.append(k.as_str());
        s.append(", message: ");
        s.append(self.message.as_str());
        s.append("]");
        s
    }
}

} // verus!
