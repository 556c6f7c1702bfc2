//! The conversation between a handler and the relational store.
//!
//! A handler never touches the store. It decides what to ask next and hands
//! that out as a `Step`; whoever runs it executes the statement and gives the
//! store's reply back, until the handler is done or has failed.

use crate::errors::{AppError, ErrorKind, ErrorView, StoreFailure};
use crate::models::department::Department;
use crate::models::employee::Employee;
use crate::models::user::{GetUserProfileResponse, User, UserWithoutDates};
use crate::query::{params_of, Param, SqlValue, Statement, StatementView};
use vstd::prelude::*;
use vstd::string::*;

verus! {

/// How a statement is to be run, which fixes the shape of the reply.
#[derive(Clone, Copy, Debug, PartialEq, Eq, Structural)]
pub enum Fetch {
    /// Whether at least one row matches: replied to with `Exists`.
    Exists,
    /// Run for its effect: replied to with `Affected`.
    Execute,
    /// All matching departments: replied to with `Departments`.
    Departments,
    /// All matching employees: replied to with `Employees`.
    Employees,
    /// At most one employee: replied to with `Employee`.
    Employee,
    /// At most one user with its credential: replied to with `User`.
    User,
    /// At most one profile: replied to with `Profile`.
    Profile,
    /// At most one user without timestamps: replied to with `UserWithoutDates`.
    UserWithoutDates,
}

/// What the store answered.
#[derive(Debug, Clone, PartialEq, Eq)]
pub enum StoreReply {
    Exists(bool),
    /// The number of rows that the statement changed.
    Affected(u64),
    Departments(Vec<Department>),
    Employees(Vec<Employee>),
    Employee(Option<Employee>),
    User(Option<User>),
    Profile(Option<GetUserProfileResponse>),
    UserWithoutDates(Option<UserWithoutDates>),
    Failed(StoreFailure),
}

/// What a handler decided: to ask the store and go on in `state` with its
/// reply, to answer the request, or to refuse it.
#[derive(Debug, PartialEq, Eq)]
pub enum Step<S, T> {
    Ask { state: S, statement: Statement, fetch: Fetch },
    Done { status: u16, body: T },
    Failed(AppError),
}

impl<S, T> Step<S, T> {
    /// Whether this step refuses the request with the failure `e`.
    pub open spec fn fails_with(self, e: ErrorView) -> bool {
        self matches Step::Failed(err) && err@ == e
    }

    /// Whether this step issues a statement to the store.
    pub open spec fn issues_statement(self) -> bool {
        self is Ask
    }
}

/// The body of a response that only reports success.
#[derive(Debug, Clone, PartialEq, Eq)]
pub struct Notice {
    pub message: String,
}

/// The message for a constraint that a statement ran into where the handler
/// expected none.
pub open spec fn generic_conflict() -> Seq<char> {
    "Conflict with existing data"@
}

/// The failure for a reply whose shape does not fit what was asked.
pub open spec fn unexpected_reply() -> ErrorView {
    ErrorView {
        kind: ErrorKind::InternalServerError,
        message: "Unexpected reply from the store"@,
    }
}

/// A failure of the given kind with the given message.
pub open spec fn failure(kind: ErrorKind, message: Seq<char>) -> ErrorView {
    ErrorView { kind, message }
}

/// Refuses a request with a failure of the given kind and message.
pub fn fail<S, T>(kind: ErrorKind, message: &str) -> (step: Step<S, T>)
    ensures
        step.fails_with(failure(kind, message@)),
{
    Step::Failed(AppError::new(kind, message))
}

/// Refuses a request because the store's reply does not fit what was asked.
pub fn fail_unexpected<S, T>() -> (step: Step<S, T>)
    ensures
        step.fails_with(unexpected_reply()),
{
    Step::Failed(AppError::InternalServerError(String::from_str("Unexpected reply from the store")))
}

/// The statement with the given text and one bound value.
pub open spec fn statement1(sql: Seq<char>, a: Param) -> StatementView {
    StatementView { sql, params: seq![a] }
}

/// The statement with the given text and two bound values.
pub open spec fn statement2(sql: Seq<char>, a: Param, b: Param) -> StatementView {
    StatementView { sql, params: seq![a, b] }
}

/// Builds the statement with the given text and one bound value.
pub fn bind1(sql: &str, a: SqlValue) -> (statement: Statement)
    ensures
        statement@ == statement1(sql@, a@),
{
    let mut params: Vec<SqlValue> = Vec::new();
    params.push(a);
    assert(params_of(params@) =~= seq![a@]);
    Statement { sql: String::from_str(sql), params }
}

/// Builds the statement with the given text and two bound values.
pub fn bind2(sql: &str, a: SqlValue, b: SqlValue) -> (statement: Statement)
    ensures
        statement@ == statement2(sql@, a@, b@),
{
    let mut params: Vec<SqlValue> = Vec::new();
    params.push(a);
    params.push(b);
    assert(params_of(params@) =~= seq![a@, b@]);
    Statement { sql: String::from_str(sql), params }
}

/// Builds the statement with the given text and the given bound values.
pub fn bind_all(sql: &str, params: Vec<SqlValue>) -> (statement: Statement)
    ensures
        statement@ == (StatementView { sql: sql@, params: params_of(params@) }),
{
    Statement { sql: String::from_str(sql), params }
}

} // verus!
