//! Registration and login: both answer with a fresh identity token.

use crate::authorization::Context;
use crate::errors::{map_store_failure, surfaced, AppError, ErrorKind, ErrorView};
use crate::handlers::user::email_taken;
use crate::models::user::User;
use crate::query::{Param, SqlValue, Statement, StatementView};
use crate::store::{
    bind1, bind_all, fail, fail_unexpected, failure, statement1, unexpected_reply, Fetch, Step,
    StoreReply,
};
use crate::utils::jwt::{issue, issued, token_view, IssueError, TOKEN_TTL_SECONDS};
use crate::utils::password::{check_password, hash_password, password_checked, PasswordCheck};
use crate::utils::text::same_text;
use crate::utils::validation::{
    check_required, conclude, rejection, required, validate_payload, Field, Rule, Validate,
    ValidationError, Violation,
};
use vstd::prelude::*;
use vstd::string::*;

verus! {

/// The payload of the authentication endpoint.
#[derive(Debug, Clone, PartialEq, Eq)]
pub struct AuthRequest {
    pub email: String,
    pub password: String,
    /// `create` to register, `login` to log in.
    pub action: String,
}

/// The answer of the authentication endpoint.
#[derive(Debug, Clone, PartialEq, Eq)]
pub struct AuthResponse {
    pub email: String,
    pub token: String,
}

/// The rule on a password.
pub open spec fn password_rule() -> Rule {
    Rule::Length { min: 8, max: 32 }
}

impl Validate for AuthRequest {
    open spec fn violations(&self) -> Seq<Violation> {
        required(Field::Email, Rule::Email, self.email@) + required(
            Field::Password,
            password_rule(),
            self.password@,
        ) + required(Field::Action, Rule::Action, self.action@)
    }

    fn validate(&self) -> (result: Result<(), ValidationError>) {
        let mut found: Vec<Violation> = Vec::new();
        check_required(&mut found, Field::Email, Rule::Email, self.email.as_str());
        check_required(
            &mut found,
            Field::Password,
            Rule::Length { min: 8, max: 32 },
            self.password.as_str(),
        );
        check_required(&mut found, Field::Action, Rule::Action, self.action.as_str());
        assert(found@ =~= self.violations());
        conclude(found)
    }
}

/// The statement that looks for a user with the given e-mail address,
/// letter case aside.
pub open spec fn user_with_email(email: Seq<char>) -> StatementView {
    statement1("SELECT email FROM users WHERE LOWER(email) = LOWER($1)"@, Param::Text(email))
}

/// The statement that reads the user with the given e-mail address, letter
/// case aside, with its credential hash.
pub open spec fn credentials_of(email: Seq<char>) -> StatementView {
    statement1("SELECT * FROM users WHERE LOWER(email) = LOWER($1)"@, Param::Text(email))
}

/// The statement that inserts a user created at `now`.
pub open spec fn user_insertion(
    user_id: Seq<char>,
    email: Seq<char>,
    hash: Seq<char>,
    now: i64,
) -> StatementView {
    StatementView {
        sql: "INSERT INTO users (user_id, email, password, created_at, updated_at) VALUES ($1, $2, $3, $4, $5)"@,
        params: seq![
            Param::Uuid(user_id),
            Param::Text(email),
            Param::Text(hash),
            Param::Timestamp(now),
            Param::Timestamp(now),
        ],
    }
}

/// Builds `user_insertion`.
fn insert_statement(user_id: &String, email: &String, hash: String, now: i64) -> (statement:
    Statement)
    ensures
        statement@ == user_insertion(user_id@, email@, hash@, now),
{
    let mut params: Vec<SqlValue> = Vec::new();
    params.push(SqlValue::Uuid(user_id.clone()));
    params.push(SqlValue::Text(email.clone()));
    params.push(SqlValue::Text(hash));
    params.push(SqlValue::Timestamp(now));
    params.push(SqlValue::Timestamp(now));
    let statement = bind_all(
        "INSERT INTO users (user_id, email, password, created_at, updated_at) VALUES ($1, $2, $3, $4, $5)",
        params,
    );
    assert(statement@.params =~= user_insertion(user_id@, email@, hash@, now).params);
    statement
}

/// Where an authentication stands.
#[derive(Debug, Clone, PartialEq, Eq)]
pub enum Authentication {
    /// Registering: the store was asked whether the e-mail address is taken.
    Registering { email: String, password: String },
    /// Registering: the store was asked to insert the user.
    Inserting { email: String, user_id: String },
    /// Logging in: the store was asked for the user and its credential hash.
    LoggingIn { password: String },
}

/// What opening an authentication decides: the payload's rules, then, by
/// the action, the question whether the address is taken or the question for
/// the user.
pub open spec fn auth_opened(step: Step<Authentication, AuthResponse>, payload: AuthRequest) -> bool {
    if payload.violations().len() > 0 {
        step.fails_with(rejection(payload.violations()))
    } else if payload.action@ == "create"@ {
        &&& step matches Step::Ask { state, statement, fetch }
        &&& state matches Authentication::Registering { email, password }
        &&& email == payload.email
        &&& password == payload.password
        &&& statement@ == user_with_email(payload.email@)
        &&& fetch == Fetch::Exists
    } else {
        &&& step matches Step::Ask { state, statement, fetch }
        &&& state matches Authentication::LoggingIn { password }
        &&& password == payload.password
        &&& statement@ == credentials_of(payload.email@)
        &&& fetch == Fetch::User
    }
}

/// What the outcome of issuing a token answers a request with: the given
/// status, the given address and the token, or a server error where none
/// was issued.
pub open spec fn token_answered(
    step: Step<Authentication, AuthResponse>,
    status: u16,
    email: Seq<char>,
    token: Result<Seq<char>, IssueError>,
) -> bool {
    match token {
        Err(_) => step.fails_with(
            failure(ErrorKind::InternalServerError, "Token generation error"@),
        ),
        Ok(text) => {
            &&& step matches Step::Done { status: s, body }
            &&& s == status
            &&& body.email@ == email
            &&& body.token@ == text
        },
    }
}

/// Whether `step` answers with the given status, the given address and a
/// token for `user_id` issued at the context's moment, or fails because no
/// token could be issued.
pub open spec fn answers_with_token(
    step: Step<Authentication, AuthResponse>,
    ctx: Context,
    status: u16,
    email: Seq<char>,
    user_id: Seq<char>,
) -> bool {
    token_answered(step, status, email, issued(user_id, TOKEN_TTL_SECONDS, ctx.now, ctx.secret@))
}

/// What a registration whose address is free goes on with, given the hash
/// of the password or `None` where hashing failed.
pub open spec fn registration_continued(
    step: Step<Authentication, AuthResponse>,
    ctx: Context,
    email: Seq<char>,
    hashed: Option<String>,
) -> bool {
    match hashed {
        None => step.fails_with(failure(ErrorKind::InternalServerError, "Hashing error"@)),
        Some(hash) => {
            &&& step matches Step::Ask { state: next, statement, fetch }
            &&& next matches Authentication::Inserting { email: kept, user_id }
            &&& kept@ == email
            &&& user_id@ == ctx.fresh_id@
            &&& statement@ == user_insertion(ctx.fresh_id@, email, hash@, ctx.now)
            &&& fetch == Fetch::Execute
        },
    }
}

/// What is wrong with a login, given how the password fared against the
/// stored hash: a hash that cannot be read is a server error, a password
/// that differs is refused, one that matches passes.
pub open spec fn login_problem(check: PasswordCheck) -> Option<ErrorView> {
    match check {
        PasswordCheck::UnreadableHash => Some(
            failure(ErrorKind::InternalServerError, "Invalid password hash"@),
        ),
        PasswordCheck::Differs => Some(failure(ErrorKind::Unauthorized, "Invalid password"@)),
        PasswordCheck::Matches => None,
    }
}

/// What an authentication decides on a reply of the store, where `hashed`
/// is the hash of the password under a fresh salt, or `None` where hashing
/// failed. Registering: an address that is taken is a `Conflict`, whether
/// the check finds it or the store's own constraint does at the insert;
/// otherwise the user is inserted with the hash, never the password, and
/// answered with status 201 and a token. Logging in: no user is `NotFound`,
/// a password that differs is `Unauthorized`, and the right one is answered
/// with status 200 and a token.
pub open spec fn auth_advanced(
    step: Step<Authentication, AuthResponse>,
    state: Authentication,
    ctx: Context,
    reply: StoreReply,
    hashed: Option<String>,
) -> bool {
    match (state, reply) {
        (_, StoreReply::Failed(f)) => step.fails_with(surfaced(f, email_taken())),
        (Authentication::Registering { email, password }, StoreReply::Exists(taken)) => if taken {
            step.fails_with(failure(ErrorKind::Conflict, email_taken()))
        } else {
            registration_continued(step, ctx, email@, hashed)
        },
        (Authentication::Inserting { email, user_id }, StoreReply::Affected(_)) => {
            answers_with_token(step, ctx, 201, email@, user_id@)
        },
        (Authentication::LoggingIn { password }, StoreReply::User(row)) => match row {
            None => step.fails_with(failure(ErrorKind::NotFound, "Resource not found"@)),
            Some(user) => match login_problem(password_checked(password@, user.password@)) {
                Some(e) => step.fails_with(e),
                None => answers_with_token(step, ctx, 200, user.email@, user.user_id@),
            },
        },
        _ => step.fails_with(unexpected_reply()),
    }
}

/// Opens an authentication.
pub fn auth_handler(payload: AuthRequest) -> (step: Step<Authentication, AuthResponse>)
    ensures
        auth_opened(step, payload),
{
    match validate_payload(&payload) {
        Ok(_) => {},
        Err(e) => {
            return Step::Failed(e);
        },
    }
    if same_text(payload.action.as_str(), "create") {
        let statement = bind1(
            "SELECT email FROM users WHERE LOWER(email) = LOWER($1)",
            SqlValue::Text(payload.email.clone()),
        );
        Step::Ask {
            state: Authentication::Registering { email: payload.email, password: payload.password },
            statement,
            fetch: Fetch::Exists,
        }
    } else {
        let statement = bind1(
            "SELECT * FROM users WHERE LOWER(email) = LOWER($1)",
            SqlValue::Text(payload.email.clone()),
        );
        Step::Ask {
            state: Authentication::LoggingIn { password: payload.password },
            statement,
            fetch: Fetch::User,
        }
    }
}

/// Answers a request with the outcome of issuing a token.
pub fn answer_with_token(status: u16, email: String, token: Result<String, IssueError>) -> (step:
    Step<Authentication, AuthResponse>)
    ensures
        token_answered(step, status, email@, token_view(token)),
{
    match token {
        Err(_) => fail(ErrorKind::InternalServerError, "Token generation error"),
        Ok(token) => Step::Done { status, body: AuthResponse { email, token } },
    }
}

/// Goes on with a registration whose address is free, given the hash of
/// the password or `None` where hashing failed.
pub fn continue_registration(ctx: &Context, email: String, hashed: Option<String>) -> (step: Step<
    Authentication,
    AuthResponse,
>)
    ensures
        registration_continued(step, *ctx, email@, hashed),
{
    match hashed {
        None => fail(ErrorKind::InternalServerError, "Hashing error"),
        Some(hash) => {
            let statement = insert_statement(&ctx.fresh_id, &email, hash, ctx.now);
            Step::Ask {
                state: Authentication::Inserting { email, user_id: ctx.fresh_id.clone() },
                statement,
                fetch: Fetch::Execute,
            }
        },
    }
}

/// Judges a login by how the password fared against the stored hash.
pub fn judge_login(check: PasswordCheck) -> (problem: Option<AppError>)
    ensures
        match problem {
            Some(e) => login_problem(check) == Some(e@),
            None => login_problem(check) is None,
        },
{
    match check {
        PasswordCheck::UnreadableHash => Some(
            AppError::InternalServerError(String::from_str("Invalid password hash")),
        ),
        PasswordCheck::Differs => Some(AppError::Unauthorized(String::from_str("Invalid password"))),
        PasswordCheck::Matches => None,
    }
}

impl Authentication {
    /// Takes the store's reply, and the password's hash where one is
    /// wanted, and decides the next step.
    pub fn advance_with(self, ctx: &Context, reply: StoreReply, hashed: Option<String>) -> (step:
        Step<Authentication, AuthResponse>)
        ensures
            auth_advanced(step, self, *ctx, reply, hashed),
    {
        match (self, reply) {
            (_, StoreReply::Failed(f)) => Step::Failed(map_store_failure(&f, "Email already exists")),
            (Authentication::Registering { email, password }, StoreReply::Exists(taken)) => {
                if taken {
                    fail(ErrorKind::Conflict, "Email already exists")
                } else {
                    continue_registration(ctx, email, hashed)
                }
            },
            (Authentication::Inserting { email, user_id }, StoreReply::Affected(_)) => {
                let token = issue(
                    user_id.as_str(),
                    TOKEN_TTL_SECONDS,
                    ctx.now,
                    ctx.secret.as_str(),
                );
                answer_with_token(201, email, token)
            },
            (Authentication::LoggingIn { password }, StoreReply::User(row)) => match row {
                None => fail(ErrorKind::NotFound, "Resource not found"),
                Some(user) => match judge_login(
                    check_password(password.as_str(), user.password.as_str()),
                ) {
                    Some(e) => Step::Failed(e),
                    None => {
                        let token = issue(
                            user.user_id.as_str(),
                            TOKEN_TTL_SECONDS,
                            ctx.now,
                            ctx.secret.as_str(),
                        );
                        answer_with_token(200, user.email, token)
                    },
                },
            },
            _ => fail_unexpected(),
        }
    }

    /// Takes the store's reply and decides the next step, hashing the
    /// password under a fresh salt where a registration goes on: the outcome
    /// is that of `advance_with` for whatever the hasher gave.
    pub fn advance(self, ctx: &Context, reply: StoreReply) -> (step: Step<
        Authentication,
        AuthResponse,
    >)
        ensures
            exists|hashed: Option<String>| auth_advanced(step, self, *ctx, reply, hashed),
    {
        let hashed = match (&self, &reply) {
            (Authentication::Registering { password, .. }, StoreReply::Exists(false)) => {
                hash_password(password.as_str())
            },
            _ => None,
        };
        let step = self.advance_with(ctx, reply, hashed);
        assert(auth_advanced(step, self, *ctx, reply, hashed));
        step
    }
}

} // verus!
