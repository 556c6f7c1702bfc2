//! The profile of the authenticated user: read and partial update.

use crate::authorization::{admission_view, admitted, authorize, Context, Identity};
use crate::errors::{map_store_failure, surfaced, AppError, ErrorKind, ErrorView};
use crate::models::user::{GetUserProfileResponse, UserWithoutDates};
use crate::query::{
    binding_if, lemma_update_placeholders_match_values, occurrences, plain, text_param, text_value,
    update_statement, BindingView, Param, SqlValue, Statement, StatementView, UpdateStatement,
    UpdateStatementView,
};
use crate::store::{
    bind1, bind2, fail, fail_unexpected, failure, generic_conflict, statement1, statement2,
    unexpected_reply, Fetch, Step, StoreReply,
};
use crate::utils::text::{chars_of, contains_char, join3, slice_chars};
use crate::utils::validation::{
    check_optional, conclude, field_name, host_of, optional, rejection, url_host, validate_payload,
    Field, HostView, Rule, UrlHost, Validate, ValidationError, Violation,
};
use vstd::prelude::*;
use vstd::string::*;

verus! {

/// The payload of a partial profile update: only the fields to change are present.
#[derive(Debug, Clone, PartialEq, Eq)]
pub struct UserProfileUpdate {
    pub email: Option<String>,
    pub name: Option<String>,
    pub user_image_uri: Option<String>,
    pub company_name: Option<String>,
    pub company_image_uri: Option<String>,
}

/// A profile as the update response shows it: a field that the row lacks is
/// shown as the empty text.
#[derive(Debug, Clone, PartialEq, Eq)]
pub struct UserProfileResponse {
    pub email: String,
    pub name: String,
    pub user_image_uri: String,
    pub company_name: String,
    pub company_image_uri: String,
}

/// The rule on a display name and on a company name.
pub open spec fn name_rule() -> Rule {
    Rule::Length { min: 4, max: 52 }
}

impl Validate for UserProfileUpdate {
    open spec fn violations(&self) -> Seq<Violation> {
        optional(Field::Email, Rule::Email, chars_of(self.email)) + optional(
            Field::Name,
            name_rule(),
            chars_of(self.name),
        ) + optional(Field::UserImageUri, Rule::Url, chars_of(self.user_image_uri)) + optional(
            Field::CompanyName,
            name_rule(),
            chars_of(self.company_name),
        ) + optional(Field::CompanyImageUri, Rule::Url, chars_of(self.company_image_uri))
    }

    fn validate(&self) -> (result: Result<(), ValidationError>) {
        let mut found: Vec<Violation> = Vec::new();
        check_optional(&mut found, Field::Email, Rule::Email, &self.email);
        check_optional(&mut found, Field::Name, Rule::Length { min: 4, max: 52 }, &self.name);
        check_optional(&mut found, Field::UserImageUri, Rule::Url, &self.user_image_uri);
        check_optional(
            &mut found,
            Field::CompanyName,
            Rule::Length { min: 4, max: 52 },
            &self.company_name,
        );
        check_optional(&mut found, Field::CompanyImageUri, Rule::Url, &self.company_image_uri);
        assert(found@ =~= self.violations());
        conclude(found)
    }
}

impl UserProfileUpdate {
    /// Whether no field is present, so that there is nothing to change.
    pub open spec fn is_blank(self) -> bool {
        &&& self.email is None
        &&& self.name is None
        &&& self.user_image_uri is None
        &&& self.company_name is None
        &&& self.company_image_uri is None
    }

    /// Computes `is_blank`.
    pub fn blank(&self) -> (b: bool)
        ensures
            b == self.is_blank(),
    {
        self.email.is_none() && self.name.is_none() && self.user_image_uri.is_none()
            && self.company_name.is_none() && self.company_image_uri.is_none()
    }
}

/// The failure for a user that is not there.
pub open spec fn user_missing() -> ErrorView {
    failure(ErrorKind::NotFound, "User not found"@)
}

/// The message for an e-mail address that another user has.
pub open spec fn email_taken() -> Seq<char> {
    "Email already exists"@
}

/// The failure for a payload with no field.
pub open spec fn nothing_to_update() -> ErrorView {
    failure(ErrorKind::BadRequest, "No update fields provided"@)
}

/// The content of the host of an address that may be absent.
pub open spec fn host_view(host: Option<UrlHost>) -> Option<HostView> {
    match host {
        Some(h) => Some(h@),
        None => None,
    }
}

/// The host of an image address that may be absent.
pub open spec fn host_read(uri: Option<Seq<char>>) -> Option<HostView> {
    match uri {
        Some(text) => Some(host_of(text)),
        None => None,
    }
}

/// What is wrong with the host of an image address, if anything: the text
/// must parse as a URL and have a host, and a host that is a domain name
/// must hold a dot; an address is accepted as it is, and so is an absent
/// field.
pub open spec fn host_problem(field: Field, host: Option<HostView>) -> Option<ErrorView> {
    match host {
        None => None,
        Some(HostView::Unparseable) => Some(
            failure(ErrorKind::BadRequest, "Invalid URL format in '"@ + field_name(field) + "'"@),
        ),
        Some(HostView::Missing) => Some(
            failure(ErrorKind::BadRequest, "Missing host in '"@ + field_name(field) + "'"@),
        ),
        Some(HostView::Domain(domain)) => if domain.contains('.') {
            None
        } else {
            Some(failure(ErrorKind::BadRequest, "Invalid domain in '"@ + field_name(field) + "'"@))
        },
        Some(HostView::Address) => None,
    }
}

/// The content of a failure that may be absent.
pub open spec fn problem_view(problem: Option<AppError>) -> Option<ErrorView> {
    match problem {
        Some(e) => Some(e@),
        None => None,
    }
}

/// Takes the host of an image address that may be absent.
pub fn read_host(uri: &Option<String>) -> (host: Option<UrlHost>)
    ensures
        host_view(host) == host_read(chars_of(*uri)),
{
    match uri {
        Some(text) => Some(url_host(text.as_str())),
        None => None,
    }
}

/// Judges the host of an image address that may be absent.
pub fn check_host(field: Field, host: &Option<UrlHost>) -> (problem: Option<AppError>)
    ensures
        problem_view(problem) == host_problem(field, host_view(*host)),
{
    match host {
        None => None,
        Some(UrlHost::Unparseable) => Some(
            AppError::BadRequest(join3("Invalid URL format in '", field.name(), "'")),
        ),
        Some(UrlHost::Missing) => Some(
            AppError::BadRequest(join3("Missing host in '", field.name(), "'")),
        ),
        Some(UrlHost::Domain(domain)) => {
            if contains_char(domain.as_str(), '.') {
                None
            } else {
                Some(AppError::BadRequest(join3("Invalid domain in '", field.name(), "'")))
            }
        },
        Some(UrlHost::Address) => None,
    }
}

/// The statement that reads the profile of the user with the given identifier.
pub open spec fn profile_of(user_id: Seq<char>) -> StatementView {
    statement1(
        "SELECT email, name, user_image_uri, company_name, company_image_uri FROM users WHERE user_id = $1"@,
        Param::Uuid(user_id),
    )
}

/// The statement that reads the user with the given identifier, without timestamps.
pub open spec fn user_with_id(user_id: Seq<char>) -> StatementView {
    statement1(
        "SELECT user_id, email, name, password, user_image_uri, company_name, company_image_uri FROM users WHERE user_id = $1"@,
        Param::Uuid(user_id),
    )
}

/// The statement that looks for another user with the given e-mail address,
/// letter case aside.
pub open spec fn other_user_with_email(email: Seq<char>, user_id: Seq<char>) -> StatementView {
    statement2(
        "SELECT email FROM users WHERE LOWER(email) = LOWER($1) AND user_id != $2"@,
        Param::Text(email),
        Param::Uuid(user_id),
    )
}

/// The assignments of a partial profile update, each only where its field is
/// present, in the order of the fields.
pub open spec fn profile_assignments(changes: UserProfileUpdate) -> Seq<BindingView> {
    binding_if("email"@, text_param(chars_of(changes.email))) + binding_if(
        "name"@,
        text_param(chars_of(changes.name)),
    ) + binding_if("user_image_uri"@, text_param(chars_of(changes.user_image_uri))) + binding_if(
        "company_name"@,
        text_param(chars_of(changes.company_name)),
    ) + binding_if("company_image_uri"@, text_param(chars_of(changes.company_image_uri)))
}

/// The statement that changes the present fields of the user with the given
/// identifier and refreshes its `updated_at`.
pub open spec fn profile_revision(
    user_id: Seq<char>,
    changes: UserProfileUpdate,
    now: i64,
) -> StatementView {
    update_statement(
        UpdateStatementView {
            table: "users"@,
            assignments: profile_assignments(changes),
            key_column: "user_id"@,
            key: Param::Uuid(user_id),
        },
        now,
    )
}

/// Builds `profile_revision`, or `None` where no field is present.
fn revise_statement(user_id: &String, changes: &UserProfileUpdate, now: i64) -> (statement: Option<
    Statement,
>)
    ensures
        statement is None <==> changes.is_blank(),
        statement matches Some(s) ==> s@ == profile_revision(user_id@, *changes, now),
{
    let mut update = UpdateStatement::new("users", "user_id", SqlValue::Uuid(user_id.clone()));
    update.set_if("email", text_value(&changes.email));
    update.set_if("name", text_value(&changes.name));
    update.set_if("user_image_uri", text_value(&changes.user_image_uri));
    update.set_if("company_name", text_value(&changes.company_name));
    update.set_if("company_image_uri", text_value(&changes.company_image_uri));
    assert(update@.assignments =~= profile_assignments(*changes));
    update.render(now)
}

/// Where the reading of a profile stands.
#[derive(Debug, Clone, PartialEq, Eq)]
pub enum ProfileReading {
    /// The store was asked for the profile.
    Fetching,
}

/// What opening the reading of a profile decides, given the outcome of
/// authorization: a refusal stands, then the store is asked for the profile
/// of the token's subject.
pub open spec fn reading_opened(
    step: Step<ProfileReading, GetUserProfileResponse>,
    admission: Result<Seq<char>, ErrorView>,
) -> bool {
    match admission {
        Err(e) => step.fails_with(e),
        Ok(user_id) => {
            &&& step matches Step::Ask { state, statement, fetch }
            &&& statement@ == profile_of(user_id)
            &&& fetch == Fetch::Profile
        },
    }
}

/// What the reading of a profile decides on a reply of the store: the
/// profile is the answer; a subject without a row is refused as `Unauthorized`.
pub open spec fn reading_advanced(
    step: Step<ProfileReading, GetUserProfileResponse>,
    reply: StoreReply,
) -> bool {
    match reply {
        StoreReply::Failed(f) => step.fails_with(surfaced(f, generic_conflict())),
        StoreReply::Profile(Some(profile)) => {
            &&& step matches Step::Done { status, body }
            &&& status == 200
            &&& body == profile
        },
        StoreReply::Profile(None) => step.fails_with(
            failure(ErrorKind::Unauthorized, "User not found or unauthorized"@),
        ),
        _ => step.fails_with(unexpected_reply()),
    }
}

/// Opens the reading of a profile for a request whose authorization had
/// the given outcome.
pub fn get_user_profile_with(admission: Result<Identity, AppError>) -> (step: Step<
    ProfileReading,
    GetUserProfileResponse,
>)
    ensures
        reading_opened(step, admission_view(admission)),
{
    match admission {
        Err(e) => Step::Failed(e),
        Ok(identity) => Step::Ask {
            state: ProfileReading::Fetching,
            statement: bind1(
                "SELECT email, name, user_image_uri, company_name, company_image_uri FROM users WHERE user_id = $1",
                SqlValue::Uuid(identity.user_id),
            ),
            fetch: Fetch::Profile,
        },
    }
}

/// Opens the reading of the authenticated user's profile: authorizes the
/// request by its header and goes on as `get_user_profile_with`.
pub fn get_user_profile(ctx: &Context, header: Option<&str>) -> (step: Step<
    ProfileReading,
    GetUserProfileResponse,
>)
    ensures
        reading_opened(step, admitted(slice_chars(header), ctx.secret@, ctx.now)),
{
    get_user_profile_with(authorize(header, ctx.secret.as_str(), ctx.now))
}

impl ProfileReading {
    /// Takes the store's reply and decides the next step.
    pub fn advance(self, reply: StoreReply) -> (step: Step<ProfileReading, GetUserProfileResponse>)
        ensures
            reading_advanced(step, reply),
    {
        match reply {
            StoreReply::Failed(f) => Step::Failed(
                map_store_failure(&f, "Conflict with existing data"),
            ),
            StoreReply::Profile(Some(profile)) => Step::Done { status: 200, body: profile },
            StoreReply::Profile(None) => fail(
                ErrorKind::Unauthorized,
                "User not found or unauthorized",
            ),
            _ => fail_unexpected(),
        }
    }
}

/// Where the partial update of a profile stands.
#[derive(Debug, Clone, PartialEq, Eq)]
pub enum ProfileRevision {
    /// The store was asked whether another user has the new e-mail address.
    CheckingEmail { user_id: String, changes: UserProfileUpdate },
    /// The store was asked to change the row.
    Updating { user_id: String },
    /// The store was asked for the row as it now is.
    Reading,
}

/// What the entry of a profile update decides, given the outcome of
/// authorization and the hosts of the two image addresses, in this order: a
/// refusal stands, then a payload with no field is refused, then the
/// payload is held to its rules, then the hosts are judged. Where all pass
/// the result is the identifier of the authenticated user, who alone may
/// change this profile.
pub open spec fn revision_entered(
    admission: Result<Seq<char>, ErrorView>,
    payload: UserProfileUpdate,
    user_image_host: Option<HostView>,
    company_image_host: Option<HostView>,
) -> Result<Seq<char>, ErrorView> {
    match admission {
        Err(e) => Err(e),
        Ok(user_id) => if payload.is_blank() {
            Err(nothing_to_update())
        } else if payload.violations().len() > 0 {
            Err(rejection(payload.violations()))
        } else {
            match host_problem(Field::UserImageUri, user_image_host) {
                Some(e) => Err(e),
                None => match host_problem(Field::CompanyImageUri, company_image_host) {
                    Some(e) => Err(e),
                    None => Ok(user_id),
                },
            }
        },
    }
}

/// What opening a profile update decides: after the entry, a new e-mail
/// address is first checked against the other users; without one the row is
/// changed at once.
pub open spec fn revision_opened(
    step: Step<ProfileRevision, UserProfileResponse>,
    now: i64,
    admission: Result<Seq<char>, ErrorView>,
    payload: UserProfileUpdate,
    user_image_host: Option<HostView>,
    company_image_host: Option<HostView>,
) -> bool {
    match revision_entered(admission, payload, user_image_host, company_image_host) {
        Err(e) => step.fails_with(e),
        Ok(id) => match payload.email {
            Some(email) => {
                &&& step matches Step::Ask { state, statement, fetch }
                &&& state matches ProfileRevision::CheckingEmail { user_id, changes }
                &&& user_id@ == id
                &&& changes == payload
                &&& statement@ == other_user_with_email(email@, id)
                &&& fetch == Fetch::Exists
            },
            None => {
                &&& step matches Step::Ask { state, statement, fetch }
                &&& state matches ProfileRevision::Updating { user_id }
                &&& user_id@ == id
                &&& statement@ == profile_revision(id, payload, now)
                &&& fetch == Fetch::Execute
            },
        },
    }
}

/// The text of a field that the row may lack.
pub open spec fn shown(text: Option<String>) -> Seq<char> {
    match text {
        Some(t) => t@,
        None => Seq::empty(),
    }
}

/// What a profile update decides on a reply of the store. An e-mail address
/// that another user has is a `Conflict`, whether the check finds it or the
/// store's own constraint does at the update; a user that is not there, that
/// the update did not touch, or that cannot be read back is `NotFound`;
/// otherwise only the present fields and `updated_at` are assigned, and the
/// answer is the profile as the store then holds it.
pub open spec fn revision_advanced(
    step: Step<ProfileRevision, UserProfileResponse>,
    state: ProfileRevision,
    ctx: Context,
    reply: StoreReply,
) -> bool {
    match (state, reply) {
        (_, StoreReply::Failed(f)) => step.fails_with(surfaced(f, email_taken())),
        (ProfileRevision::CheckingEmail { user_id, changes }, StoreReply::Exists(taken)) => {
            if taken {
                step.fails_with(failure(ErrorKind::Conflict, email_taken()))
            } else if changes.is_blank() {
                step.fails_with(nothing_to_update())
            } else {
                &&& step matches Step::Ask { state: next, statement, fetch }
                &&& next matches ProfileRevision::Updating { user_id: kept }
                &&& kept@ == user_id@
                &&& statement@ == profile_revision(user_id@, changes, ctx.now)
                &&& fetch == Fetch::Execute
            }
        },
        (ProfileRevision::Updating { user_id }, StoreReply::Affected(rows)) => if rows == 0 {
            step.fails_with(user_missing())
        } else {
            &&& step matches Step::Ask { state: next, statement, fetch }
            &&& next is Reading
            &&& statement@ == user_with_id(user_id@)
            &&& fetch == Fetch::UserWithoutDates
        },
        (ProfileRevision::Reading, StoreReply::UserWithoutDates(row)) => match row {
            None => step.fails_with(user_missing()),
            Some(user) => {
                &&& step matches Step::Done { status, body }
                &&& status == 200
                &&& body.email == user.email
                &&& body.name@ == shown(user.name)
                &&& body.user_image_uri@ == shown(user.user_image_uri)
                &&& body.company_name@ == shown(user.company_name)
                &&& body.company_image_uri@ == shown(user.company_image_uri)
            },
        },
        _ => step.fails_with(unexpected_reply()),
    }
}

/// The text of a field that the row may lack, empty where it does.
fn show(text: Option<String>) -> (r: String)
    ensures
        r@ == shown(text),
{
    match text {
        Some(t) => t,
        None => String::new(),
    }
}

/// Opens the partial update of a profile at the moment `now` for a request
/// whose authorization had the given outcome, where the hosts are those of
/// the payload's two image addresses, each absent where its address is.
pub fn update_user_profile_with(
    now: i64,
    admission: Result<Identity, AppError>,
    payload: UserProfileUpdate,
    user_image_host: Option<UrlHost>,
    company_image_host: Option<UrlHost>,
) -> (step: Step<ProfileRevision, UserProfileResponse>)
    ensures
        revision_opened(
            step,
            now,
            admission_view(admission),
            payload,
            host_view(user_image_host),
            host_view(company_image_host),
        ),
{
    let identity = match admission {
        Ok(identity) => identity,
        Err(e) => {
            return Step::Failed(e);
        },
    };
    if payload.blank() {
        return fail(ErrorKind::BadRequest, "No update fields provided");
    }
    match validate_payload(&payload) {
        Ok(_) => {},
        Err(e) => {
            return Step::Failed(e);
        },
    }
    match check_host(Field::UserImageUri, &user_image_host) {
        Some(e) => {
            return Step::Failed(e);
        },
        None => {},
    }
    match check_host(Field::CompanyImageUri, &company_image_host) {
        Some(e) => {
            return Step::Failed(e);
        },
        None => {},
    }
    match &payload.email {
        Some(email) => {
            let statement = bind2(
                "SELECT email FROM users WHERE LOWER(email) = LOWER($1) AND user_id != $2",
                SqlValue::Text(email.clone()),
                SqlValue::Uuid(identity.user_id.clone()),
            );
            Step::Ask {
                state: ProfileRevision::CheckingEmail { user_id: identity.user_id, changes: payload },
                statement,
                fetch: Fetch::Exists,
            }
        },
        None => match revise_statement(&identity.user_id, &payload, now) {
            None => fail(ErrorKind::BadRequest, "No update fields provided"),
            Some(statement) => Step::Ask {
                state: ProfileRevision::Updating { user_id: identity.user_id },
                statement,
                fetch: Fetch::Execute,
            },
        },
    }
}

/// Opens the partial update of the authenticated user's profile:
/// authorizes the request by its header, takes the hosts of the image
/// addresses, and goes on as `update_user_profile_with`.
pub fn update_user_profile(ctx: &Context, header: Option<&str>, payload: UserProfileUpdate) -> (step:
    Step<ProfileRevision, UserProfileResponse>)
    ensures
        revision_opened(
            step,
            ctx.now,
            admitted(slice_chars(header), ctx.secret@, ctx.now),
            payload,
            host_read(chars_of(payload.user_image_uri)),
            host_read(chars_of(payload.company_image_uri)),
        ),
{
    let user_image_host = read_host(&payload.user_image_uri);
    let company_image_host = read_host(&payload.company_image_uri);
    update_user_profile_with(
        ctx.now,
        authorize(header, ctx.secret.as_str(), ctx.now),
        payload,
        user_image_host,
        company_image_host,
    )
}

impl ProfileRevision {
    /// Takes the store's reply and decides the next step.
    pub fn advance(self, ctx: &Context, reply: StoreReply) -> (step: Step<
        ProfileRevision,
        UserProfileResponse,
    >)
        ensures
            revision_advanced(step, self, *ctx, reply),
    {
        match (self, reply) {
            (_, StoreReply::Failed(f)) => Step::Failed(map_store_failure(&f, "Email already exists")),
            (ProfileRevision::CheckingEmail { user_id, changes }, StoreReply::Exists(taken)) => {
                if taken {
                    return fail(ErrorKind::Conflict, "Email already exists");
                }
                match revise_statement(&user_id, &changes, ctx.now) {
                    None => fail(ErrorKind::BadRequest, "No update fields provided"),
                    Some(statement) => Step::Ask {
                        state: ProfileRevision::Updating { user_id },
                        statement,
                        fetch: Fetch::Execute,
                    },
                }
            },
            (ProfileRevision::Updating { user_id }, StoreReply::Affected(rows)) => {
                if rows == 0 {
                    return fail(ErrorKind::NotFound, "User not found");
                }
                Step::Ask {
                    state: ProfileRevision::Reading,
                    statement: bind1(
                        "SELECT user_id, email, name, password, user_image_uri, company_name, company_image_uri FROM users WHERE user_id = $1",
                        SqlValue::Uuid(user_id),
                    ),
                    fetch: Fetch::UserWithoutDates,
                }
            },
            (ProfileRevision::Reading, StoreReply::UserWithoutDates(row)) => match row {
                None => fail(ErrorKind::NotFound, "User not found"),
                Some(user) => Step::Done {
                    status: 200,
                    body: UserProfileResponse {
                        email: user.email,
                        name: show(user.name),
                        user_image_uri: show(user.user_image_uri),
                        company_name: show(user.company_name),
                        company_image_uri: show(user.company_image_uri),
                    },
                },
            },
            _ => fail_unexpected(),
        }
    }
}

/// A partial update with no field present is refused and issues no
/// statement: whoever sent it, the store is not asked anything, and a
/// caller who is authorized is told `BadRequest`.
pub proof fn lemma_blank_update_is_refused(
    step: Step<ProfileRevision, UserProfileResponse>,
    now: i64,
    admission: Result<Seq<char>, ErrorView>,
    payload: UserProfileUpdate,
    user_image_host: Option<HostView>,
    company_image_host: Option<HostView>,
)
    requires
        payload.is_blank(),
        revision_opened(step, now, admission, payload, user_image_host, company_image_host),
    ensures
        !step.issues_statement(),
        admission is Ok ==> step.fails_with(nothing_to_update()),
{
}

/// A profile update never reaches the store before the caller is
/// authorized and the payload has passed its rules.
pub proof fn lemma_no_statement_before_entry(
    step: Step<ProfileRevision, UserProfileResponse>,
    now: i64,
    admission: Result<Seq<char>, ErrorView>,
    payload: UserProfileUpdate,
    user_image_host: Option<HostView>,
    company_image_host: Option<HostView>,
)
    requires
        revision_opened(step, now, admission, payload, user_image_host, company_image_host),
        step.issues_statement(),
    ensures
        admission is Ok,
        payload.violations().len() == 0,
        !payload.is_blank(),
        host_problem(Field::UserImageUri, user_image_host) is None,
        host_problem(Field::CompanyImageUri, company_image_host) is None,
{
}

/// The row that a profile update changes is the caller's own: the key of
/// the update is the subject of the token, whatever the payload says.
pub proof fn lemma_update_is_keyed_by_the_subject(
    user_id: Seq<char>,
    changes: UserProfileUpdate,
    now: i64,
)
    requires
        !changes.is_blank(),
    ensures
        profile_revision(user_id, changes, now).params.last() == Param::Uuid(user_id),
        profile_revision(user_id, changes, now).params.len() == profile_assignments(changes).len()
            + 2,
{
}

/// A partial update names no column but those of its present fields: every
/// assignment is to one of the five fields that a payload can hold, so that
/// neither the credential nor `created_at` is ever assigned.
pub proof fn lemma_revision_assigns_only_payload_fields(changes: UserProfileUpdate, i: int)
    requires
        0 <= i < profile_assignments(changes).len(),
    ensures
        ({
            let column = profile_assignments(changes)[i].fragment;
            ||| column == "email"@
            ||| column == "name"@
            ||| column == "user_image_uri"@
            ||| column == "company_name"@
            ||| column == "company_image_uri"@
        }),
{
}

/// For every combination of present fields, the update that is issued
/// writes exactly one placeholder for each value that it binds.
pub proof fn lemma_revision_placeholders_match_values(
    user_id: Seq<char>,
    changes: UserProfileUpdate,
    now: i64,
)
    ensures
        ({
            let statement = profile_revision(user_id, changes, now);
            occurrences(statement.sql, '$') == statement.params.len()
        }),
{
    reveal_strlit("email");
    reveal_strlit("name");
    reveal_strlit("user_image_uri");
    reveal_strlit("company_name");
    reveal_strlit("company_image_uri");
    reveal_strlit("users");
    reveal_strlit("user_id");
    let assignments = profile_assignments(changes);
    assert forall|i: int| 0 <= i < assignments.len() implies plain(
        #[trigger] assignments[i].fragment,
    ) by {
        lemma_revision_assigns_only_payload_fields(changes, i);
    }
    lemma_update_placeholders_match_values(
        UpdateStatementView {
            table: "users"@,
            assignments,
            key_column: "user_id"@,
            key: Param::Uuid(user_id),
        },
        now,
    );
}

/// A profile is read for the subject of the token and for no other user.
pub proof fn lemma_profile_is_read_for_the_subject(
    step: Step<ProfileReading, GetUserProfileResponse>,
    admission: Result<Seq<char>, ErrorView>,
)
    requires
        reading_opened(step, admission),
        step.issues_statement(),
    ensures
        admission matches Ok(user_id) && (step matches Step::Ask { statement, .. }
            && statement@.params == seq![Param::Uuid(user_id)]),
{
}

} // verus!
