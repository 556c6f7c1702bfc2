//! Departments: create, list, rename, delete.

use crate::authorization::{admission_view, admitted, authorize, Context, Identity};
use crate::errors::{map_store_failure, surfaced, AppError, ErrorKind, ErrorView};
use crate::handlers::{enter, entered};
use crate::models::department::Department;
use crate::query::{
    filter_statement, lemma_filter_placeholders_match_values, occurrences, supplied,
    update_statement, BindingView, FilterQuery, FilterQueryView, Param, SqlValue, Statement,
    StatementView, UpdateStatement, UpdateStatementView,
};
use crate::store::{
    bind1, bind2, bind_all, fail, fail_unexpected, failure, generic_conflict, statement1,
    statement2, unexpected_reply, Fetch, Notice, Step, StoreReply,
};
use crate::utils::ident::{parse_uuid, uuid_canonical};
use crate::utils::text::{chars_of, join3, slice_chars};
use crate::utils::validation::{
    check_required, conclude, reports, required, Field, Rule, Validate, ValidationError, Violation,
};
use vstd::pervasive::unreached;
use vstd::prelude::*;
use vstd::string::*;

verus! {

/// The payload that creates a department.
#[derive(Debug, Clone, PartialEq, Eq)]
pub struct NewDepartment {
    pub name: String,
}

/// The payload that renames a department.
#[derive(Debug, Clone, PartialEq, Eq)]
pub struct DepartmentUpdate {
    pub name: String,
}

/// The filter and pagination of a department listing.
#[derive(Debug, Clone, PartialEq, Eq)]
pub struct DepartmentQueryParams {
    pub name: Option<String>,
    pub limit: Option<i64>,
    pub offset: Option<i64>,
}

/// A department as the create and rename responses show it.
#[derive(Debug, Clone, PartialEq, Eq)]
pub struct DepartmentResponse {
    pub department_id: String,
    pub name: String,
}

/// The rule on a department's name.
pub open spec fn name_rule() -> Rule {
    Rule::Length { min: 4, max: 33 }
}

impl Validate for NewDepartment {
    open spec fn violations(&self) -> Seq<Violation> {
        required(Field::Name, name_rule(), self.name@)
    }

    fn validate(&self) -> (result: Result<(), ValidationError>) {
        let mut found: Vec<Violation> = Vec::new();
        check_required(&mut found, Field::Name, Rule::Length { min: 4, max: 33 }, self.name.as_str());
        conclude(found)
    }
}

impl Validate for DepartmentUpdate {
    open spec fn violations(&self) -> Seq<Violation> {
        required(Field::Name, name_rule(), self.name@)
    }

    fn validate(&self) -> (result: Result<(), ValidationError>) {
        let mut found: Vec<Violation> = Vec::new();
        check_required(&mut found, Field::Name, Rule::Length { min: 4, max: 33 }, self.name.as_str());
        conclude(found)
    }
}

/// The message for a name that another department has.
pub open spec fn name_taken() -> Seq<char> {
    "Department name already exists"@
}

/// The message for a department that employees still refer to.
pub open spec fn still_staffed() -> Seq<char> {
    "Department still contains employees"@
}

/// The statement that looks for a department of the given name.
pub open spec fn department_named(name: Seq<char>) -> StatementView {
    statement1("SELECT name FROM departments WHERE name = $1"@, Param::Text(name))
}

/// The statement that looks for a department of the given name other than
/// the one with the given identifier.
pub open spec fn other_department_named(name: Seq<char>, id: Seq<char>) -> StatementView {
    statement2(
        "SELECT name FROM departments WHERE name = $1 AND department_id != $2"@,
        Param::Text(name),
        Param::Uuid(id),
    )
}

/// The statement that looks for the department with the given identifier.
pub open spec fn department_with_id(id: Seq<char>) -> StatementView {
    statement1("SELECT * FROM departments WHERE department_id = $1"@, Param::Uuid(id))
}

/// The statement that looks for employees of the given department.
pub open spec fn employees_of(id: Seq<char>) -> StatementView {
    statement1("SELECT * FROM employees WHERE department_id = $1"@, Param::Uuid(id))
}

/// The statement that deletes the department with the given identifier.
pub open spec fn department_deletion(id: Seq<char>) -> StatementView {
    statement1("DELETE FROM departments WHERE department_id = $1"@, Param::Uuid(id))
}

/// The statement that inserts a department created at `now`.
pub open spec fn department_insertion(id: Seq<char>, name: Seq<char>, now: i64) -> StatementView {
    StatementView {
        sql: "INSERT INTO departments (department_id, name, created_at, updated_at) VALUES ($1, $2, $3, $4)"@,
        params: seq![
            Param::Uuid(id),
            Param::Text(name),
            Param::Timestamp(now),
            Param::Timestamp(now),
        ],
    }
}

/// The statement that renames the department with the given identifier and
/// refreshes its `updated_at`.
pub open spec fn department_renaming(id: Seq<char>, name: Seq<char>, now: i64) -> StatementView {
    update_statement(
        UpdateStatementView {
            table: "departments"@,
            assignments: seq![BindingView { fragment: "name"@, value: Param::Text(name) }],
            key_column: "department_id"@,
            key: Param::Uuid(id),
        },
        now,
    )
}

/// The filter of a department listing: the name as a case-insensitive
/// substring, where it is present.
pub open spec fn department_filters(name: Option<Seq<char>>) -> Seq<BindingView> {
    match name {
        Some(n) => seq![
            BindingView { fragment: "name ILIKE"@, value: Param::Text("%"@ + n + "%"@) },
        ],
        None => Seq::empty(),
    }
}

/// The statement that lists departments, newest first.
pub open spec fn department_listing(
    name: Option<Seq<char>>,
    limit: Option<i64>,
    offset: Option<i64>,
) -> StatementView {
    filter_statement(
        FilterQueryView {
            base: "SELECT * FROM departments"@,
            filters: department_filters(name),
            order: " ORDER BY created_at DESC"@,
            limit,
            offset,
        },
    )
}

/// Builds `department_insertion`.
fn insert_statement(id: &String, name: &String, now: i64) -> (statement: Statement)
    ensures
        statement@ == department_insertion(id@, name@, now),
{
    let mut params: Vec<SqlValue> = Vec::new();
    params.push(SqlValue::Uuid(id.clone()));
    params.push(SqlValue::Text(name.clone()));
    params.push(SqlValue::Timestamp(now));
    params.push(SqlValue::Timestamp(now));
    let statement = bind_all(
        "INSERT INTO departments (department_id, name, created_at, updated_at) VALUES ($1, $2, $3, $4)",
        params,
    );
    assert(statement@.params =~= department_insertion(id@, name@, now).params);
    statement
}

/// Builds `department_renaming`.
fn rename_statement(id: &String, name: &String, now: i64) -> (statement: Statement)
    ensures
        statement@ == department_renaming(id@, name@, now),
{
    let mut update = UpdateStatement::new("departments", "department_id", SqlValue::Uuid(id.clone()));
    update.set("name", SqlValue::Text(name.clone()));
    assert(update@.assignments =~= seq![
        BindingView { fragment: "name"@, value: Param::Text(name@) },
    ]);
    match update.render(now) {
        Some(statement) => statement,
        None => unreached(),
    }
}

/// Builds `department_listing`.
pub fn list_statement(query: &DepartmentQueryParams) -> (statement: Statement)
    ensures
        statement@ == department_listing(chars_of(query.name), query.limit, query.offset),
{
    let mut q = FilterQuery::new("SELECT * FROM departments", " ORDER BY created_at DESC");
    match &query.name {
        Some(name) => {
            q.filter("name ILIKE", SqlValue::Text(join3("%", name.as_str(), "%")));
        },
        None => {},
    }
    q.paginate(query.limit, query.offset);
    assert(q@.filters =~= department_filters(chars_of(query.name)));
    q.render()
}

/// Where the creation of a department stands.
#[derive(Debug, Clone, PartialEq, Eq)]
pub enum DepartmentCreation {
    /// The store was asked whether the name is taken.
    CheckingName { name: String },
    /// The store was asked to insert the row.
    Inserting { department_id: String, name: String },
}

/// What opening the creation of a department decides, given the outcome of
/// authorization: a refusal stands, then the payload is held to its rules,
/// then the store is asked whether the name is taken.
pub open spec fn creation_opened(
    step: Step<DepartmentCreation, DepartmentResponse>,
    admission: Result<Seq<char>, ErrorView>,
    payload: NewDepartment,
) -> bool {
    match entered(admission, payload.violations()) {
        Err(e) => step.fails_with(e),
        Ok(_) => {
            &&& step matches Step::Ask { state, statement, fetch }
            &&& state matches DepartmentCreation::CheckingName { name }
            &&& name@ == payload.name@
            &&& statement@ == department_named(payload.name@)
            &&& fetch == Fetch::Exists
        },
    }
}

/// What the creation of a department decides on a reply of the store. A name
/// that is taken is a `Conflict`, whether the check finds it or the store's
/// own constraint does at the insert; a free name is inserted under the
/// context's fresh identifier and answered with status 201.
pub open spec fn creation_advanced(
    step: Step<DepartmentCreation, DepartmentResponse>,
    state: DepartmentCreation,
    ctx: Context,
    reply: StoreReply,
) -> bool {
    match (state, reply) {
        (_, StoreReply::Failed(f)) => step.fails_with(surfaced(f, name_taken())),
        (DepartmentCreation::CheckingName { name }, StoreReply::Exists(taken)) => if taken {
            step.fails_with(failure(ErrorKind::Conflict, name_taken()))
        } else {
            &&& step matches Step::Ask { state: next, statement, fetch }
            &&& next matches DepartmentCreation::Inserting { department_id, name: kept }
            &&& department_id@ == ctx.fresh_id@
            &&& kept@ == name@
            &&& statement@ == department_insertion(ctx.fresh_id@, name@, ctx.now)
            &&& fetch == Fetch::Execute
        },
        (DepartmentCreation::Inserting { department_id, name }, StoreReply::Affected(_)) => {
            &&& step matches Step::Done { status, body }
            &&& status == 201
            &&& body.department_id@ == department_id@
            &&& body.name@ == name@
        },
        _ => step.fails_with(unexpected_reply()),
    }
}

/// Opens the creation of a department for a request whose authorization had
/// the given outcome.
pub fn create_department_with(admission: Result<Identity, AppError>, payload: &NewDepartment) -> (step:
    Step<DepartmentCreation, DepartmentResponse>)
    ensures
        creation_opened(step, admission_view(admission), *payload),
{
    match enter(admission, payload) {
        Err(e) => Step::Failed(e),
        Ok(_) => Step::Ask {
            state: DepartmentCreation::CheckingName { name: payload.name.clone() },
            statement: bind1(
                "SELECT name FROM departments WHERE name = $1",
                SqlValue::Text(payload.name.clone()),
            ),
            fetch: Fetch::Exists,
        },
    }
}

/// Opens the creation of a department: authorizes the request by its header
/// and goes on as `create_department_with`.
pub fn create_department(ctx: &Context, header: Option<&str>, payload: &NewDepartment) -> (step:
    Step<DepartmentCreation, DepartmentResponse>)
    ensures
        creation_opened(step, admitted(slice_chars(header), ctx.secret@, ctx.now), *payload),
{
    create_department_with(authorize(header, ctx.secret.as_str(), ctx.now), payload)
}

impl DepartmentCreation {
    /// Takes the store's reply and decides the next step.
    pub fn advance(self, ctx: &Context, reply: StoreReply) -> (step: Step<
        DepartmentCreation,
        DepartmentResponse,
    >)
        ensures
            creation_advanced(step, self, *ctx, reply),
    {
        match (self, reply) {
            (_, StoreReply::Failed(f)) => Step::Failed(
                map_store_failure(&f, "Department name already exists"),
            ),
            (DepartmentCreation::CheckingName { name }, StoreReply::Exists(taken)) => {
                if taken {
                    fail(ErrorKind::Conflict, "Department name already exists")
                } else {
                    let statement = insert_statement(&ctx.fresh_id, &name, ctx.now);
                    Step::Ask {
                        state: DepartmentCreation::Inserting {
                            department_id: ctx.fresh_id.clone(),
                            name,
                        },
                        statement,
                        fetch: Fetch::Execute,
                    }
                }
            },
            (DepartmentCreation::Inserting { department_id, name }, StoreReply::Affected(_)) => {
                Step::Done { status: 201, body: DepartmentResponse { department_id, name } }
            },
            _ => fail_unexpected(),
        }
    }
}

/// Where the listing of departments stands.
#[derive(Debug, Clone, PartialEq, Eq)]
pub enum DepartmentListing {
    /// The store was asked for the rows.
    Fetching,
}

/// What opening a listing decides, given the outcome of authorization: a
/// refusal stands, then the filtered statement is issued.
pub open spec fn listing_opened(
    step: Step<DepartmentListing, Vec<Department>>,
    admission: Result<Seq<char>, ErrorView>,
    query: DepartmentQueryParams,
) -> bool {
    match admission {
        Err(e) => step.fails_with(e),
        Ok(_) => {
            &&& step matches Step::Ask { state, statement, fetch }
            &&& statement@ == department_listing(chars_of(query.name), query.limit, query.offset)
            &&& fetch == Fetch::Departments
        },
    }
}

/// What a listing decides on a reply of the store: the rows are the answer.
pub open spec fn listing_advanced(
    step: Step<DepartmentListing, Vec<Department>>,
    reply: StoreReply,
) -> bool {
    match reply {
        StoreReply::Failed(f) => step.fails_with(surfaced(f, generic_conflict())),
        StoreReply::Departments(rows) => {
            &&& step matches Step::Done { status, body }
            &&& status == 200
            &&& body == rows
        },
        _ => step.fails_with(unexpected_reply()),
    }
}

/// Opens the listing of departments for a request whose authorization had
/// the given outcome.
pub fn get_departments_with(admission: Result<Identity, AppError>, query: &DepartmentQueryParams) -> (step:
    Step<DepartmentListing, Vec<Department>>)
    ensures
        listing_opened(step, admission_view(admission), *query),
{
    match admission {
        Err(e) => Step::Failed(e),
        Ok(_) => Step::Ask {
            state: DepartmentListing::Fetching,
            statement: list_statement(query),
            fetch: Fetch::Departments,
        },
    }
}

/// Opens the listing of departments: authorizes the request by its header
/// and goes on as `get_departments_with`.
pub fn get_departments(ctx: &Context, header: Option<&str>, query: &DepartmentQueryParams) -> (step:
    Step<DepartmentListing, Vec<Department>>)
    ensures
        listing_opened(step, admitted(slice_chars(header), ctx.secret@, ctx.now), *query),
{
    get_departments_with(authorize(header, ctx.secret.as_str(), ctx.now), query)
}

impl DepartmentListing {
    /// Takes the store's reply and decides the next step.
    pub fn advance(self, reply: StoreReply) -> (step: Step<DepartmentListing, Vec<Department>>)
        ensures
            listing_advanced(step, reply),
    {
        match reply {
            StoreReply::Failed(f) => Step::Failed(
                map_store_failure(&f, "Conflict with existing data"),
            ),
            StoreReply::Departments(rows) => Step::Done { status: 200, body: rows },
            _ => fail_unexpected(),
        }
    }
}

/// Where the renaming of a department stands.
#[derive(Debug, Clone, PartialEq, Eq)]
pub enum DepartmentRenaming {
    /// The store was asked whether the department exists.
    Locating { department_id: String, name: String },
    /// The store was asked whether another department has the name.
    CheckingName { department_id: String, name: String },
    /// The store was asked to change the row.
    Updating { department_id: String, name: String },
}

impl DepartmentRenaming {
    /// The identifier of the department being renamed.
    pub open spec fn id(self) -> Seq<char> {
        match self {
            DepartmentRenaming::Locating { department_id, .. } => department_id@,
            DepartmentRenaming::CheckingName { department_id, .. } => department_id@,
            DepartmentRenaming::Updating { department_id, .. } => department_id@,
        }
    }

    /// The name that the department is to get.
    pub open spec fn name(self) -> Seq<char> {
        match self {
            DepartmentRenaming::Locating { name, .. } => name@,
            DepartmentRenaming::CheckingName { name, .. } => name@,
            DepartmentRenaming::Updating { name, .. } => name@,
        }
    }
}

/// The failure for a department that is not there.
pub open spec fn department_missing() -> ErrorView {
    failure(ErrorKind::NotFound, "Department not found"@)
}

/// What opening a renaming decides, given the outcome of authorization and
/// what the identifier in the path read as: a refusal stands, then the
/// payload is held to its rules, then a path that spells no identifier is a
/// client error, then the store is asked whether the department exists.
pub open spec fn renaming_opened(
    step: Step<DepartmentRenaming, DepartmentResponse>,
    admission: Result<Seq<char>, ErrorView>,
    department: Option<Seq<char>>,
    payload: DepartmentUpdate,
) -> bool {
    match entered(admission, payload.violations()) {
        Err(e) => step.fails_with(e),
        Ok(_) => match department {
            None => step.fails_with(failure(ErrorKind::BadRequest, "Invalid department ID"@)),
            Some(id) => {
                &&& step matches Step::Ask { state, statement, fetch }
                &&& state is Locating
                &&& state.id() == id
                &&& state.name() == payload.name@
                &&& statement@ == department_with_id(id)
                &&& fetch == Fetch::Exists
            },
        },
    }
}

/// What a renaming decides on a reply of the store. A department that is not
/// there, or that the update did not touch, is `NotFound`; a name that another
/// department has is a `Conflict`, from the check or from the store's own
/// constraint; otherwise the row is changed and the answer has status 200.
pub open spec fn renaming_advanced(
    step: Step<DepartmentRenaming, DepartmentResponse>,
    state: DepartmentRenaming,
    ctx: Context,
    reply: StoreReply,
) -> bool {
    match (state, reply) {
        (_, StoreReply::Failed(f)) => step.fails_with(surfaced(f, name_taken())),
        (DepartmentRenaming::Locating { .. }, StoreReply::Exists(found)) => if !found {
            step.fails_with(department_missing())
        } else {
            &&& step matches Step::Ask { state: next, statement, fetch }
            &&& next is CheckingName
            &&& next.id() == state.id()
            &&& next.name() == state.name()
            &&& statement@ == other_department_named(state.name(), state.id())
            &&& fetch == Fetch::Exists
        },
        (DepartmentRenaming::CheckingName { .. }, StoreReply::Exists(taken)) => if taken {
            step.fails_with(failure(ErrorKind::Conflict, name_taken()))
        } else {
            &&& step matches Step::Ask { state: next, statement, fetch }
            &&& next is Updating
            &&& next.id() == state.id()
            &&& next.name() == state.name()
            &&& statement@ == department_renaming(state.id(), state.name(), ctx.now)
            &&& fetch == Fetch::Execute
        },
        (DepartmentRenaming::Updating { .. }, StoreReply::Affected(rows)) => if rows == 0 {
            step.fails_with(department_missing())
        } else {
            &&& step matches Step::Done { status, body }
            &&& status == 200
            &&& body.department_id@ == state.id()
            &&& body.name@ == state.name()
        },
        _ => step.fails_with(unexpected_reply()),
    }
}

/// Opens the renaming of a department for a request whose authorization
/// had the given outcome, where `department` is the identifier that the
/// path spelled, if any.
pub fn update_department_with(
    admission: Result<Identity, AppError>,
    department: Option<String>,
    payload: &DepartmentUpdate,
) -> (step: Step<DepartmentRenaming, DepartmentResponse>)
    ensures
        renaming_opened(step, admission_view(admission), chars_of(department), *payload),
{
    match enter(admission, payload) {
        Err(e) => Step::Failed(e),
        Ok(_) => match department {
            None => fail(ErrorKind::BadRequest, "Invalid department ID"),
            Some(id) => {
                let statement = bind1(
                    "SELECT * FROM departments WHERE department_id = $1",
                    SqlValue::Uuid(id.clone()),
                );
                Step::Ask {
                    state: DepartmentRenaming::Locating {
                        department_id: id,
                        name: payload.name.clone(),
                    },
                    statement,
                    fetch: Fetch::Exists,
                }
            },
        },
    }
}

/// Opens the renaming of the department with the given identifier:
/// authorizes the request by its header, reads the identifier, and goes on
/// as `update_department_with`.
pub fn update_department(
    ctx: &Context,
    header: Option<&str>,
    department_id: &str,
    payload: &DepartmentUpdate,
) -> (step: Step<DepartmentRenaming, DepartmentResponse>)
    ensures
        renaming_opened(
            step,
            admitted(slice_chars(header), ctx.secret@, ctx.now),
            uuid_canonical(department_id@),
            *payload,
        ),
{
    update_department_with(
        authorize(header, ctx.secret.as_str(), ctx.now),
        parse_uuid(department_id),
        payload,
    )
}

impl DepartmentRenaming {
    /// Takes the store's reply and decides the next step.
    pub fn advance(self, ctx: &Context, reply: StoreReply) -> (step: Step<
        DepartmentRenaming,
        DepartmentResponse,
    >)
        ensures
            renaming_advanced(step, self, *ctx, reply),
    {
        match (self, reply) {
            (_, StoreReply::Failed(f)) => Step::Failed(
                map_store_failure(&f, "Department name already exists"),
            ),
            (DepartmentRenaming::Locating { department_id, name }, StoreReply::Exists(found)) => {
                if !found {
                    fail(ErrorKind::NotFound, "Department not found")
                } else {
                    let statement = bind2(
                        "SELECT name FROM departments WHERE name = $1 AND department_id != $2",
                        SqlValue::Text(name.clone()),
                        SqlValue::Uuid(department_id.clone()),
                    );
                    Step::Ask {
                        state: DepartmentRenaming::CheckingName { department_id, name },
                        statement,
                        fetch: Fetch::Exists,
                    }
                }
            },
            (
                DepartmentRenaming::CheckingName { department_id, name },
                StoreReply::Exists(taken),
            ) => {
                if taken {
                    fail(ErrorKind::Conflict, "Department name already exists")
                } else {
                    let statement = rename_statement(&department_id, &name, ctx.now);
                    Step::Ask {
                        state: DepartmentRenaming::Updating { department_id, name },
                        statement,
                        fetch: Fetch::Execute,
                    }
                }
            },
            (DepartmentRenaming::Updating { department_id, name }, StoreReply::Affected(rows)) => {
                if rows == 0 {
                    fail(ErrorKind::NotFound, "Department not found")
                } else {
                    Step::Done { status: 200, body: DepartmentResponse { department_id, name } }
                }
            },
            _ => fail_unexpected(),
        }
    }
}

/// Where the deletion of a department stands.
#[derive(Debug, Clone, PartialEq, Eq)]
pub enum DepartmentDeletion {
    /// The store was asked whether the department exists.
    Locating { department_id: String },
    /// The store was asked whether an employee refers to the department.
    CheckingEmployees { department_id: String },
    /// The store was asked to delete the row.
    Deleting { department_id: String },
}

impl DepartmentDeletion {
    /// The identifier of the department being deleted.
    pub open spec fn id(self) -> Seq<char> {
        match self {
            DepartmentDeletion::Locating { department_id } => department_id@,
            DepartmentDeletion::CheckingEmployees { department_id } => department_id@,
            DepartmentDeletion::Deleting { department_id } => department_id@,
        }
    }
}

/// What opening a deletion decides, given the outcome of authorization and
/// what the identifier in the path read as: a refusal stands, then a path
/// that spells no identifier is a client error, then the store is asked
/// whether the department exists.
pub open spec fn deletion_opened(
    step: Step<DepartmentDeletion, Notice>,
    admission: Result<Seq<char>, ErrorView>,
    department: Option<Seq<char>>,
) -> bool {
    match admission {
        Err(e) => step.fails_with(e),
        Ok(_) => match department {
            None => step.fails_with(failure(ErrorKind::BadRequest, "Invalid department ID"@)),
            Some(id) => {
                &&& step matches Step::Ask { state, statement, fetch }
                &&& state is Locating
                &&& state.id() == id
                &&& statement@ == department_with_id(id)
                &&& fetch == Fetch::Exists
            },
        },
    }
}

/// What a deletion decides on a reply of the store. A department that is not
/// there, or that the delete did not touch, is `NotFound`; one that an
/// employee refers to is a `Conflict` and stays, whether the check finds the
/// employee or the store's own constraint does; otherwise the row is deleted
/// and the answer has status 200.
pub open spec fn deletion_advanced(
    step: Step<DepartmentDeletion, Notice>,
    state: DepartmentDeletion,
    reply: StoreReply,
) -> bool {
    match (state, reply) {
        (_, StoreReply::Failed(f)) => step.fails_with(surfaced(f, still_staffed())),
        (DepartmentDeletion::Locating { .. }, StoreReply::Exists(found)) => if !found {
            step.fails_with(department_missing())
        } else {
            &&& step matches Step::Ask { state: next, statement, fetch }
            &&& next is CheckingEmployees
            &&& next.id() == state.id()
            &&& statement@ == employees_of(state.id())
            &&& fetch == Fetch::Exists
        },
        (DepartmentDeletion::CheckingEmployees { .. }, StoreReply::Exists(staffed)) => if staffed {
            step.fails_with(failure(ErrorKind::Conflict, still_staffed()))
        } else {
            &&& step matches Step::Ask { state: next, statement, fetch }
            &&& next is Deleting
            &&& next.id() == state.id()
            &&& statement@ == department_deletion(state.id())
            &&& fetch == Fetch::Execute
        },
        (DepartmentDeletion::Deleting { .. }, StoreReply::Affected(rows)) => if rows == 0 {
            step.fails_with(department_missing())
        } else {
            &&& step matches Step::Done { status, body }
            &&& status == 200
            &&& body.message@ == "Department deleted successfully"@
        },
        _ => step.fails_with(unexpected_reply()),
    }
}

/// Opens the deletion of a department for a request whose authorization
/// had the given outcome, where `department` is the identifier that the
/// path spelled, if any.
pub fn delete_department_with(admission: Result<Identity, AppError>, department: Option<String>) -> (step:
    Step<DepartmentDeletion, Notice>)
    ensures
        deletion_opened(step, admission_view(admission), chars_of(department)),
{
    match admission {
        Err(e) => Step::Failed(e),
        Ok(_) => match department {
            None => fail(ErrorKind::BadRequest, "Invalid department ID"),
            Some(id) => {
                let statement = bind1(
                    "SELECT * FROM departments WHERE department_id = $1",
                    SqlValue::Uuid(id.clone()),
                );
                Step::Ask {
                    state: DepartmentDeletion::Locating { department_id: id },
                    statement,
                    fetch: Fetch::Exists,
                }
            },
        },
    }
}

/// Opens the deletion of the department with the given identifier:
/// authorizes the request by its header, reads the identifier, and goes on
/// as `delete_department_with`.
pub fn delete_department(ctx: &Context, header: Option<&str>, department_id: &str) -> (step: Step<
    DepartmentDeletion,
    Notice,
>)
    ensures
        deletion_opened(
            step,
            admitted(slice_chars(header), ctx.secret@, ctx.now),
            uuid_canonical(department_id@),
        ),
{
    delete_department_with(
        authorize(header, ctx.secret.as_str(), ctx.now),
        parse_uuid(department_id),
    )
}

impl DepartmentDeletion {
    /// Takes the store's reply and decides the next step.
    pub fn advance(self, reply: StoreReply) -> (step: Step<DepartmentDeletion, Notice>)
        ensures
            deletion_advanced(step, self, reply),
    {
        match (self, reply) {
            (_, StoreReply::Failed(f)) => Step::Failed(
                map_store_failure(&f, "Department still contains employees"),
            ),
            (DepartmentDeletion::Locating { department_id }, StoreReply::Exists(found)) => {
                if !found {
                    fail(ErrorKind::NotFound, "Department not found")
                } else {
                    let statement = bind1(
                        "SELECT * FROM employees WHERE department_id = $1",
                        SqlValue::Uuid(department_id.clone()),
                    );
                    Step::Ask {
                        state: DepartmentDeletion::CheckingEmployees { department_id },
                        statement,
                        fetch: Fetch::Exists,
                    }
                }
            },
            (
                DepartmentDeletion::CheckingEmployees { department_id },
                StoreReply::Exists(staffed),
            ) => {
                if staffed {
                    fail(ErrorKind::Conflict, "Department still contains employees")
                } else {
                    let statement = bind1(
                        "DELETE FROM departments WHERE department_id = $1",
                        SqlValue::Uuid(department_id.clone()),
                    );
                    Step::Ask {
                        state: DepartmentDeletion::Deleting { department_id },
                        statement,
                        fetch: Fetch::Execute,
                    }
                }
            },
            (DepartmentDeletion::Deleting { .. }, StoreReply::Affected(rows)) => {
                if rows == 0 {
                    fail(ErrorKind::NotFound, "Department not found")
                } else {
                    Step::Done {
                        status: 200,
                        body: Notice {
                            message: String::from_str("Department deleted successfully"),
                        },
                    }
                }
            },
            _ => fail_unexpected(),
        }
    }
}

/// Deleting what is gone is `NotFound`, never success: where the store
/// finds no such department, or the delete touches no row, the deletion
/// fails with `NotFound` and asks the store nothing more.
pub proof fn lemma_deleting_what_is_gone_is_not_found(
    step: Step<DepartmentDeletion, Notice>,
    state: DepartmentDeletion,
    reply: StoreReply,
)
    requires
        deletion_advanced(step, state, reply),
        (state is Locating && reply == StoreReply::Exists(false)) || (state is Deleting && reply
            == StoreReply::Affected(0)),
    ensures
        step.fails_with(department_missing()),
        !step.issues_statement(),
{
}

/// A department that an employee refers to is never deleted: where the
/// store finds such an employee, the deletion fails with `Conflict` and
/// issues no delete.
pub proof fn lemma_staffed_department_stays(
    step: Step<DepartmentDeletion, Notice>,
    department_id: String,
    reply: StoreReply,
)
    requires
        deletion_advanced(step, DepartmentDeletion::CheckingEmployees { department_id }, reply),
        reply == StoreReply::Exists(true),
    ensures
        step.fails_with(failure(ErrorKind::Conflict, still_staffed())),
        !step.issues_statement(),
{
}

/// The number of values that a listing binds is the number of filters and
/// pagination values that are present, and the name's pattern, where the
/// name is present, is bound first.
pub proof fn lemma_listing_binds_what_is_present(
    name: Option<Seq<char>>,
    limit: Option<i64>,
    offset: Option<i64>,
)
    ensures
        department_listing(name, limit, offset).params.len() == supplied(name) + supplied(limit)
            + supplied(offset),
        name matches Some(n) ==> department_listing(name, limit, offset).params[0] == Param::Text(
            "%"@ + n + "%"@,
        ),
{
}

/// For every combination of filter and pagination, the listing that is
/// issued writes exactly one placeholder for each value that it binds.
pub proof fn lemma_listing_placeholders_match_values(
    name: Option<Seq<char>>,
    limit: Option<i64>,
    offset: Option<i64>,
)
    ensures
        occurrences(department_listing(name, limit, offset).sql, '$') == department_listing(
            name,
            limit,
            offset,
        ).params.len(),
{
    reveal_strlit("name ILIKE");
    reveal_strlit("SELECT * FROM departments");
    reveal_strlit(" ORDER BY created_at DESC");
    lemma_filter_placeholders_match_values(
        FilterQueryView {
            base: "SELECT * FROM departments"@,
            filters: department_filters(name),
            order: " ORDER BY created_at DESC"@,
            limit,
            offset,
        },
    );
}

/// The store is asked nothing on behalf of a caller who is not authorized,
/// nor for a payload that violates its rules: whichever handler of this
/// module issues a statement, authorization had succeeded.
pub proof fn lemma_statements_need_authorization(
    admission: Result<Seq<char>, ErrorView>,
    department: Option<Seq<char>>,
    created: (Step<DepartmentCreation, DepartmentResponse>, NewDepartment),
    listed: (Step<DepartmentListing, Vec<Department>>, DepartmentQueryParams),
    renamed: (Step<DepartmentRenaming, DepartmentResponse>, DepartmentUpdate),
    deleted: Step<DepartmentDeletion, Notice>,
)
    requires
        creation_opened(created.0, admission, created.1),
        listing_opened(listed.0, admission, listed.1),
        renaming_opened(renamed.0, admission, department, renamed.1),
        deletion_opened(deleted, admission, department),
    ensures
        created.0.issues_statement() ==> admission is Ok && created.1.violations().len() == 0,
        listed.0.issues_statement() ==> admission is Ok,
        renamed.0.issues_statement() ==> admission is Ok && renamed.1.violations().len() == 0,
        deleted.issues_statement() ==> admission is Ok,
{
}

} // verus!
