//! Employees: create, list, partial update, delete.

use crate::authorization::{admission_view, admitted, authorize, Context, Identity};
use crate::errors::{map_store_failure, surfaced, AppError, ErrorKind, ErrorView};
use crate::handlers::{enter, entered};
use crate::models::employee::Employee;
use crate::query::{
    binding_if, filter_statement, lemma_filter_placeholders_match_values,
    lemma_filter_text_ignores_values, lemma_update_placeholders_match_values, occurrences, plain,
    plain_fragments, supplied, text_param, text_value, update_statement, uuid_param, uuid_value,
    BindingView, FilterQuery, FilterQueryView, Param, SqlValue, Statement, StatementView,
    UpdateStatement, UpdateStatementView,
};
use crate::store::{
    bind1, bind_all, fail, fail_unexpected, failure, generic_conflict, statement1, unexpected_reply,
    Fetch, Notice, Step, StoreReply,
};
use crate::utils::ident::{parse_uuid, uuid_canonical};
use crate::utils::text::{chars_of, join2, join3, slice_chars};
use crate::utils::validation::{
    check_optional, check_required, conclude, optional, required, Field, Rule, Validate,
    ValidationError, Violation,
};
use vstd::prelude::*;
use vstd::string::*;

verus! {

/// The payload that creates an employee.
#[derive(Debug, Clone, PartialEq, Eq)]
pub struct NewEmployee {
    pub identity_number: String,
    pub name: String,
    pub employee_image_uri: Option<String>,
    pub gender: String,
    pub department_id: String,
}

/// An employee as the create response shows it: the submitted values.
#[derive(Debug, Clone, PartialEq, Eq)]
pub struct EmployeeResponse {
    pub identity_number: String,
    pub name: String,
    pub employee_image_uri: Option<String>,
    pub gender: String,
    pub department_id: String,
}

/// The filters and pagination of an employee listing.
#[derive(Debug, Clone, PartialEq, Eq)]
pub struct EmployeeQueryParams {
    pub identity_number: Option<String>,
    pub name: Option<String>,
    pub gender: Option<String>,
    pub department_id: Option<String>,
    pub limit: Option<i64>,
    pub offset: Option<i64>,
}

/// The payload of a partial update: only the fields to change are present.
#[derive(Debug, Clone, PartialEq, Eq)]
pub struct EmployeeUpdate {
    pub identity_number: Option<String>,
    pub name: Option<String>,
    pub employee_image_uri: Option<String>,
    pub gender: Option<String>,
    pub department_id: Option<String>,
}

/// The rule on an identity number.
pub open spec fn identity_rule() -> Rule {
    Rule::Length { min: 5, max: 33 }
}

/// The rule on an employee's name.
pub open spec fn name_rule() -> Rule {
    Rule::Length { min: 4, max: 33 }
}

/// The rule on a department reference: as long as an identifier in its
/// hyphenated form.
pub open spec fn reference_rule() -> Rule {
    Rule::Length { min: 36, max: 36 }
}

impl Validate for NewEmployee {
    open spec fn violations(&self) -> Seq<Violation> {
        required(Field::IdentityNumber, identity_rule(), self.identity_number@) + required(
            Field::Name,
            name_rule(),
            self.name@,
        ) + optional(Field::EmployeeImageUri, Rule::Url, chars_of(self.employee_image_uri))
            + required(Field::Gender, Rule::Gender, self.gender@) + required(
            Field::DepartmentId,
            reference_rule(),
            self.department_id@,
        )
    }

    fn validate(&self) -> (result: Result<(), ValidationError>) {
        let mut found: Vec<Violation> = Vec::new();
        check_required(
            &mut found,
            Field::IdentityNumber,
            Rule::Length { min: 5, max: 33 },
            self.identity_number.as_str(),
        );
        check_required(&mut found, Field::Name, Rule::Length { min: 4, max: 33 }, self.name.as_str());
        check_optional(&mut found, Field::EmployeeImageUri, Rule::Url, &self.employee_image_uri);
        check_required(&mut found, Field::Gender, Rule::Gender, self.gender.as_str());
        check_required(
            &mut found,
            Field::DepartmentId,
            Rule::Length { min: 36, max: 36 },
            self.department_id.as_str(),
        );
        assert(found@ =~= self.violations());
        conclude(found)
    }
}

impl Validate for EmployeeUpdate {
    open spec fn violations(&self) -> Seq<Violation> {
        optional(Field::IdentityNumber, identity_rule(), chars_of(self.identity_number)) + optional(
            Field::Name,
            name_rule(),
            chars_of(self.name),
        ) + optional(Field::EmployeeImageUri, Rule::Url, chars_of(self.employee_image_uri))
            + optional(Field::Gender, Rule::Gender, chars_of(self.gender)) + optional(
            Field::DepartmentId,
            reference_rule(),
            chars_of(self.department_id),
        )
    }

    fn validate(&self) -> (result: Result<(), ValidationError>) {
        let mut found: Vec<Violation> = Vec::new();
        check_optional(
            &mut found,
            Field::IdentityNumber,
            Rule::Length { min: 5, max: 33 },
            &self.identity_number,
        );
        check_optional(&mut found, Field::Name, Rule::Length { min: 4, max: 33 }, &self.name);
        check_optional(&mut found, Field::EmployeeImageUri, Rule::Url, &self.employee_image_uri);
        check_optional(&mut found, Field::Gender, Rule::Gender, &self.gender);
        check_optional(
            &mut found,
            Field::DepartmentId,
            Rule::Length { min: 36, max: 36 },
            &self.department_id,
        );
        assert(found@ =~= self.violations());
        conclude(found)
    }
}

impl EmployeeUpdate {
    /// Whether no field is present, so that there is nothing to change.
    pub open spec fn is_blank(self) -> bool {
        &&& self.identity_number is None
        &&& self.name is None
        &&& self.employee_image_uri is None
        &&& self.gender is None
        &&& self.department_id is None
    }

    /// Computes `is_blank`.
    pub fn blank(&self) -> (b: bool)
        ensures
            b == self.is_blank(),
    {
        self.identity_number.is_none() && self.name.is_none() && self.employee_image_uri.is_none()
            && self.gender.is_none() && self.department_id.is_none()
    }
}

/// The message for an insert or update that a constraint of the store refuses.
pub open spec fn employee_conflict() -> Seq<char> {
    "Identity number already exists or department not found"@
}

/// The failure for an employee that is not there.
pub open spec fn employee_missing() -> ErrorView {
    failure(ErrorKind::NotFound, "Employee not found"@)
}

/// The failure for a department reference that spells no identifier.
pub open spec fn bad_reference() -> ErrorView {
    failure(ErrorKind::BadRequest, "Invalid department ID"@)
}

/// The statement that looks for the employee with the given identity number.
pub open spec fn employee_numbered(identity_number: Seq<char>) -> StatementView {
    statement1(
        "SELECT * FROM employees WHERE identity_number = $1"@,
        Param::Text(identity_number),
    )
}

/// The statement that deletes the employee with the given identity number.
pub open spec fn employee_deletion(identity_number: Seq<char>) -> StatementView {
    statement1("DELETE FROM employees WHERE identity_number = $1"@, Param::Text(identity_number))
}

/// The statement that inserts an employee created at `now`: an absent image
/// is stored as null, the department by its canonical identifier.
pub open spec fn employee_insertion(
    id: Seq<char>,
    payload: NewEmployee,
    department: Seq<char>,
    now: i64,
) -> StatementView {
    StatementView {
        sql: "INSERT INTO employees (employee_id, identity_number, name, employee_image_uri, gender, department_id, created_at, updated_at) VALUES ($1, $2, $3, $4, $5, $6, $7, $8)"@,
        params: seq![
            Param::Uuid(id),
            Param::Text(payload.identity_number@),
            Param::Text(payload.name@),
            match payload.employee_image_uri {
                Some(uri) => Param::Text(uri@),
                None => Param::Null,
            },
            Param::Text(payload.gender@),
            Param::Uuid(department),
            Param::Timestamp(now),
            Param::Timestamp(now),
        ],
    }
}

/// The pattern that matches texts beginning with `text`.
pub open spec fn prefix_pattern(text: Option<Seq<char>>) -> Option<Seq<char>> {
    match text {
        Some(t) => Some(t + "%"@),
        None => None,
    }
}

/// The pattern that matches texts holding `text`.
pub open spec fn substring_pattern(text: Option<Seq<char>>) -> Option<Seq<char>> {
    match text {
        Some(t) => Some("%"@ + t + "%"@),
        None => None,
    }
}

/// The filters of an employee listing, each only where it is present, in
/// this fixed order: the identity number as a case-insensitive prefix, the
/// name as a case-insensitive substring, the gender and the department
/// exactly.
pub open spec fn employee_filters(
    identity_number: Option<Seq<char>>,
    name: Option<Seq<char>>,
    gender: Option<Seq<char>>,
    department: Option<Seq<char>>,
) -> Seq<BindingView> {
    binding_if("identity_number ILIKE"@, text_param(prefix_pattern(identity_number))) + binding_if(
        "name ILIKE"@,
        text_param(substring_pattern(name)),
    ) + binding_if("gender ="@, text_param(gender)) + binding_if(
        "department_id ="@,
        uuid_param(department),
    )
}

/// The statement that lists employees, newest first.
pub open spec fn employee_listing(
    identity_number: Option<Seq<char>>,
    name: Option<Seq<char>>,
    gender: Option<Seq<char>>,
    department: Option<Seq<char>>,
    limit: Option<i64>,
    offset: Option<i64>,
) -> StatementView {
    filter_statement(
        FilterQueryView {
            base: "SELECT * FROM employees"@,
            filters: employee_filters(identity_number, name, gender, department),
            order: " ORDER BY created_at DESC"@,
            limit,
            offset,
        },
    )
}

/// The assignments of a partial update, each only where its field is
/// present, in the order of the fields.
pub open spec fn employee_assignments(
    changes: EmployeeUpdate,
    department: Option<Seq<char>>,
) -> Seq<BindingView> {
    binding_if("identity_number"@, text_param(chars_of(changes.identity_number))) + binding_if(
        "name"@,
        text_param(chars_of(changes.name)),
    ) + binding_if("employee_image_uri"@, text_param(chars_of(changes.employee_image_uri)))
        + binding_if("gender"@, text_param(chars_of(changes.gender))) + binding_if(
        "department_id"@,
        uuid_param(department),
    )
}

/// The statement that changes the present fields of the employee with the
/// given identity number and refreshes its `updated_at`.
pub open spec fn employee_revision(
    target: Seq<char>,
    changes: EmployeeUpdate,
    department: Option<Seq<char>>,
    now: i64,
) -> StatementView {
    update_statement(
        UpdateStatementView {
            table: "employees"@,
            assignments: employee_assignments(changes, department),
            key_column: "identity_number"@,
            key: Param::Text(target),
        },
        now,
    )
}

/// What a department reference that may be absent reads as: `None` where it
/// is present and spells no identifier, else the canonical identifier, if any.
pub open spec fn reference_read(text: Option<Seq<char>>) -> Option<Option<Seq<char>>> {
    match text {
        None => Some(None),
        Some(t) => match uuid_canonical(t) {
            Some(id) => Some(Some(id)),
            None => None,
        },
    }
}

/// The content of a department reference as it was read.
pub open spec fn reference_view(read: Option<Option<String>>) -> Option<Option<Seq<char>>> {
    match read {
        Some(id) => Some(chars_of(id)),
        None => None,
    }
}

/// Reads a department reference that may be absent.
pub fn read_reference(text: &Option<String>) -> (read: Option<Option<String>>)
    ensures
        reference_view(read) == reference_read(chars_of(*text)),
{
    match text {
        None => Some(None),
        Some(t) => match parse_uuid(t.as_str()) {
            Some(id) => Some(Some(id)),
            None => None,
        },
    }
}

/// Builds `employee_insertion`.
fn insert_statement(id: &String, payload: &NewEmployee, department: &String, now: i64) -> (statement:
    Statement)
    ensures
        statement@ == employee_insertion(id@, *payload, department@, now),
{
    let mut params: Vec<SqlValue> = Vec::new();
    params.push(SqlValue::Uuid(id.clone()));
    params.push(SqlValue::Text(payload.identity_number.clone()));
    params.push(SqlValue::Text(payload.name.clone()));
    params.push(
        match &payload.employee_image_uri {
            Some(uri) => SqlValue::Text(uri.clone()),
            None => SqlValue::Null,
        },
    );
    params.push(SqlValue::Text(payload.gender.clone()));
    params.push(SqlValue::Uuid(department.clone()));
    params.push(SqlValue::Timestamp(now));
    params.push(SqlValue::Timestamp(now));
    let statement = bind_all(
        "INSERT INTO employees (employee_id, identity_number, name, employee_image_uri, gender, department_id, created_at, updated_at) VALUES ($1, $2, $3, $4, $5, $6, $7, $8)",
        params,
    );
    assert(statement@.params =~= employee_insertion(id@, *payload, department@, now).params);
    statement
}

/// Builds `employee_listing` for a department that was already read.
fn list_statement(query: &EmployeeQueryParams, department: &Option<String>) -> (statement:
    Statement)
    ensures
        statement@ == employee_listing(
            chars_of(query.identity_number),
            chars_of(query.name),
            chars_of(query.gender),
            chars_of(*department),
            query.limit,
            query.offset,
        ),
{
    let mut q = FilterQuery::new("SELECT * FROM employees", " ORDER BY created_at DESC");
    let by_number = match &query.identity_number {
        Some(t) => Some(SqlValue::Text(join2(t.as_str(), "%"))),
        None => None,
    };
    let by_name = match &query.name {
        Some(t) => Some(SqlValue::Text(join3("%", t.as_str(), "%"))),
        None => None,
    };
    q.filter_if("identity_number ILIKE", by_number);
    q.filter_if("name ILIKE", by_name);
    q.filter_if("gender =", text_value(&query.gender));
    q.filter_if("department_id =", uuid_value(department));
    q.paginate(query.limit, query.offset);
    assert(q@.filters =~= employee_filters(
        chars_of(query.identity_number),
        chars_of(query.name),
        chars_of(query.gender),
        chars_of(*department),
    ));
    q.render()
}

/// Builds `employee_revision`, or `None` where no field is present.
fn revise_statement(
    target: &String,
    changes: &EmployeeUpdate,
    department: &Option<String>,
    now: i64,
) -> (statement: Option<Statement>)
    ensures
        statement is None <==> employee_assignments(*changes, chars_of(*department)).len() == 0,
        statement matches Some(s) ==> s@ == employee_revision(
            target@,
            *changes,
            chars_of(*department),
            now,
        ),
{
    let mut update = UpdateStatement::new(
        "employees",
        "identity_number",
        SqlValue::Text(target.clone()),
    );
    update.set_if("identity_number", text_value(&changes.identity_number));
    update.set_if("name", text_value(&changes.name));
    update.set_if("employee_image_uri", text_value(&changes.employee_image_uri));
    update.set_if("gender", text_value(&changes.gender));
    update.set_if("department_id", uuid_value(department));
    assert(update@.assignments =~= employee_assignments(*changes, chars_of(*department)));
    update.render(now)
}

/// Where the creation of an employee stands.
#[derive(Debug, Clone, PartialEq, Eq)]
pub enum EmployeeCreation {
    /// The store was asked whether the identity number is taken.
    CheckingNumber { payload: NewEmployee, department: String },
    /// The store was asked to insert the row.
    Inserting { payload: NewEmployee },
}

/// What opening the creation of an employee decides, given the outcome of
/// authorization and what the department reference read as: a refusal
/// stands, then the payload is held to its rules, then a reference that
/// spells no identifier is a client error, then the store is asked whether
/// the identity number is taken.
pub open spec fn creation_opened(
    step: Step<EmployeeCreation, EmployeeResponse>,
    admission: Result<Seq<char>, ErrorView>,
    payload: NewEmployee,
    department: Option<Seq<char>>,
) -> bool {
    match entered(admission, payload.violations()) {
        Err(e) => step.fails_with(e),
        Ok(_) => match department {
            None => step.fails_with(bad_reference()),
            Some(id) => {
                &&& step matches Step::Ask { state, statement, fetch }
                &&& state matches EmployeeCreation::CheckingNumber { payload: kept, department }
                &&& kept == payload
                &&& department@ == id
                &&& statement@ == employee_numbered(payload.identity_number@)
                &&& fetch == Fetch::Exists
            },
        },
    }
}

/// What the creation of an employee decides on a reply of the store. An
/// identity number that is taken is a `Conflict`, as is an insert that a
/// constraint of the store refuses; otherwise the row is inserted with the
/// submitted values under the context's fresh identifier, and the answer,
/// with status 201, shows the submitted values.
pub open spec fn creation_advanced(
    step: Step<EmployeeCreation, EmployeeResponse>,
    state: EmployeeCreation,
    ctx: Context,
    reply: StoreReply,
) -> bool {
    match (state, reply) {
        (_, StoreReply::Failed(f)) => step.fails_with(surfaced(f, employee_conflict())),
        (EmployeeCreation::CheckingNumber { payload, department }, StoreReply::Exists(taken)) => {
            if taken {
                step.fails_with(failure(ErrorKind::Conflict, "Identity number already exists"@))
            } else {
                &&& step matches Step::Ask { state: next, statement, fetch }
                &&& next matches EmployeeCreation::Inserting { payload: kept }
                &&& kept == payload
                &&& statement@ == employee_insertion(ctx.fresh_id@, payload, department@, ctx.now)
                &&& fetch == Fetch::Execute
            }
        },
        (EmployeeCreation::Inserting { payload }, StoreReply::Affected(_)) => {
            &&& step matches Step::Done { status, body }
            &&& status == 201
            &&& body.identity_number == payload.identity_number
            &&& body.name == payload.name
            &&& body.employee_image_uri == payload.employee_image_uri
            &&& body.gender == payload.gender
            &&& body.department_id == payload.department_id
        },
        _ => step.fails_with(unexpected_reply()),
    }
}

/// Opens the creation of an employee for a request whose authorization had
/// the given outcome, where `department` is the identifier that the
/// payload's department reference spelled, if any.
pub fn create_employee_with(
    admission: Result<Identity, AppError>,
    payload: NewEmployee,
    department: Option<String>,
) -> (step: Step<EmployeeCreation, EmployeeResponse>)
    ensures
        creation_opened(step, admission_view(admission), payload, chars_of(department)),
{
    match enter(admission, &payload) {
        Err(e) => Step::Failed(e),
        Ok(_) => match department {
            None => fail(ErrorKind::BadRequest, "Invalid department ID"),
            Some(department) => {
                let statement = bind1(
                    "SELECT * FROM employees WHERE identity_number = $1",
                    SqlValue::Text(payload.identity_number.clone()),
                );
                Step::Ask {
                    state: EmployeeCreation::CheckingNumber { payload, department },
                    statement,
                    fetch: Fetch::Exists,
                }
            },
        },
    }
}

/// Opens the creation of an employee: authorizes the request by its
/// header, reads the department reference, and goes on as
/// `create_employee_with`.
pub fn create_employee(ctx: &Context, header: Option<&str>, payload: NewEmployee) -> (step: Step<
    EmployeeCreation,
    EmployeeResponse,
>)
    ensures
        creation_opened(
            step,
            admitted(slice_chars(header), ctx.secret@, ctx.now),
            payload,
            uuid_canonical(payload.department_id@),
        ),
{
    let department = parse_uuid(payload.department_id.as_str());
    create_employee_with(authorize(header, ctx.secret.as_str(), ctx.now), payload, department)
}

impl EmployeeCreation {
    /// Takes the store's reply and decides the next step.
    pub fn advance(self, ctx: &Context, reply: StoreReply) -> (step: Step<
        EmployeeCreation,
        EmployeeResponse,
    >)
        ensures
            creation_advanced(step, self, *ctx, reply),
    {
        match (self, reply) {
            (_, StoreReply::Failed(f)) => Step::Failed(
                map_store_failure(&f, "Identity number already exists or department not found"),
            ),
            (EmployeeCreation::CheckingNumber { payload, department }, StoreReply::Exists(taken)) => {
                if taken {
                    fail(ErrorKind::Conflict, "Identity number already exists")
                } else {
                    let statement = insert_statement(&ctx.fresh_id, &payload, &department, ctx.now);
                    Step::Ask {
                        state: EmployeeCreation::Inserting { payload },
                        statement,
                        fetch: Fetch::Execute,
                    }
                }
            },
            (EmployeeCreation::Inserting { payload }, StoreReply::Affected(_)) => Step::Done {
                status: 201,
                body: EmployeeResponse {
                    identity_number: payload.identity_number,
                    name: payload.name,
                    employee_image_uri: payload.employee_image_uri,
                    gender: payload.gender,
                    department_id: payload.department_id,
                },
            },
            _ => fail_unexpected(),
        }
    }
}

/// Where the listing of employees stands.
#[derive(Debug, Clone, PartialEq, Eq)]
pub enum EmployeeListing {
    /// The store was asked for the rows.
    Fetching,
}

/// What opening a listing decides, given the outcome of authorization and
/// what the department filter read as: a refusal stands, then a filter that
/// spells no identifier is a client error, then the filtered statement is
/// issued.
pub open spec fn listing_opened(
    step: Step<EmployeeListing, Vec<Employee>>,
    admission: Result<Seq<char>, ErrorView>,
    query: EmployeeQueryParams,
    department: Option<Option<Seq<char>>>,
) -> bool {
    match admission {
        Err(e) => step.fails_with(e),
        Ok(_) => match department {
            None => step.fails_with(bad_reference()),
            Some(department) => {
                &&& step matches Step::Ask { state, statement, fetch }
                &&& statement@ == employee_listing(
                    chars_of(query.identity_number),
                    chars_of(query.name),
                    chars_of(query.gender),
                    department,
                    query.limit,
                    query.offset,
                )
                &&& fetch == Fetch::Employees
            },
        },
    }
}

/// What a listing decides on a reply of the store: the rows are the answer.
pub open spec fn listing_advanced(
    step: Step<EmployeeListing, Vec<Employee>>,
    reply: StoreReply,
) -> bool {
    match reply {
        StoreReply::Failed(f) => step.fails_with(surfaced(f, generic_conflict())),
        StoreReply::Employees(rows) => {
            &&& step matches Step::Done { status, body }
            &&& status == 200
            &&& body == rows
        },
        _ => step.fails_with(unexpected_reply()),
    }
}

/// Opens the listing of employees for a request whose authorization had
/// the given outcome, where `department` is what the department filter
/// read as.
pub fn get_employees_with(
    admission: Result<Identity, AppError>,
    query: &EmployeeQueryParams,
    department: Option<Option<String>>,
) -> (step: Step<EmployeeListing, Vec<Employee>>)
    ensures
        listing_opened(step, admission_view(admission), *query, reference_view(department)),
{
    match admission {
        Err(e) => Step::Failed(e),
        Ok(_) => match department {
            None => fail(ErrorKind::BadRequest, "Invalid department ID"),
            Some(department) => Step::Ask {
                state: EmployeeListing::Fetching,
                statement: list_statement(query, &department),
                fetch: Fetch::Employees,
            },
        },
    }
}

/// Opens the listing of employees: authorizes the request by its header,
/// reads the department filter, and goes on as `get_employees_with`.
pub fn get_employees(ctx: &Context, header: Option<&str>, query: &EmployeeQueryParams) -> (step:
    Step<EmployeeListing, Vec<Employee>>)
    ensures
        listing_opened(
            step,
            admitted(slice_chars(header), ctx.secret@, ctx.now),
            *query,
            reference_read(chars_of(query.department_id)),
        ),
{
    get_employees_with(
        authorize(header, ctx.secret.as_str(), ctx.now),
        query,
        read_reference(&query.department_id),
    )
}

impl EmployeeListing {
    /// Takes the store's reply and decides the next step.
    pub fn advance(self, reply: StoreReply) -> (step: Step<EmployeeListing, Vec<Employee>>)
        ensures
            listing_advanced(step, reply),
    {
        match reply {
            StoreReply::Failed(f) => Step::Failed(
                map_store_failure(&f, "Conflict with existing data"),
            ),
            StoreReply::Employees(rows) => Step::Done { status: 200, body: rows },
            _ => fail_unexpected(),
        }
    }
}

/// Where the partial update of an employee stands.
#[derive(Debug, Clone, PartialEq, Eq)]
pub enum EmployeeRevision {
    /// The store was asked whether the employee exists.
    Locating { target: String, changes: EmployeeUpdate, department: Option<String> },
    /// The store was asked to change the row.
    Updating { target: String, changes: EmployeeUpdate },
    /// The store was asked for the row as it now is.
    Reading,
}

/// The identity number under which the employee is found once `changes`
/// are made: the new one where it changes, else the one it had.
pub open spec fn number_after(target: Seq<char>, changes: EmployeeUpdate) -> Seq<char> {
    match changes.identity_number {
        Some(number) => number@,
        None => target,
    }
}

/// What opening a partial update decides, given the outcome of
/// authorization and what the department reference read as: a refusal
/// stands, then the payload is held to its rules, then a payload with no
/// field is refused, then a reference that spells no identifier is a client
/// error, then the store is asked whether the employee exists.
pub open spec fn revision_opened(
    step: Step<EmployeeRevision, Employee>,
    admission: Result<Seq<char>, ErrorView>,
    identity_number: Seq<char>,
    payload: EmployeeUpdate,
    department: Option<Option<Seq<char>>>,
) -> bool {
    match entered(admission, payload.violations()) {
        Err(e) => step.fails_with(e),
        Ok(_) => if payload.is_blank() {
            step.fails_with(failure(ErrorKind::BadRequest, "No update fields provided"@))
        } else {
            match department {
                None => step.fails_with(bad_reference()),
                Some(read) => {
                    &&& step matches Step::Ask { state, statement, fetch }
                    &&& state matches EmployeeRevision::Locating { target, changes, department }
                    &&& target@ == identity_number
                    &&& changes == payload
                    &&& chars_of(department) == read
                    &&& statement@ == employee_numbered(identity_number)
                    &&& fetch == Fetch::Exists
                },
            }
        },
    }
}

/// What a partial update decides on a reply of the store. An employee that
/// is not there, that the update did not touch, or that cannot be read back
/// is `NotFound`; an update that a constraint of the store refuses is a
/// `Conflict`; otherwise only the present fields and `updated_at` are
/// assigned, and the answer is the row as the store then holds it.
pub open spec fn revision_advanced(
    step: Step<EmployeeRevision, Employee>,
    state: EmployeeRevision,
    ctx: Context,
    reply: StoreReply,
) -> bool {
    match (state, reply) {
        (_, StoreReply::Failed(f)) => step.fails_with(surfaced(f, employee_conflict())),
        (EmployeeRevision::Locating { target, changes, department }, StoreReply::Exists(found)) => {
            if !found {
                step.fails_with(employee_missing())
            } else if employee_assignments(changes, chars_of(department)).len() == 0 {
                step.fails_with(failure(ErrorKind::BadRequest, "No update fields provided"@))
            } else {
                &&& step matches Step::Ask { state: next, statement, fetch }
                &&& next matches EmployeeRevision::Updating { target: kept, changes: same }
                &&& kept@ == target@
                &&& same == changes
                &&& statement@ == employee_revision(
                    target@,
                    changes,
                    chars_of(department),
                    ctx.now,
                )
                &&& fetch == Fetch::Execute
            }
        },
        (EmployeeRevision::Updating { target, changes }, StoreReply::Affected(rows)) => {
            if rows == 0 {
                step.fails_with(employee_missing())
            } else {
                &&& step matches Step::Ask { state: next, statement, fetch }
                &&& next is Reading
                &&& statement@ == employee_numbered(number_after(target@, changes))
                &&& fetch == Fetch::Employee
            }
        },
        (EmployeeRevision::Reading, StoreReply::Employee(row)) => match row {
            None => step.fails_with(employee_missing()),
            Some(employee) => {
                &&& step matches Step::Done { status, body }
                &&& status == 200
                &&& body == employee
            },
        },
        _ => step.fails_with(unexpected_reply()),
    }
}

/// Opens the partial update of an employee for a request whose
/// authorization had the given outcome, where `department` is what the
/// payload's department reference read as.
pub fn update_employee_with(
    admission: Result<Identity, AppError>,
    identity_number: &str,
    payload: EmployeeUpdate,
    department: Option<Option<String>>,
) -> (step: Step<EmployeeRevision, Employee>)
    ensures
        revision_opened(
            step,
            admission_view(admission),
            identity_number@,
            payload,
            reference_view(department),
        ),
{
    match enter(admission, &payload) {
        Err(e) => Step::Failed(e),
        Ok(_) => {
            if payload.blank() {
                return fail(ErrorKind::BadRequest, "No update fields provided");
            }
            match department {
                None => fail(ErrorKind::BadRequest, "Invalid department ID"),
                Some(department) => {
                    let statement = bind1(
                        "SELECT * FROM employees WHERE identity_number = $1",
                        SqlValue::Text(String::from_str(identity_number)),
                    );
                    Step::Ask {
                        state: EmployeeRevision::Locating {
                            target: String::from_str(identity_number),
                            changes: payload,
                            department,
                        },
                        statement,
                        fetch: Fetch::Exists,
                    }
                },
            }
        },
    }
}

/// Opens the partial update of the employee with the given identity
/// number: authorizes the request by its header, reads the department
/// reference, and goes on as `update_employee_with`.
pub fn update_employee(
    ctx: &Context,
    header: Option<&str>,
    identity_number: &str,
    payload: EmployeeUpdate,
) -> (step: Step<EmployeeRevision, Employee>)
    ensures
        revision_opened(
            step,
            admitted(slice_chars(header), ctx.secret@, ctx.now),
            identity_number@,
            payload,
            reference_read(chars_of(payload.department_id)),
        ),
{
    let department = read_reference(&payload.department_id);
    update_employee_with(
        authorize(header, ctx.secret.as_str(), ctx.now),
        identity_number,
        payload,
        department,
    )
}

impl EmployeeRevision {
    /// Takes the store's reply and decides the next step.
    pub fn advance(self, ctx: &Context, reply: StoreReply) -> (step: Step<
        EmployeeRevision,
        Employee,
    >)
        ensures
            revision_advanced(step, self, *ctx, reply),
    {
        match (self, reply) {
            (_, StoreReply::Failed(f)) => Step::Failed(
                map_store_failure(&f, "Identity number already exists or department not found"),
            ),
            (
                EmployeeRevision::Locating { target, changes, department },
                StoreReply::Exists(found),
            ) => {
                if !found {
                    return fail(ErrorKind::NotFound, "Employee not found");
                }
                match revise_statement(&target, &changes, &department, ctx.now) {
                    None => fail(ErrorKind::BadRequest, "No update fields provided"),
                    Some(statement) => Step::Ask {
                        state: EmployeeRevision::Updating { target, changes },
                        statement,
                        fetch: Fetch::Execute,
                    },
                }
            },
            (EmployeeRevision::Updating { target, changes }, StoreReply::Affected(rows)) => {
                if rows == 0 {
                    return fail(ErrorKind::NotFound, "Employee not found");
                }
                let number = match changes.identity_number {
                    Some(number) => number,
                    None => target,
                };
                Step::Ask {
                    state: EmployeeRevision::Reading,
                    statement: bind1(
                        "SELECT * FROM employees WHERE identity_number = $1",
                        SqlValue::Text(number),
                    ),
                    fetch: Fetch::Employee,
                }
            },
            (EmployeeRevision::Reading, StoreReply::Employee(row)) => match row {
                None => fail(ErrorKind::NotFound, "Employee not found"),
                Some(employee) => Step::Done { status: 200, body: employee },
            },
            _ => fail_unexpected(),
        }
    }
}

/// Where the deletion of an employee stands.
#[derive(Debug, Clone, PartialEq, Eq)]
pub enum EmployeeDeletion {
    /// The store was asked whether the employee exists.
    Locating { identity_number: String },
    /// The store was asked to delete the row.
    Deleting,
}

/// What opening a deletion decides, given the outcome of authorization: a
/// refusal stands, then the store is asked whether the employee exists.
pub open spec fn deletion_opened(
    step: Step<EmployeeDeletion, Notice>,
    admission: Result<Seq<char>, ErrorView>,
    identity_number: Seq<char>,
) -> bool {
    match admission {
        Err(e) => step.fails_with(e),
        Ok(_) => {
            &&& step matches Step::Ask { state, statement, fetch }
            &&& state matches EmployeeDeletion::Locating { identity_number: kept }
            &&& kept@ == identity_number
            &&& statement@ == employee_numbered(identity_number)
            &&& fetch == Fetch::Exists
        },
    }
}

/// What a deletion decides on a reply of the store. An employee that is not
/// there, or that the delete did not touch, is `NotFound`; otherwise the row
/// is deleted and the answer has status 200.
pub open spec fn deletion_advanced(
    step: Step<EmployeeDeletion, Notice>,
    state: EmployeeDeletion,
    reply: StoreReply,
) -> bool {
    match (state, reply) {
        (_, StoreReply::Failed(f)) => step.fails_with(surfaced(f, generic_conflict())),
        (EmployeeDeletion::Locating { identity_number }, StoreReply::Exists(found)) => if !found {
            step.fails_with(employee_missing())
        } else {
            &&& step matches Step::Ask { state: next, statement, fetch }
            &&& next is Deleting
            &&& statement@ == employee_deletion(identity_number@)
            &&& fetch == Fetch::Execute
        },
        (EmployeeDeletion::Deleting, StoreReply::Affected(rows)) => if rows == 0 {
            step.fails_with(employee_missing())
        } else {
            &&& step matches Step::Done { status, body }
            &&& status == 200
            &&& body.message@ == "Employee deleted successfully"@
        },
        _ => step.fails_with(unexpected_reply()),
    }
}

/// Opens the deletion of an employee for a request whose authorization had
/// the given outcome.
pub fn delete_employee_with(admission: Result<Identity, AppError>, identity_number: &str) -> (step:
    Step<EmployeeDeletion, Notice>)
    ensures
        deletion_opened(step, admission_view(admission), identity_number@),
{
    match admission {
        Err(e) => Step::Failed(e),
        Ok(_) => Step::Ask {
            state: EmployeeDeletion::Locating { identity_number: String::from_str(identity_number) },
            statement: bind1(
                "SELECT * FROM employees WHERE identity_number = $1",
                SqlValue::Text(String::from_str(identity_number)),
            ),
            fetch: Fetch::Exists,
        },
    }
}

/// Opens the deletion of the employee with the given identity number:
/// authorizes the request by its header and goes on as
/// `delete_employee_with`.
pub fn delete_employee(ctx: &Context, header: Option<&str>, identity_number: &str) -> (step: Step<
    EmployeeDeletion,
    Notice,
>)
    ensures
        deletion_opened(
            step,
            admitted(slice_chars(header), ctx.secret@, ctx.now),
            identity_number@,
        ),
{
    delete_employee_with(authorize(header, ctx.secret.as_str(), ctx.now), identity_number)
}

impl EmployeeDeletion {
    /// Takes the store's reply and decides the next step.
    pub fn advance(self, reply: StoreReply) -> (step: Step<EmployeeDeletion, Notice>)
        ensures
            deletion_advanced(step, self, reply),
    {
        match (self, reply) {
            (_, StoreReply::Failed(f)) => Step::Failed(
                map_store_failure(&f, "Conflict with existing data"),
            ),
            (EmployeeDeletion::Locating { identity_number }, StoreReply::Exists(found)) => {
                if !found {
                    fail(ErrorKind::NotFound, "Employee not found")
                } else {
                    Step::Ask {
                        state: EmployeeDeletion::Deleting,
                        statement: bind1(
                            "DELETE FROM employees WHERE identity_number = $1",
                            SqlValue::Text(identity_number),
                        ),
                        fetch: Fetch::Execute,
                    }
                }
            },
            (EmployeeDeletion::Deleting, StoreReply::Affected(rows)) => {
                if rows == 0 {
                    fail(ErrorKind::NotFound, "Employee not found")
                } else {
                    Step::Done {
                        status: 200,
                        body: Notice { message: String::from_str("Employee deleted successfully") },
                    }
                }
            },
            _ => fail_unexpected(),
        }
    }
}

/// A partial update with no field present is refused and issues no
/// statement: whoever sent it, the store is not asked anything, and a
/// caller who is authorized is told `BadRequest`.
pub proof fn lemma_blank_update_is_refused(
    step: Step<EmployeeRevision, Employee>,
    admission: Result<Seq<char>, ErrorView>,
    identity_number: Seq<char>,
    payload: EmployeeUpdate,
    department: Option<Option<Seq<char>>>,
)
    requires
        payload.is_blank(),
        revision_opened(step, admission, identity_number, payload, department),
    ensures
        !step.issues_statement(),
        admission is Ok ==> step.fails_with(
            failure(ErrorKind::BadRequest, "No update fields provided"@),
        ),
{
    assert(payload.violations() =~= Seq::empty());
}

/// A state that holds no change to make never leads to a statement either.
pub proof fn lemma_blank_changes_issue_no_statement(
    step: Step<EmployeeRevision, Employee>,
    target: String,
    changes: EmployeeUpdate,
    ctx: Context,
    reply: StoreReply,
)
    requires
        changes.is_blank(),
        revision_advanced(
            step,
            EmployeeRevision::Locating { target, changes, department: None },
            ctx,
            reply,
        ),
    ensures
        !step.issues_statement(),
{
    assert(employee_assignments(changes, None) =~= Seq::empty());
}

/// The number of values that a listing binds is the number of filters and
/// pagination values that are present.
pub proof fn lemma_listing_binds_what_is_present(
    identity_number: Option<Seq<char>>,
    name: Option<Seq<char>>,
    gender: Option<Seq<char>>,
    department: Option<Seq<char>>,
    limit: Option<i64>,
    offset: Option<i64>,
)
    ensures
        employee_listing(identity_number, name, gender, department, limit, offset).params.len()
            == supplied(identity_number) + supplied(name) + supplied(gender) + supplied(
            department,
        ) + supplied(limit) + supplied(offset),
{
}

/// Each filter of a listing keeps its own value, whichever others are
/// present: its value is bound at the position that counts the present
/// filters before it, and that is the position its placeholder names.
pub proof fn lemma_listing_filters_keep_their_values(
    identity_number: Option<Seq<char>>,
    name: Option<Seq<char>>,
    gender: Option<Seq<char>>,
    department: Option<Seq<char>>,
    limit: Option<i64>,
    offset: Option<i64>,
)
    ensures
        ({
            let filters = employee_filters(identity_number, name, gender, department);
            let params = employee_listing(
                identity_number,
                name,
                gender,
                department,
                limit,
                offset,
            ).params;
            let at_name = supplied(identity_number) as int;
            let at_gender = at_name + supplied(name);
            let at_department = at_gender + supplied(gender);
            &&& identity_number matches Some(t) ==> filters[0].fragment == "identity_number ILIKE"@
                && params[0] == Param::Text(t + "%"@)
            &&& name matches Some(t) ==> filters[at_name].fragment == "name ILIKE"@
                && params[at_name] == Param::Text("%"@ + t + "%"@)
            &&& gender matches Some(t) ==> filters[at_gender].fragment == "gender ="@
                && params[at_gender] == Param::Text(t)
            &&& department matches Some(t) ==> filters[at_department].fragment
                == "department_id ="@ && params[at_department] == Param::Uuid(t)
        }),
{
}

/// What is inserted is what was submitted: the insert binds the submitted
/// identity number, name, image address and gender as they came, so that a
/// read of the row gives them back.
pub proof fn lemma_insertion_binds_the_submitted_values(
    id: Seq<char>,
    payload: NewEmployee,
    department: Seq<char>,
    now: i64,
)
    ensures
        ({
            let params = employee_insertion(id, payload, department, now).params;
            &&& params.len() == 8
            &&& params[1] == Param::Text(payload.identity_number@)
            &&& params[2] == Param::Text(payload.name@)
            &&& payload.employee_image_uri matches Some(uri) ==> params[3] == Param::Text(uri@)
            &&& payload.employee_image_uri is None ==> params[3] == Param::Null
            &&& params[4] == Param::Text(payload.gender@)
            &&& params[5] == Param::Uuid(department)
        }),
{
}

/// A partial update assigns only the fields that are present: a payload
/// with the name alone renders to a statement that sets the name and
/// `updated_at` and nothing else.
pub proof fn lemma_name_alone_changes_the_name_alone(
    target: Seq<char>,
    name: String,
    now: i64,
)
    ensures
        ({
            let changes = EmployeeUpdate {
                identity_number: None,
                name: Some(name),
                employee_image_uri: None,
                gender: None,
                department_id: None,
            };
            let statement = employee_revision(target, changes, None, now);
            &&& employee_assignments(changes, None) == seq![
                BindingView { fragment: "name"@, value: Param::Text(name@) },
            ]
            &&& statement.params == seq![
                Param::Text(name@),
                Param::Timestamp(now),
                Param::Text(target),
            ]
        }),
{
    let changes = EmployeeUpdate {
        identity_number: None,
        name: Some(name),
        employee_image_uri: None,
        gender: None,
        department_id: None,
    };
    assert(employee_assignments(changes, None) =~= seq![
        BindingView { fragment: "name"@, value: Param::Text(name@) },
    ]);
    assert(employee_revision(target, changes, None, now).params =~= seq![
        Param::Text(name@),
        Param::Timestamp(now),
        Param::Text(target),
    ]);
}

/// Deleting what is gone is `NotFound`, never success: where the store
/// finds no such employee, or the delete touches no row, the deletion fails
/// with `NotFound` and asks the store nothing more.
pub proof fn lemma_deleting_what_is_gone_is_not_found(
    step: Step<EmployeeDeletion, Notice>,
    state: EmployeeDeletion,
    reply: StoreReply,
)
    requires
        deletion_advanced(step, state, reply),
        (state is Locating && reply == StoreReply::Exists(false)) || (state is Deleting && reply
            == StoreReply::Affected(0)),
    ensures
        step.fails_with(employee_missing()),
        !step.issues_statement(),
{
}

/// The fragments of a listing hold no placeholder sign of their own.
proof fn lemma_filters_are_plain(
    identity_number: Option<Seq<char>>,
    name: Option<Seq<char>>,
    gender: Option<Seq<char>>,
    department: Option<Seq<char>>,
)
    ensures
        plain_fragments(employee_filters(identity_number, name, gender, department)),
        plain("SELECT * FROM employees"@),
        plain(" ORDER BY created_at DESC"@),
{
    reveal_strlit("identity_number ILIKE");
    reveal_strlit("name ILIKE");
    reveal_strlit("gender =");
    reveal_strlit("department_id =");
    reveal_strlit("SELECT * FROM employees");
    reveal_strlit(" ORDER BY created_at DESC");
    let filters = employee_filters(identity_number, name, gender, department);
    assert forall|i: int| 0 <= i < filters.len() implies plain(#[trigger] filters[i].fragment) by {
        let f = filters[i].fragment;
        assert(f == "identity_number ILIKE"@ || f == "name ILIKE"@ || f == "gender ="@ || f
            == "department_id ="@);
    }
}

/// For every combination of filters and pagination, the listing that is
/// issued writes exactly one placeholder for each value that it binds.
pub proof fn lemma_listing_placeholders_match_values(
    identity_number: Option<Seq<char>>,
    name: Option<Seq<char>>,
    gender: Option<Seq<char>>,
    department: Option<Seq<char>>,
    limit: Option<i64>,
    offset: Option<i64>,
)
    ensures
        ({
            let statement = employee_listing(
                identity_number,
                name,
                gender,
                department,
                limit,
                offset,
            );
            occurrences(statement.sql, '$') == statement.params.len()
        }),
{
    lemma_filters_are_plain(identity_number, name, gender, department);
    lemma_filter_placeholders_match_values(
        FilterQueryView {
            base: "SELECT * FROM employees"@,
            filters: employee_filters(identity_number, name, gender, department),
            order: " ORDER BY created_at DESC"@,
            limit,
            offset,
        },
    );
}

/// A partial update names no column but those of its present fields: every
/// assignment is to one of the five fields that a payload can hold, so that
/// `created_at` is never assigned.
pub proof fn lemma_revision_assigns_only_payload_fields(
    changes: EmployeeUpdate,
    department: Option<Seq<char>>,
    i: int,
)
    requires
        0 <= i < employee_assignments(changes, department).len(),
    ensures
        ({
            let column = employee_assignments(changes, department)[i].fragment;
            ||| column == "identity_number"@
            ||| column == "name"@
            ||| column == "employee_image_uri"@
            ||| column == "gender"@
            ||| column == "department_id"@
        }),
{
}

/// For every combination of present fields, the update that is issued
/// writes exactly one placeholder for each value that it binds.
pub proof fn lemma_revision_placeholders_match_values(
    target: Seq<char>,
    changes: EmployeeUpdate,
    department: Option<Seq<char>>,
    now: i64,
)
    ensures
        ({
            let statement = employee_revision(target, changes, department, now);
            occurrences(statement.sql, '$') == statement.params.len()
        }),
{
    reveal_strlit("identity_number");
    reveal_strlit("name");
    reveal_strlit("employee_image_uri");
    reveal_strlit("gender");
    reveal_strlit("department_id");
    reveal_strlit("employees");
    let assignments = employee_assignments(changes, department);
    assert forall|i: int| 0 <= i < assignments.len() implies plain(
        #[trigger] assignments[i].fragment,
    ) by {
        lemma_revision_assigns_only_payload_fields(changes, department, i);
    }
    lemma_update_placeholders_match_values(
        UpdateStatementView {
            table: "employees"@,
            assignments,
            key_column: "identity_number"@,
            key: Param::Text(target),
        },
        now,
    );
}

/// The store is asked nothing on behalf of a caller who is not authorized,
/// nor for a payload that violates its rules: whichever handler of this
/// module issues a statement, authorization had succeeded.
pub proof fn lemma_statements_need_authorization(
    admission: Result<Seq<char>, ErrorView>,
    identity_number: Seq<char>,
    reference: Option<Seq<char>>,
    department: Option<Option<Seq<char>>>,
    created: (Step<EmployeeCreation, EmployeeResponse>, NewEmployee),
    listed: (Step<EmployeeListing, Vec<Employee>>, EmployeeQueryParams),
    revised: (Step<EmployeeRevision, Employee>, EmployeeUpdate),
    deleted: Step<EmployeeDeletion, Notice>,
)
    requires
        creation_opened(created.0, admission, created.1, reference),
        listing_opened(listed.0, admission, listed.1, department),
        revision_opened(revised.0, admission, identity_number, revised.1, department),
        deletion_opened(deleted, admission, identity_number),
    ensures
        created.0.issues_statement() ==> admission is Ok && created.1.violations().len() == 0,
        listed.0.issues_statement() ==> admission is Ok,
        revised.0.issues_statement() ==> admission is Ok && revised.1.violations().len() == 0,
        deleted.issues_statement() ==> admission is Ok,
{
}

/// A field of a partial update is held to the rule that holds it at
/// creation: an update in which every field is present has the violations
/// of the creation payload with the same values, and an absent field adds
/// none.
pub proof fn lemma_update_rules_are_creation_rules(payload: NewEmployee, image: String)
    requires
        payload.employee_image_uri == Some(image),
    ensures
        (EmployeeUpdate {
            identity_number: Some(payload.identity_number),
            name: Some(payload.name),
            employee_image_uri: Some(image),
            gender: Some(payload.gender),
            department_id: Some(payload.department_id),
        }).violations() == payload.violations(),
        (EmployeeUpdate {
            identity_number: None,
            name: None,
            employee_image_uri: None,
            gender: None,
            department_id: None,
        }).violations() == Seq::<Violation>::empty(),
{
    assert((EmployeeUpdate {
        identity_number: None,
        name: None,
        employee_image_uri: None,
        gender: None,
        department_id: None,
    }).violations() =~= Seq::<Violation>::empty());
}

/// What a caller filters by never reaches the text of a listing: two
/// queries in which the same filters and pagination values are present
/// render to the same text, whatever their values are.
pub proof fn lemma_listing_text_ignores_values(
    p: EmployeeQueryParams,
    p_department: Option<Seq<char>>,
    q: EmployeeQueryParams,
    q_department: Option<Seq<char>>,
)
    requires
        p.identity_number is Some <==> q.identity_number is Some,
        p.name is Some <==> q.name is Some,
        p.gender is Some <==> q.gender is Some,
        p_department is Some <==> q_department is Some,
        p.limit is Some <==> q.limit is Some,
        p.offset is Some <==> q.offset is Some,
    ensures
        employee_listing(
            chars_of(p.identity_number),
            chars_of(p.name),
            chars_of(p.gender),
            p_department,
            p.limit,
            p.offset,
        ).sql == employee_listing(
            chars_of(q.identity_number),
            chars_of(q.name),
            chars_of(q.gender),
            q_department,
            q.limit,
            q.offset,
        ).sql,
{
    lemma_filter_text_ignores_values(
        FilterQueryView {
            base: "SELECT * FROM employees"@,
            filters: employee_filters(
                chars_of(p.identity_number),
                chars_of(p.name),
                chars_of(p.gender),
                p_department,
            ),
            order: " ORDER BY created_at DESC"@,
            limit: p.limit,
            offset: p.offset,
        },
        FilterQueryView {
            base: "SELECT * FROM employees"@,
            filters: employee_filters(
                chars_of(q.identity_number),
                chars_of(q.name),
                chars_of(q.gender),
                q_department,
            ),
            order: " ORDER BY created_at DESC"@,
            limit: q.limit,
            offset: q.offset,
        },
    );
}

} // verus!
