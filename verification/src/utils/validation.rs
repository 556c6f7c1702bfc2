//! The payload validator: declared rules per field, checked before any
//! statement is built.

use crate::errors::{AppError, ErrorKind, ErrorView};
use crate::utils::text::{chars_of, same_text};
use url::{Host, Url};
use validator::{validate_email, validate_url};
use vstd::prelude::*;
use vstd::string::*;

verus! {

/// A field of a request payload.
#[derive(Clone, Copy, Debug, PartialEq, Eq, Structural)]
pub enum Field {
    Email,
    Password,
    Action,
    Name,
    IdentityNumber,
    EmployeeImageUri,
    Gender,
    DepartmentId,
    UserImageUri,
    CompanyName,
    CompanyImageUri,
}

/// A rule that the text of a field must meet.
#[derive(Clone, Copy, Debug, PartialEq, Eq, Structural)]
pub enum Rule {
    /// The text has the shape of an e-mail address.
    Email,
    /// The text has at least `min` and at most `max` characters.
    Length { min: u64, max: u64 },
    /// The text parses as a URL.
    Url,
    /// The text is `create` or `login`.
    Action,
    /// The text is `male` or `female`.
    Gender,
}

/// A field together with a rule that its text does not meet.
#[derive(Clone, Copy, Debug, PartialEq, Eq, Structural)]
pub struct Violation {
    pub field: Field,
    pub rule: Rule,
}

/// The violations found in a payload, in the order of its fields. It is
/// handed out only where there is at least one.
#[derive(Debug, Clone, PartialEq, Eq)]
pub struct ValidationError {
    pub violations: Vec<Violation>,
}

/// Whether `text` has the shape of an e-mail address, as
/// `validator::validate_email` judges it.
pub uninterp spec fn email_shaped(text: Seq<char>) -> bool;

/// Whether `text` parses as a URL, as `validator::validate_url` judges it.
pub uninterp spec fn url_shaped(text: Seq<char>) -> bool;

/// Asks `validator::validate_email` whether `text` is an e-mail address. The
/// contract only names the answer.
#[verifier::external_body]
fn is_email(text: &str) -> (ok: bool)
    ensures
        ok == email_shaped(text@),
{
    validate_email(text)
}

/// Asks `validator::validate_url` whether `text` is a URL. The contract only
/// names the answer.
#[verifier::external_body]
fn is_url(text: &str) -> (ok: bool)
    ensures
        ok == url_shaped(text@),
{
    validate_url(text)
}

/// The host of a URL, as far as the rules look at it.
#[derive(Debug, Clone, PartialEq, Eq)]
pub enum UrlHost {
    /// The text does not parse as a URL.
    Unparseable,
    /// The URL has no host.
    Missing,
    /// The host is a domain name.
    Domain(String),
    /// The host is an IPv4 or IPv6 address.
    Address,
}

/// The mathematical content of a `UrlHost`.
pub enum HostView {
    Unparseable,
    Missing,
    Domain(Seq<char>),
    Address,
}

impl View for UrlHost {
    type V = HostView;

    open spec fn view(&self) -> HostView {
        match self {
            UrlHost::Unparseable => HostView::Unparseable,
            UrlHost::Missing => HostView::Missing,
            UrlHost::Domain(d) => HostView::Domain(d@),
            UrlHost::Address => HostView::Address,
        }
    }
}

/// The host of the URL that `text` spells, as `url::Url::parse` and
/// `url::Url::host` give it.
pub uninterp spec fn host_of(text: Seq<char>) -> HostView;

/// Parses `text` with `url::Url::parse` and takes the host with
/// `url::Url::host`. The contract only names the result.
#[verifier::external_body]
pub(crate) fn url_host(text: &str) -> (host: UrlHost)
    ensures
        host@ == host_of(text@),
{
    match Url::parse(text) {
        Err(_) => UrlHost::Unparseable,
        Ok(url) => match url.host() {
            None => UrlHost::Missing,
            Some(Host::Domain(domain)) => UrlHost::Domain(domain.to_string()),
            Some(Host::Ipv4(_)) => UrlHost::Address,
            Some(Host::Ipv6(_)) => UrlHost::Address,
        },
    }
}

/// The name of a field, as error messages show it.
pub open spec fn field_name(field: Field) -> Seq<char> {
    match field {
        Field::Email => "email"@,
        Field::Password => "password"@,
        Field::Action => "action"@,
        Field::Name => "name"@,
        Field::IdentityNumber => "identity_number"@,
        Field::EmployeeImageUri => "employee_image_uri"@,
        Field::Gender => "gender"@,
        Field::DepartmentId => "department_id"@,
        Field::UserImageUri => "user_image_uri"@,
        Field::CompanyName => "company_name"@,
        Field::CompanyImageUri => "company_image_uri"@,
    }
}

/// The code of a rule, as error messages show it.
pub open spec fn rule_code(rule: Rule) -> Seq<char> {
    match rule {
        Rule::Email => "email"@,
        Rule::Length { .. } => "length"@,
        Rule::Url => "url"@,
        Rule::Action => "Invalid action"@,
        Rule::Gender => "Gender must be either 'male' or 'female'"@,
    }
}

/// Whether `text` meets `rule`.
pub open spec fn rule_holds(rule: Rule, text: Seq<char>) -> bool {
    match rule {
        Rule::Email => email_shaped(text),
        Rule::Length { min, max } => min <= text.len() <= max,
        Rule::Url => url_shaped(text),
        Rule::Action => text == "create"@ || text == "login"@,
        Rule::Gender => text == "male"@ || text == "female"@,
    }
}

/// What a field that must be present adds to the violations.
pub open spec fn required(field: Field, rule: Rule, text: Seq<char>) -> Seq<Violation> {
    if rule_holds(rule, text) {
        Seq::empty()
    } else {
        seq![Violation { field, rule }]
    }
}

/// What a field that may be absent adds to the violations: nothing where it
/// is absent, and what a required field adds where it is present.
pub open spec fn optional(field: Field, rule: Rule, text: Option<Seq<char>>) -> Seq<Violation> {
    match text {
        Some(t) => required(field, rule, t),
        None => Seq::empty(),
    }
}

/// The rules that `violations` hold against `field`, in order.
pub open spec fn rules_against(violations: Seq<Violation>, field: Field) -> Seq<Rule>
    decreases violations.len(),
{
    if violations.len() == 0 {
        Seq::empty()
    } else {
        let rest = rules_against(violations.drop_last(), field);
        if violations.last().field == field {
            rest.push(violations.last().rule)
        } else {
            rest
        }
    }
}

/// The violations written out: each as the field's name, `: ` and the rule's
/// code, joined by `; `.
pub open spec fn violations_text(violations: Seq<Violation>) -> Seq<char>
    decreases violations.len(),
{
    if violations.len() == 0 {
        Seq::empty()
    } else {
        violations_text(violations.drop_last()) + (if violations.len() == 1 {
            Seq::<char>::empty()
        } else {
            "; "@
        }) + field_name(violations.last().field) + ": "@ + rule_code(violations.last().rule)
    }
}

/// The failure that a payload with the given violations is rejected with.
pub open spec fn rejection(violations: Seq<Violation>) -> ErrorView {
    ErrorView {
        kind: ErrorKind::BadRequest,
        message: "Validation failed: "@ + violations_text(violations),
    }
}

impl Field {
    /// The name of this field.
    pub fn name(self) -> (name: &'static str)
        ensures
            name@ == field_name(self),
    {
        match self {
            Field::Email => "email",
            Field::Password => "password",
            Field::Action => "action",
            Field::Name => "name",
            Field::IdentityNumber => "identity_number",
            Field::EmployeeImageUri => "employee_image_uri",
            Field::Gender => "gender",
            Field::DepartmentId => "department_id",
            Field::UserImageUri => "user_image_uri",
            Field::CompanyName => "company_name",
            Field::CompanyImageUri => "company_image_uri",
        }
    }
}

impl Rule {
    /// The code of this rule.
    pub fn code(self) -> (code: &'static str)
        ensures
            code@ == rule_code(self),
    {
        match self {
            Rule::Email => "email",
            Rule::Length { .. } => "length",
            Rule::Url => "url",
            Rule::Action => "Invalid action",
            Rule::Gender => "Gender must be either 'male' or 'female'",
        }
    }

    /// Whether `text` meets this rule.
    pub fn holds(self, text: &str) -> (ok: bool)
        ensures
            ok == rule_holds(self, text@),
    {
        match self {
            Rule::Email => is_email(text),
            Rule::Length { min, max } => {
                let n = text.unicode_len();
                min <= n as u64 && n as u64 <= max
            },
            Rule::Url => is_url(text),
            Rule::Action => same_text(text, "create") || same_text(text, "login"),
            Rule::Gender => same_text(text, "male") || same_text(text, "female"),
        }
    }
}

/// Records the violation of `rule` by `field` where the rule does not hold.
pub fn record(violations: &mut Vec<Violation>, field: Field, rule: Rule, holds: bool)
    ensures
        final(violations)@ == if holds {
            old(violations)@
        } else {
            old(violations)@.push(Violation { field, rule })
        },
{
    if !holds {
        violations.push(Violation { field, rule });
    }
}

/// Checks a field that must be present and records its violation, if any.
pub fn check_required(violations: &mut Vec<Violation>, field: Field, rule: Rule, text: &str)
    ensures
        final(violations)@ == old(violations)@ + required(field, rule, text@),
{
    record(violations, field, rule, rule.holds(text));
    assert(violations@ =~= old(violations)@ + required(field, rule, text@));
}

/// Checks a field that may be absent and records its violation, if any.
pub fn check_optional(
    violations: &mut Vec<Violation>,
    field: Field,
    rule: Rule,
    text: &Option<String>,
)
    ensures
        final(violations)@ == old(violations)@ + optional(field, rule, chars_of(*text)),
{
    match text {
        Some(t) => check_required(violations, field, rule, t.as_str()),
        None => {
            assert(violations@ =~= old(violations)@ + optional(field, rule, chars_of(*text)));
        },
    }
}

/// Whether `result` is the outcome of validating a payload that has exactly
/// the given violations: success where there is none, else all of them.
pub open spec fn reports(result: Result<(), ValidationError>, violations: Seq<Violation>) -> bool {
    match result {
        Ok(_) => violations.len() == 0,
        Err(e) => violations.len() > 0 && e.violations@ == violations,
    }
}

/// Turns the violations found into the outcome of validation.
pub fn conclude(violations: Vec<Violation>) -> (result: Result<(), ValidationError>)
    ensures
        reports(result, violations@),
{
    if violations.len() == 0 {
        Ok(())
    } else {
        Err(ValidationError { violations })
    }
}

impl ValidationError {
    /// The rules that are violated by `field`, in order.
    pub fn rules_for(&self, field: Field) -> (rules: Vec<Rule>)
        ensures
            rules@ == rules_against(self.violations@, field),
    {
        let mut rules: Vec<Rule> = Vec::new();
        let n = self.violations.len();
        let mut i: usize = 0;
        while i < n
            invariant
                n == self.violations@.len(),
                i <= n,
                rules@ == rules_against(self.violations@.subrange(0, i as int), field),
            decreases n - i,
        {
            let ghost upto = self.violations@.subrange(0, i + 1);
            assert(upto.drop_last() =~= self.violations@.subrange(0, i as int));
            assert(upto.last() == self.violations@[i as int]);
            if self.violations[i].field == field {
                rules.push(self.violations[i].rule);
            }
            i += 1;
        }
        assert(self.violations@.subrange(0, n as int) =~= self.violations@);
        rules
    }

    /// The violations written out, one `field: code` each, joined by `; `.
    pub fn describe(&self) -> (text: String)
        ensures
            text@ == violations_text(self.violations@),
    {
        let mut text = String::new();
        let n = self.violations.len();
        let mut i: usize = 0;
        while i < n
            invariant
                n == self.violations@.len(),
                i <= n,
                text@ == violations_text(self.violations@.subrange(0, i as int)),
            decreases n - i,
        {
            let ghost upto = self.violations@.subrange(0, i + 1);
            let ghost before = text@;
            assert(upto.drop_last() =~= self.violations@.subrange(0, i as int));
            assert(upto.last() == self.violations@[i as int]);
            if i > 0 {
                text.append("; ");
            }
            text.append(self.violations[i].field.name());
            text.append(": ");
            text.append(self.violations[i].rule.code());
            assert(text@ =~= violations_text(upto));
            i += 1;
        }
        assert(self.violations@.subrange(0, n as int) =~= self.violations@);
        text
    }

    /// The failure that reports these violations to the caller.
    pub fn into_bad_request(&self) -> (e: AppError)
        ensures
            e@ == rejection(self.violations@),
    {
        let mut message = String::from_str("Validation failed: ");
        let details = self.describe();
        message.append(details.as_str());
        AppError::BadRequest(message)
    }
}

/// A payload whose fields are held to declared rules.
pub trait Validate {
    /// The violations of this payload, in the order of its fields.
    spec fn violations(&self) -> Seq<Violation>;

    /// Checks every field against its rules.
    fn validate(&self) -> (result: Result<(), ValidationError>)
        ensures
            reports(result, self.violations()),
    ;
}

/// Whether `result` is the outcome of holding a payload with the given
/// violations to its rules: success where there is none, else `BadRequest`
/// with all of them written out.
pub open spec fn admits(result: Result<(), AppError>, violations: Seq<Violation>) -> bool {
    match result {
        Ok(_) => violations.len() == 0,
        Err(e) => violations.len() > 0 && e@ == rejection(violations),
    }
}

/// Validates a payload and maps a failure to `BadRequest`.
pub fn validate_payload<T: Validate>(payload: &T) -> (result: Result<(), AppError>)
    ensures
        admits(result, payload.violations()),
{
    match payload.validate() {
        Ok(_) => Ok(()),
        Err(e) => Err(e.into_bad_request()),
    }
}

} // verus!
