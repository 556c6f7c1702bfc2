use staff_records::errors::AppError;
use staff_records::handlers::auth::AuthRequest;
use staff_records::handlers::department::{DepartmentUpdate, NewDepartment};
use staff_records::handlers::employee::{EmployeeUpdate, NewEmployee};
use staff_records::handlers::user::{check_host, read_host, UserProfileUpdate};
use staff_records::utils::validation::{
    check_optional, check_required, conclude, record, validate_payload, Field, Rule, UrlHost,
    Validate, ValidationError, Violation,
};

fn length(min: u64, max: u64) -> Rule {
    Rule::Length { min, max }
}

fn violation(field: Field, rule: Rule) -> Violation {
    Violation { field, rule }
}

fn employee() -> NewEmployee {
    NewEmployee {
        identity_number: "12345".to_string(),
        name: "Anna".to_string(),
        employee_image_uri: Some("https://example.com/a.png".to_string()),
        gender: "female".to_string(),
        department_id: "550e8400-e29b-41d4-a716-446655440000".to_string(),
    }
}

fn no_changes() -> EmployeeUpdate {
    EmployeeUpdate {
        identity_number: None,
        name: None,
        employee_image_uri: None,
        gender: None,
        department_id: None,
    }
}

fn no_profile_changes() -> UserProfileUpdate {
    UserProfileUpdate {
        email: None,
        name: None,
        user_image_uri: None,
        company_name: None,
        company_image_uri: None,
    }
}

#[test]
fn length_bounds_are_inclusive_and_count_characters() {
    assert!(!length(4, 33).holds("abc"));
    assert!(length(4, 33).holds("abcd"));
    assert!(length(4, 33).holds(&"a".repeat(33)));
    assert!(!length(4, 33).holds(&"a".repeat(34)));
    assert!(length(4, 4).holds("éééé"));
    assert!(!length(5, 8).holds("éééé"));
    assert!(length(0, 0).holds(""));
}

#[test]
fn email_rule_follows_the_address_shape() {
    assert!(Rule::Email.holds("a@b.com"));
    assert!(Rule::Email.holds("weirder-email@here.and.there.com"));
    assert!(!Rule::Email.holds("a"));
    assert!(!Rule::Email.holds(""));
    assert!(!Rule::Email.holds("a@"));
    assert!(!Rule::Email.holds("a b@c.com"));
}

#[test]
fn url_rule_follows_the_parser() {
    assert!(Rule::Url.holds("https://example.com/a.png"));
    assert!(Rule::Url.holds("ftp://localhost:80"));
    assert!(!Rule::Url.holds("http"));
    assert!(!Rule::Url.holds("example.com/a.png"));
}

#[test]
fn enumerations_take_exactly_their_values() {
    assert!(Rule::Action.holds("create"));
    assert!(Rule::Action.holds("login"));
    assert!(!Rule::Action.holds("Create"));
    assert!(!Rule::Action.holds("delete"));
    assert!(Rule::Gender.holds("male"));
    assert!(Rule::Gender.holds("female"));
    assert!(!Rule::Gender.holds("Male"));
    assert!(!Rule::Gender.holds(""));
}

#[test]
fn names_and_codes() {
    assert_eq!(Field::IdentityNumber.name(), "identity_number");
    assert_eq!(Field::EmployeeImageUri.name(), "employee_image_uri");
    assert_eq!(Field::CompanyImageUri.name(), "company_image_uri");
    assert_eq!(Field::UserImageUri.name(), "user_image_uri");
    assert_eq!(Field::CompanyName.name(), "company_name");
    assert_eq!(Field::DepartmentId.name(), "department_id");
    assert_eq!(Field::Email.name(), "email");
    assert_eq!(Field::Password.name(), "password");
    assert_eq!(Field::Action.name(), "action");
    assert_eq!(Field::Name.name(), "name");
    assert_eq!(Field::Gender.name(), "gender");
    assert_eq!(Rule::Email.code(), "email");
    assert_eq!(length(1, 2).code(), "length");
    assert_eq!(Rule::Url.code(), "url");
    assert_eq!(Rule::Action.code(), "Invalid action");
    assert_eq!(Rule::Gender.code(), "Gender must be either 'male' or 'female'");
}

#[test]
fn required_and_optional_checks_record_in_order() {
    let mut found = Vec::new();
    check_required(&mut found, Field::Name, length(4, 33), "abc");
    check_required(&mut found, Field::Gender, Rule::Gender, "male");
    check_optional(&mut found, Field::Email, Rule::Email, &None);
    check_optional(&mut found, Field::UserImageUri, Rule::Url, &Some("nope".to_string()));
    assert_eq!(
        found,
        vec![violation(Field::Name, length(4, 33)), violation(Field::UserImageUri, Rule::Url)]
    );
    assert_eq!(conclude(vec![]), Ok(()));
    assert_eq!(conclude(found.clone()), Err(ValidationError { violations: found }));
}

#[test]
fn valid_payloads_pass() {
    assert_eq!(NewDepartment { name: "Engineering".to_string() }.validate(), Ok(()));
    assert_eq!(DepartmentUpdate { name: "Ops!".to_string() }.validate(), Ok(()));
    assert_eq!(employee().validate(), Ok(()));
    assert_eq!(no_changes().validate(), Ok(()));
    assert_eq!(no_profile_changes().validate(), Ok(()));
    assert_eq!(
        AuthRequest {
            email: "a@b.com".to_string(),
            password: "password1".to_string(),
            action: "create".to_string(),
        }
        .validate(),
        Ok(())
    );
    assert_eq!(
        NewEmployee { employee_image_uri: None, ..employee() }.validate(),
        Ok(())
    );
}

#[test]
fn department_name_is_length_bounded() {
    assert_eq!(
        NewDepartment { name: "abc".to_string() }.validate(),
        Err(ValidationError { violations: vec![violation(Field::Name, length(4, 33))] })
    );
    assert_eq!(
        DepartmentUpdate { name: "a".repeat(34) }.validate(),
        Err(ValidationError { violations: vec![violation(Field::Name, length(4, 33))] })
    );
}

#[test]
fn auth_request_reports_every_violated_field() {
    let request = AuthRequest {
        email: "nope".to_string(),
        password: "short".to_string(),
        action: "delete".to_string(),
    };
    let error = request.validate().unwrap_err();
    assert_eq!(
        error.violations,
        vec![
            violation(Field::Email, Rule::Email),
            violation(Field::Password, length(8, 32)),
            violation(Field::Action, Rule::Action),
        ]
    );
    assert_eq!(error.rules_for(Field::Password), vec![length(8, 32)]);
    assert_eq!(error.rules_for(Field::Name), vec![]);
    assert_eq!(
        error.describe(),
        "email: email; password: length; action: Invalid action"
    );
    assert_eq!(
        validate_payload(&request),
        Err(AppError::BadRequest(
            "Validation failed: email: email; password: length; action: Invalid action"
                .to_string()
        ))
    );
}

#[test]
fn password_length_bounds() {
    let with = |password: &str| AuthRequest {
        email: "a@b.com".to_string(),
        password: password.to_string(),
        action: "login".to_string(),
    };
    assert!(with("1234567").validate().is_err());
    assert!(with("12345678").validate().is_ok());
    assert!(with(&"x".repeat(32)).validate().is_ok());
    assert!(with(&"x".repeat(33)).validate().is_err());
}

#[test]
fn new_employee_rules() {
    let bad = NewEmployee {
        identity_number: "1234".to_string(),
        name: "Ann".to_string(),
        employee_image_uri: Some("not a url".to_string()),
        gender: "other".to_string(),
        department_id: "short".to_string(),
    };
    assert_eq!(
        bad.validate().unwrap_err().violations,
        vec![
            violation(Field::IdentityNumber, length(5, 33)),
            violation(Field::Name, length(4, 33)),
            violation(Field::EmployeeImageUri, Rule::Url),
            violation(Field::Gender, Rule::Gender),
            violation(Field::DepartmentId, length(36, 36)),
        ]
    );
}

#[test]
fn present_update_fields_are_held_to_the_creation_rules() {
    let update = EmployeeUpdate { name: Some("Ann".to_string()), ..no_changes() };
    assert_eq!(
        update.validate(),
        Err(ValidationError { violations: vec![violation(Field::Name, length(4, 33))] })
    );
    let update = EmployeeUpdate { name: Some(String::new()), ..no_changes() };
    assert!(update.validate().is_err());
    let update = EmployeeUpdate {
        gender: Some("male".to_string()),
        department_id: Some("x".repeat(36)),
        ..no_changes()
    };
    assert_eq!(update.validate(), Ok(()));
    assert!(no_changes().blank());
    assert!(!update.blank());
}

#[test]
fn profile_update_rules() {
    let update = UserProfileUpdate {
        email: Some("nope".to_string()),
        name: Some("abc".to_string()),
        user_image_uri: Some("nope".to_string()),
        company_name: Some("x".repeat(53)),
        company_image_uri: Some("nope".to_string()),
    };
    assert_eq!(
        update.validate().unwrap_err().violations,
        vec![
            violation(Field::Email, Rule::Email),
            violation(Field::Name, length(4, 52)),
            violation(Field::UserImageUri, Rule::Url),
            violation(Field::CompanyName, length(4, 52)),
            violation(Field::CompanyImageUri, Rule::Url),
        ]
    );
    let update = UserProfileUpdate { name: Some("x".repeat(52)), ..no_profile_changes() };
    assert_eq!(update.validate(), Ok(()));
    assert!(no_profile_changes().blank());
    assert!(!update.blank());
}

#[test]
fn image_host_must_be_an_address_or_a_dotted_domain() {
    let check =
        |uri: &str| check_host(Field::UserImageUri, &read_host(&Some(uri.to_string())));
    assert_eq!(check("https://example.com/a.png"), None);
    assert_eq!(check("http://127.0.0.1/a.png"), None);
    assert_eq!(check("http://[::1]/a.png"), None);
    assert_eq!(
        check("http://localhost/a.png"),
        Some(AppError::BadRequest("Invalid domain in 'user_image_uri'".to_string()))
    );
    assert_eq!(
        check("data:text/plain,Stuff"),
        Some(AppError::BadRequest("Missing host in 'user_image_uri'".to_string()))
    );
    assert_eq!(
        check("not a url"),
        Some(AppError::BadRequest("Invalid URL format in 'user_image_uri'".to_string()))
    );
    assert_eq!(
        check_host(
            Field::CompanyImageUri,
            &read_host(&Some("http://intranet/x".to_string()))
        ),
        Some(AppError::BadRequest("Invalid domain in 'company_image_uri'".to_string()))
    );
    assert_eq!(read_host(&None), None);
    assert_eq!(check_host(Field::CompanyImageUri, &None), None);
}

#[test]
fn hosts_are_read_by_the_url_parser() {
    let read = |uri: &str| read_host(&Some(uri.to_string()));
    assert_eq!(
        read("https://Example.COM:8080/a.png"),
        Some(UrlHost::Domain("example.com".to_string()))
    );
    assert_eq!(read("http://127.0.0.1/a.png"), Some(UrlHost::Address));
    assert_eq!(read("http://[::1]/a.png"), Some(UrlHost::Address));
    assert_eq!(read("mailto:a@b.com"), Some(UrlHost::Missing));
    assert_eq!(read("no url"), Some(UrlHost::Unparseable));
}

#[test]
fn each_host_has_its_verdict() {
    let judge = |host: UrlHost| check_host(Field::UserImageUri, &Some(host));
    assert_eq!(judge(UrlHost::Address), None);
    assert_eq!(judge(UrlHost::Domain("a.b".to_string())), None);
    assert_eq!(judge(UrlHost::Domain(".".to_string())), None);
    assert_eq!(
        judge(UrlHost::Domain("ab".to_string())),
        Some(AppError::BadRequest("Invalid domain in 'user_image_uri'".to_string()))
    );
    assert_eq!(
        judge(UrlHost::Domain(String::new())),
        Some(AppError::BadRequest("Invalid domain in 'user_image_uri'".to_string()))
    );
    assert_eq!(
        judge(UrlHost::Missing),
        Some(AppError::BadRequest("Missing host in 'user_image_uri'".to_string()))
    );
    assert_eq!(
        judge(UrlHost::Unparseable),
        Some(AppError::BadRequest("Invalid URL format in 'user_image_uri'".to_string()))
    );
}

#[test]
fn record_keeps_what_holds_out() {
    let mut found = vec![violation(Field::Email, Rule::Email)];
    record(&mut found, Field::Name, length(4, 33), true);
    assert_eq!(found, vec![violation(Field::Email, Rule::Email)]);
    record(&mut found, Field::Name, length(4, 33), false);
    assert_eq!(
        found,
        vec![violation(Field::Email, Rule::Email), violation(Field::Name, length(4, 33))]
    );
}
