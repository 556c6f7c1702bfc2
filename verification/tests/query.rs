use staff_records::query::{
    text_value, uuid_value, Binding, FilterQuery, SqlValue, Statement, UpdateStatement,
};
use staff_records::store::{bind1, bind2, bind_all};
use staff_records::utils::text::{contains_char, join2, join3, render_decimal, same_text, strip_prefix};

fn text(s: &str) -> SqlValue {
    SqlValue::Text(s.to_string())
}

#[test]
fn query_without_filters_is_base_and_order() {
    let q = FilterQuery::new("SELECT * FROM departments", " ORDER BY created_at DESC");
    assert_eq!(
        q.render(),
        Statement {
            sql: "SELECT * FROM departments ORDER BY created_at DESC".to_string(),
            params: vec![],
        }
    );
}

#[test]
fn first_filter_uses_where_and_later_ones_and() {
    let mut q = FilterQuery::new("SELECT * FROM employees", " ORDER BY created_at DESC");
    q.filter("identity_number ILIKE", text("12%"));
    q.filter("name ILIKE", text("%ann%"));
    q.filter("gender =", text("female"));
    assert_eq!(
        q.render(),
        Statement {
            sql: "SELECT * FROM employees WHERE identity_number ILIKE $1 AND name ILIKE $2 AND gender = $3 ORDER BY created_at DESC".to_string(),
            params: vec![text("12%"), text("%ann%"), text("female")],
        }
    );
}

#[test]
fn omitted_filter_renumbers_the_later_placeholders() {
    let mut q = FilterQuery::new("SELECT * FROM employees", " ORDER BY created_at DESC");
    q.filter_if("identity_number ILIKE", None);
    q.filter_if("name ILIKE", Some(text("%ann%")));
    q.filter_if("gender =", None);
    q.filter_if("department_id =", Some(SqlValue::Uuid("d".to_string())));
    q.paginate(Some(10), Some(20));
    assert_eq!(
        q.render(),
        Statement {
            sql: "SELECT * FROM employees WHERE name ILIKE $1 AND department_id = $2 ORDER BY created_at DESC LIMIT $3 OFFSET $4".to_string(),
            params: vec![
                text("%ann%"),
                SqlValue::Uuid("d".to_string()),
                SqlValue::Integer(10),
                SqlValue::Integer(20),
            ],
        }
    );
}

#[test]
fn pagination_is_bound_never_written_into_the_text() {
    let mut q = FilterQuery::new("SELECT * FROM departments", " ORDER BY created_at DESC");
    q.paginate(None, Some(5));
    assert_eq!(
        q.render(),
        Statement {
            sql: "SELECT * FROM departments ORDER BY created_at DESC OFFSET $1".to_string(),
            params: vec![SqlValue::Integer(5)],
        }
    );
    q.paginate(Some(-1), None);
    assert_eq!(
        q.render(),
        Statement {
            sql: "SELECT * FROM departments ORDER BY created_at DESC LIMIT $1".to_string(),
            params: vec![SqlValue::Integer(-1)],
        }
    );
}

#[test]
fn placeholders_count_past_nine() {
    let mut q = FilterQuery::new("SELECT 1", "");
    for i in 0..11 {
        q.filter("c =", SqlValue::Integer(i));
    }
    q.paginate(Some(1), Some(2));
    let statement = q.render();
    assert!(statement.sql.ends_with(" AND c = $9 AND c = $10 AND c = $11 LIMIT $12 OFFSET $13"));
    assert_eq!(statement.params.len(), 13);
    assert_eq!(statement.sql.matches('$').count(), statement.params.len());
    assert_eq!(statement.params[10], SqlValue::Integer(10));
}

#[test]
fn filter_keeps_insertion_order() {
    let mut q = FilterQuery::new("SELECT 1", "");
    q.filter("b =", text("2"));
    q.filter("a =", text("1"));
    assert_eq!(
        q.filters,
        vec![
            Binding { fragment: "b =".to_string(), value: text("2") },
            Binding { fragment: "a =".to_string(), value: text("1") },
        ]
    );
    assert_eq!(q.render().sql, "SELECT 1 WHERE b = $1 AND a = $2");
}

#[test]
fn update_without_assignment_is_refused() {
    let u = UpdateStatement::new("users", "user_id", SqlValue::Uuid("u".to_string()));
    assert_eq!(u.render(7), None);
}

#[test]
fn update_appends_updated_at_and_then_the_key() {
    let mut u = UpdateStatement::new("users", "user_id", SqlValue::Uuid("u".to_string()));
    u.set("email", text("a@b.com"));
    u.set("name", text("Anna"));
    assert_eq!(
        u.render(1_700_000_000),
        Some(Statement {
            sql: "UPDATE users SET email = $1, name = $2, updated_at = $3 WHERE user_id = $4"
                .to_string(),
            params: vec![
                text("a@b.com"),
                text("Anna"),
                SqlValue::Timestamp(1_700_000_000),
                SqlValue::Uuid("u".to_string()),
            ],
        })
    );
}

#[test]
fn update_skips_absent_fields_without_gaps_in_the_numbers() {
    let mut u = UpdateStatement::new("employees", "identity_number", text("12345"));
    u.set_if("identity_number", None);
    u.set_if("name", Some(text("New Name")));
    u.set_if("employee_image_uri", None);
    u.set_if("gender", None);
    u.set_if("department_id", None);
    assert_eq!(
        u.render(5),
        Some(Statement {
            sql: "UPDATE employees SET name = $1, updated_at = $2 WHERE identity_number = $3"
                .to_string(),
            params: vec![text("New Name"), SqlValue::Timestamp(5), text("12345")],
        })
    );
}

#[test]
fn values_that_may_be_absent_are_wrapped_only_when_present() {
    assert_eq!(text_value(&None), None);
    assert_eq!(text_value(&Some("a".to_string())), Some(text("a")));
    assert_eq!(uuid_value(&None), None);
    assert_eq!(uuid_value(&Some("a".to_string())), Some(SqlValue::Uuid("a".to_string())));
    assert_eq!(text("a").clone(), text("a"));
    assert_eq!(SqlValue::Null.clone(), SqlValue::Null);
    assert_eq!(SqlValue::Timestamp(3).clone(), SqlValue::Timestamp(3));
}

#[test]
fn fixed_statements_bind_in_order() {
    assert_eq!(
        bind1("SELECT 1 WHERE a = $1", text("x")),
        Statement { sql: "SELECT 1 WHERE a = $1".to_string(), params: vec![text("x")] }
    );
    assert_eq!(
        bind2("SELECT 1 WHERE a = $1 AND b = $2", text("x"), SqlValue::Integer(2)),
        Statement {
            sql: "SELECT 1 WHERE a = $1 AND b = $2".to_string(),
            params: vec![text("x"), SqlValue::Integer(2)],
        }
    );
    assert_eq!(
        bind_all("SELECT 1", vec![]),
        Statement { sql: "SELECT 1".to_string(), params: vec![] }
    );
}

#[test]
fn decimal_numerals() {
    assert_eq!(render_decimal(0), "0");
    assert_eq!(render_decimal(7), "7");
    assert_eq!(render_decimal(10), "10");
    assert_eq!(render_decimal(109), "109");
    assert_eq!(render_decimal(u128::MAX), "340282366920938463463374607431768211455");
}

#[test]
fn text_helpers() {
    assert!(same_text("abc", "abc"));
    assert!(!same_text("abc", "abd"));
    assert!(!same_text("abc", "ab"));
    assert!(contains_char("a.b", '.'));
    assert!(!contains_char("localhost", '.'));
    assert!(!contains_char("", '.'));
    assert_eq!(strip_prefix("Bearer abc", "Bearer "), Some("abc".to_string()));
    assert_eq!(strip_prefix("Bearer ", "Bearer "), Some(String::new()));
    assert_eq!(strip_prefix("bearer abc", "Bearer "), None);
    assert_eq!(strip_prefix("Bear", "Bearer "), None);
    assert_eq!(strip_prefix("é23505", "é23"), Some("505".to_string()));
    assert_eq!(join2("a", "b"), "ab");
    assert_eq!(join3("%", "x", "%"), "%x%");
}
