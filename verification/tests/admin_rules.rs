use uptime_monitor::admin::check_not_found_msg;
use uptime_monitor::admin::plan_update;
use uptime_monitor::admin::validate_new_check;
use uptime_monitor::admin::FieldChange;
use uptime_monitor::admin::UpdateCheck;
use uptime_monitor::models::Check;
use uptime_monitor::models::Error;
use uptime_monitor::models::Frequency;
use uptime_monitor::models::HTTPMethod;
use uptime_monitor::models::NewCheck;

fn new_check(method: HTTPMethod, expected_body: Option<&str>) -> NewCheck {
    NewCheck {
        frequency: Frequency::Daily,
        url: "http://x.test".to_string(),
        method,
        expected_body: expected_body.map(|s| s.to_string()),
        hook: None,
    }
}

fn untouched_update() -> UpdateCheck {
    UpdateCheck {
        frequency: None,
        url: None,
        method: None,
        expected_body: FieldChange::Keep,
        hook: FieldChange::Keep,
    }
}

#[test]
fn creation_accepts_get_with_expected_body() {
    assert!(validate_new_check(&new_check(HTTPMethod::GET, Some("{\"a\":1}"))).is_ok());
}

#[test]
fn creation_accepts_head_without_expected_body() {
    assert!(validate_new_check(&new_check(HTTPMethod::HEAD, None)).is_ok());
}

#[test]
fn creation_refuses_head_with_expected_body() {
    let err = validate_new_check(&new_check(HTTPMethod::HEAD, Some("{\"a\":1}"))).unwrap_err();
    assert_eq!(err.status, 400);
    assert_eq!(
        err.detail,
        "Expected body parameter is only allowed with GET requests."
    );
}

#[test]
fn from_new_copies_fields_and_stamps_times() {
    let c = Check::from_new(
        new_check(HTTPMethod::GET, Some("{\"a\":1}")),
        "id9".to_string(),
        424_242,
    );
    assert_eq!(c.id, "id9");
    assert_eq!(c.url, "http://x.test");
    assert_eq!(c.method, HTTPMethod::GET);
    assert_eq!(c.expected_body.as_deref(), Some("{\"a\":1}"));
    assert_eq!(c.created_at, 424_242);
    assert_eq!(c.updated_at, 424_242);
}

#[test]
fn update_refuses_expected_body_with_head_method() {
    let mut u = untouched_update();
    u.method = Some(HTTPMethod::HEAD);
    u.expected_body = FieldChange::Assign("{\"a\":1}".to_string());
    let err = plan_update(u).unwrap_err();
    assert_eq!(err.status, 400);
    assert_eq!(
        err.detail,
        "Expected body parameter is only allowed with GET requests."
    );
}

#[test]
fn update_of_expected_body_alone_requires_get_check() {
    let mut u = untouched_update();
    u.expected_body = FieldChange::Assign("{\"a\":1}".to_string());
    let plan = plan_update(u).unwrap();
    assert!(plan.require_method_get);
    assert!(matches!(plan.expected_body, FieldChange::Assign(ref s) if s == "{\"a\":1}"));
}

#[test]
fn update_with_method_get_carries_fields_through() {
    let mut u = untouched_update();
    u.frequency = Some(Frequency::Weekly);
    u.url = Some("http://y.test".to_string());
    u.method = Some(HTTPMethod::GET);
    u.expected_body = FieldChange::Clear;
    let plan = plan_update(u).unwrap();
    assert_eq!(plan.set_frequency, Some(Frequency::Weekly));
    assert_eq!(plan.set_url.as_deref(), Some("http://y.test"));
    assert_eq!(plan.set_method, Some(HTTPMethod::GET));
    assert!(matches!(plan.expected_body, FieldChange::Clear));
    assert!(!plan.require_method_get);
}

#[test]
fn untouched_update_changes_nothing_and_adds_no_filter() {
    let plan = plan_update(untouched_update()).unwrap();
    assert_eq!(plan.set_frequency, None);
    assert_eq!(plan.set_url, None);
    assert_eq!(plan.set_method, None);
    assert!(matches!(plan.expected_body, FieldChange::Keep));
    assert!(matches!(plan.hook, FieldChange::Keep));
    assert!(!plan.require_method_get);
}

#[test]
fn not_found_message() {
    assert_eq!(
        check_not_found_msg("65a1"),
        "Check not found with id '65a1'"
    );
}

#[test]
fn error_constructors_carry_status() {
    assert_eq!(Error::bad_request("b".to_string()).status, 400);
    assert_eq!(Error::not_found("n".to_string()).status, 404);
    assert_eq!(Error::internal_server_error("i".to_string()).status, 500);
    assert_eq!(Error::bad_request("b".to_string()).detail, "b");
}

#[test]
fn enum_names() {
    assert_eq!(Frequency::Hourly.to_string(), "Hourly");
    assert_eq!(Frequency::Daily.to_string(), "Daily");
    assert_eq!(Frequency::Weekly.to_string(), "Weekly");
    assert_eq!(HTTPMethod::GET.to_string(), "GET");
    assert_eq!(HTTPMethod::HEAD.to_string(), "HEAD");
}
