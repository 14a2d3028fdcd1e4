use buddha_notify::calendar::parse_calendar;
use buddha_notify::config::Config;
use buddha_notify::error::AppError;
use buddha_notify::handlers::{authenticate, check_key, health_check, notification_message, response_status};
use buddha_notify::models::{Buddha, BuddhaDate, BuddhaDay, QueryParams};
use buddha_notify::services::BuddhaServiceImpl;

fn config() -> Config {
    Config {
        server_host: "127.0.0.1".to_string(),
        server_port: 9001,
        buddha_endpoint: "http://test.com".to_string(),
        discord_webhook_url: "http://test.com".to_string(),
        api_key: "api-key".to_string(),
    }
}

fn day(description: &str, found: bool) -> BuddhaDay {
    BuddhaDay { description: description.to_string(), found }
}

#[test]
fn test_health_check() {
    assert_eq!(health_check(), 200);
}

#[test]
fn test_notify_handler_invalid_key() {
    let params = QueryParams { key: "invalid".to_string() };
    let e = check_key(&params, &config()).unwrap_err();
    assert_eq!(e.status_code(), 401);
    assert_eq!(e.error_type(), "AUTHENTICATION_ERROR");
}

#[test]
fn right_key_is_accepted() {
    let params = QueryParams { key: "api-key".to_string() };
    assert_eq!(check_key(&params, &config()), Ok(()));
    assert!(authenticate("a", "a"));
    assert!(!authenticate("a", "A"));
    assert!(!authenticate("", "a"));
}

#[test]
fn right_key_without_observance_is_no_content() {
    let service = BuddhaServiceImpl::new(config());
    let cal = parse_calendar("วันสงกรานต์,20240413\n").unwrap();
    let b = service.get_buddha(&BuddhaDate::from_date(2024, 4, 13), &cal);
    let message = notification_message(&b);
    assert_eq!(message, None);
    assert_eq!(response_status(None), Ok(204));
}

#[test]
fn today_takes_priority_over_tomorrow() {
    let b = Buddha { today: day("วันนี้ a", true), tomorrow: day("พรุ่งนี้ b", true) };
    assert_eq!(notification_message(&b), Some("วันนี้ a".to_string()));
    assert_eq!(response_status(Some(Ok(true))), Ok(200));
}

#[test]
fn tomorrow_is_announced_when_today_is_not() {
    let b = Buddha { today: day("", false), tomorrow: day("พรุ่งนี้ b", true) };
    assert_eq!(notification_message(&b), Some("พรุ่งนี้ b".to_string()));
}

#[test]
fn failed_delivery_is_bad_gateway() {
    let e = AppError::DiscordNotifyError("Failed to send notification: 500".to_string());
    let r = response_status(Some(Err(e.clone())));
    assert_eq!(r, Err(e));
    assert_eq!(r.unwrap_err().status_code(), 502);
}
