use buddha_notify::calendar::{parse_calendar, YearCalendar};
use buddha_notify::config::Config;
use buddha_notify::error::AppError;
use buddha_notify::models::BuddhaDate;
use buddha_notify::services::{AppState, BuddhaServiceImpl, DiscordNotifyServiceImpl};

fn config() -> Config {
    Config {
        server_host: "127.0.0.1".to_string(),
        server_port: 3030,
        buddha_endpoint: "http://test.com".to_string(),
        discord_webhook_url: "https://discord.com/api/webhooks/test".to_string(),
        api_key: "api-key".to_string(),
    }
}

#[test]
fn calendar_url_appends_year() {
    let service = BuddhaServiceImpl::new(config());
    assert_eq!(service.calendar_url(2567), "http://test.com?2567.csv");
}

#[test]
fn loaded_year_is_served_from_cache() {
    let mut service = BuddhaServiceImpl::new(config());
    assert!(service.cached_calendar(2567).is_none());
    let cal = service.load_calendar(2567, "วันพระ,25670905\n").unwrap();
    assert_eq!(cal.get("25670905").map(|r| r.len()), Some(2));
    let cached = service.cached_calendar(2567).unwrap();
    assert_eq!(cached.get("25670905"), cal.get("25670905"));
    assert!(service.cached_calendar(2568).is_none());
}

#[test]
fn empty_year_is_fetched_again() {
    let mut service = BuddhaServiceImpl::new(config());
    let cal = service.load_calendar(2567, "วันสงกรานต์,25670413\n").unwrap();
    assert!(cal.is_empty());
    assert!(service.cached_calendar(2567).is_none());
}

#[test]
fn get_buddha_labels_both_days() {
    let service = BuddhaServiceImpl::new(config());
    let cal = parse_calendar("วันพระ ขึ้น 8 ค่ำ,20240905\nขึ้น 15 ค่ำ,20240906\n").unwrap();
    let date = BuddhaDate::from_date(2024, 9, 5);
    let b = service.get_buddha(&date, &cal);
    assert!(b.today.found);
    assert_eq!(b.today.description, "วันนี้ วันพระ ขึ้น 8 ค่ำ");
    assert!(b.tomorrow.found);
    assert_eq!(b.tomorrow.description, "พรุ่งนี้ ขึ้น 15 ค่ำ");
}

#[test]
fn get_buddha_without_match_keeps_defaults() {
    let service = BuddhaServiceImpl::new(config());
    let date = BuddhaDate::from_date(2024, 9, 5);
    let b = service.get_buddha(&date, &YearCalendar::new());
    assert!(!b.today.found);
    assert!(b.today.description.is_empty());
    assert!(!b.tomorrow.found);
    assert!(b.tomorrow.description.is_empty());
}

#[test]
fn payload_wraps_escaped_message() {
    let service = DiscordNotifyServiceImpl::new(config());
    assert_eq!(
        service.notification_payload("Test \"message\""),
        "{\"username\":\"Notify\",\"content\":\"Test \\\"message\\\"\"}"
    );
}

#[test]
fn payload_escapes_control_characters() {
    let service = DiscordNotifyServiceImpl::new(config());
    assert_eq!(
        service.notification_payload("a\\b\n\t\u{1}วันพระ"),
        "{\"username\":\"Notify\",\"content\":\"a\\\\b\\n\\t\\u0001วันพระ\"}"
    );
}

#[test]
fn delivery_result_follows_status() {
    let service = DiscordNotifyServiceImpl::new(config());
    assert_eq!(service.delivery_result(200), Ok(true));
    assert_eq!(service.delivery_result(204), Ok(true));
    let e = service.delivery_result(404).unwrap_err();
    assert_eq!(
        e,
        AppError::DiscordNotifyError("Failed to send notification: 404".to_string())
    );
    assert_eq!(e.status_code(), 502);
    assert_eq!(e.error_type(), "DISCORD_NOTIFY_ERROR");
    assert!(service.delivery_result(199).is_err());
    assert!(service.delivery_result(300).is_err());
}

#[test]
fn app_state_holds_its_parts() {
    let c = config();
    let state = AppState::new(
        c.clone(),
        BuddhaServiceImpl::new(c.clone()),
        DiscordNotifyServiceImpl::new(c),
    );
    assert_eq!(state.config.api_key, "api-key");
    assert_eq!(state.notify_service.config.discord_webhook_url, "https://discord.com/api/webhooks/test");
}
