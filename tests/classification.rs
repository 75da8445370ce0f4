use checkin_alerts::decode::decode_frame;
use checkin_alerts::event::{
    classify, is_above_limit, is_within_limit, message_parts_of, status_message, Amount,
    NotificationData, RawEvent, Severity,
};

fn blank() -> RawEvent {
    RawEvent {
        member: None,
        status: None,
        message: None,
        membership: None,
        balance_due: None,
        balance: None,
        red_alert: None,
        yellow_alert: None,
        image: None,
    }
}

fn text(s: &str) -> Option<String> {
    Some(s.to_string())
}

fn from_frame(frame: &str) -> NotificationData {
    let inbound = decode_frame(frame).expect("frame should decode");
    classify(&inbound.event)
}

const MEMBERSHIP_GOLD: &str = "<span class=\"membership\">Gold</span>";
const RED_PREFIX: &str = "<span style=\"color: red; font-weight: bold;\">ALERT: </span>";
const YELLOW_PREFIX: &str = "<span style=\"color: #bf9500; font-weight: bold;\">WARNING: </span>";

#[test]
fn no_membership_is_red() {
    let n = from_frame(r#"{"message":{"status":0}}"#);
    assert_eq!(n.message, "NO MEMBERSHIP");
    assert_eq!(n.severity, Severity::Red);
    assert!(n.requires_interaction);
    assert_eq!(n.title, "Unknown");
    assert_eq!(n.image, None);
}

#[test]
fn small_balance_is_yellow() {
    let n = from_frame(
        r#"{"message":{"status":1,"membership":"Gold","balanceDue":true,"balance":10.0}}"#,
    );
    assert!(n.message.starts_with(MEMBERSHIP_GOLD));
    assert!(n.message.contains("BALANCE DUE: $10"));
    assert_eq!(n.message, format!("{}<br />BALANCE DUE: $10", MEMBERSHIP_GOLD));
    assert_eq!(n.severity, Severity::Yellow);
    // A balance at or under the limit alone asks for no interaction.
    assert!(!n.requires_interaction);
}

#[test]
fn valid_membership_is_green() {
    let n = from_frame(r#"{"message":{"status":1,"membership":"Gold"}}"#);
    assert_eq!(n.message, MEMBERSHIP_GOLD);
    assert_eq!(n.severity, Severity::Green);
    assert!(!n.requires_interaction);
}

#[test]
fn warning_alone_is_yellow_and_interactive() {
    let mut ev = blank();
    ev.status = Some(1);
    ev.balance_due = Some(false);
    ev.yellow_alert = text("Check ID");
    let n = classify(&ev);
    assert_eq!(n.severity, Severity::Yellow);
    assert!(n.requires_interaction);
    assert_eq!(n.message, format!("<span class=\"membership\"></span><br />{}Check ID", YELLOW_PREFIX));
}

#[test]
fn red_alert_beats_warning() {
    let mut ev = blank();
    ev.status = Some(1);
    ev.red_alert = text("Banned");
    ev.yellow_alert = text("Late");
    let n = classify(&ev);
    assert_eq!(n.severity, Severity::Red);
    assert!(n.requires_interaction);
    let red = n.message.find(&format!("{}Banned", RED_PREFIX)).unwrap();
    let yellow = n.message.find(&format!("{}Late", YELLOW_PREFIX)).unwrap();
    assert!(red < yellow);
    assert_eq!(
        n.message,
        format!(
            "<span class=\"membership\"></span><br />{}Banned<br />{}Late",
            RED_PREFIX, YELLOW_PREFIX
        )
    );
}

#[test]
fn bad_statuses_are_red_whatever_the_warning() {
    for status in [0i64, 2, 3] {
        let mut ev = blank();
        ev.status = Some(status);
        ev.yellow_alert = text("Late");
        let n = classify(&ev);
        assert_eq!(n.severity, Severity::Red);
        assert!(n.requires_interaction);
    }
}

#[test]
fn large_balance_is_red() {
    let n = from_frame(r#"{"message":{"status":1,"balanceDue":true,"balance":30.5}}"#);
    assert_eq!(n.severity, Severity::Red);
    assert!(n.requires_interaction);
    assert!(n.message.ends_with("BALANCE DUE: $30.5"));
}

#[test]
fn balance_at_limit_is_yellow() {
    let n = from_frame(r#"{"message":{"status":1,"balanceDue":true,"balance":25}}"#);
    assert_eq!(n.severity, Severity::Yellow);
    assert!(n.message.ends_with("BALANCE DUE: $25"));
}

#[test]
fn missing_balance_reads_as_zero() {
    let n = from_frame(r#"{"message":{"status":1,"balanceDue":true}}"#);
    assert!(n.message.ends_with("BALANCE DUE: $0"));
    assert_eq!(n.severity, Severity::Yellow);
    assert!(!n.requires_interaction);
}

#[test]
fn balance_not_due_is_ignored() {
    let n = from_frame(r#"{"message":{"status":1,"balanceDue":false,"balance":99}}"#);
    assert_eq!(n.severity, Severity::Green);
    assert!(!n.message.contains("BALANCE"));
}

#[test]
fn status_three_uses_its_message() {
    let n = from_frame(r#"{"message":{"status":3,"message":"See front desk","member":"Ann"}}"#);
    assert_eq!(n.message, "See front desk");
    assert_eq!(n.title, "Ann");
    assert_eq!(n.severity, Severity::Red);
}

#[test]
fn other_status_shows_raw_membership() {
    let mut ev = blank();
    ev.status = Some(7);
    ev.membership = text("Silver");
    assert_eq!(status_message(&ev), "Silver");
    let n = classify(&ev);
    assert_eq!(n.message, "Silver");
    assert_eq!(n.severity, Severity::Green);
}

#[test]
fn other_status_with_warning_is_green() {
    let mut ev = blank();
    ev.status = Some(7);
    ev.yellow_alert = text("Late");
    let n = classify(&ev);
    assert_eq!(n.severity, Severity::Green);
    assert!(n.requires_interaction);
}

#[test]
fn empty_parts_are_left_out() {
    let mut ev = blank();
    ev.status = Some(3);
    ev.red_alert = text("");
    let parts = message_parts_of(&ev);
    assert!(parts.is_empty());
    assert_eq!(classify(&ev).message, "");
}

#[test]
fn image_and_title_are_carried() {
    let n = from_frame(r#"{"message":{"member":"Bo","image":"http://x/y.png","status":1}}"#);
    assert_eq!(n.title, "Bo");
    assert_eq!(n.image, Some("http://x/y.png".to_string()));
}

#[test]
fn mistyped_fields_take_defaults() {
    let n = from_frame(r#"{"message":{"status":"0","member":5,"balanceDue":"yes","redAlert":1}}"#);
    assert_eq!(n.title, "Unknown");
    assert_eq!(n.message, "<span class=\"membership\"></span>");
    assert_eq!(n.severity, Severity::Green);
}

#[test]
fn classification_repeats_exactly() {
    let mut ev = blank();
    ev.status = Some(1);
    ev.red_alert = text("A");
    ev.balance_due = Some(true);
    let a = classify(&ev);
    let b = classify(&ev);
    assert_eq!(a.title, b.title);
    assert_eq!(a.message, b.message);
    assert_eq!(a.severity, b.severity);
    assert_eq!(a.requires_interaction, b.requires_interaction);
    assert_eq!(a.image, b.image);
}

#[test]
fn amount_text_comes_from_the_number() {
    let inbound = decode_frame(r#"{"message":{"balance":12.75}}"#).unwrap();
    let amount: Amount = inbound.event.balance.unwrap();
    assert_eq!(amount.text, "12.75");
    assert_eq!(amount.bits, 12.75f64.to_bits());
}

#[test]
fn limit_comparisons_follow_the_numbers() {
    assert!(!is_above_limit(25.0f64.to_bits()));
    assert!(is_within_limit(25.0f64.to_bits()));
    assert!(is_above_limit(25.01f64.to_bits()));
    assert!(!is_within_limit(25.01f64.to_bits()));
    assert!(is_within_limit((-100.0f64).to_bits()));
    assert!(is_above_limit(f64::INFINITY.to_bits()));
    assert!(!is_above_limit(f64::NAN.to_bits()));
    assert!(!is_within_limit(f64::NAN.to_bits()));
    assert!(is_within_limit(0u64));
}

#[test]
fn severity_labels() {
    assert_eq!(Severity::Green.label(), "green");
    assert_eq!(Severity::Yellow.label(), "yellow");
    assert_eq!(Severity::Red.label(), "red");
}
