//! Business events and their classification into notifications.
use vstd::prelude::*;

verus! {

/// Bit pattern of the sign of an IEEE-754 binary64 value.
pub const SIGN_BIT: u64 = 0x8000_0000_0000_0000;

/// Bit pattern of positive infinity.
pub const INFINITY_BITS: u64 = 0x7FF0_0000_0000_0000;

/// Bit pattern of 25 as a binary64 value, the balance above which a debt is urgent.
pub const BALANCE_LIMIT_BITS: u64 = 0x4039_0000_0000_0000;

/// A numeric amount: the binary64 encoding of the number, and its decimal text.
#[derive(Clone, Debug)]
pub struct Amount {
    pub bits: u64,
    pub text: String,
}

/// The business fields of one inbound event; each is absent when missing or mistyped.
#[derive(Clone, Debug)]
pub struct RawEvent {
    pub member: Option<String>,
    pub status: Option<i64>,
    pub message: Option<String>,
    pub membership: Option<String>,
    pub balance_due: Option<bool>,
    pub balance: Option<Amount>,
    pub red_alert: Option<String>,
    pub yellow_alert: Option<String>,
    pub image: Option<String>,
}

/// Urgency tier attached to a notification.
#[derive(Clone, Copy, Debug, PartialEq, Eq, Structural)]
pub enum Severity {
    Green,
    Yellow,
    Red,
}

/// A classified alert, ready for display.
#[derive(Clone, Debug)]
pub struct NotificationData {
    pub title: String,
    pub message: String,
    pub severity: Severity,
    pub requires_interaction: bool,
    pub image: Option<String>,
}

pub open spec fn severity_name(s: Severity) -> Seq<char> {
    match s {
        Severity::Green => "green"@,
        Severity::Yellow => "yellow"@,
        Severity::Red => "red"@,
    }
}

impl Severity {
    /// The tier's name, as the display surface reads it.
    pub fn label(&self) -> (r: String)
        ensures
            r@ == severity_name(*self),
    {
        match self {
            Severity::Green => String::from_str("green"),
            Severity::Yellow => String::from_str("yellow"),
            Severity::Red => String::from_str("red"),
        }
    }
}

pub open spec fn text_or_empty(o: Option<String>) -> Seq<char> {
    match o {
        Some(s) => s@,
        None => Seq::empty(),
    }
}

/// The status code, 1 (valid membership) when absent.
pub open spec fn status_of(ev: RawEvent) -> i64 {
    match ev.status {
        Some(s) => s,
        None => 1,
    }
}

pub open spec fn balance_due_of(ev: RawEvent) -> bool {
    ev.balance_due == Some(true)
}

/// The balance's encoding; an absent balance is zero, whose encoding is 0.
pub open spec fn balance_bits_of(ev: RawEvent) -> u64 {
    match ev.balance {
        Some(a) => a.bits,
        None => 0,
    }
}

pub open spec fn balance_text_of(ev: RawEvent) -> Seq<char> {
    match ev.balance {
        Some(a) => a.text@,
        None => "0"@,
    }
}

pub open spec fn is_nan_bits(b: u64) -> bool {
    b % SIGN_BIT > INFINITY_BITS
}

/// The encoded number is greater than 25 (the balance limit).
pub open spec fn above_limit(b: u64) -> bool {
    b < SIGN_BIT && BALANCE_LIMIT_BITS < b && b <= INFINITY_BITS
}

/// The encoded number is at most 25 (false for NaN, as a float comparison is).
pub open spec fn within_limit(b: u64) -> bool {
    !is_nan_bits(b) && !above_limit(b)
}

pub open spec fn has_red_alert(ev: RawEvent) -> bool {
    text_or_empty(ev.red_alert).len() > 0
}

pub open spec fn has_yellow_alert(ev: RawEvent) -> bool {
    text_or_empty(ev.yellow_alert).len() > 0
}

pub open spec fn urgent_debt(ev: RawEvent) -> bool {
    balance_due_of(ev) && above_limit(balance_bits_of(ev))
}

pub open spec fn minor_debt(ev: RawEvent) -> bool {
    balance_due_of(ev) && within_limit(balance_bits_of(ev))
}

pub open spec fn bad_status(ev: RawEvent) -> bool {
    status_of(ev) == 0 || status_of(ev) == 2 || status_of(ev) == 3
}

pub open spec fn severity_of(ev: RawEvent) -> Severity {
    if has_red_alert(ev) || bad_status(ev) || urgent_debt(ev) {
        Severity::Red
    } else if status_of(ev) == 1 && (has_yellow_alert(ev) || minor_debt(ev)) {
        Severity::Yellow
    } else {
        Severity::Green
    }
}

pub open spec fn interaction_of(ev: RawEvent) -> bool {
    has_red_alert(ev) || has_yellow_alert(ev) || bad_status(ev) || urgent_debt(ev)
}

pub open spec fn title_of(ev: RawEvent) -> Seq<char> {
    match ev.member {
        Some(m) => m@,
        None => "Unknown"@,
    }
}

pub open spec fn status_text(ev: RawEvent) -> Seq<char> {
    let s = status_of(ev);
    if s == 0 {
        "NO MEMBERSHIP"@
    } else if s == 2 {
        "EXPIRED"@
    } else if s == 3 {
        text_or_empty(ev.message)
    } else if s == 1 {
        "<span class=\"membership\">"@ + text_or_empty(ev.membership) + "</span>"@
    } else {
        text_or_empty(ev.membership)
    }
}

pub open spec fn balance_part(ev: RawEvent) -> Seq<char> {
    "BALANCE DUE: $"@ + balance_text_of(ev)
}

pub open spec fn red_part(ev: RawEvent) -> Seq<char> {
    "<span style=\"color: red; font-weight: bold;\">ALERT: </span>"@ + text_or_empty(ev.red_alert)
}

pub open spec fn yellow_part(ev: RawEvent) -> Seq<char> {
    "<span style=\"color: #bf9500; font-weight: bold;\">WARNING: </span>"@ + text_or_empty(
        ev.yellow_alert,
    )
}

pub open spec fn part_if(keep: bool, part: Seq<char>) -> Seq<Seq<char>> {
    if keep {
        seq![part]
    } else {
        Seq::empty()
    }
}

/// The message parts, in their fixed order, each kept only when it applies.
pub open spec fn message_parts(ev: RawEvent) -> Seq<Seq<char>> {
    part_if(status_text(ev).len() > 0, status_text(ev)) + part_if(
        balance_due_of(ev),
        balance_part(ev),
    ) + part_if(has_red_alert(ev), red_part(ev)) + part_if(has_yellow_alert(ev), yellow_part(ev))
}

/// The parts joined by the line-break marker.
pub open spec fn joined(parts: Seq<Seq<char>>) -> Seq<char>
    decreases parts.len(),
{
    if parts.len() == 0 {
        Seq::empty()
    } else if parts.len() == 1 {
        parts[0]
    } else {
        joined(parts.drop_last()) + "<br />"@ + parts.last()
    }
}

pub open spec fn message_of(ev: RawEvent) -> Seq<char> {
    joined(message_parts(ev))
}

pub open spec fn same_text(a: Option<String>, b: Option<String>) -> bool {
    match (a, b) {
        (Some(x), Some(y)) => x@ == y@,
        (None, None) => true,
        _ => false,
    }
}

/// The notification carries exactly what classification gives for the event.
pub open spec fn classified(ev: RawEvent, n: NotificationData) -> bool {
    &&& n.title@ == title_of(ev)
    &&& n.message@ == message_of(ev)
    &&& n.severity == severity_of(ev)
    &&& n.requires_interaction == interaction_of(ev)
    &&& same_text(n.image, ev.image)
}

pub open spec fn views(v: Seq<String>) -> Seq<Seq<char>> {
    v.map_values(|s: String| s@)
}

fn text_of(o: &Option<String>) -> (r: String)
    ensures
        r@ == text_or_empty(*o),
{
    match o {
        Some(s) => s.clone(),
        None => String::new(),
    }
}

fn copy_option(o: &Option<String>) -> (r: Option<String>)
    ensures
        same_text(r, *o),
{
    match o {
        Some(s) => Some(s.clone()),
        None => None,
    }
}

fn status_code(ev: &RawEvent) -> (r: i64)
    ensures
        r == status_of(*ev),
{
    match ev.status {
        Some(s) => s,
        None => 1,
    }
}

fn balance_is_due(ev: &RawEvent) -> (r: bool)
    ensures
        r == balance_due_of(*ev),
{
    match ev.balance_due {
        Some(d) => d,
        None => false,
    }
}

fn balance_bits(ev: &RawEvent) -> (r: u64)
    ensures
        r == balance_bits_of(*ev),
{
    match &ev.balance {
        Some(a) => a.bits,
        None => 0,
    }
}

/// Whether the encoded number is greater than 25 (the balance limit).
pub fn is_above_limit(b: u64) -> (r: bool)
    ensures
        r == above_limit(b),
{
    b < SIGN_BIT && BALANCE_LIMIT_BITS < b && b <= INFINITY_BITS
}

/// Whether the encoded number is at most 25 (the balance limit).
pub fn is_within_limit(b: u64) -> (r: bool)
    ensures
        r == within_limit(b),
{
    let magnitude: u64 = if b >= SIGN_BIT {
        b - SIGN_BIT
    } else {
        b
    };
    magnitude <= INFINITY_BITS && !is_above_limit(b)
}

/// The first message part: what the status code says of the membership.
pub fn status_message(ev: &RawEvent) -> (r: String)
    ensures
        r@ == status_text(*ev),
{
    let s = status_code(ev);
    if s == 0 {
        String::from_str("NO MEMBERSHIP")
    } else if s == 2 {
        String::from_str("EXPIRED")
    } else if s == 3 {
        text_of(&ev.message)
    } else if s == 1 {
        let mut r = String::from_str("<span class=\"membership\">");
        let m = text_of(&ev.membership);
        r.append(m.as_str());
        r.append("</span>");
        r
    } else {
        text_of(&ev.membership)
    }
}

/// The message parts of an event, in order, each kept only when it applies.
pub fn message_parts_of(ev: &RawEvent) -> (r: Vec<String>)
    ensures
        views(r@) == message_parts(*ev),
{
    let mut parts: Vec<String> = Vec::new();
    let status = status_message(ev);
    if !status.as_str().is_empty() {
        parts.push(status);
    }
    assert(views(parts@) =~= part_if(status_text(*ev).len() > 0, status_text(*ev)));
    let ghost p1 = views(parts@);
    if balance_is_due(ev) {
        let mut b = String::from_str("BALANCE DUE: $");
        match &ev.balance {
            Some(a) => b.append(a.text.as_str()),
            None => b.append("0"),
        }
        parts.push(b);
    }
    assert(views(parts@) =~= p1 + part_if(balance_due_of(*ev), balance_part(*ev)));
    let ghost p2 = views(parts@);
    let red = text_of(&ev.red_alert);
    if !red.as_str().is_empty() {
        let mut r = String::from_str("<span style=\"color: red; font-weight: bold;\">ALERT: </span>");
        r.append(red.as_str());
        parts.push(r);
    }
    assert(views(parts@) =~= p2 + part_if(has_red_alert(*ev), red_part(*ev)));
    let ghost p3 = views(parts@);
    let yellow = text_of(&ev.yellow_alert);
    if !yellow.as_str().is_empty() {
        let mut y = String::from_str(
            "<span style=\"color: #bf9500; font-weight: bold;\">WARNING: </span>",
        );
        y.append(yellow.as_str());
        parts.push(y);
    }
    assert(views(parts@) =~= p3 + part_if(has_yellow_alert(*ev), yellow_part(*ev)));
    parts
}

/// The parts joined by the line-break marker `<br />`.
pub fn join_parts(parts: &Vec<String>) -> (r: String)
    ensures
        r@ == joined(views(parts@)),
{
    let mut out = String::new();
    let mut i: usize = 0;
    while i < parts.len()
        invariant
            i <= parts.len(),
            out@ == joined(views(parts@).take(i as int)),
        decreases parts.len() - i,
    {
        proof {
            assert(views(parts@).take(i + 1).drop_last() =~= views(parts@).take(i as int));
        }
        if i > 0 {
            out.append("<br />");
        }
        out.append(parts[i].as_str());
        i = i + 1;
    }
    assert(views(parts@).take(i as int) =~= views(parts@));
    out
}

/// The severity tier: red dominates yellow, which dominates green.
pub fn severity(ev: &RawEvent) -> (r: Severity)
    ensures
        r == severity_of(*ev),
{
    let s = status_code(ev);
    let due = balance_is_due(ev);
    let bits = balance_bits(ev);
    let red = match &ev.red_alert {
        Some(t) => !t.as_str().is_empty(),
        None => false,
    };
    let yellow = match &ev.yellow_alert {
        Some(t) => !t.as_str().is_empty(),
        None => false,
    };
    if red || s == 0 || s == 2 || s == 3 || (due && is_above_limit(bits)) {
        Severity::Red
    } else if s == 1 && (yellow || (due && is_within_limit(bits))) {
        Severity::Yellow
    } else {
        Severity::Green
    }
}

/// Whether the alert must wait for the user, decided apart from the severity.
pub fn requires_interaction(ev: &RawEvent) -> (r: bool)
    ensures
        r == interaction_of(*ev),
{
    let s = status_code(ev);
    let red = match &ev.red_alert {
        Some(t) => !t.as_str().is_empty(),
        None => false,
    };
    let yellow = match &ev.yellow_alert {
        Some(t) => !t.as_str().is_empty(),
        None => false,
    };
    red || yellow || s == 0 || s == 2 || s == 3 || (balance_is_due(ev) && is_above_limit(
        balance_bits(ev),
    ))
}

/// Classifies an event into the notification shown for it.
pub fn classify(ev: &RawEvent) -> (n: NotificationData)
    ensures
        n.title@ == title_of(*ev),
        n.message@ == message_of(*ev),
        n.severity == severity_of(*ev),
        n.requires_interaction == interaction_of(*ev),
        same_text(n.image, ev.image),
{
    let title = match &ev.member {
        Some(m) => m.clone(),
        None => String::from_str("Unknown"),
    };
    let parts = message_parts_of(ev);
    NotificationData {
        title,
        message: join_parts(&parts),
        severity: severity(ev),
        requires_interaction: requires_interaction(ev),
        image: copy_option(&ev.image),
    }
}

/// Classification is deterministic: two notifications classified from one event
/// agree on every field.
pub proof fn classification_is_deterministic(
    ev: RawEvent,
    n1: NotificationData,
    n2: NotificationData,
)
    requires
        classified(ev, n1),
        classified(ev, n2),
    ensures
        n1.title@ == n2.title@,
        n1.message@ == n2.message@,
        n1.severity == n2.severity,
        n1.requires_interaction == n2.requires_interaction,
        same_text(n1.image, n2.image),
{
}

/// A red alert, a status of 0, 2 or 3, or a balance due above the limit makes the
/// severity red, whatever the yellow alert holds.
pub proof fn red_dominates(ev: RawEvent)
    requires
        has_red_alert(ev) || bad_status(ev) || urgent_debt(ev),
    ensures
        severity_of(ev) == Severity::Red,
        interaction_of(ev),
{
}

/// A yellow alert on a valid membership, with no red alert and no balance due,
/// gives a yellow severity that still requires interaction.
pub proof fn warning_requires_interaction(ev: RawEvent)
    requires
        has_yellow_alert(ev),
        !has_red_alert(ev),
        status_of(ev) == 1,
        !balance_due_of(ev),
    ensures
        severity_of(ev) == Severity::Yellow,
        interaction_of(ev),
{
}

/// When both alerts are present, the red-styled segment stands in the message
/// strictly before the yellow-styled one.
pub proof fn red_alert_precedes_warning(ev: RawEvent)
    requires
        has_red_alert(ev),
        has_yellow_alert(ev),
    ensures
        exists|p: int, q: int|
            #![trigger message_of(ev).subrange(p, p + red_part(ev).len()), message_of(ev).subrange(q, q + yellow_part(ev).len())]
            0 <= p && p + red_part(ev).len() <= q && q + yellow_part(ev).len() <= message_of(
                ev,
            ).len() && message_of(ev).subrange(p, p + red_part(ev).len()) == red_part(ev)
                && message_of(ev).subrange(q, q + yellow_part(ev).len()) == yellow_part(ev),
{
    let r = red_part(ev);
    let y = yellow_part(ev);
    let sep = "<br />"@;
    let a = part_if(status_text(ev).len() > 0, status_text(ev)) + part_if(
        balance_due_of(ev),
        balance_part(ev),
    );
    assert(message_parts(ev) =~= a.push(r).push(y));
    assert(a.push(r).push(y).drop_last() =~= a.push(r));
    assert(a.push(r).drop_last() =~= a);
    let x = if a.len() == 0 {
        Seq::<char>::empty()
    } else {
        joined(a) + sep
    };
    if a.len() == 0 {
        assert(a.push(r) =~= seq![r]);
    }
    assert(joined(a.push(r)) =~= x + r);
    let m = x + r + sep + y;
    assert(message_of(ev) =~= m);
    let p = x.len() as int;
    let q = p + r.len() + sep.len();
    assert(m.subrange(p, p + r.len()) =~= r);
    assert(m.subrange(q, q + y.len()) =~= y);
    assert(message_of(ev).subrange(p, p + r.len()) == r && message_of(ev).subrange(q, q + y.len())
        == y);
}

} // verus!
