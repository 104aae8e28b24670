use vstd::prelude::*;
use crate::types::{Status, StatusKind};

verus! {

pub open spec fn digit_char(d: nat) -> char {
    if d == 0 { '0' }
    else if d == 1 { '1' }
    else if d == 2 { '2' }
    else if d == 3 { '3' }
    else if d == 4 { '4' }
    else if d == 5 { '5' }
    else if d == 6 { '6' }
    else if d == 7 { '7' }
    else if d == 8 { '8' }
    else { '9' }
}

/// The decimal digits of `n`, most significant first, without leading zeros.
pub open spec fn digits(n: nat) -> Seq<char>
    decreases n,
{
    if n < 10 {
        seq![digit_char(n)]
    } else {
        digits(n / 10).push(digit_char(n % 10))
    }
}

/// `n` written in decimal, with a leading `-` when negative.
pub open spec fn decimal_text(n: int) -> Seq<char> {
    if n < 0 {
        seq!['-'] + digits((-n) as nat)
    } else {
        digits(n as nat)
    }
}

/// The one-character text of a decimal digit.
fn digit_text(d: u64) -> (r: &'static str)
    requires
        d < 10,
    ensures
        r@ == seq![digit_char(d as nat)],
{
    proof {
        reveal_strlit("0");
        reveal_strlit("1");
        reveal_strlit("2");
        reveal_strlit("3");
        reveal_strlit("4");
        reveal_strlit("5");
        reveal_strlit("6");
        reveal_strlit("7");
        reveal_strlit("8");
        reveal_strlit("9");
    }
    if d == 0 { "0" }
    else if d == 1 { "1" }
    else if d == 2 { "2" }
    else if d == 3 { "3" }
    else if d == 4 { "4" }
    else if d == 5 { "5" }
    else if d == 6 { "6" }
    else if d == 7 { "7" }
    else if d == 8 { "8" }
    else { "9" }
}

/// Appends the decimal digits of `n` to `out`.
fn push_digits(out: &mut String, n: u64)
    ensures
        final(out)@ == old(out)@ + digits(n as nat),
    decreases n,
{
    if n >= 10 {
        push_digits(out, n / 10);
    }
    out.append(digit_text(n % 10));
    proof {
        if n >= 10 {
            assert(old(out)@ + digits(n as nat) =~= old(out)@ + digits((n / 10) as nat) + seq![digit_char((n % 10) as nat)]);
        } else {
            assert(old(out)@ + digits(n as nat) =~= old(out)@ + seq![digit_char((n % 10) as nat)]);
        }
    }
}

/// `n` written in decimal; see [`decimal_text`].
fn decimal(n: i64) -> (r: String)
    ensures
        r@ == decimal_text(n as int),
{
    let mut out = String::new();
    if n < 0 {
        proof {
            reveal_strlit("-");
        }
        out.append("-");
        let magnitude: u64 = (-(n as i128)) as u64;
        push_digits(&mut out, magnitude);
    } else {
        push_digits(&mut out, n as u64);
    }
    proof {
        if n < 0 {
            assert(out@ =~= seq!['-'] + digits((-n) as nat));
        } else {
            assert(out@ =~= digits(n as nat));
        }
    }
    out
}

/// The lower-case name of a status kind.
pub open spec fn kind_label(k: StatusKind) -> Seq<char> {
    match k {
        StatusKind::Healthy => "healthy"@,
        StatusKind::Warning => "warning"@,
        StatusKind::Critical => "critical"@,
        StatusKind::Expired => "expired"@,
        StatusKind::Error => "error"@,
    }
}

/// The lower-case name of a status kind.
pub fn label(k: StatusKind) -> (r: String)
    ensures
        r@ == kind_label(k),
{
    match k {
        StatusKind::Healthy => String::from_str("healthy"),
        StatusKind::Warning => String::from_str("warning"),
        StatusKind::Critical => String::from_str("critical"),
        StatusKind::Expired => String::from_str("expired"),
        StatusKind::Error => String::from_str("error"),
    }
}

/// The symbol that opens the headline of an alert for a status kind.
pub open spec fn kind_emoji(k: StatusKind) -> Seq<char> {
    match k {
        StatusKind::Healthy => "\u{2705}"@,
        StatusKind::Warning => "\u{26a0}\u{fe0f}"@,
        StatusKind::Critical => "\u{1f6a8}"@,
        StatusKind::Expired => "\u{274c}"@,
        StatusKind::Error => "\u{2757}"@,
    }
}

/// The colour of an alert attachment for a status kind.
pub open spec fn kind_color(k: StatusKind) -> Seq<char> {
    match k {
        StatusKind::Healthy => "good"@,
        StatusKind::Warning => "warning"@,
        _ => "danger"@,
    }
}

/// The human description of a status: hours left with one decimal, hours
/// since expiry, or the failure's reason.
pub open spec fn description(s: Status) -> Seq<char> {
    match s {
        Status::Healthy { hours_until_expiry: h } => decimal_text(h as int) + ".0h left"@,
        Status::Warning { hours_until_expiry: h } => decimal_text(h as int) + ".0h left"@,
        Status::Critical { hours_until_expiry: h } => decimal_text(h as int) + ".0h left"@,
        Status::Expired { hours_since_expiry: h } => decimal_text(h as int) + ".0h ago"@,
        Status::Error { reason } => reason@,
    }
}

/// The human description of a status; see [`description`].
pub fn describe(s: &Status) -> (r: String)
    ensures
        r@ == description(*s),
{
    match s {
        Status::Healthy { hours_until_expiry } => decimal(*hours_until_expiry).concat(".0h left"),
        Status::Warning { hours_until_expiry } => decimal(*hours_until_expiry).concat(".0h left"),
        Status::Critical { hours_until_expiry } => decimal(*hours_until_expiry).concat(".0h left"),
        Status::Expired { hours_since_expiry } => decimal(*hours_since_expiry).concat(".0h ago"),
        Status::Error { reason } => reason.clone(),
    }
}

/// The content of an alert about a status transition.
#[derive(Clone, Debug)]
pub struct AlertMessage {
    /// Headline: `"<symbol> ibc alert: <label>"`.
    pub text: String,
    pub color: String,
    pub chain: String,
    pub client: String,
    /// The counterparty chain, `"?"` when unknown.
    pub counterparty: String,
    /// `"<label> - <description>"`.
    pub status: String,
    pub footer: String,
}

/// Renders the alert for `status` of client `client_id` on `chain`.
pub fn alert_message(chain: &str, client_id: &str, counterparty: Option<&str>, status: &Status) -> (r:
    AlertMessage)
    ensures
        r.text@ == kind_emoji(status.kind_of()) + " ibc alert: "@ + kind_label(status.kind_of()),
        r.color@ == kind_color(status.kind_of()),
        r.chain@ == chain@,
        r.client@ == client_id@,
        r.counterparty@ == match counterparty {
            Some(c) => c@,
            None => "?"@,
        },
        r.status@ == kind_label(status.kind_of()) + " - "@ + description(*status),
        r.footer@ == "ibc-monitor"@,
{
    let kind = status.kind();
    let name = label(kind);
    let color = match kind {
        StatusKind::Healthy => String::from_str("good"),
        StatusKind::Warning => String::from_str("warning"),
        _ => String::from_str("danger"),
    };
    let emoji = match kind {
        StatusKind::Healthy => String::from_str("\u{2705}"),
        StatusKind::Warning => String::from_str("\u{26a0}\u{fe0f}"),
        StatusKind::Critical => String::from_str("\u{1f6a8}"),
        StatusKind::Expired => String::from_str("\u{274c}"),
        StatusKind::Error => String::from_str("\u{2757}"),
    };
    let desc = describe(status);
    let line = name.clone().concat(" - ").concat(desc.as_str());
    AlertMessage {
        text: emoji.concat(" ibc alert: ").concat(name.as_str()),
        color,
        chain: String::from_str(chain),
        client: String::from_str(client_id),
        counterparty: match counterparty {
            Some(c) => String::from_str(c),
            None => String::from_str("?"),
        },
        status: line,
        footer: String::from_str("ibc-monitor"),
    }
}

} // verus!
