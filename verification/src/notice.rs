//! What an alert says: the text and the presentation hints handed to the
//! desktop's notification service.

use crate::threshold::Severity;
use vstd::prelude::*;

verus! {

/// How intrusively the notification service is asked to present an alert.
#[derive(Clone, Copy, Debug, PartialEq, Eq, Structural)]
pub enum Urgency {
    /// The service's ordinary level.
    Normal,
    /// The service's highest level.
    Critical,
}

/// An alert, ready to be shown.
#[derive(Clone, Debug, PartialEq, Eq)]
pub struct Notice {
    /// The headline.
    pub summary: String,
    /// The message under the headline.
    pub body: String,
    /// The level at which the alert is presented.
    pub urgency: Urgency,
    /// The themed sound to play with the alert, if any.
    pub sound: Option<String>,
    /// The number of seconds after which the alert is dismissed, if it is
    /// dismissed by itself at all.
    pub timeout_secs: Option<u64>,
}

/// The mathematical content of a [`Notice`].
pub ghost struct NoticeView {
    pub summary: Seq<char>,
    pub body: Seq<char>,
    pub urgency: Urgency,
    pub sound: Option<Seq<char>>,
    pub timeout_secs: Option<u64>,
}

impl View for Notice {
    type V = NoticeView;

    open spec fn view(&self) -> NoticeView {
        NoticeView {
            summary: self.summary@,
            body: self.body@,
            urgency: self.urgency,
            sound: match self.sound {
                Some(name) => Some(name@),
                None => None,
            },
            timeout_secs: self.timeout_secs,
        }
    }
}

/// The numeral for a single digit.
pub open spec fn digit(d: nat) -> Seq<char>
    recommends
        d < 10,
{
    if d == 0 {
        "0"@
    } else if d == 1 {
        "1"@
    } else if d == 2 {
        "2"@
    } else if d == 3 {
        "3"@
    } else if d == 4 {
        "4"@
    } else if d == 5 {
        "5"@
    } else if d == 6 {
        "6"@
    } else if d == 7 {
        "7"@
    } else if d == 8 {
        "8"@
    } else {
        "9"@
    }
}

/// `n` in decimal notation, without sign or leading zeros.
pub open spec fn decimal(n: nat) -> Seq<char>
    decreases n,
{
    if n < 10 {
        digit(n)
    } else {
        decimal(n / 10) + digit(n % 10)
    }
}

/// The headline of every alert.
pub open spec fn summary_text() -> Seq<char> {
    "Battery level"@
}

/// The message of an alert of the given severity at the given charge.
pub open spec fn body_text(severity: Severity, percentage: u32) -> Seq<char> {
    match severity {
        Severity::Critical => "Battery level is CRITICAL ("@ + decimal(percentage as nat) + "%)"@,
        Severity::Warning => "Battery level is low ("@ + decimal(percentage as nat) + "%)"@,
    }
}

/// The alert of the given severity at the given charge.
///
/// A critical alert is presented at the highest urgency, with the theme's
/// cautionary battery sound, and stays until dismissed. A warning is presented
/// at normal urgency, silently, and goes away after thirty seconds.
pub open spec fn notice_for(severity: Severity, percentage: u32) -> NoticeView {
    match severity {
        Severity::Critical => NoticeView {
            summary: summary_text(),
            body: body_text(severity, percentage),
            urgency: Urgency::Critical,
            sound: Some("battery-caution"@),
            timeout_secs: None,
        },
        Severity::Warning => NoticeView {
            summary: summary_text(),
            body: body_text(severity, percentage),
            urgency: Urgency::Normal,
            sound: None,
            timeout_secs: Some(30),
        },
    }
}

/// The alert, if any, that goes with a decision.
pub open spec fn notice_if(alert: Option<Severity>, percentage: u32) -> Option<NoticeView> {
    match alert {
        Some(severity) => Some(notice_for(severity, percentage)),
        None => None,
    }
}

/// The content of an optional alert.
pub open spec fn view_of(notice: Option<Notice>) -> Option<NoticeView> {
    match notice {
        Some(n) => Some(n@),
        None => None,
    }
}

fn digit_str(d: u32) -> (s: &'static str)
    requires
        d < 10,
    ensures
        s@ == digit(d as nat),
{
    if d == 0 {
        "0"
    } else if d == 1 {
        "1"
    } else if d == 2 {
        "2"
    } else if d == 3 {
        "3"
    } else if d == 4 {
        "4"
    } else if d == 5 {
        "5"
    } else if d == 6 {
        "6"
    } else if d == 7 {
        "7"
    } else if d == 8 {
        "8"
    } else {
        "9"
    }
}

/// Writes a number in decimal notation.
pub fn render_decimal(n: u32) -> (s: String)
    ensures
        s@ == decimal(n as nat),
    decreases n,
{
    if n < 10 {
        String::from_str(digit_str(n))
    } else {
        let mut s = render_decimal(n / 10);
        s.append(digit_str(n % 10));
        s
    }
}

/// Writes the message of an alert.
pub fn render_body(severity: Severity, percentage: u32) -> (body: String)
    ensures
        body@ == body_text(severity, percentage),
{
    let mut body = match severity {
        Severity::Critical => String::from_str("Battery level is CRITICAL ("),
        Severity::Warning => String::from_str("Battery level is low ("),
    };
    let number = render_decimal(percentage);
    body.append(number.as_str());
    body.append("%)");
    body
}

impl Notice {
    /// Builds the alert of the given severity for a battery at the given
    /// charge.
    pub fn compose(severity: Severity, percentage: u32) -> (notice: Notice)
        ensures
            notice@ == notice_for(severity, percentage),
    {
        let summary = String::from_str("Battery level");
        let body = render_body(severity, percentage);
        match severity {
            Severity::Critical => Notice {
                summary,
                body,
                urgency: Urgency::Critical,
                sound: Some(String::from_str("battery-caution")),
                timeout_secs: None,
            },
            Severity::Warning => Notice {
                summary,
                body,
                urgency: Urgency::Normal,
                sound: None,
                timeout_secs: Some(30),
            },
        }
    }

    /// Builds the alert that goes with a decision, if the decision is to
    /// raise one.
    pub fn compose_if(alert: Option<Severity>, percentage: u32) -> (notice: Option<Notice>)
        ensures
            view_of(notice) == notice_if(alert, percentage),
    {
        match alert {
            Some(severity) => Some(Notice::compose(severity, percentage)),
            None => None,
        }
    }
}

} // verus!
