//! One poll: from the batteries found and the charge recorded last time to
//! what is to be recorded and shown now.

use crate::notice::notice_if;
use crate::notice::view_of;
use crate::notice::Notice;
use crate::notice::NoticeView;
use crate::probe::find_battery;
use crate::probe::first_match;
use crate::probe::has_serial;
use crate::probe::is_first_match;
use crate::probe::lemma_first_match_none;
use crate::probe::BatteryInfo;
use crate::probe::Probe;
use crate::state::encode;
use crate::state::le_bytes;
use crate::state::lemma_round_trip;
use crate::state::recorded;
use crate::threshold::Thresholds;
use vstd::prelude::*;

verus! {

/// What a poll of one battery comes to.
#[derive(Clone, Debug, PartialEq, Eq)]
pub struct Report {
    /// The charge that was observed.
    pub percentage: u32,
    /// Whether the battery is being charged.
    pub charging: bool,
    /// The record to write, so that the next poll compares against this one.
    pub record: Vec<u8>,
    /// The alert to show, if the charge fell through a threshold.
    pub notice: Option<Notice>,
}

/// The mathematical content of a [`Report`].
pub ghost struct ReportView {
    pub percentage: u32,
    pub charging: bool,
    pub record: Seq<u8>,
    pub notice: Option<NoticeView>,
}

impl View for Report {
    type V = ReportView;

    open spec fn view(&self) -> ReportView {
        ReportView {
            percentage: self.percentage,
            charging: self.charging,
            record: self.record@,
            notice: view_of(self.notice),
        }
    }
}

/// The result of a poll.
#[derive(Clone, Debug, PartialEq, Eq)]
pub enum Outcome {
    /// The battery was read: there is a record to write and perhaps an alert
    /// to show.
    Checked(Report),
    /// The battery could not be read. The failure is to be reported; nothing
    /// is to be recorded or shown.
    Unreadable(String),
    /// There is no such battery. That is to be reported; nothing is to be
    /// recorded or shown.
    NotFound,
}

/// The mathematical content of an [`Outcome`].
pub ghost enum OutcomeView {
    Checked(ReportView),
    Unreadable(Seq<char>),
    NotFound,
}

impl View for Outcome {
    type V = OutcomeView;

    open spec fn view(&self) -> OutcomeView {
        match *self {
            Outcome::Checked(report) => OutcomeView::Checked(report@),
            Outcome::Unreadable(failure) => OutcomeView::Unreadable(failure@),
            Outcome::NotFound => OutcomeView::NotFound,
        }
    }
}

/// The thresholds that the two levels given to a poll make up.
pub open spec fn thresholds_of(critical: &u32, warn: Option<&u32>) -> Thresholds {
    Thresholds {
        critical: *critical,
        warn: match warn {
            Some(level) => Some(*level),
            None => None,
        },
    }
}

/// What a poll of the battery `info` comes to, where the previous poll
/// recorded the charge `prev`.
///
/// The observed charge is always recorded, alert or no alert, charging or
/// not, and the alert is decided by the thresholds alone.
pub open spec fn report_for(info: BatteryInfo, prev: u32, t: Thresholds) -> ReportView {
    ReportView {
        percentage: info.percentage,
        charging: info.charging,
        record: le_bytes(info.percentage),
        notice: notice_if(t.alert(prev, info.percentage), info.percentage),
    }
}

/// What a poll comes to, given the entry that was picked out, if any was.
pub open spec fn outcome_of(selected: Option<Probe>, prev: u32, t: Thresholds) -> OutcomeView {
    match selected {
        Some(Probe::Ready(info)) => OutcomeView::Checked(report_for(info, prev, t)),
        Some(Probe::Failed(failure)) => OutcomeView::Unreadable(failure@),
        None => OutcomeView::NotFound,
    }
}

/// The first entry that reports the serial number, if any does.
pub open spec fn selection(probes: Seq<Probe>, serial: Seq<char>) -> Option<Probe> {
    match first_match(probes, serial) {
        Some(i) => Some(probes[i]),
        None => None,
    }
}

/// Polls one battery: records its charge and decides on an alert by
/// comparing the charge with the one recorded before.
pub fn check_reading(
    info: &BatteryInfo,
    prev_value: u32,
    thresholds: &Thresholds,
) -> (report: Report)
    ensures
        report@ == report_for(*info, prev_value, *thresholds),
{
    let percentage: u32 = info.percentage;
    let record = encode(percentage);
    let alert = thresholds.check(prev_value, percentage);
    let notice = Notice::compose_if(alert, percentage);
    Report { percentage, charging: info.charging, record, notice }
}

/// Settles a poll once an entry of the enumeration has been picked out, or
/// none could be: a battery that was read is polled, a failure is passed on
/// for reporting, and the lack of an entry is reported as such.
pub fn check_selected(
    selected: Option<&Probe>,
    prev_value: u32,
    thresholds: &Thresholds,
) -> (outcome: Outcome)
    ensures
        outcome@ == outcome_of(
            match selected {
                Some(probe) => Some(*probe),
                None => None,
            },
            prev_value,
            *thresholds,
        ),
{
    match selected {
        Some(Probe::Ready(info)) => Outcome::Checked(check_reading(info, prev_value, thresholds)),
        Some(Probe::Failed(failure)) => Outcome::Unreadable(failure.clone()),
        None => Outcome::NotFound,
    }
}

/// Polls the battery with the given serial number among those enumerated.
///
/// The first entry that was read and reports the number is the one polled.
/// Entries that failed are passed over, since nothing tells whose they are,
/// and so are batteries without a serial number.
pub fn check_battery(
    batteries: &Vec<Probe>,
    serial: &String,
    prev_value: u32,
    critical_percentage: &u32,
    warn_percentage: Option<&u32>,
) -> (outcome: Outcome)
    ensures
        outcome@ == outcome_of(
            selection(batteries@, serial@),
            prev_value,
            thresholds_of(critical_percentage, warn_percentage),
        ),
        outcome is Checked <==> exists|j: int|
            0 <= j < batteries.len() && has_serial(#[trigger] batteries[j], serial@),
        outcome is NotFound <==> forall|j: int|
            0 <= j < batteries.len() ==> !has_serial(#[trigger] batteries[j], serial@),
{
    let warn = match warn_percentage {
        Some(level) => Some(*level),
        None => None,
    };
    let thresholds = Thresholds::new(*critical_percentage, warn);
    match find_battery(batteries, serial) {
        Some(i) => check_selected(Some(&batteries[i]), prev_value, &thresholds),
        None => check_selected(None, prev_value, &thresholds),
    }
}

/// The charge that a poll records is the charge that the next poll compares
/// against.
pub proof fn lemma_report_records_reading(info: BatteryInfo, prev: u32, t: Thresholds)
    ensures
        recorded(report_for(info, prev, t).record) == info.percentage,
{
    lemma_round_trip(info.percentage);
}

/// A crossing is reported once: a poll that finds the charge where the
/// previous poll recorded it raises no alert, whatever the thresholds are.
pub proof fn lemma_no_alert_without_change(info: BatteryInfo, prev: u32, t: Thresholds)
    ensures
        report_for(
            info,
            recorded(report_for(info, prev, t).record) as u32,
            t,
        ).notice is None,
{
    lemma_round_trip(info.percentage);
}

/// Where no entry reports the serial number, the poll finds nothing: there is
/// no report, hence nothing to record and nothing to show.
pub proof fn lemma_unknown_serial_not_found(
    probes: Seq<Probe>,
    serial: Seq<char>,
    prev: u32,
    t: Thresholds,
)
    requires
        forall|j: int| 0 <= j < probes.len() ==> !has_serial(#[trigger] probes[j], serial),
    ensures
        outcome_of(selection(probes, serial), prev, t) == OutcomeView::NotFound,
{
    lemma_first_match_none(probes, serial);
}

/// A poll for a serial number never ends in an unreadable battery: only a
/// battery that was read can report the number.
pub proof fn lemma_selection_is_readable(
    probes: Seq<Probe>,
    serial: Seq<char>,
    prev: u32,
    t: Thresholds,
)
    ensures
        !(outcome_of(selection(probes, serial), prev, t) is Unreadable),
{
    if first_match(probes, serial) is Some {
        let i = choose|i: int| is_first_match(probes, serial, i);
        assert(has_serial(probes[i], serial));
    }
}

} // verus!
