//! Threshold crossings: when a fall in charge calls for an alert.

use vstd::prelude::*;

verus! {

/// How serious an alert is.
#[derive(Clone, Copy, Debug, PartialEq, Eq, Structural)]
pub enum Severity {
    /// The charge fell through the warning threshold.
    Warning,
    /// The charge fell through the critical threshold.
    Critical,
}

/// The charge levels, in percent, at which alerts are raised.
///
/// The two levels are independent: nothing requires the critical level to lie
/// below the warning level. Where both are crossed at once, the critical one
/// wins.
#[derive(Clone, Copy, Debug, PartialEq, Eq)]
pub struct Thresholds {
    /// Falling to or below this level raises a critical alert.
    pub critical: u32,
    /// Falling to or below this level raises a warning, if a level is set.
    pub warn: Option<u32>,
}

/// The charge went from above `level` to at or below it.
pub open spec fn crosses(prev: u32, curr: u32, level: u32) -> bool {
    curr <= level && prev > level
}

/// Whether the charge fell through `level` between two readings.
pub fn crossed(prev: u32, curr: u32, level: u32) -> (r: bool)
    ensures
        r == crosses(prev, curr, level),
{
    curr <= level && prev > level
}

impl Thresholds {
    /// The alert that a fall from `prev` to `curr` calls for.
    pub open spec fn alert(&self, prev: u32, curr: u32) -> Option<Severity> {
        if crosses(prev, curr, self.critical) {
            Some(Severity::Critical)
        } else if self.warn is Some && crosses(prev, curr, self.warn->Some_0) {
            Some(Severity::Warning)
        } else {
            None
        }
    }

    /// Thresholds with the given critical level and optional warning level.
    pub fn new(critical: u32, warn: Option<u32>) -> (t: Thresholds)
        ensures
            t.critical == critical,
            t.warn == warn,
    {
        Thresholds { critical, warn }
    }

    /// Decides which alert, if any, is due now that the charge reads `curr`
    /// and read `prev` at the previous poll.
    pub fn check(&self, prev: u32, curr: u32) -> (r: Option<Severity>)
        ensures
            r == self.alert(prev, curr),
    {
        if crossed(prev, curr, self.critical) {
            return Some(Severity::Critical);
        }
        match self.warn {
            Some(level) => {
                if crossed(prev, curr, level) {
                    Some(Severity::Warning)
                } else {
                    None
                }
            },
            None => None,
        }
    }
}

/// A fall through the critical level raises the critical alert, and therefore
/// no warning, whatever the warning level is.
pub proof fn lemma_critical_crossing_alerts(t: Thresholds, prev: u32, curr: u32)
    requires
        prev > t.critical,
        curr <= t.critical,
    ensures
        t.alert(prev, curr) == Some(Severity::Critical),
{
}

/// Once the recorded charge is at or below the critical level, no further
/// critical alert is raised, however low the charge stays or sinks.
pub proof fn lemma_no_repeat_below_critical(t: Thresholds, prev: u32, curr: u32)
    requires
        prev <= t.critical,
    ensures
        t.alert(prev, curr) != Some(Severity::Critical),
{
}

/// A fall through the warning level that is not also a fall through the
/// critical level raises the warning.
pub proof fn lemma_warning_crossing_alerts(t: Thresholds, prev: u32, curr: u32, level: u32)
    requires
        t.warn == Some(level),
        prev > level,
        curr <= level,
        !crosses(prev, curr, t.critical),
    ensures
        t.alert(prev, curr) == Some(Severity::Warning),
{
}

/// An alert is raised only by a fall through the threshold it belongs to,
/// from above it to at or below it.
pub proof fn lemma_alert_only_on_crossing(t: Thresholds, prev: u32, curr: u32)
    ensures
        t.alert(prev, curr) == Some(Severity::Critical) ==> crosses(prev, curr, t.critical),
        t.alert(prev, curr) == Some(Severity::Warning) ==> t.warn is Some && crosses(
            prev,
            curr,
            t.warn->Some_0,
        ),
{
}

/// No alert is raised while the charge does not fall: an alert needs a
/// reading strictly below the one before it.
pub proof fn lemma_alert_needs_fall(t: Thresholds, prev: u32, curr: u32)
    requires
        curr >= prev,
    ensures
        t.alert(prev, curr) is None,
{
}

} // verus!
