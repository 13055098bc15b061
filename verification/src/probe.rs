//! The batteries that the system reports, and the choice of one by its serial
//! number.

use vstd::prelude::*;

verus! {

/// What is known of one battery.
#[derive(Clone, Debug, PartialEq, Eq)]
pub struct BatteryInfo {
    /// The serial number, where the battery reports one.
    pub serial: Option<String>,
    /// The maker's name, where the battery reports one.
    pub vendor: Option<String>,
    /// The charge in whole percent, rounded down.
    pub percentage: u32,
    /// Whether the battery is being charged. It is reported and has no
    /// bearing on alerts.
    pub charging: bool,
}

/// One entry of the enumeration: a battery, or the failure to read one.
#[derive(Clone, Debug, PartialEq, Eq)]
pub enum Probe {
    /// The battery was read.
    Ready(BatteryInfo),
    /// The battery could not be read; all that is known is what went wrong.
    Failed(String),
}

/// How a battery is named in a listing.
#[derive(Clone, Debug, PartialEq, Eq)]
pub struct Label {
    /// The serial number, or a placeholder.
    pub serial: String,
    /// The maker's name, or a placeholder.
    pub vendor: String,
}

/// The entry is a battery that was read and that reports `serial` as its
/// serial number.
pub open spec fn has_serial(probe: Probe, serial: Seq<char>) -> bool {
    match probe {
        Probe::Ready(info) => info.serial is Some && info.serial->Some_0@ == serial,
        Probe::Failed(_) => false,
    }
}

/// Entry `i` has the serial number and no entry before it has.
pub open spec fn is_first_match(probes: Seq<Probe>, serial: Seq<char>, i: int) -> bool {
    &&& 0 <= i < probes.len()
    &&& has_serial(probes[i], serial)
    &&& forall|j: int| 0 <= j < i ==> !has_serial(#[trigger] probes[j], serial)
}

/// The position of the first entry with the serial number, if there is one.
pub open spec fn first_match(probes: Seq<Probe>, serial: Seq<char>) -> Option<int> {
    if exists|i: int| is_first_match(probes, serial, i) {
        Some(choose|i: int| is_first_match(probes, serial, i))
    } else {
        None
    }
}

/// The serial number under which a battery is listed.
pub open spec fn serial_label(info: BatteryInfo) -> Seq<char> {
    match info.serial {
        Some(serial) => serial@,
        None => "no id"@,
    }
}

/// The maker's name under which a battery is listed.
pub open spec fn vendor_label(info: BatteryInfo) -> Seq<char> {
    match info.vendor {
        Some(vendor) => vendor@,
        None => "no vendor"@,
    }
}

/// The labels of the batteries that were read, in the order of enumeration.
/// Entries that failed are passed over.
pub open spec fn labels(probes: Seq<Probe>) -> Seq<(Seq<char>, Seq<char>)>
    decreases probes.len(),
{
    if probes.len() == 0 {
        seq![]
    } else {
        let before = labels(probes.drop_last());
        match probes.last() {
            Probe::Ready(info) => before.push((serial_label(info), vendor_label(info))),
            Probe::Failed(_) => before,
        }
    }
}

/// The content of a list of labels.
pub open spec fn label_views(list: Seq<Label>) -> Seq<(Seq<char>, Seq<char>)> {
    Seq::new(list.len(), |k: int| (list[k].serial@, list[k].vendor@))
}

/// A position that is the first match is the one `first_match` names.
pub proof fn lemma_first_match_unique(probes: Seq<Probe>, serial: Seq<char>, i: int)
    requires
        is_first_match(probes, serial, i),
    ensures
        first_match(probes, serial) == Some(i),
{
    let c = choose|c: int| is_first_match(probes, serial, c);
    assert(is_first_match(probes, serial, c));
    if c < i {
        assert(!has_serial(probes[c], serial));
    } else if i < c {
        assert(!has_serial(probes[i], serial));
    }
}

/// Where no entry has the serial number, there is no first match.
pub proof fn lemma_first_match_none(probes: Seq<Probe>, serial: Seq<char>)
    requires
        forall|j: int| 0 <= j < probes.len() ==> !has_serial(#[trigger] probes[j], serial),
    ensures
        first_match(probes, serial) is None,
{
}

/// Whether an entry is a battery with the given serial number.
pub fn matches_serial(probe: &Probe, serial: &String) -> (r: bool)
    ensures
        r == has_serial(*probe, serial@),
{
    match probe {
        Probe::Ready(info) => match &info.serial {
            Some(found) => *found == *serial,
            None => false,
        },
        Probe::Failed(_) => false,
    }
}

/// Finds the first battery that reports the given serial number.
pub fn find_battery(probes: &Vec<Probe>, serial: &String) -> (r: Option<usize>)
    ensures
        match r {
            Some(i) => first_match(probes@, serial@) == Some(i as int),
            None => first_match(probes@, serial@) is None,
        },
        r is Some <==> exists|j: int|
            0 <= j < probes.len() && has_serial(#[trigger] probes[j], serial@),
{
    let mut i: usize = 0;
    while i < probes.len()
        invariant
            i <= probes.len(),
            forall|j: int| 0 <= j < i ==> !has_serial(#[trigger] probes[j], serial@),
        decreases probes.len() - i,
    {
        if matches_serial(&probes[i], serial) {
            proof {
                lemma_first_match_unique(probes@, serial@, i as int);
            }
            return Some(i);
        }
        i += 1;
    }
    proof {
        lemma_first_match_none(probes@, serial@);
    }
    None
}

/// Names a battery for a listing: its serial number and maker, each replaced
/// by a placeholder where the battery reports none.
pub fn label_of(info: &BatteryInfo) -> (label: Label)
    ensures
        label.serial@ == serial_label(*info),
        label.vendor@ == vendor_label(*info),
{
    let serial = match &info.serial {
        Some(s) => s.clone(),
        None => String::from_str("no id"),
    };
    let vendor = match &info.vendor {
        Some(v) => v.clone(),
        None => String::from_str("no vendor"),
    };
    Label { serial, vendor }
}

/// Lists the batteries that were read, in the order of enumeration.
pub fn list_batteries(probes: &Vec<Probe>) -> (list: Vec<Label>)
    ensures
        label_views(list@) == labels(probes@),
{
    let mut list: Vec<Label> = Vec::new();
    let mut i: usize = 0;
    assert(probes@.take(0) =~= Seq::<Probe>::empty());
    assert(label_views(list@) =~= labels(probes@.take(0)));
    while i < probes.len()
        invariant
            i <= probes.len(),
            label_views(list@) == labels(probes@.take(i as int)),
        decreases probes.len() - i,
    {
        let ghost before = list@;
        let ghost prefix = probes@.take(i as int + 1);
        assert(prefix.drop_last() =~= probes@.take(i as int));
        assert(prefix.last() == probes@[i as int]);
        match &probes[i] {
            Probe::Ready(info) => {
                let label = label_of(info);
                list.push(label);
                assert(label_views(list@) =~= label_views(before).push(
                    (serial_label(*info), vendor_label(*info)),
                ));
            },
            Probe::Failed(_) => {},
        }
        i += 1;
    }
    assert(probes@.take(i as int) =~= probes@);
    list
}

/// A listing has at most one line for each entry of the enumeration.
pub proof fn lemma_labels_len(probes: Seq<Probe>)
    ensures
        labels(probes).len() <= probes.len(),
    decreases probes.len(),
{
    if probes.len() > 0 {
        lemma_labels_len(probes.drop_last());
    }
}

} // verus!
