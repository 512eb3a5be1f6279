//! What both kinds of discovery share: the search that is made, the description of a device
//! that answers, and the rule by which each device is looked at once.

use vstd::hash_set::StringHashSet;
use vstd::prelude::*;
use vstd::string::*;

use crate::text::{decimal_text, str_eq};

verus! {

/// The kind of UPnP device that is searched for.
pub const SEARCH_TARGET: &'static str = "urn:schemas-upnp-org:device:MediaRenderer:1";

/// How long a search waits for answers, in seconds.
pub const SEARCH_TIMEOUT_SECS: u64 = 3;

/// What a device says of itself in its description.
#[derive(Clone, Debug, PartialEq, Eq)]
pub struct DeviceDescription {
    pub friendly_name: String,
    pub manufacturer: String,
    pub model_name: String,
    pub model_number: Option<String>,
    pub serial_number: Option<String>,
    pub url: String,
    pub udn: String,
}

/// How a device is named in the log: `'name' (model) [udn]`.
pub open spec fn device_label(name: Seq<char>, model: Seq<char>, udn: Seq<char>) -> Seq<char> {
    "'"@ + name + "' ("@ + model + ") ["@ + udn + "]"@
}

/// How a device is named in the log.
pub fn label(name: &str, model: &str, udn: &str) -> (text: String)
    ensures
        text@ == device_label(name@, model@, udn@),
{
    String::from_str("'").concat(name).concat("' (").concat(model).concat(") [").concat(
        udn,
    ).concat("]")
}

/// What is said of a discovery's harvest: the word for what was found takes an `s` for more
/// than one.
pub open spec fn harvest_text(before: Seq<char>, count: usize, what: Seq<char>) -> Seq<char> {
    before + decimal_text(count as int) + what + if count > 1 {
        "s"@
    } else {
        ""@
    }
}

/// What a scan makes of one answer.
#[derive(Clone, Copy, Debug, PartialEq, Eq, Structural)]
pub enum Sighting {
    /// A device with this UDN has answered before in the same scan.
    Seen,
    /// The device is new to the scan, and made by another manufacturer than the wanted one.
    Foreign,
    /// The device is new to the scan, and made by the wanted manufacturer.
    Wanted,
}

/// One scan of the network: the UDNs that have answered, and how many wanted devices were
/// among them.
pub struct Scan {
    pub seen_udns: StringHashSet,
    pub found_count: usize,
}

/// What a scan that has seen `seen` makes of an answer.
pub open spec fn sighting_of(
    seen: Set<Seq<char>>,
    udn: Seq<char>,
    manufacturer: Seq<char>,
    wanted: Seq<char>,
) -> Sighting {
    if seen.contains(udn) {
        Sighting::Seen
    } else if manufacturer == wanted {
        Sighting::Wanted
    } else {
        Sighting::Foreign
    }
}

/// One more, as far as the machine can count.
pub open spec fn counted_up(count: usize) -> usize {
    if count < usize::MAX {
        (count + 1) as usize
    } else {
        count
    }
}

impl Scan {
    /// A scan to which nothing has answered.
    pub fn new() -> (scan: Scan)
        ensures
            scan.seen_udns@ == Set::<Seq<char>>::empty(),
            scan.found_count == 0,
    {
        Scan { seen_udns: StringHashSet::new(), found_count: 0 }
    }

    /// Whether a device with this UDN has answered before.
    pub fn has_seen(&self, udn: &str) -> (seen: bool)
        ensures
            seen == self.seen_udns@.contains(udn@),
    {
        self.seen_udns.contains(udn)
    }

    /// How many UDNs have answered.
    pub fn seen_count(&self) -> (count: usize)
        ensures
            count == self.seen_udns@.len(),
    {
        self.seen_udns.len()
    }

    /// Takes note of an answer. A UDN that has answered before changes nothing; a new one
    /// is remembered, and counted where its manufacturer is the wanted one.
    pub fn observe(&mut self, udn: &str, manufacturer: &str, wanted: &str) -> (sighting: Sighting)
        ensures
            sighting == sighting_of(old(self).seen_udns@, udn@, manufacturer@, wanted@),
            final(self).seen_udns@ == old(self).seen_udns@.insert(udn@),
            sighting is Seen ==> final(self).seen_udns@ == old(self).seen_udns@,
            final(self).found_count == if sighting is Wanted {
                counted_up(old(self).found_count)
            } else {
                old(self).found_count
            },
    {
        if self.seen_udns.contains(udn) {
            assert(self.seen_udns@.insert(udn@) =~= self.seen_udns@);
            return Sighting::Seen;
        }
        self.seen_udns.insert(String::from_str(udn));
        if str_eq(manufacturer, wanted) {
            if self.found_count < usize::MAX {
                self.found_count = self.found_count + 1;
            }
            Sighting::Wanted
        } else {
            Sighting::Foreign
        }
    }
}

} // verus!
