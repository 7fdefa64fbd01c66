//! Scan results, and the choice of a channel from them.

use vstd::prelude::*;
use crate::identity::TargetIdentity;

verus! {

/// The channel to configure the radio for: a channel taken from a scan, or
/// `None` where the radio is to choose for itself.
pub type ChannelHint = Option<u8>;

/// How an access point secures its network.
#[derive(Clone, Copy, Debug, PartialEq, Eq, Structural)]
pub enum SecurityType {
    Open,
    Wep,
    Wpa,
    Wpa2Personal,
    WpaWpa2Personal,
    Wpa2Enterprise,
    Wpa3Personal,
    Wpa2Wpa3Personal,
    WapiPersonal,
}

/// One access point as a scan reported it.
#[derive(Debug)]
pub struct AccessPointRecord {
    /// The network name it broadcasts.
    pub ssid: String,
    /// Received signal strength, in dBm.
    pub signal_strength: i8,
    /// The channel it was heard on.
    pub channel: u8,
    /// How it secures its network.
    pub security: SecurityType,
}

/// What an [`AccessPointRecord`] stands for.
pub struct RecordView {
    pub ssid: Seq<char>,
    pub signal_strength: i8,
    pub channel: u8,
    pub security: SecurityType,
}

impl View for AccessPointRecord {
    type V = RecordView;

    open spec fn view(&self) -> RecordView {
        RecordView {
            ssid: self.ssid@,
            signal_strength: self.signal_strength,
            channel: self.channel,
            security: self.security,
        }
    }
}

impl Clone for AccessPointRecord {
    fn clone(&self) -> (copy: Self)
        ensures
            copy@ == self@,
    {
        AccessPointRecord {
            ssid: self.ssid.clone(),
            signal_strength: self.signal_strength,
            channel: self.channel,
            security: self.security,
        }
    }
}

impl DeepView for AccessPointRecord {
    type V = RecordView;

    open spec fn deep_view(&self) -> RecordView {
        self@
    }
}

/// The record at `index` broadcasts `name`.
pub open spec fn matches_at(records: Seq<RecordView>, name: Seq<char>, index: int) -> bool {
    0 <= index < records.len() && records[index].ssid == name
}

/// The record at `index` broadcasts `name`, and no record before it does.
pub open spec fn first_match(records: Seq<RecordView>, name: Seq<char>, index: int) -> bool {
    &&& matches_at(records, name, index)
    &&& forall|earlier: int| 0 <= earlier < index ==> !matches_at(records, name, earlier)
}

/// The channel that a scan result yields for `name`: that of the first record,
/// in the order reported, that broadcasts the name. Signal strength plays no
/// part.
pub open spec fn selected_channel(records: Seq<RecordView>, name: Seq<char>) -> Option<u8> {
    if exists|index: int| first_match(records, name, index) {
        Some(records[choose|index: int| first_match(records, name, index)].channel)
    } else {
        None
    }
}

/// Two first matches are the same record.
pub proof fn lemma_first_match_unique(
    records: Seq<RecordView>,
    name: Seq<char>,
    one: int,
    other: int,
)
    requires
        first_match(records, name, one),
        first_match(records, name, other),
    ensures
        one == other,
{
    if one < other {
        assert(!matches_at(records, name, one));
    } else if other < one {
        assert(!matches_at(records, name, other));
    }
}

/// Before any matching record stands a first one.
pub proof fn lemma_first_match_exists(records: Seq<RecordView>, name: Seq<char>, index: int)
    requires
        matches_at(records, name, index),
    ensures
        exists|first: int| 0 <= first <= index && first_match(records, name, first),
    decreases index,
{
    if exists|earlier: int| 0 <= earlier < index && matches_at(records, name, earlier) {
        let earlier = choose|earlier: int| 0 <= earlier < index && matches_at(records, name, earlier);
        lemma_first_match_exists(records, name, earlier);
        let first = choose|first: int| 0 <= first <= earlier && first_match(records, name, first);
        assert(0 <= first <= index && first_match(records, name, first));
    } else {
        assert(first_match(records, name, index));
    }
}

/// The first record that broadcasts the name decides the channel.
pub proof fn lemma_first_match_is_selected(records: Seq<RecordView>, name: Seq<char>, index: int)
    requires
        first_match(records, name, index),
    ensures
        selected_channel(records, name) == Some(records[index].channel),
{
    let chosen = choose|index: int| first_match(records, name, index);
    lemma_first_match_unique(records, name, chosen, index);
}

/// A name that some record broadcasts yields that record's channel, provided
/// that no earlier record broadcasts the name on another channel.
pub proof fn lemma_present_name_is_selected(records: Seq<RecordView>, name: Seq<char>, index: int)
    requires
        matches_at(records, name, index),
        forall|earlier: int|
            0 <= earlier < index && matches_at(records, name, earlier) ==> records[earlier].channel
                == records[index].channel,
    ensures
        selected_channel(records, name) == Some(records[index].channel),
{
    lemma_first_match_exists(records, name, index);
    let first = choose|first: int| 0 <= first <= index && first_match(records, name, first);
    lemma_first_match_is_selected(records, name, first);
}

/// A name that no record broadcasts yields no channel.
pub proof fn lemma_absent_name_selects_nothing(records: Seq<RecordView>, name: Seq<char>)
    requires
        forall|index: int| !matches_at(records, name, index),
    ensures
        selected_channel(records, name) == None::<u8>,
{
}

/// A channel is selected exactly when some record broadcasts the name.
pub proof fn lemma_selected_iff_present(records: Seq<RecordView>, name: Seq<char>)
    ensures
        selected_channel(records, name) is Some <==> exists|index: int|
            matches_at(records, name, index),
{
    if exists|index: int| matches_at(records, name, index) {
        let index = choose|index: int| matches_at(records, name, index);
        lemma_first_match_exists(records, name, index);
    }
    if selected_channel(records, name) is Some {
        let first = choose|index: int| first_match(records, name, index);
        assert(matches_at(records, name, first));
    }
}

/// Where several records broadcast the name, the one reported first decides,
/// whatever the later ones say.
pub proof fn lemma_first_of_duplicates_is_selected(
    records: Seq<RecordView>,
    name: Seq<char>,
    first: int,
    later: int,
)
    requires
        first_match(records, name, first),
        matches_at(records, name, later),
        first != later,
    ensures
        first < later,
        selected_channel(records, name) == Some(records[first].channel),
{
    lemma_first_match_is_selected(records, name, first);
}

/// Picks the channel of the target network from a scan result: the channel of
/// the first record, in the order reported, whose name is the target's.
pub fn select_channel(records: &Vec<AccessPointRecord>, target: &TargetIdentity) -> (hint:
    ChannelHint)
    ensures
        hint == selected_channel(records.deep_view(), target@.name),
{
    let name = target.name();
    let mut index: usize = 0;
    while index < records.len()
        invariant
            index <= records.len(),
            name@ == target@.name,
            forall|earlier: int|
                0 <= earlier < index ==> !matches_at(records.deep_view(), name@, earlier),
        decreases records.len() - index,
    {
        if records[index].ssid == *name {
            proof {
                assert(matches_at(records.deep_view(), name@, index as int));
                lemma_first_match_is_selected(records.deep_view(), name@, index as int);
            }
            return Some(records[index].channel);
        }
        index += 1;
    }
    proof {
        lemma_absent_name_selects_nothing(records.deep_view(), name@);
    }
    None
}

} // verus!
