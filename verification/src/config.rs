//! The configuration that is handed to the radio.

use vstd::prelude::*;
use vstd::string::StringExecFns;
use vstd::utf8::{is_ascii_chars, is_ascii_chars_encode_utf8};
use crate::identity::{valid_name, IdentityView, TargetIdentity};
use crate::scan::ChannelHint;

verus! {

/// The channel of the station's own access point where no scan gave one.
pub const DEFAULT_ACCESS_POINT_CHANNEL: u8 = 1;

/// The name of the access point that the station offers beside its client role.
pub open spec fn access_point_name() -> Seq<char> {
    "aptest"@
}

/// What a [`StationConfig`] stands for.
pub struct ConfigView {
    /// The network to join.
    pub station: IdentityView,
    /// The name of the station's own access point, if it offers one.
    pub access_point: Option<Seq<char>>,
    /// The channel of the network to join, where a scan found it.
    pub channel: Option<u8>,
}

impl ConfigView {
    /// The channel of the station's own access point: that of the network to
    /// join where it is known.
    pub open spec fn access_point_channel(self) -> u8 {
        match self.channel {
            Some(channel) => channel,
            None => DEFAULT_ACCESS_POINT_CHANNEL,
        }
    }

    /// Every name and secret in it is of a length the radio takes.
    pub open spec fn valid(self) -> bool {
        &&& self.station.valid()
        &&& self.access_point matches Some(name) ==> valid_name(name)
    }
}

/// The configuration of bring-up: the target network joined as a client on
/// the channel hinted at, and the station's own access point beside it.
pub open spec fn station_config(target: IdentityView, hint: Option<u8>) -> ConfigView {
    ConfigView { station: target, access_point: Some(access_point_name()), channel: hint }
}

/// Both roles of the radio in one value, so that they are applied at once.
/// A value of this type is always valid.
pub struct StationConfig {
    station: TargetIdentity,
    access_point: Option<String>,
    channel: Option<u8>,
}

impl View for StationConfig {
    type V = ConfigView;

    closed spec fn view(&self) -> ConfigView {
        ConfigView {
            station: self.station@,
            access_point: match self.access_point {
                Some(name) => Some(name@),
                None => None,
            },
            channel: self.channel,
        }
    }
}

/// The access point's name is one the radio takes.
pub proof fn lemma_access_point_name_valid()
    ensures
        valid_name(access_point_name()),
{
    reveal_strlit("aptest");
    assert(is_ascii_chars(access_point_name()));
    is_ascii_chars_encode_utf8(access_point_name());
}

impl StationConfig {
    /// Holds of every value of the type.
    #[verifier::type_invariant]
    pub open spec fn well_formed(&self) -> bool {
        self@.valid()
    }

    /// Builds the configuration of bring-up for `target`, with the channel
    /// that the scan gave.
    pub fn new(target: &TargetIdentity, hint: ChannelHint) -> (config: StationConfig)
        ensures
            config@ == station_config(target@, hint),
    {
        let station = target.clone();
        let name = String::from_str("aptest");
        proof {
            lemma_access_point_name_valid();
            use_type_invariant(&station);
        }
        StationConfig { station, access_point: Some(name), channel: hint }
    }

    /// The network to join.
    pub fn station(&self) -> (station: &TargetIdentity)
        ensures
            station@ == self@.station,
    {
        &self.station
    }

    /// The name of the station's own access point, if it offers one.
    pub fn access_point(&self) -> (name: Option<&String>)
        ensures
            name is Some <==> self@.access_point is Some,
            name matches Some(text) ==> self@.access_point == Some(text@) && valid_name(text@),
    {
        proof {
            use_type_invariant(self);
        }
        self.access_point.as_ref()
    }

    /// The channel of the network to join, where a scan found it.
    pub fn channel(&self) -> (channel: ChannelHint)
        ensures
            channel == self@.channel,
    {
        self.channel
    }

    /// The channel of the station's own access point.
    pub fn access_point_channel(&self) -> (channel: u8)
        ensures
            channel == self@.access_point_channel(),
    {
        match self.channel {
            Some(channel) => channel,
            None => DEFAULT_ACCESS_POINT_CHANNEL,
        }
    }
}

} // verus!
