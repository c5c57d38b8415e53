//! Region parameters: the radio rules of the region a gateway operates in.

use vstd::prelude::*;
use crate::error::{DecodeError, Error, RegionError};

verus! {

/// Identifier of a LoRaWAN region.
#[derive(Debug, Clone, Copy, PartialEq, Eq, Structural)]
pub enum Region {
    Us915,
    Eu868,
    Eu433,
    Cn470,
    Cn779,
    Au915,
    As9231,
    As9232,
    As9233,
    As9234,
    Kr920,
    In865,
    Cd9001a,
}

/// LoRa spreading factor.
#[derive(Debug, Clone, Copy, PartialEq, Eq, Structural)]
pub enum Spreading {
    Sf7,
    Sf8,
    Sf9,
    Sf10,
    Sf11,
    Sf12,
}

/// A modulation: spreading factor and bandwidth, or one of the fixed
/// LR-FHSS and FSK rates.
#[derive(Debug, Clone, Copy, PartialEq, Eq, Structural)]
pub enum DataRate {
    Sf12bw125,
    Sf11bw125,
    Sf10bw125,
    Sf9bw125,
    Sf8bw125,
    Sf7bw125,
    Sf12bw250,
    Sf11bw250,
    Sf10bw250,
    Sf9bw250,
    Sf8bw250,
    Sf7bw250,
    Sf12bw500,
    Sf11bw500,
    Sf10bw500,
    Sf9bw500,
    Sf8bw500,
    Sf7bw500,
    Lrfhss1bw137,
    Lrfhss2bw137,
    Lrfhss1bw336,
    Lrfhss2bw336,
    Lrfhss1bw1523,
    Lrfhss2bw1523,
    Fsk50,
}

/// Bandwidth of 125 kHz, in Hz.
pub const BANDWIDTH_125: u32 = 125_000;

/// Bandwidth of 250 kHz, in Hz.
pub const BANDWIDTH_250: u32 = 250_000;

/// Bandwidth of 500 kHz, in Hz.
pub const BANDWIDTH_500: u32 = 500_000;

impl Spreading {
    /// The conventional name of the spreading factor.
    pub open spec fn name_spec(self) -> Seq<char> {
        match self {
            Spreading::Sf7 => "SF7"@,
            Spreading::Sf8 => "SF8"@,
            Spreading::Sf9 => "SF9"@,
            Spreading::Sf10 => "SF10"@,
            Spreading::Sf11 => "SF11"@,
            Spreading::Sf12 => "SF12"@,
        }
    }

    /// The conventional name of the spreading factor, `SF7` to `SF12`.
    pub fn name(self) -> (s: String)
        ensures
            s@ == self.name_spec(),
    {
        match self {
            Spreading::Sf7 => "SF7".to_string(),
            Spreading::Sf8 => "SF8".to_string(),
            Spreading::Sf9 => "SF9".to_string(),
            Spreading::Sf10 => "SF10".to_string(),
            Spreading::Sf11 => "SF11".to_string(),
            Spreading::Sf12 => "SF12".to_string(),
        }
    }
}

impl DataRate {
    /// The LoRa datarate with the given spreading factor and bandwidth (in
    /// Hz), if there is one.
    pub open spec fn lora_spec(spreading: Spreading, bandwidth: u32) -> Option<DataRate> {
        if bandwidth == BANDWIDTH_125 {
            Some(
                match spreading {
                    Spreading::Sf7 => DataRate::Sf7bw125,
                    Spreading::Sf8 => DataRate::Sf8bw125,
                    Spreading::Sf9 => DataRate::Sf9bw125,
                    Spreading::Sf10 => DataRate::Sf10bw125,
                    Spreading::Sf11 => DataRate::Sf11bw125,
                    Spreading::Sf12 => DataRate::Sf12bw125,
                },
            )
        } else if bandwidth == BANDWIDTH_250 {
            Some(
                match spreading {
                    Spreading::Sf7 => DataRate::Sf7bw250,
                    Spreading::Sf8 => DataRate::Sf8bw250,
                    Spreading::Sf9 => DataRate::Sf9bw250,
                    Spreading::Sf10 => DataRate::Sf10bw250,
                    Spreading::Sf11 => DataRate::Sf11bw250,
                    Spreading::Sf12 => DataRate::Sf12bw250,
                },
            )
        } else if bandwidth == BANDWIDTH_500 {
            Some(
                match spreading {
                    Spreading::Sf7 => DataRate::Sf7bw500,
                    Spreading::Sf8 => DataRate::Sf8bw500,
                    Spreading::Sf9 => DataRate::Sf9bw500,
                    Spreading::Sf10 => DataRate::Sf10bw500,
                    Spreading::Sf11 => DataRate::Sf11bw500,
                    Spreading::Sf12 => DataRate::Sf12bw500,
                },
            )
        } else {
            None
        }
    }

    /// The LoRa datarate with the given spreading factor and bandwidth (in
    /// Hz). `None` when the bandwidth is not 125, 250 or 500 kHz.
    pub fn lora(spreading: Spreading, bandwidth: u32) -> (r: Option<DataRate>)
        ensures
            r == Self::lora_spec(spreading, bandwidth),
    {
        if bandwidth == BANDWIDTH_125 {
            Some(
                match spreading {
                    Spreading::Sf7 => DataRate::Sf7bw125,
                    Spreading::Sf8 => DataRate::Sf8bw125,
                    Spreading::Sf9 => DataRate::Sf9bw125,
                    Spreading::Sf10 => DataRate::Sf10bw125,
                    Spreading::Sf11 => DataRate::Sf11bw125,
                    Spreading::Sf12 => DataRate::Sf12bw125,
                },
            )
        } else if bandwidth == BANDWIDTH_250 {
            Some(
                match spreading {
                    Spreading::Sf7 => DataRate::Sf7bw250,
                    Spreading::Sf8 => DataRate::Sf8bw250,
                    Spreading::Sf9 => DataRate::Sf9bw250,
                    Spreading::Sf10 => DataRate::Sf10bw250,
                    Spreading::Sf11 => DataRate::Sf11bw250,
                    Spreading::Sf12 => DataRate::Sf12bw250,
                },
            )
        } else if bandwidth == BANDWIDTH_500 {
            Some(
                match spreading {
                    Spreading::Sf7 => DataRate::Sf7bw500,
                    Spreading::Sf8 => DataRate::Sf8bw500,
                    Spreading::Sf9 => DataRate::Sf9bw500,
                    Spreading::Sf10 => DataRate::Sf10bw500,
                    Spreading::Sf11 => DataRate::Sf11bw500,
                    Spreading::Sf12 => DataRate::Sf12bw500,
                },
            )
        } else {
            None
        }
    }

    /// The number that stands for the datarate on the wire.
    pub open spec fn code_spec(self) -> int {
        match self {
            DataRate::Sf12bw125 => 0,
            DataRate::Sf11bw125 => 1,
            DataRate::Sf10bw125 => 2,
            DataRate::Sf9bw125 => 3,
            DataRate::Sf8bw125 => 4,
            DataRate::Sf7bw125 => 5,
            DataRate::Sf12bw250 => 6,
            DataRate::Sf11bw250 => 7,
            DataRate::Sf10bw250 => 8,
            DataRate::Sf9bw250 => 9,
            DataRate::Sf8bw250 => 10,
            DataRate::Sf7bw250 => 11,
            DataRate::Sf12bw500 => 12,
            DataRate::Sf11bw500 => 13,
            DataRate::Sf10bw500 => 14,
            DataRate::Sf9bw500 => 15,
            DataRate::Sf8bw500 => 16,
            DataRate::Sf7bw500 => 17,
            DataRate::Lrfhss1bw137 => 18,
            DataRate::Lrfhss2bw137 => 19,
            DataRate::Lrfhss1bw336 => 20,
            DataRate::Lrfhss2bw336 => 21,
            DataRate::Lrfhss1bw1523 => 22,
            DataRate::Lrfhss2bw1523 => 23,
            DataRate::Fsk50 => 24,
        }
    }

    /// The number that stands for the datarate on the wire.
    pub fn code(self) -> (c: i32)
        ensures
            c == self.code_spec(),
    {
        match self {
            DataRate::Sf12bw125 => 0,
            DataRate::Sf11bw125 => 1,
            DataRate::Sf10bw125 => 2,
            DataRate::Sf9bw125 => 3,
            DataRate::Sf8bw125 => 4,
            DataRate::Sf7bw125 => 5,
            DataRate::Sf12bw250 => 6,
            DataRate::Sf11bw250 => 7,
            DataRate::Sf10bw250 => 8,
            DataRate::Sf9bw250 => 9,
            DataRate::Sf8bw250 => 10,
            DataRate::Sf7bw250 => 11,
            DataRate::Sf12bw500 => 12,
            DataRate::Sf11bw500 => 13,
            DataRate::Sf10bw500 => 14,
            DataRate::Sf9bw500 => 15,
            DataRate::Sf8bw500 => 16,
            DataRate::Sf7bw500 => 17,
            DataRate::Lrfhss1bw137 => 18,
            DataRate::Lrfhss2bw137 => 19,
            DataRate::Lrfhss1bw336 => 20,
            DataRate::Lrfhss2bw336 => 21,
            DataRate::Lrfhss1bw1523 => 22,
            DataRate::Lrfhss2bw1523 => 23,
            DataRate::Fsk50 => 24,
        }
    }
}

/// A spreading factor together with the largest payload, in bytes, that may be
/// sent with it.
#[derive(Debug, Clone, Copy, PartialEq, Eq, Structural)]
pub struct TaggedSpreading {
    pub region_spreading: Spreading,
    pub max_packet_size: u32,
}

/// The parameters of one channel of a region.
#[derive(Debug, Clone, PartialEq, Eq)]
pub struct ChannelParams {
    /// Centre frequency in Hz.
    pub channel_frequency: u64,
    /// Bandwidth in Hz.
    pub bandwidth: u32,
    /// Maximum radiated power in tenths of a dBm.
    pub max_eirp: u32,
    /// The spreading factors of the channel, in order of preference.
    pub spreading: Vec<TaggedSpreading>,
}

/// Mathematical value of a [`ChannelParams`].
pub struct ChannelParamsView {
    pub channel_frequency: u64,
    pub bandwidth: u32,
    pub max_eirp: u32,
    pub spreading: Seq<TaggedSpreading>,
}

impl View for ChannelParams {
    type V = ChannelParamsView;

    open spec fn view(&self) -> ChannelParamsView {
        ChannelParamsView {
            channel_frequency: self.channel_frequency,
            bandwidth: self.bandwidth,
            max_eirp: self.max_eirp,
            spreading: self.spreading@,
        }
    }
}

impl ChannelParams {
    /// Whether `self` and `other` have the same value.
    pub fn same_as(&self, other: &ChannelParams) -> (b: bool)
        ensures
            b == (self@ == other@),
    {
        if self.channel_frequency != other.channel_frequency || self.bandwidth != other.bandwidth
            || self.max_eirp != other.max_eirp || self.spreading.len() != other.spreading.len() {
            return false;
        }
        let n = self.spreading.len();
        let mut i: usize = 0;
        while i < n
            invariant
                n == self.spreading@.len(),
                n == other.spreading@.len(),
                i <= n,
                forall|k: int| 0 <= k < i ==> self.spreading@[k] == other.spreading@[k],
            decreases n - i,
        {
            if self.spreading[i] != other.spreading[i] {
                return false;
            }
            i += 1;
        }
        assert(self.spreading@ =~= other.spreading@);
        true
    }
}

/// The radio rules of a region: its channels, and the antenna gain of the
/// gateway that operates in it.
#[derive(Debug, Clone, PartialEq, Eq)]
pub struct RegionParams {
    pub region: Region,
    /// Antenna gain in tenths of a dBi.
    pub gain: i32,
    pub params: Vec<ChannelParams>,
}

/// Mathematical value of a [`RegionParams`].
pub struct RegionParamsView {
    pub region: Region,
    pub gain: i32,
    pub params: Seq<ChannelParamsView>,
}

impl View for RegionParams {
    type V = RegionParamsView;

    open spec fn view(&self) -> RegionParamsView {
        RegionParamsView {
            region: self.region,
            gain: self.gain,
            params: Seq::new(self.params@.len(), |i: int| self.params@[i]@),
        }
    }
}

/// Position of the first spreading in `spreading`, at or after `from`, that
/// admits a payload of `size` bytes; the length of `spreading` if there is
/// none.
pub open spec fn first_fitting(spreading: Seq<TaggedSpreading>, size: nat, from: nat) -> nat
    decreases spreading.len() - from,
{
    if from >= spreading.len() {
        spreading.len()
    } else if spreading[from as int].max_packet_size >= size {
        from
    } else {
        first_fitting(spreading, size, from + 1)
    }
}

/// The largest `max_eirp` among `params`; zero for no channels.
pub open spec fn largest_eirp(params: Seq<ChannelParamsView>) -> nat
    decreases params.len(),
{
    if params.len() == 0 {
        0
    } else {
        let rest = largest_eirp(params.drop_last());
        let last = params.last().max_eirp as nat;
        if last > rest {
            last
        } else {
            rest
        }
    }
}

/// Outcome of selecting a datarate, as a mathematical value.
pub enum DataRateChoice {
    /// The datarate to use.
    Rate(DataRate),
    /// No channel, or no spreading factor that admits the payload.
    NoDataRate,
    /// The spreading factor chosen does not combine with the channel's
    /// bandwidth into a datarate.
    Invalid(Spreading),
}

impl RegionParamsView {
    /// The parameters a gateway starts with in `region`: no channels yet, no
    /// antenna gain.
    pub open spec fn initial(region: Region) -> RegionParamsView {
        RegionParamsView { region, gain: 0, params: Seq::empty() }
    }

    /// Whether the parameters are active: at least one channel is known.
    pub open spec fn is_active(self) -> bool {
        self.params.len() > 0
    }

    /// The datarate for a payload of `size` bytes.
    ///
    /// Spreading factors do not differ between the channels of a region, so
    /// the first channel decides: the first of its spreading factors that
    /// admits the payload is combined with its bandwidth.
    pub open spec fn select_datarate(self, size: nat) -> DataRateChoice {
        if self.params.len() == 0 {
            DataRateChoice::NoDataRate
        } else {
            let channel = self.params[0];
            let at = first_fitting(channel.spreading, size, 0);
            if at >= channel.spreading.len() {
                DataRateChoice::NoDataRate
            } else {
                let spreading = channel.spreading[at as int].region_spreading;
                match DataRate::lora_spec(spreading, channel.bandwidth) {
                    Some(rate) => DataRateChoice::Rate(rate),
                    None => DataRateChoice::Invalid(spreading),
                }
            }
        }
    }

    /// The conducted power in whole dBm: the largest radiated power of any
    /// channel less the antenna gain. `None` without channels, and where the
    /// gain exceeds that power.
    pub open spec fn max_conducted_power(self) -> Option<nat> {
        if self.params.len() == 0 || largest_eirp(self.params) < self.gain {
            None
        } else {
            Some(((largest_eirp(self.params) - self.gain) / 10) as nat)
        }
    }
}

/// Whether `e` is the error that reports the choice `c`; no error reports a
/// datarate.
pub open spec fn reports_choice(e: Error, c: DataRateChoice) -> bool {
    match c {
        DataRateChoice::Rate(_) => false,
        DataRateChoice::NoDataRate => e == Error::Decode(DecodeError::NoDataRate),
        DataRateChoice::Invalid(spreading) => e matches Error::Decode(
            DecodeError::InvalidBeaconDataRate(name),
        ) && name@ == spreading.name_spec(),
    }
}

impl RegionParams {
    /// The parameters a gateway starts with in `region`: no channels yet, no
    /// antenna gain.
    pub fn from_region(region: Region) -> (r: RegionParams)
        ensures
            r@ == RegionParamsView::initial(region),
    {
        let r = RegionParams { region, gain: 0, params: Vec::new() };
        assert(r@.params =~= Seq::empty());
        r
    }

    /// Whether `self` and `other` have the same value.
    pub fn same_as(&self, other: &RegionParams) -> (b: bool)
        ensures
            b == (self@ == other@),
    {
        if self.region != other.region || self.gain != other.gain || self.params.len()
            != other.params.len() {
            assert(self@.params.len() != other@.params.len() ==> self@ != other@);
            return false;
        }
        let n = self.params.len();
        let mut i: usize = 0;
        while i < n
            invariant
                n == self.params@.len(),
                n == other.params@.len(),
                i <= n,
                forall|k: int| 0 <= k < i ==> self.params@[k]@ == other.params@[k]@,
            decreases n - i,
        {
            if !self.params[i].same_as(&other.params[i]) {
                assert(self@.params[i as int] != other@.params[i as int]);
                return false;
            }
            i += 1;
        }
        assert(self@.params =~= other@.params);
        true
    }

    /// Whether the parameters are active: at least one channel is known.
    pub fn is_active(&self) -> (b: bool)
        ensures
            b == self@.is_active(),
    {
        self.params.len() > 0
    }

    /// Select the datarate for a payload of `packet_size` bytes.
    pub fn select_datarate(&self, packet_size: usize) -> (r: Result<DataRate, Error>)
        ensures
            match r {
                Ok(rate) => self@.select_datarate(packet_size as nat) == DataRateChoice::Rate(rate),
                Err(e) => reports_choice(e, self@.select_datarate(packet_size as nat)),
            },
    {
        if self.params.len() == 0 {
            return Err(DecodeError::no_data_rate());
        }
        let channel = &self.params[0];
        let ghost spreading = channel.spreading@;
        let n = channel.spreading.len();
        let mut i: usize = 0;
        while i < n && (channel.spreading[i].max_packet_size as usize) < packet_size
            invariant
                n == spreading.len(),
                spreading == channel.spreading@,
                i <= n,
                first_fitting(spreading, packet_size as nat, 0) == first_fitting(
                    spreading,
                    packet_size as nat,
                    i as nat,
                ),
            decreases n - i,
        {
            i += 1;
        }
        if i >= n {
            return Err(DecodeError::no_data_rate());
        }
        let chosen = channel.spreading[i].region_spreading;
        match DataRate::lora(chosen, channel.bandwidth) {
            Some(rate) => Ok(rate),
            None => Err(DecodeError::invalid_beacon_data_rate(chosen.name())),
        }
    }

    /// The conducted power to transmit with, in whole dBm.
    pub fn max_conducted_power(&self) -> (r: Result<u32, Error>)
        ensures
            match r {
                Ok(power) => self@.max_conducted_power() == Some(power as nat),
                Err(e) => self@.max_conducted_power().is_none() && e == Error::Region(
                    RegionError::NoRegionTxPower,
                ),
            },
    {
        let n = self.params.len();
        if n == 0 {
            return Err(RegionError::no_region_tx_power());
        }
        let mut largest: u32 = 0;
        let mut i: usize = 0;
        while i < n
            invariant
                n == self.params@.len(),
                i <= n,
                largest == largest_eirp(self@.params.take(i as int)),
            decreases n - i,
        {
            proof {
                let next = self@.params.take(i + 1);
                assert(next.drop_last() =~= self@.params.take(i as int));
            }
            if self.params[i].max_eirp > largest {
                largest = self.params[i].max_eirp;
            }
            i += 1;
        }
        assert(self@.params.take(n as int) =~= self@.params);
        let net: i64 = largest as i64 - self.gain as i64;
        if net < 0 {
            Err(RegionError::no_region_tx_power())
        } else {
            Ok((net / 10) as u32)
        }
    }
}

} // verus!
