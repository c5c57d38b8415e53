//! Beacons: radio frames derived deterministically from two entropies and the
//! parameters of the region.

use vstd::prelude::*;
use crate::entropy::{Entropy, EntropyView};
use crate::error::{BeaconError, Error, RegionError};
use crate::region::{reports_choice, DataRate, DataRateChoice, RegionParams, RegionParamsView};

verus! {

/// Length of a beacon's payload in bytes.
pub const BEACON_PAYLOAD_SIZE: usize = 51;

/// The SHA-256 digest of `data`: 32 bytes.
pub uninterp spec fn sha256_digest(data: Seq<u8>) -> Seq<u8>;

/// The first `size` bytes that a ChaCha12 generator seeded with `seed` yields
/// when it is asked for one byte at a time.
pub uninterp spec fn chacha12_bytes(seed: Seq<u8>, size: nat) -> Seq<u8>;

/// The standard base64 text of `data`, with padding.
pub uninterp spec fn base64_standard(data: Seq<u8>) -> Seq<char>;

/// The number that the first two bytes of `data` spell, least significant
/// byte first.
pub open spec fn u16_le(data: Seq<u8>) -> nat
    recommends
        data.len() >= 2,
{
    (data[0] + 256 * data[1]) as nat
}

/// Calls `sha2::Sha256::digest`. The result is the SHA-256 digest of the
/// input, which is a function of the input alone and 32 bytes long.
#[verifier::external_body]
fn sha256(data: &Vec<u8>) -> (digest: [u8; 32])
    ensures
        digest@ == sha256_digest(data@),
{
    <sha2::Sha256 as sha2::Digest>::digest(data.as_slice()).into()
}

/// Calls `rand_chacha::ChaCha12Rng::from_seed` and draws `size` samples of
/// `rand::distributions::Standard` from the generator with
/// `rand::Rng::sample_iter`. The bytes drawn are a function of the seed and
/// of their number alone, and there are `size` of them.
#[verifier::external_body]
fn chacha12_payload(seed: &[u8; 32], size: usize) -> (data: Vec<u8>)
    ensures
        data@ == chacha12_bytes(seed@, size as nat),
        data@.len() == size,
{
    let rng = <rand_chacha::ChaCha12Rng as rand::SeedableRng>::from_seed(*seed);
    rand::Rng::sample_iter(rng, rand::distributions::Standard).take(size).collect()
}

/// Calls `byteorder::LittleEndian::read_u16`, which reads the first two
/// bytes of the buffer as a number, least significant byte first, and panics
/// on a shorter buffer.
#[verifier::external_body]
fn read_u16_le(data: &Vec<u8>) -> (value: u16)
    requires
        data@.len() >= 2,
    ensures
        value == u16_le(data@),
{
    <byteorder::LittleEndian as byteorder::ByteOrder>::read_u16(data.as_slice())
}

/// Calls `base64::Engine::encode` on the engine
/// `base64::engine::general_purpose::STANDARD`. The text is a function of the
/// bytes alone.
#[verifier::external_body]
fn base64_encode(data: &Vec<u8>) -> (text: String)
    ensures
        text@ == base64_standard(data@),
{
    base64::Engine::encode(&base64::engine::general_purpose::STANDARD, data.as_slice())
}

/// Draw the `size` bytes of payload that belong to `seed`.
pub fn rand_payload(seed: &[u8; 32], size: usize) -> (data: Vec<u8>)
    ensures
        data@ == chacha12_bytes(seed@, size as nat),
        data@.len() == size,
{
    chacha12_payload(seed, size)
}

/// Whether a beacon can be made of entropies with these versions: they agree,
/// and on a known version.
pub open spec fn versions_agree(remote: EntropyView, local: EntropyView) -> bool {
    remote.version == local.version && remote.version_known()
}

/// What the digest that seeds a beacon is taken of: the contribution of the
/// remote entropy, then that of the local one.
pub open spec fn seed_input(remote: EntropyView, local: EntropyView) -> Seq<u8> {
    remote.digest_input() + local.digest_input()
}

/// The payload of the beacon made of `remote` and `local`.
pub open spec fn payload_of(remote: EntropyView, local: EntropyView) -> Seq<u8> {
    chacha12_bytes(sha256_digest(seed_input(remote, local)), BEACON_PAYLOAD_SIZE as nat)
}

/// The frequency that `data` selects among the channels of `params`.
pub open spec fn frequency_of(data: Seq<u8>, params: RegionParamsView) -> u64
    recommends
        data.len() >= 2,
        params.is_active(),
{
    params.params[(u16_le(data) % params.params.len()) as int].channel_frequency
}

/// A beacon: the payload to transmit and how to transmit it.
#[derive(Debug, Clone, PartialEq, Eq)]
pub struct Beacon {
    pub data: Vec<u8>,
    pub frequency: u64,
    pub datarate: DataRate,
    pub remote_entropy: Entropy,
    pub local_entropy: Entropy,
    pub conducted_power: u32,
}

impl Beacon {
    /// Whether the beacon is the one that its entropies and `params`
    /// determine.
    pub open spec fn derived_from(self, params: RegionParamsView) -> bool {
        &&& versions_agree(self.remote_entropy@, self.local_entropy@)
        &&& self.data@.len() == BEACON_PAYLOAD_SIZE
        &&& self.data@ == payload_of(self.remote_entropy@, self.local_entropy@)
        &&& params.is_active()
        &&& self.frequency == frequency_of(self.data@, params)
        &&& params.select_datarate(BEACON_PAYLOAD_SIZE as nat) == DataRateChoice::Rate(
            self.datarate,
        )
        &&& params.max_conducted_power() == Some(self.conducted_power as nat)
    }

    /// Whether a beacon can be made of these entropies in the region with
    /// these parameters.
    pub open spec fn constructible(
        remote: EntropyView,
        local: EntropyView,
        params: RegionParamsView,
    ) -> bool {
        &&& versions_agree(remote, local)
        &&& params.select_datarate(BEACON_PAYLOAD_SIZE as nat) is Rate
        &&& params.max_conducted_power() is Some
    }

    /// Whether `e` is the error that tells why no beacon can be made: the
    /// versions first, then the datarate, then the power.
    pub open spec fn refusal(
        e: Error,
        remote: EntropyView,
        local: EntropyView,
        params: RegionParamsView,
    ) -> bool {
        if !versions_agree(remote, local) {
            e == Error::Beacon(BeaconError::InvalidVersion)
        } else if !(params.select_datarate(BEACON_PAYLOAD_SIZE as nat) is Rate) {
            reports_choice(e, params.select_datarate(BEACON_PAYLOAD_SIZE as nat))
        } else {
            params.max_conducted_power() is None && e == Error::Region(
                RegionError::NoRegionTxPower,
            )
        }
    }

    /// Construct a beacon from a remote and a local entropy.
    ///
    /// The entropies must agree on a version, 0 or 1. The payload is drawn
    /// from a ChaCha12 generator seeded with the SHA-256 digest of both
    /// entropies. The first two bytes of the payload select the frequency
    /// among the channels of the region; the datarate is the one the region
    /// has for a payload of this size, and the power the region's conducted
    /// power.
    pub fn new(
        remote_entropy: Entropy,
        local_entropy: Entropy,
        region_params: &RegionParams,
    ) -> (r: Result<Beacon, Error>)
        ensures
            r is Ok <==> Self::constructible(remote_entropy@, local_entropy@, region_params@),
            match r {
                Ok(beacon) => {
                    &&& beacon.remote_entropy == remote_entropy
                    &&& beacon.local_entropy == local_entropy
                    &&& beacon.derived_from(region_params@)
                },
                Err(e) => Self::refusal(e, remote_entropy@, local_entropy@, region_params@),
            },
    {
        if remote_entropy.version != local_entropy.version || remote_entropy.version > 1 {
            return Err(Error::invalid_version());
        }
        let mut input: Vec<u8> = Vec::new();
        remote_entropy.digest(&mut input);
        local_entropy.digest(&mut input);
        let seed = sha256(&input);
        let data = rand_payload(&seed, BEACON_PAYLOAD_SIZE);

        let datarate = match region_params.select_datarate(data.len()) {
            Ok(rate) => rate,
            Err(e) => {
                return Err(e);
            },
        };
        let conducted_power = match region_params.max_conducted_power() {
            Ok(power) => power,
            Err(e) => {
                return Err(e);
            },
        };
        // The first two bytes of the payload select the frequency.
        let freq_seed = read_u16_le(&data) as usize;
        let channels = region_params.params.len();
        let index = freq_seed % channels;
        let frequency = region_params.params[index].channel_frequency;
        Ok(Beacon { data, frequency, datarate, remote_entropy, local_entropy, conducted_power })
    }

    /// The identifier of the beacon: its payload in standard base64.
    pub fn beacon_id(&self) -> (id: String)
        ensures
            id@ == base64_standard(self.data@),
    {
        base64_encode(&self.data)
    }
}

/// The report of a transmitted beacon, as it is submitted upstream.
#[derive(Debug, Clone, PartialEq, Eq)]
pub struct BeaconReport {
    /// Public key of the reporting gateway; empty until the sender sets it.
    pub pub_key: Vec<u8>,
    pub local_entropy: Vec<u8>,
    pub remote_entropy: Vec<u8>,
    pub data: Vec<u8>,
    /// Frequency in Hz.
    pub frequency: u64,
    pub channel: i32,
    /// The datarate by its number on the wire.
    pub datarate: i32,
    /// Concentrator timestamp of the transmission.
    pub tmst: u32,
    /// Transmit power in dBm. Starts as the power asked for; the sender
    /// replaces it with the power that the packet forwarder reports.
    pub tx_power: i32,
    /// Nanoseconds since the unix epoch at which the report was made.
    pub timestamp: u64,
    /// Signature over the report; empty until the report is signed.
    pub signature: Vec<u8>,
}

impl BeaconReport {
    /// Whether the report is the one made of `beacon` at `timestamp`.
    pub open spec fn reports(self, beacon: Beacon, timestamp: u64) -> bool {
        &&& self.pub_key@.len() == 0
        &&& self.local_entropy@ == beacon.local_entropy.data@
        &&& self.remote_entropy@ == beacon.remote_entropy.data@
        &&& self.data@ == beacon.data@
        &&& self.frequency == beacon.frequency
        &&& self.channel == 0
        &&& self.datarate == beacon.datarate.code_spec()
        &&& self.tmst == 0
        &&& self.tx_power == beacon.conducted_power as i32
        &&& self.timestamp == timestamp
        &&& self.signature@.len() == 0
    }

    /// Make the report of `beacon`, stamped with `timestamp`: the nanoseconds
    /// since the unix epoch at which the report is made.
    pub fn from_beacon(beacon: Beacon, timestamp: u64) -> (report: BeaconReport)
        ensures
            report.reports(beacon, timestamp),
    {
        BeaconReport {
            pub_key: Vec::new(),
            local_entropy: beacon.local_entropy.data,
            remote_entropy: beacon.remote_entropy.data,
            data: beacon.data,
            frequency: beacon.frequency,
            channel: 0,
            datarate: beacon.datarate.code(),
            tmst: 0,
            tx_power: beacon.conducted_power as i32,
            timestamp,
            signature: Vec::new(),
        }
    }
}

/// Beacons are determined by their inputs: two beacons made of entropies with
/// the same values, in a region with the same parameters, have the same
/// payload, frequency, datarate and power.
pub proof fn lemma_beacon_deterministic(a: Beacon, b: Beacon, params: RegionParamsView)
    requires
        a.remote_entropy@ == b.remote_entropy@,
        a.local_entropy@ == b.local_entropy@,
        a.derived_from(params),
        b.derived_from(params),
    ensures
        a.data@ == b.data@,
        a.frequency == b.frequency,
        a.datarate == b.datarate,
        a.conducted_power == b.conducted_power,
{
}

} // verus!
