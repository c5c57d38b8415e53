use gateway_core::beacon::{rand_payload, Beacon, BeaconReport, BEACON_PAYLOAD_SIZE};
use gateway_core::entropy::Entropy;
use gateway_core::error::{BeaconError, DecodeError, Error, RegionError};
use gateway_core::region::{
    ChannelParams, DataRate, Region, RegionParams, Spreading, TaggedSpreading,
};
use rand::{Rng, SeedableRng};
use sha2::{Digest, Sha256};

fn spreading_table() -> Vec<TaggedSpreading> {
    vec![
        TaggedSpreading { region_spreading: Spreading::Sf10, max_packet_size: 25 },
        TaggedSpreading { region_spreading: Spreading::Sf9, max_packet_size: 67 },
        TaggedSpreading { region_spreading: Spreading::Sf8, max_packet_size: 139 },
        TaggedSpreading { region_spreading: Spreading::Sf7, max_packet_size: 256 },
    ]
}

fn us915_params() -> RegionParams {
    let mut params = Vec::new();
    for i in 0..8u64 {
        params.push(ChannelParams {
            channel_frequency: 902_300_000 + 200_000 * i,
            bandwidth: 125_000,
            max_eirp: 360,
            spreading: spreading_table(),
        });
    }
    RegionParams { region: Region::Us915, gain: 12, params }
}

fn remote_entropy() -> Entropy {
    Entropy { version: 1, timestamp: 0, data: vec![0x00; 32] }
}

fn local_entropy() -> Entropy {
    Entropy { version: 1, timestamp: 0, data: vec![0xFF; 32] }
}

#[test]
fn test_beacon_payload() {
    let rng = rand_chacha::ChaCha12Rng::seed_from_u64(0);
    let data = rand_payload(&rng.get_seed(), BEACON_PAYLOAD_SIZE);

    assert_eq!(BEACON_PAYLOAD_SIZE, data.len());
}

#[test]
fn payload_is_the_generator_output() {
    let mut rng = rand_chacha::ChaCha12Rng::seed_from_u64(0);
    let seed = rng.get_seed();
    let expected: Vec<u8> = (0..BEACON_PAYLOAD_SIZE).map(|_| rng.gen::<u8>()).collect();
    assert_eq!(rand_payload(&seed, BEACON_PAYLOAD_SIZE), expected);
    assert_ne!(rand_payload(&seed, 32), seed.to_vec());
    assert_eq!(rand_payload(&seed, 0), Vec::<u8>::new());
}

#[test]
fn beacon_is_deterministic() {
    let params = us915_params();
    let one = Beacon::new(remote_entropy(), local_entropy(), &params).unwrap();
    let two = Beacon::new(remote_entropy(), local_entropy(), &params).unwrap();
    assert_eq!(one.data, two.data);
    assert_eq!(one.data.len(), 51);
    assert_eq!(one.frequency, two.frequency);
    assert_eq!(one.datarate, two.datarate);
    assert_eq!(one.conducted_power, two.conducted_power);
    assert_eq!(one, two);
}

#[test]
fn beacon_follows_the_derivation() {
    let params = us915_params();
    let beacon = Beacon::new(remote_entropy(), local_entropy(), &params).unwrap();

    let mut hasher = Sha256::new();
    hasher.update([0x00u8; 32]);
    hasher.update(0i64.to_le_bytes());
    hasher.update([0xFFu8; 32]);
    hasher.update(0i64.to_le_bytes());
    let mut seed = [0u8; 32];
    seed.copy_from_slice(&hasher.finalize());
    let rng = rand_chacha::ChaCha12Rng::from_seed(seed);
    let expected: Vec<u8> =
        rng.sample_iter(rand::distributions::Standard).take(51).collect();
    assert_eq!(beacon.data, expected);

    let index = (beacon.data[0] as usize + 256 * beacon.data[1] as usize) % 8;
    assert_eq!(beacon.frequency, 902_300_000 + 200_000 * index as u64);
    assert_eq!(beacon.datarate, DataRate::Sf9bw125);
    assert_eq!(beacon.conducted_power, 34);
    assert_eq!(beacon.remote_entropy, remote_entropy());
    assert_eq!(beacon.local_entropy, local_entropy());
}

#[test]
fn beacon_depends_on_the_timestamps() {
    let params = us915_params();
    let base = Beacon::new(remote_entropy(), local_entropy(), &params).unwrap();
    let mut later = local_entropy();
    later.timestamp = -2;
    let other = Beacon::new(remote_entropy(), later, &params).unwrap();
    assert_ne!(base.data, other.data);

    let mut hasher = Sha256::new();
    hasher.update([0x00u8; 32]);
    hasher.update(0i64.to_le_bytes());
    hasher.update([0xFFu8; 32]);
    hasher.update((-2i64).to_le_bytes());
    let mut seed = [0u8; 32];
    seed.copy_from_slice(&hasher.finalize());
    assert_eq!(other.data, rand_payload(&seed, 51));
}

#[test]
fn beacon_version_mismatch() {
    let mut remote = remote_entropy();
    remote.version = 0;
    let result = Beacon::new(remote, local_entropy(), &us915_params());
    assert_eq!(result, Err(Error::Beacon(BeaconError::InvalidVersion)));
}

#[test]
fn beacon_unknown_version() {
    for version in [2u32, 3, 17, u32::MAX] {
        let mut remote = remote_entropy();
        let mut local = local_entropy();
        remote.version = version;
        local.version = version;
        let result = Beacon::new(remote, local, &us915_params());
        assert_eq!(result, Err(Error::Beacon(BeaconError::InvalidVersion)));
    }
}

#[test]
fn beacon_version_zero_is_accepted() {
    let mut remote = remote_entropy();
    let mut local = local_entropy();
    remote.version = 0;
    local.version = 0;
    let zero = Beacon::new(remote, local, &us915_params()).unwrap();
    let one = Beacon::new(remote_entropy(), local_entropy(), &us915_params()).unwrap();
    assert_eq!(zero.data, one.data);
}

#[test]
fn beacon_empty_params() {
    let params = RegionParams { region: Region::Us915, gain: 0, params: vec![] };
    let result = Beacon::new(remote_entropy(), local_entropy(), &params);
    assert_eq!(result, Err(Error::Decode(DecodeError::NoDataRate)));
    let result = Beacon::new(remote_entropy(), local_entropy(), &RegionParams::from_region(Region::Eu868));
    assert_eq!(result, Err(Error::Decode(DecodeError::NoDataRate)));
}

#[test]
fn beacon_invalid_datarate() {
    let mut params = us915_params();
    params.params[0].bandwidth = 62_500;
    let result = Beacon::new(remote_entropy(), local_entropy(), &params);
    assert_eq!(
        result,
        Err(Error::Decode(DecodeError::InvalidBeaconDataRate("SF9".to_string())))
    );
}

#[test]
fn beacon_no_tx_power() {
    let mut params = us915_params();
    params.gain = 361;
    let result = Beacon::new(remote_entropy(), local_entropy(), &params);
    assert_eq!(result, Err(Error::Region(RegionError::NoRegionTxPower)));
}

#[test]
fn beacon_id_is_base64_of_payload() {
    let beacon = Beacon {
        data: b"hello".to_vec(),
        frequency: 904_700_000,
        datarate: DataRate::Sf10bw125,
        remote_entropy: remote_entropy(),
        local_entropy: local_entropy(),
        conducted_power: 27,
    };
    assert_eq!(beacon.beacon_id(), "aGVsbG8=");
    let made = Beacon::new(remote_entropy(), local_entropy(), &us915_params()).unwrap();
    assert_eq!(made.beacon_id().len(), 68);
}

#[test]
fn report_copies_the_beacon() {
    let beacon = Beacon::new(remote_entropy(), local_entropy(), &us915_params()).unwrap();
    let report = BeaconReport::from_beacon(beacon.clone(), 1_700_000_000_000_000_001);
    assert_eq!(report.pub_key, Vec::<u8>::new());
    assert_eq!(report.local_entropy, vec![0xFF; 32]);
    assert_eq!(report.remote_entropy, vec![0x00; 32]);
    assert_eq!(report.data, beacon.data);
    assert_eq!(report.frequency, beacon.frequency);
    assert_eq!(report.channel, 0);
    assert_eq!(report.datarate, 3);
    assert_eq!(report.tmst, 0);
    assert_eq!(report.tx_power, 34);
    assert_eq!(report.timestamp, 1_700_000_000_000_000_001);
    assert_eq!(report.signature, Vec::<u8>::new());
}

#[test]
fn entropy_digest_is_data_then_timestamp() {
    let entropy = Entropy { version: 1, timestamp: 0x0102, data: vec![9, 8, 7] };
    let mut out = vec![42u8];
    entropy.digest(&mut out);
    assert_eq!(out, vec![42, 9, 8, 7, 2, 1, 0, 0, 0, 0, 0, 0]);

    let entropy = Entropy { version: 0, timestamp: -1, data: vec![] };
    let mut out = Vec::new();
    entropy.digest(&mut out);
    assert_eq!(out, vec![0xFF; 8]);

    let entropy = Entropy { version: 0, timestamp: i64::MIN, data: vec![1] };
    let mut out = Vec::new();
    entropy.digest(&mut out);
    assert_eq!(out, vec![1, 0, 0, 0, 0, 0, 0, 0, 0x80]);

    let entropy = Entropy { version: 0, timestamp: 1_680_000_000, data: vec![] };
    let mut out = Vec::new();
    entropy.digest(&mut out);
    assert_eq!(out, 1_680_000_000i64.to_le_bytes().to_vec());
}
