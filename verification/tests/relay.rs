use position_relay::codec::{apply_chunk, le64_from};
use position_relay::json::render_record;
use position_relay::record::Record;
use position_relay::state::SharedState;

fn chunk_for(lat: f64, lon: f64) -> Vec<u8> {
    let mut data = Vec::new();
    data.extend_from_slice(&lat.to_le_bytes());
    data.extend_from_slice(&lon.to_le_bytes());
    data
}

#[test]
fn set_then_get_position_is_exact() {
    let store = SharedState::new();
    let pairs: [(f64, f64); 4] = [
        (0.0, 1.0),
        (-48.390394, -4.485980),
        (90.0, -180.0),
        (1.5e-300, -2.25e300),
    ];
    for (lat, lon) in pairs {
        store.set_position(lat.to_bits(), lon.to_bits());
        let (lat_bits, lon_bits) = store.get_position();
        assert_eq!(f64::from_bits(lat_bits), lat);
        assert_eq!(f64::from_bits(lon_bits), lon);
    }
}

#[test]
fn set_then_get_girouette_is_exact() {
    let store = SharedState::new();
    assert_eq!(store.get_girouette(), "");
    store.set_girouette(String::from("nord-ouest"));
    assert_eq!(store.get_girouette(), "nord-ouest");
}

#[test]
fn short_chunk_changes_nothing() {
    let mut rec = Record::new();
    rec.set_position(3.25f64.to_bits(), (-7.5f64).to_bits());
    rec.set_girouette(String::from("sud"));
    for len in 0..8usize {
        let data = vec![0xABu8; len];
        apply_chunk(&mut rec, &data);
        assert_eq!(rec.lat_bits, 3.25f64.to_bits());
        assert_eq!(rec.lon_bits, (-7.5f64).to_bits());
        assert_eq!(rec.girouette, "sud");
    }
}

#[test]
fn sixteen_byte_chunk_updates_position_and_keeps_label() {
    let mut rec = Record::new();
    rec.set_girouette(String::from("est"));
    let data = chunk_for(12.5, -3.75);
    assert_eq!(data.len(), 16);
    apply_chunk(&mut rec, &data);
    assert_eq!(f64::from_bits(rec.lat_bits), 12.5);
    assert_eq!(f64::from_bits(rec.lon_bits), -3.75);
    assert_eq!(rec.girouette, "est");
}

#[test]
fn mid_size_chunk_zero_completes_longitude() {
    let mut rec = Record::new();
    let mut data = Vec::new();
    data.extend_from_slice(&2.5f64.to_le_bytes());
    data.extend_from_slice(&[0x01, 0x02, 0x03, 0x04]);
    apply_chunk(&mut rec, &data);
    assert_eq!(f64::from_bits(rec.lat_bits), 2.5);
    // only four longitude bytes arrived; the missing ones read as zero
    assert_eq!(rec.lon_bits, 0x04030201);
}

#[test]
fn valid_utf8_tail_becomes_label() {
    let mut rec = Record::new();
    rec.set_girouette(String::from("avant"));
    let mut data = chunk_for(1.0, 2.0);
    data.extend_from_slice("girouette \u{00e0} l'ouest".as_bytes());
    apply_chunk(&mut rec, &data);
    assert_eq!(f64::from_bits(rec.lat_bits), 1.0);
    assert_eq!(f64::from_bits(rec.lon_bits), 2.0);
    assert_eq!(rec.girouette, "girouette \u{00e0} l'ouest");
}

#[test]
fn seventeen_byte_chunk_sets_one_character_label() {
    let mut rec = Record::new();
    let mut data = chunk_for(1.0, 2.0);
    data.push(b'N');
    assert_eq!(data.len(), 17);
    apply_chunk(&mut rec, &data);
    assert_eq!(rec.girouette, "N");
}

#[test]
fn invalid_utf8_tail_keeps_label_but_updates_position() {
    let mut rec = Record::new();
    rec.set_girouette(String::from("avant"));
    let mut data = chunk_for(4.0, 5.0);
    data.extend_from_slice(&[0xFF, 0xFE, 0x80]);
    apply_chunk(&mut rec, &data);
    assert_eq!(f64::from_bits(rec.lat_bits), 4.0);
    assert_eq!(f64::from_bits(rec.lon_bits), 5.0);
    assert_eq!(rec.girouette, "avant");
}

#[test]
fn le64_from_reads_little_endian() {
    let data: [u8; 16] = [
        0x01, 0x02, 0x03, 0x04, 0x05, 0x06, 0x07, 0x08, 0, 0, 0, 0, 0, 0, 0xF0, 0x3F,
    ];
    assert_eq!(le64_from(&data, 0), 0x0807060504030201);
    assert_eq!(le64_from(&data, 8), 1.0f64.to_bits());
    // reads past the end count as zero
    assert_eq!(le64_from(&data[..12], 8), 0x0000000000000000);
    assert_eq!(le64_from(&[0x2A], 0), 0x2A);
    assert_eq!(le64_from(&[], 0), 0);
}

fn number_json(bits: u64) -> String {
    serde_json::to_string(&f64::from_bits(bits)).unwrap()
}

#[test]
fn broadcast_message_for_ingested_chunk() {
    let store = SharedState::new();
    let data: [u8; 16] = [0, 0, 0, 0, 0, 0, 0, 0, 0, 0, 0, 0, 0, 0, 240, 63];
    store.ingest_chunk(&data);
    let rec = store.snapshot();
    let msg = render_record(
        &number_json(rec.lat_bits),
        &number_json(rec.lon_bits),
        &rec.girouette,
    );
    assert_eq!(msg, "{\"lat\":0.0,\"lon\":1.0,\"girouette\":\"\"}");
}

#[test]
fn broadcast_message_with_label() {
    let store = SharedState::new();
    let mut data = chunk_for(-48.5, 4.25);
    data.extend_from_slice("vent d'ouest".as_bytes());
    store.ingest_chunk(&data);
    let rec = store.snapshot();
    let msg = render_record(
        &number_json(rec.lat_bits),
        &number_json(rec.lon_bits),
        &rec.girouette,
    );
    assert_eq!(msg, "{\"lat\":-48.5,\"lon\":4.25,\"girouette\":\"vent d'ouest\"}");
}

#[test]
fn label_is_escaped_in_broadcast_message() {
    let msg = render_record("0.0", "0.0", "a\"b\\c");
    assert_eq!(msg, "{\"lat\":0.0,\"lon\":0.0,\"girouette\":\"a\\\"b\\\\c\"}");
}

#[test]
fn snapshot_of_fresh_store_is_default() {
    let store = SharedState::new();
    let rec = store.snapshot();
    assert_eq!(rec.lat_bits, 0);
    assert_eq!(rec.lon_bits, 0);
    assert_eq!(f64::from_bits(rec.lat_bits), 0.0);
    assert_eq!(rec.girouette, "");
}

#[test]
fn ingest_after_peer_data_stops_keeps_last_state() {
    let store = SharedState::new();
    let mut data = chunk_for(7.0, 8.0);
    data.extend_from_slice("cap".as_bytes());
    store.ingest_chunk(&data);
    // the sensor goes away: no further chunks; the store still serves
    // the last known record to any number of snapshot readers
    for _ in 0..3 {
        let rec = store.snapshot();
        assert_eq!(f64::from_bits(rec.lat_bits), 7.0);
        assert_eq!(f64::from_bits(rec.lon_bits), 8.0);
        assert_eq!(rec.girouette, "cap");
    }
}
