//! Tests of the structured-text codec of the example configuration types.

use supernova_config::DecoderConfig;
use supernova_config::SupernovaConfig;
use supernova_config::SupernovaDecodeConfig;

const BEAM4_PRETTY: &str = "{\n  \"decoder\": {\n    \"type\": \"beam\",\n    \"num_beams\": 4\n  }\n}";
const GREEDY_PRETTY: &str = "{\n  \"decoder\": {\n    \"type\": \"greedy\"\n  }\n}";

fn beam(num_beams: u32) -> SupernovaDecodeConfig {
    SupernovaDecodeConfig { decoder: DecoderConfig::Beam { num_beams } }
}

fn greedy() -> SupernovaDecodeConfig {
    SupernovaDecodeConfig { decoder: DecoderConfig::Greedy }
}

#[test]
fn encode_beam_default_is_pretty_printed() {
    assert_eq!(beam(4).encode().as_str(), BEAM4_PRETTY);
}

#[test]
fn encode_greedy_is_pretty_printed() {
    assert_eq!(greedy().encode().as_str(), GREEDY_PRETTY);
}

#[test]
fn round_trip_beam_default() {
    let v = beam(4);
    assert_eq!(SupernovaDecodeConfig::decode(v.encode().as_str()), Some(v));
}

#[test]
fn round_trip_greedy() {
    let v = greedy();
    assert_eq!(SupernovaDecodeConfig::decode(v.encode().as_str()), Some(v));
}

#[test]
fn round_trip_extreme_beam_counts() {
    for n in [0u32, 1, 9, 10, 4294967295] {
        let v = beam(n);
        assert_eq!(SupernovaDecodeConfig::decode(v.encode().as_str()), Some(v));
    }
}

#[test]
fn decode_compact_text() {
    assert_eq!(
        SupernovaDecodeConfig::decode("{\"decoder\":{\"type\":\"beam\",\"num_beams\":7}}"),
        Some(beam(7))
    );
    assert_eq!(
        SupernovaDecodeConfig::decode("{\"decoder\":{\"type\":\"greedy\"}}"),
        Some(greedy())
    );
}

#[test]
fn decode_tolerates_reformatted_whitespace() {
    let text = "  {\r\n\t\"decoder\" : { \"type\" : \"beam\" ,\n \"num_beams\" :  12 } }\n";
    assert_eq!(SupernovaDecodeConfig::decode(text), Some(beam(12)));
}

#[test]
fn decode_rejects_garbage() {
    assert_eq!(SupernovaDecodeConfig::decode("not a config"), None);
    assert_eq!(SupernovaDecodeConfig::decode(""), None);
    assert_eq!(SupernovaDecodeConfig::decode("{\"decoder\":{}}"), None);
}

#[test]
fn decode_rejects_leading_zero_beam_count() {
    assert_eq!(
        SupernovaDecodeConfig::decode("{\"decoder\":{\"type\":\"beam\",\"num_beams\":007}}"),
        None
    );
}

#[test]
fn decode_rejects_oversized_beam_count() {
    assert_eq!(
        SupernovaDecodeConfig::decode("{\"decoder\":{\"type\":\"beam\",\"num_beams\":4294967296}}"),
        None
    );
    assert_eq!(
        SupernovaDecodeConfig::decode(
            "{\"decoder\":{\"type\":\"beam\",\"num_beams\":99999999999999999999}}"
        ),
        None
    );
}

#[test]
fn decode_expects_canonical_field_order() {
    assert_eq!(
        SupernovaDecodeConfig::decode("{\"decoder\":{\"num_beams\":4,\"type\":\"beam\"}}"),
        None
    );
}

#[test]
fn bare_decoder_codec_round_trips() {
    for v in [DecoderConfig::Beam { num_beams: 3 }, DecoderConfig::Greedy] {
        assert_eq!(DecoderConfig::decode(v.encode().as_str()), Some(v));
    }
    assert_eq!(
        DecoderConfig::Beam { num_beams: 3 }.encode().as_str(),
        "{\n  \"type\": \"beam\",\n  \"num_beams\": 3\n}"
    );
    assert_eq!(
        DecoderConfig::Greedy.encode().as_str(),
        "{\n  \"type\": \"greedy\"\n}"
    );
}

#[test]
fn config_names() {
    assert_eq!(SupernovaDecodeConfig::config_name().as_str(), "decode");
    assert_eq!(DecoderConfig::config_name().as_str(), "decoder");
}

#[test]
fn encoded_beam_is_valid_backend_json() {
    let parsed: serde_json::Value = serde_json::from_str(beam(4).encode().as_str()).unwrap();
    let mut inner = serde_json::Map::new();
    inner.insert(
        "type".to_string(),
        serde_json::Value::String("beam".to_string()),
    );
    inner.insert(
        "num_beams".to_string(),
        serde_json::Value::Number(serde_json::Number::from(4u32)),
    );
    let mut outer = serde_json::Map::new();
    outer.insert("decoder".to_string(), serde_json::Value::Object(inner));
    assert_eq!(parsed, serde_json::Value::Object(outer));
}

#[test]
fn encoded_greedy_is_valid_backend_json() {
    let parsed: serde_json::Value = serde_json::from_str(greedy().encode().as_str()).unwrap();
    let mut inner = serde_json::Map::new();
    inner.insert(
        "type".to_string(),
        serde_json::Value::String("greedy".to_string()),
    );
    let mut outer = serde_json::Map::new();
    outer.insert("decoder".to_string(), serde_json::Value::Object(inner));
    assert_eq!(parsed, serde_json::Value::Object(outer));
}
