use ibc_monitor::gateway::{
    last_update, parse_tendermint_client_state, parse_tendermint_consensus_state,
    require_client_facts, ConsensusStateFields, Envelope, MonitorError,
};
use ibc_monitor::types::{Height, Span, Timestamp};
use ibc_proto::google::protobuf::{Duration, Timestamp as ProtoTimestamp};
use ibc_proto::ibc::lightclients::tendermint::v1::{ClientState, ConsensusState};
use prost::Message;

/// Gives a client state a latest height.
fn with_height(mut cs: ClientState, revision_number: u64, revision_height: u64) -> ClientState {
    let mut h = cs.latest_height.take().unwrap_or_default();
    h.revision_number = revision_number;
    h.revision_height = revision_height;
    cs.latest_height = Some(h);
    cs
}

const CLIENT_URL: &str = "/ibc.lightclients.tendermint.v1.ClientState";
const CONSENSUS_URL: &str = "/ibc.lightclients.tendermint.v1.ConsensusState";

fn client_state_bytes() -> Vec<u8> {
    with_height(ClientState {
        chain_id: "cosmoshub-4".to_string(),
        trusting_period: Some(Duration { seconds: 1_209_600, nanos: 0 }),
        unbonding_period: Some(Duration { seconds: 1_814_400, nanos: 5 }),
        ..Default::default()
    }, 4, 19_000_000)
    .encode_to_vec()
}

#[test]
fn wrong_type_tag_is_rejected() {
    let env = Envelope { type_url: "/some.other.Type".to_string(), value: client_state_bytes() };
    match parse_tendermint_client_state(&env) {
        Err(MonitorError::WrongType(t)) => assert_eq!(t, "/some.other.Type"),
        other => panic!("unexpected {:?}", other),
    }
    let env = Envelope { type_url: CLIENT_URL.to_string(), value: vec![0xff, 0xff, 0xff] };
    match parse_tendermint_consensus_state(&env) {
        Err(e) => assert_eq!(e.reason(), format!("wrong type: {}", CLIENT_URL)),
        Ok(_) => panic!("decoded a client state as a consensus state"),
    }
}

#[test]
fn client_state_is_decoded() {
    let env = Envelope { type_url: CLIENT_URL.to_string(), value: client_state_bytes() };
    let f = parse_tendermint_client_state(&env).unwrap();
    assert_eq!(f.chain_id, "cosmoshub-4");
    assert_eq!(f.trusting_period, Some(Span { seconds: 1_209_600, nanos: 0 }));
    assert_eq!(f.unbonding_period, Some(Span { seconds: 1_814_400, nanos: 5 }));
    assert_eq!(f.latest_height, Some(Height { revision_number: 4, revision_height: 19_000_000 }));
    let facts = require_client_facts(f).unwrap();
    assert_eq!(facts.counterparty_chain_id, "cosmoshub-4");
}

#[test]
fn garbage_payload_fails_to_decode() {
    let env = Envelope { type_url: CLIENT_URL.to_string(), value: vec![0xff, 0xff, 0xff] };
    assert!(matches!(parse_tendermint_client_state(&env), Err(MonitorError::DecodeFailed)));
}

#[test]
fn missing_fields_are_reported_in_order() {
    let bytes = ClientState { chain_id: "x".to_string(), ..Default::default() }.encode_to_vec();
    let env = Envelope { type_url: CLIENT_URL.to_string(), value: bytes };
    let f = parse_tendermint_client_state(&env).unwrap();
    assert!(matches!(require_client_facts(f), Err(MonitorError::NoTrustingPeriod)));

    let bytes = ClientState {
        trusting_period: Some(Duration { seconds: 1, nanos: 0 }),
        ..Default::default()
    }
    .encode_to_vec();
    let f = parse_tendermint_client_state(&Envelope { type_url: CLIENT_URL.to_string(), value: bytes }).unwrap();
    assert!(matches!(require_client_facts(f), Err(MonitorError::NoUnbondingPeriod)));

    let bytes = ClientState {
        trusting_period: Some(Duration { seconds: 1, nanos: 0 }),
        unbonding_period: Some(Duration { seconds: 2, nanos: 0 }),
        ..Default::default()
    }
    .encode_to_vec();
    let f = parse_tendermint_client_state(&Envelope { type_url: CLIENT_URL.to_string(), value: bytes }).unwrap();
    assert!(matches!(require_client_facts(f), Err(MonitorError::NoLatestHeight)));
}

#[test]
fn consensus_timestamp_is_read() {
    let bytes = ConsensusState {
        timestamp: Some(ProtoTimestamp { seconds: 1_700_000_000, nanos: 250 }),
        ..Default::default()
    }
    .encode_to_vec();
    let env = Envelope { type_url: CONSENSUS_URL.to_string(), value: bytes };
    let c = parse_tendermint_consensus_state(&env).unwrap();
    assert_eq!(c.timestamp, Some((1_700_000_000, 250)));
    assert_eq!(last_update(c).unwrap(), Timestamp { seconds: 1_700_000_000, nanos: 250 });

    let bytes = ConsensusState::default().encode_to_vec();
    let env = Envelope { type_url: CONSENSUS_URL.to_string(), value: bytes };
    let c = parse_tendermint_consensus_state(&env).unwrap();
    assert!(matches!(last_update(c), Err(MonitorError::NoTimestamp)));
}

#[test]
fn out_of_range_timestamps_are_invalid() {
    let negative = ConsensusStateFields { timestamp: Some((1_700_000_000, -1)) };
    assert!(matches!(last_update(negative), Err(MonitorError::InvalidTimestamp)));
    let far = ConsensusStateFields { timestamp: Some((i64::MAX, 0)) };
    assert!(matches!(last_update(far), Err(MonitorError::InvalidTimestamp)));
    let too_many_nanos = ConsensusStateFields { timestamp: Some((0, 2_000_000_000)) };
    assert!(matches!(last_update(too_many_nanos), Err(MonitorError::InvalidTimestamp)));
    let early = ConsensusStateFields { timestamp: Some((-8_000_000_000_000, 999_999_999)) };
    assert_eq!(last_update(early).unwrap(), Timestamp { seconds: -8_000_000_000_000, nanos: 999_999_999 });
}

#[test]
fn reasons_read_as_text() {
    let cases: Vec<(MonitorError, &str)> = vec![
        (MonitorError::Unreachable("transport error".to_string()), "transport error"),
        (MonitorError::ChannelNotFound, "channel not found"),
        (MonitorError::NoConnectionHops, "no connection hops"),
        (MonitorError::ConnectionNotFound, "connection not found"),
        (MonitorError::ClientQueryFailed("boom".to_string()), "client query failed: boom"),
        (MonitorError::NoClientState, "no client state"),
        (MonitorError::WrongType("/x".to_string()), "wrong type: /x"),
        (MonitorError::DecodeFailed, "decode failed"),
        (MonitorError::NoTrustingPeriod, "no trusting period"),
        (MonitorError::NoUnbondingPeriod, "no unbonding period"),
        (MonitorError::NoLatestHeight, "no latest height"),
        (MonitorError::NoConsensusState, "no consensus state"),
        (MonitorError::NoTimestamp, "no timestamp"),
        (MonitorError::InvalidTimestamp, "invalid timestamp"),
    ];
    for (e, text) in cases {
        assert_eq!(e.reason(), text);
    }
}
