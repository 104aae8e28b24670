use vstd::prelude::*;
use ibc_proto::ibc::lightclients::tendermint::v1::{
    ClientState as TendermintClientState,
    ConsensusState as TendermintConsensusState,
};
use prost::Message;
use crate::types::{Height, Span, Timestamp};

verus! {

/// A type-tagged protobuf payload, as the query service returns it.
#[derive(Clone, Debug)]
pub struct Envelope {
    pub type_url: String,
    pub value: Vec<u8>,
}

/// The fields of a Tendermint client state that the monitor reads.
#[derive(Clone, Debug)]
pub struct ClientStateFields {
    pub chain_id: String,
    pub trusting_period: Option<Span>,
    pub unbonding_period: Option<Span>,
    pub latest_height: Option<Height>,
}

/// The field of a Tendermint consensus state that the monitor reads:
/// its timestamp, as seconds and a signed nanosecond part.
#[derive(Clone, Copy, Debug)]
pub struct ConsensusStateFields {
    pub timestamp: Option<(i64, i32)>,
}

/// A client state whose mandatory fields are all present.
#[derive(Clone, Debug)]
pub struct ClientFacts {
    pub counterparty_chain_id: String,
    pub trusting_period: Span,
    pub unbonding_period: Span,
    pub latest_height: Height,
}

/// Why the evaluation of one target failed.
#[derive(Clone, Debug)]
pub enum MonitorError {
    /// Connecting to the endpoint or running a query failed; the failure's text.
    Unreachable(String),
    ChannelNotFound,
    NoConnectionHops,
    ConnectionNotFound,
    /// The client-state query failed for a reason other than a pruned client.
    ClientQueryFailed(String),
    NoClientState,
    /// An envelope carried this type tag instead of the expected one.
    WrongType(String),
    DecodeFailed,
    NoTrustingPeriod,
    NoUnbondingPeriod,
    NoLatestHeight,
    NoConsensusState,
    NoTimestamp,
    InvalidTimestamp,
}

impl MonitorError {
    pub open spec fn reason_text(&self) -> Seq<char> {
        match self {
            MonitorError::Unreachable(m) => m@,
            MonitorError::ChannelNotFound => "channel not found"@,
            MonitorError::NoConnectionHops => "no connection hops"@,
            MonitorError::ConnectionNotFound => "connection not found"@,
            MonitorError::ClientQueryFailed(m) => "client query failed: "@ + m@,
            MonitorError::NoClientState => "no client state"@,
            MonitorError::WrongType(t) => "wrong type: "@ + t@,
            MonitorError::DecodeFailed => "decode failed"@,
            MonitorError::NoTrustingPeriod => "no trusting period"@,
            MonitorError::NoUnbondingPeriod => "no unbonding period"@,
            MonitorError::NoLatestHeight => "no latest height"@,
            MonitorError::NoConsensusState => "no consensus state"@,
            MonitorError::NoTimestamp => "no timestamp"@,
            MonitorError::InvalidTimestamp => "invalid timestamp"@,
        }
    }

    /// The human-readable reason that an `Error` status carries.
    pub fn reason(&self) -> (r: String)
        ensures
            r@ == self.reason_text(),
    {
        match self {
            MonitorError::Unreachable(m) => m.clone(),
            MonitorError::ChannelNotFound => String::from_str("channel not found"),
            MonitorError::NoConnectionHops => String::from_str("no connection hops"),
            MonitorError::ConnectionNotFound => String::from_str("connection not found"),
            MonitorError::ClientQueryFailed(m) => String::from_str("client query failed: ").concat(
                m.as_str(),
            ),
            MonitorError::NoClientState => String::from_str("no client state"),
            MonitorError::WrongType(t) => String::from_str("wrong type: ").concat(t.as_str()),
            MonitorError::DecodeFailed => String::from_str("decode failed"),
            MonitorError::NoTrustingPeriod => String::from_str("no trusting period"),
            MonitorError::NoUnbondingPeriod => String::from_str("no unbonding period"),
            MonitorError::NoLatestHeight => String::from_str("no latest height"),
            MonitorError::NoConsensusState => String::from_str("no consensus state"),
            MonitorError::NoTimestamp => String::from_str("no timestamp"),
            MonitorError::InvalidTimestamp => String::from_str("invalid timestamp"),
        }
    }
}

pub open spec fn client_state_type() -> Seq<char> {
    "/ibc.lightclients.tendermint.v1.ClientState"@
}

pub open spec fn consensus_state_type() -> Seq<char> {
    "/ibc.lightclients.tendermint.v1.ConsensusState"@
}

/// What protobuf decoding of a Tendermint client state makes of `bytes`,
/// `None` where the bytes are not a valid encoding.
pub uninterp spec fn tendermint_client_state(bytes: Seq<u8>) -> Option<ClientStateFields>;

/// What protobuf decoding of a Tendermint consensus state makes of `bytes`,
/// `None` where the bytes are not a valid encoding.
pub uninterp spec fn tendermint_consensus_state(bytes: Seq<u8>) -> Option<ConsensusStateFields>;

/// Whether chrono represents the instant `seconds` + `nanos` after the Unix
/// epoch as a UTC date-time.
pub uninterp spec fn utc_representable(seconds: i64, nanos: u32) -> bool;

/// About 250,000 years either side of the Unix epoch, well inside the years
/// that chrono represents.
pub open spec fn representable_range(seconds: i64) -> bool {
    -8_000_000_000_000 <= seconds <= 8_000_000_000_000
}

/// Relies on prost's `Message::decode` for ibc_proto's Tendermint
/// `ClientState`: the outcome depends on the bytes alone.
#[verifier::external_body]
fn decode_client_state(bytes: &[u8]) -> (r: Option<ClientStateFields>)
    ensures
        r == tendermint_client_state(bytes@),
{
    let s = TendermintClientState::decode(bytes).ok()?;
    Some(ClientStateFields {
        chain_id: s.chain_id,
        trusting_period: s.trusting_period.map(|d| Span { seconds: d.seconds, nanos: d.nanos }),
        unbonding_period: s.unbonding_period.map(|d| Span { seconds: d.seconds, nanos: d.nanos }),
        latest_height: s.latest_height.map(
            |h| Height { revision_number: h.revision_number, revision_height: h.revision_height },
        ),
    })
}

/// Relies on prost's `Message::decode` for ibc_proto's Tendermint
/// `ConsensusState`: the outcome depends on the bytes alone.
#[verifier::external_body]
fn decode_consensus_state(bytes: &[u8]) -> (r: Option<ConsensusStateFields>)
    ensures
        r == tendermint_consensus_state(bytes@),
{
    let s = TendermintConsensusState::decode(bytes).ok()?;
    Some(ConsensusStateFields { timestamp: s.timestamp.map(|t| (t.seconds, t.nanos)) })
}

/// Relies on chrono's `DateTime::from_timestamp`, which is `None` outside the
/// supported range of dates (years -262143 to 262142) and for a nanosecond
/// part of two seconds or more, and `Some` for a nanosecond part below one
/// second at any instant within that range.
#[verifier::external_body]
fn utc_instant_exists(seconds: i64, nanos: u32) -> (r: bool)
    ensures
        r == utc_representable(seconds, nanos),
        nanos >= 2_000_000_000 ==> !r,
        representable_range(seconds) && nanos < 1_000_000_000 ==> r,
{
    chrono::DateTime::from_timestamp(seconds, nanos).is_some()
}

/// The outcome of decoding a client-state envelope.
pub open spec fn parsed_client_state(any: Envelope) -> Result<ClientStateFields, MonitorError> {
    if any.type_url@ != client_state_type() {
        Err(MonitorError::WrongType(any.type_url))
    } else {
        match tendermint_client_state(any.value@) {
            Some(f) => Ok(f),
            None => Err(MonitorError::DecodeFailed),
        }
    }
}

/// The outcome of decoding a consensus-state envelope.
pub open spec fn parsed_consensus_state(any: Envelope) -> Result<ConsensusStateFields, MonitorError> {
    if any.type_url@ != consensus_state_type() {
        Err(MonitorError::WrongType(any.type_url))
    } else {
        match tendermint_consensus_state(any.value@) {
            Some(f) => Ok(f),
            None => Err(MonitorError::DecodeFailed),
        }
    }
}

/// Decodes a Tendermint client state, after checking the envelope's type tag.
/// A wrong tag fails without looking at the payload.
pub fn parse_tendermint_client_state(any: &Envelope) -> (r: Result<ClientStateFields, MonitorError>)
    ensures
        r == parsed_client_state(*any),
{
    if any.type_url != String::from_str("/ibc.lightclients.tendermint.v1.ClientState") {
        return Err(MonitorError::WrongType(any.type_url.clone()));
    }
    match decode_client_state(any.value.as_slice()) {
        Some(f) => Ok(f),
        None => Err(MonitorError::DecodeFailed),
    }
}

/// Decodes a Tendermint consensus state, after checking the envelope's type
/// tag. A wrong tag fails without looking at the payload.
pub fn parse_tendermint_consensus_state(any: &Envelope) -> (r: Result<
    ConsensusStateFields,
    MonitorError,
>)
    ensures
        r == parsed_consensus_state(*any),
{
    if any.type_url != String::from_str("/ibc.lightclients.tendermint.v1.ConsensusState") {
        return Err(MonitorError::WrongType(any.type_url.clone()));
    }
    match decode_consensus_state(any.value.as_slice()) {
        Some(f) => Ok(f),
        None => Err(MonitorError::DecodeFailed),
    }
}

pub open spec fn client_facts(f: ClientStateFields) -> Result<ClientFacts, MonitorError> {
    match (f.trusting_period, f.unbonding_period, f.latest_height) {
        (None, _, _) => Err(MonitorError::NoTrustingPeriod),
        (Some(_), None, _) => Err(MonitorError::NoUnbondingPeriod),
        (Some(_), Some(_), None) => Err(MonitorError::NoLatestHeight),
        (Some(t), Some(u), Some(h)) => Ok(
            ClientFacts {
                counterparty_chain_id: f.chain_id,
                trusting_period: t,
                unbonding_period: u,
                latest_height: h,
            },
        ),
    }
}

/// The mandatory fields of a client state, or the first one missing among
/// trusting period, unbonding period and latest height.
pub fn require_client_facts(f: ClientStateFields) -> (r: Result<ClientFacts, MonitorError>)
    ensures
        r == client_facts(f),
{
    let trusting_period = match f.trusting_period {
        Some(t) => t,
        None => return Err(MonitorError::NoTrustingPeriod),
    };
    let unbonding_period = match f.unbonding_period {
        Some(u) => u,
        None => return Err(MonitorError::NoUnbondingPeriod),
    };
    let latest_height = match f.latest_height {
        Some(h) => h,
        None => return Err(MonitorError::NoLatestHeight),
    };
    Ok(ClientFacts { counterparty_chain_id: f.chain_id, trusting_period, unbonding_period, latest_height })
}

pub open spec fn wrapped_nanos(nanos: i32) -> u32 {
    if nanos >= 0 {
        nanos as u32
    } else {
        (nanos + 4_294_967_296) as u32
    }
}

pub open spec fn last_update_of(c: ConsensusStateFields) -> Result<Timestamp, MonitorError> {
    match c.timestamp {
        None => Err(MonitorError::NoTimestamp),
        Some((s, n)) => if utc_representable(s, wrapped_nanos(n)) {
            Ok(Timestamp { seconds: s, nanos: wrapped_nanos(n) })
        } else {
            Err(MonitorError::InvalidTimestamp)
        },
    }
}

/// The instant a consensus state was recorded at. The nanosecond part is
/// reinterpreted as unsigned, so a negative one is out of range.
pub fn last_update(c: ConsensusStateFields) -> (r: Result<Timestamp, MonitorError>)
    ensures
        r == last_update_of(c),
        match c.timestamp {
            Some((s, n)) => representable_range(s) && 0 <= n < 1_000_000_000 ==> r == Ok::<
                Timestamp,
                MonitorError,
            >(Timestamp { seconds: s, nanos: n as u32 }),
            None => true,
        },
{
    match c.timestamp {
        None => Err(MonitorError::NoTimestamp),
        Some((seconds, n)) => {
            let nanos: u32 = if n >= 0 {
                n as u32
            } else {
                (n as i64 + 4_294_967_296) as u32
            };
            if utc_instant_exists(seconds, nanos) {
                Ok(Timestamp { seconds, nanos })
            } else {
                Err(MonitorError::InvalidTimestamp)
            }
        },
    }
}

} // verus!

verus! {

/// An envelope whose type tag is not the expected one fails with a decode
/// error naming that tag, and the outcome is the same whatever the payload
/// bytes: they are never decoded.
pub proof fn lemma_wrong_tag_rejected(a: Envelope, b: Envelope)
    requires
        a.type_url == b.type_url,
    ensures
        a.type_url@ != client_state_type() ==> {
            &&& parsed_client_state(a) matches Err(MonitorError::WrongType(t)) && t == a.type_url
            &&& parsed_client_state(a) == parsed_client_state(b)
        },
        a.type_url@ != consensus_state_type() ==> {
            &&& parsed_consensus_state(a) matches Err(MonitorError::WrongType(t)) && t
                == a.type_url
            &&& parsed_consensus_state(a) == parsed_consensus_state(b)
        },
{
}

} // verus!
