use vstd::prelude::*;
use crate::classify::{classification, classify, hours_left, remaining_hours};
use crate::config::{GlobalConfig, MonitorConfig};
use crate::gateway::{
    client_facts, last_update, last_update_of, parse_tendermint_client_state,
    parse_tendermint_consensus_state, parsed_client_state, parsed_consensus_state,
    require_client_facts, ClientFacts, Envelope, MonitorError,
};
use crate::types::{ClientStatus, Span, Status, Timestamp};

verus! {

/// Whether `pattern` occurs in `text` as a contiguous run.
pub open spec fn contains(text: Seq<char>, pattern: Seq<char>) -> bool {
    exists|i: int|
        0 <= i && i + pattern.len() <= text.len() && #[trigger] text.subrange(i, i + pattern.len())
            == pattern
}

/// Whether `pattern` occurs in `text`, by trying each start in turn.
fn text_contains(text: &str, pattern: &str) -> (r: bool)
    ensures
        r == contains(text@, pattern@),
{
    let n = text.unicode_len();
    let m = pattern.unicode_len();
    if m > n {
        return false;
    }
    let last = n - m;
    let mut i: usize = 0;
    loop
        invariant
            n == text@.len(),
            m == pattern@.len(),
            last == n - m,
            i <= last,
            forall|k: int| 0 <= k < i ==> #[trigger] text@.subrange(k, k + m) != pattern@,
        decreases last - i,
    {
        let mut j: usize = 0;
        let mut same = true;
        while j < m
            invariant_except_break
                same,
            invariant
                n == text@.len(),
                m == pattern@.len(),
                i + m <= n,
                j <= m,
                forall|t: int| 0 <= t < j ==> text@[i + t] == pattern@[t],
            ensures
                same ==> forall|t: int| 0 <= t < m ==> text@[i + t] == pattern@[t],
                !same ==> text@.subrange(i as int, i + m) != pattern@,
            decreases m - j,
        {
            if text.get_char(i + j) != pattern.get_char(j) {
                assert(text@.subrange(i as int, i + m)[j as int] == text@[i + j]);
                same = false;
                break;
            }
            j = j + 1;
        }
        if same {
            assert(text@.subrange(i as int, i + m) =~= pattern@);
            return true;
        }
        if i == last {
            proof {
                assert forall|k: int| 0 <= k && k + pattern@.len() <= text@.len() implies #[trigger] text@.subrange(
                    k,
                    k + pattern@.len(),
                ) != pattern@ by {
                    assert(k <= i);
                }
            }
            return false;
        }
        i = i + 1;
    }
}

/// A remote query that the evaluation of a target needs answered.
#[derive(Clone, Debug)]
pub enum Query {
    /// Look up a channel end, to learn its connection hops.
    Channel { port_id: String, channel_id: String },
    /// Look up a connection, to learn its client.
    Connection { connection_id: String },
    /// Read a client's state.
    ClientState { client_id: String },
    /// Read a client's consensus state at a height.
    ConsensusState { client_id: String, revision_number: u64, revision_height: u64 },
}

/// A failed client-state query.
#[derive(Clone, Debug)]
pub struct QueryFailure {
    /// The failure carries the "not found" status code.
    pub not_found: bool,
    /// The message that the remote sent with the failure.
    pub message: String,
    /// The full text of the failure.
    pub text: String,
}

/// The answer to a [`Query`].
#[derive(Debug)]
pub enum Reply {
    /// The endpoint could not be reached, or the query failed; the failure's text.
    Unreachable(String),
    /// The connection hops of the channel, or `None` where there is no such channel.
    Channel(Option<Vec<String>>),
    /// The client of the connection, or `None` where there is no such connection.
    Connection(Option<String>),
    /// The client-state envelope, `None` where the response holds none.
    ClientState(Result<Option<Envelope>, QueryFailure>),
    /// The consensus-state envelope, `None` where the response holds none.
    ConsensusState(Option<Envelope>),
}

/// Where the evaluation of one target stands.
#[derive(Clone, Debug)]
pub enum Stage {
    /// Waiting for the channel, to discover the client.
    Discovering,
    /// Waiting for the connection, to discover the client.
    Resolving,
    /// Waiting for the state of the client.
    ReadingClient { client_id: String },
    /// Waiting for the consensus state at the client's latest height.
    ReadingConsensus { client_id: String, facts: ClientFacts },
    /// The outcome has been given.
    Done,
}

/// What to do after a step of an evaluation.
#[derive(Debug)]
pub enum Step {
    /// Run this query and hand its reply to [`Evaluation::advance`].
    Ask(Query),
    /// The evaluation is over, with this outcome.
    Finished(Result<ClientStatus, MonitorError>),
}

/// The evaluation of one monitored target, one remote query at a time:
/// discovery of the client when it is not pinned, then its state, then its
/// consensus state, then the classification of the time left.
#[derive(Clone, Debug)]
pub struct Evaluation {
    pub chain_id: String,
    pub warning_threshold: u64,
    pub critical_threshold: u64,
    pub stage: Stage,
}

/// Whether a failed client-state query means that the chain has pruned the
/// client: a "not found" code, or "not found" or "expired" in its message.
pub open spec fn reports_pruned(f: QueryFailure) -> bool {
    f.not_found || contains(f.message@, "not found"@) || contains(f.message@, "expired"@)
}

/// The status of a client that the chain reports as pruned or expired.
pub open spec fn is_pruned_status(st: ClientStatus, chain_id: Seq<char>, client_id: Seq<char>) -> bool {
    &&& st.chain_id@ == chain_id
    &&& st.client_id@ == client_id
    &&& st.status == (Status::Expired { hours_since_expiry: -1i64 })
    &&& st.last_update is None
    &&& st.trusting_period == Span { seconds: 0, nanos: 0 }
    &&& st.unbonding_period == Span { seconds: 0, nanos: 0 }
    &&& st.latest_height is None
    &&& st.counterparty_chain_id is None
    &&& st.channel@.len() == 0
}

/// The status of a client whose state and consensus state were both read.
pub open spec fn is_measured_status(
    st: ClientStatus,
    chain_id: Seq<char>,
    client_id: Seq<char>,
    facts: ClientFacts,
    at: Timestamp,
    now: Timestamp,
    warning: u64,
    critical: u64,
) -> bool {
    &&& st.chain_id@ == chain_id
    &&& st.client_id@ == client_id
    &&& st.status == classification(
        hours_left(at, facts.trusting_period, now) as i64,
        warning,
        critical,
    )
    &&& st.last_update == Some(at)
    &&& st.trusting_period == facts.trusting_period
    &&& st.unbonding_period == facts.unbonding_period
    &&& st.latest_height == Some(
        (facts.latest_height.revision_number, facts.latest_height.revision_height),
    )
    &&& st.counterparty_chain_id == Some(facts.counterparty_chain_id)
    &&& st.channel@.len() == 0
}

/// The mandatory facts of a client-state envelope, or why there are none.
pub open spec fn client_outcome(env: Envelope) -> Result<ClientFacts, MonitorError> {
    match parsed_client_state(env) {
        Ok(f) => client_facts(f),
        Err(e) => Err(e),
    }
}

/// The last-update instant of a consensus-state envelope, or why there is none.
pub open spec fn consensus_outcome(env: Envelope) -> Result<Timestamp, MonitorError> {
    match parsed_consensus_state(env) {
        Ok(c) => last_update_of(c),
        Err(e) => Err(e),
    }
}

impl Evaluation {
    /// Whether `reply` answers the query this evaluation waits for.
    pub open spec fn accepts(&self, reply: Reply) -> bool {
        match (self.stage, reply) {
            (Stage::Done, _) => false,
            (_, Reply::Unreachable(_)) => true,
            (Stage::Discovering, Reply::Channel(_)) => true,
            (Stage::Resolving, Reply::Connection(_)) => true,
            (Stage::ReadingClient { .. }, Reply::ClientState(_)) => true,
            (Stage::ReadingConsensus { .. }, Reply::ConsensusState(_)) => true,
            _ => false,
        }
    }

    /// Whether `reply` answers the query this evaluation waits for.
    pub fn answers(&self, reply: &Reply) -> (r: bool)
        ensures
            r == self.accepts(*reply),
    {
        match (&self.stage, reply) {
            (Stage::Done, _) => false,
            (_, Reply::Unreachable(_)) => true,
            (Stage::Discovering, Reply::Channel(_)) => true,
            (Stage::Resolving, Reply::Connection(_)) => true,
            (Stage::ReadingClient { .. }, Reply::ClientState(_)) => true,
            (Stage::ReadingConsensus { .. }, Reply::ConsensusState(_)) => true,
            _ => false,
        }
    }

    /// Starts evaluating `target`: with a pinned client its state is read
    /// first; otherwise the client is discovered through the target's channel
    /// on the transfer port.
    pub fn start(target: &MonitorConfig, global: &GlobalConfig) -> (r: (Evaluation, Query))
        ensures
            r.0.chain_id@ == target.chain_id@,
            r.0.warning_threshold == global.warning_threshold,
            r.0.critical_threshold == global.critical_threshold,
            target.client_id matches Some(id) ==> {
                &&& r.0.stage matches Stage::ReadingClient { client_id } && client_id@ == id@
                &&& r.1 matches Query::ClientState { client_id } && client_id@ == id@
            },
            target.client_id is None ==> {
                &&& r.0.stage is Discovering
                &&& r.1 matches Query::Channel { port_id, channel_id } && port_id@ == "transfer"@
                    && channel_id@ == target.channel@
            },
    {
        let (stage, query) = match &target.client_id {
            Some(id) => (
                Stage::ReadingClient { client_id: id.clone() },
                Query::ClientState { client_id: id.clone() },
            ),
            None => (
                Stage::Discovering,
                Query::Channel {
                    port_id: String::from_str("transfer"),
                    channel_id: target.channel.clone(),
                },
            ),
        };
        (
            Evaluation {
                chain_id: target.chain_id.clone(),
                warning_threshold: global.warning_threshold,
                critical_threshold: global.critical_threshold,
                stage,
            },
            query,
        )
    }

    /// Takes the reply to the pending query, and says what comes next; `now`
    /// is the instant against which the time left is measured.
    pub fn advance(&mut self, reply: Reply, now: Timestamp) -> (r: Step)
        requires
            old(self).accepts(reply),
        ensures
            final(self).chain_id == old(self).chain_id,
            final(self).warning_threshold == old(self).warning_threshold,
            final(self).critical_threshold == old(self).critical_threshold,
            r is Finished <==> final(self).stage is Done,
            reply matches Reply::Unreachable(m) ==> (r matches Step::Finished(
                Err(MonitorError::Unreachable(t)),
            ) && t@ == m@),
            reply matches Reply::Channel(c) ==> match c {
                None => r matches Step::Finished(Err(MonitorError::ChannelNotFound)),
                Some(hops) => if hops@.len() == 0 {
                    r matches Step::Finished(Err(MonitorError::NoConnectionHops))
                } else {
                    &&& final(self).stage is Resolving
                    &&& r matches Step::Ask(Query::Connection { connection_id })
                        && connection_id@ == hops@[0]@
                },
            },
            reply matches Reply::Connection(c) ==> match c {
                None => r matches Step::Finished(Err(MonitorError::ConnectionNotFound)),
                Some(id) => {
                    &&& final(self).stage matches Stage::ReadingClient { client_id } && client_id@
                        == id@
                    &&& r matches Step::Ask(Query::ClientState { client_id }) && client_id@ == id@
                },
            },
            old(self).stage matches Stage::ReadingClient { client_id } ==> match reply {
                Reply::ClientState(Err(f)) => if reports_pruned(f) {
                    r matches Step::Finished(Ok(st)) && is_pruned_status(
                        st,
                        old(self).chain_id@,
                        client_id@,
                    )
                } else {
                    r matches Step::Finished(Err(MonitorError::ClientQueryFailed(t))) && t@
                        == f.text@
                },
                Reply::ClientState(Ok(None)) => r matches Step::Finished(
                    Err(MonitorError::NoClientState),
                ),
                Reply::ClientState(Ok(Some(env))) => match client_outcome(env) {
                    Err(e) => r == Step::Finished(Err(e)),
                    Ok(facts) => {
                        &&& final(self).stage == (Stage::ReadingConsensus { client_id, facts })
                        &&& r matches Step::Ask(
                            Query::ConsensusState { client_id: c, revision_number, revision_height },
                        ) && c@ == client_id@ && revision_number
                            == facts.latest_height.revision_number && revision_height
                            == facts.latest_height.revision_height
                    },
                },
                _ => true,
            },
            old(self).stage matches Stage::ReadingConsensus { client_id, facts } ==> match reply {
                Reply::ConsensusState(None) => r matches Step::Finished(
                    Err(MonitorError::NoConsensusState),
                ),
                Reply::ConsensusState(Some(env)) => match consensus_outcome(env) {
                    Err(e) => r == Step::Finished(Err(e)),
                    Ok(at) => r matches Step::Finished(Ok(st)) && is_measured_status(
                        st,
                        old(self).chain_id@,
                        client_id@,
                        facts,
                        at,
                        now,
                        old(self).warning_threshold,
                        old(self).critical_threshold,
                    ),
                },
                _ => true,
            },
    {
        let mut stage = Stage::Done;
        std::mem::swap(&mut self.stage, &mut stage);
        match (stage, reply) {
            (_, Reply::Unreachable(m)) => Step::Finished(Err(MonitorError::Unreachable(m))),
            (Stage::Discovering, Reply::Channel(c)) => match c {
                None => Step::Finished(Err(MonitorError::ChannelNotFound)),
                Some(hops) => {
                    if hops.len() == 0 {
                        Step::Finished(Err(MonitorError::NoConnectionHops))
                    } else {
                        self.stage = Stage::Resolving;
                        Step::Ask(Query::Connection { connection_id: hops[0].clone() })
                    }
                },
            },
            (Stage::Resolving, Reply::Connection(c)) => match c {
                None => Step::Finished(Err(MonitorError::ConnectionNotFound)),
                Some(id) => {
                    self.stage = Stage::ReadingClient { client_id: id.clone() };
                    Step::Ask(Query::ClientState { client_id: id })
                },
            },
            (Stage::ReadingClient { client_id }, Reply::ClientState(res)) => match res {
                Err(f) => {
                    if f.not_found || text_contains(f.message.as_str(), "not found")
                        || text_contains(f.message.as_str(), "expired") {
                        Step::Finished(
                            Ok(
                                ClientStatus {
                                    chain_id: self.chain_id.clone(),
                                    client_id,
                                    status: Status::Expired { hours_since_expiry: -1 },
                                    last_update: None,
                                    trusting_period: Span::zero(),
                                    unbonding_period: Span::zero(),
                                    latest_height: None,
                                    counterparty_chain_id: None,
                                    channel: String::new(),
                                },
                            ),
                        )
                    } else {
                        Step::Finished(Err(MonitorError::ClientQueryFailed(f.text)))
                    }
                },
                Ok(None) => Step::Finished(Err(MonitorError::NoClientState)),
                Ok(Some(env)) => {
                    let fields = match parse_tendermint_client_state(&env) {
                        Ok(f) => f,
                        Err(e) => return Step::Finished(Err(e)),
                    };
                    let facts = match require_client_facts(fields) {
                        Ok(f) => f,
                        Err(e) => return Step::Finished(Err(e)),
                    };
                    let query = Query::ConsensusState {
                        client_id: client_id.clone(),
                        revision_number: facts.latest_height.revision_number,
                        revision_height: facts.latest_height.revision_height,
                    };
                    self.stage = Stage::ReadingConsensus { client_id, facts };
                    Step::Ask(query)
                },
            },
            (Stage::ReadingConsensus { client_id, facts }, Reply::ConsensusState(res)) => match res {
                None => Step::Finished(Err(MonitorError::NoConsensusState)),
                Some(env) => {
                    let fields = match parse_tendermint_consensus_state(&env) {
                        Ok(f) => f,
                        Err(e) => return Step::Finished(Err(e)),
                    };
                    let at = match last_update(fields) {
                        Ok(t) => t,
                        Err(e) => return Step::Finished(Err(e)),
                    };
                    let hours = remaining_hours(at, facts.trusting_period, now);
                    let status = classify(hours, self.warning_threshold, self.critical_threshold);
                    Step::Finished(
                        Ok(
                            ClientStatus {
                                chain_id: self.chain_id.clone(),
                                client_id,
                                status,
                                last_update: Some(at),
                                trusting_period: facts.trusting_period,
                                unbonding_period: facts.unbonding_period,
                                latest_height: Some(
                                    (
                                        facts.latest_height.revision_number,
                                        facts.latest_height.revision_height,
                                    ),
                                ),
                                counterparty_chain_id: Some(facts.counterparty_chain_id),
                                channel: String::new(),
                            },
                        ),
                    )
                },
            },
            _ => unreached(),
        }
    }
}

} // verus!
