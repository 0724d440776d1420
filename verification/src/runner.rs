//! The connection lifecycle runner.
//!
//! One runner owns exactly one persistent stream for one connection
//! identity — venue, channel type, ordered symbol subset — and keeps it
//! alive forever: connect, subscribe, stream, and on any failure a fixed
//! delay and a reconnect under the same identity. The runner decides;
//! the surrounding process performs the returned action (dial, send,
//! wait) and feeds the next event back in.

use vstd::prelude::*;
use vstd::string::*;
use crate::config::ExchangeConfig;
use crate::exchanges::{
    same_venue, spec_adapter_name, spec_adapter_url, spec_field, Adapter,
};
use crate::json::{json_of, parse_json, spec_get, spec_get_str, JsonValue};
use crate::metrics::{bump, lower, spec_bump, spec_lower, RuntimeMetrics};
use crate::planner::ConnectionIdentity;
use crate::pool::{pool_wf, senders_frame, MasterPool};
use crate::schema::{OutcomeModel, ParseOutcome};
use crate::strings::{
    i64_to_string, parse_u64, spec_dec_i64, spec_parse_u64, spec_split_nth, split_nth,
};
use crate::wire::{append_quoted, spec_quoted};

verus! {

/// The fixed delay before a failed stream reconnects, in milliseconds.
pub const RECONNECT_DELAY_MS: u64 = 5000;

/// Where one connection stands in its lifecycle.
#[derive(Clone, Copy, Debug, PartialEq, Eq, Structural)]
pub enum ConnState {
    /// Dialing the venue endpoint.
    Connecting,
    /// Sending subscription requests.
    Subscribing,
    /// Reading and parsing frames.
    Streaming,
    /// Waiting out the fixed delay before the next attempt.
    ReconnectDelay,
}

/// What happened on the stream.
pub enum LifecycleEvent {
    /// The dial succeeded.
    Connected,
    /// The dial failed.
    ConnectFailed,
    /// The pending subscription request was sent.
    SubscribeSent,
    /// Sending the subscription request failed.
    SubscribeFailed,
    /// The remote closed the stream, or a read failed.
    LinkLost,
    /// The reconnect delay elapsed.
    DelayElapsed,
}

/// What the surrounding process must do next.
pub enum ConnAction {
    /// Dial this endpoint; an empty endpoint means the venue's address
    /// must first be resolved at runtime.
    Dial(String),
    /// Send this text on the stream.
    SendText(String),
    /// Wait this many milliseconds, then feed back the elapsed delay.
    Wait(u64),
    /// Nothing to do.
    Idle,
}

/// Venues that take exactly one subscription request per symbol, sent
/// sequentially; every other venue takes one batched request.
pub open spec fn one_sub_per_symbol(a: Adapter) -> bool {
    a is Bitfinex || a is Bitstamp
}

/// One long-lived stream bound to one connection identity.
pub struct ConnectionRunner {
    /// What this stream is bound to; never changes.
    pub identity: ConnectionIdentity,
    /// The venue configuration the subscription payloads draw on.
    pub config: ExchangeConfig,
    /// The venue adapter.
    pub adapter: Adapter,
    /// Where the connection stands.
    pub state: ConnState,
    /// The next symbol to subscribe, for the sequential venues.
    pub next_sub: usize,
    /// The runtime-resolved endpoint, cached after the first resolution:
    /// every later redial reuses it instead of resolving again.
    pub endpoint: Option<String>,
}

/// The endpoint a redial goes to: the cached runtime address once one
/// has been resolved, else the venue's static address.
pub open spec fn spec_dial_endpoint(r: ConnectionRunner) -> Seq<char> {
    match r.endpoint {
        Some(u) => u@,
        None => spec_adapter_url(r.adapter),
    }
}

/// A runner is sound when its identity carries at least one symbol and
/// the subscription cursor stays within it.
pub open spec fn runner_wf(r: ConnectionRunner) -> bool {
    &&& r.identity.symbols@.len() > 0
    &&& r.next_sub < r.identity.symbols@.len()
}

/// The symbols covered by the next subscription request: the whole
/// subset for batch venues, one symbol for the sequential ones.
pub open spec fn spec_sub_symbols(r: ConnectionRunner, i: int) -> Seq<Seq<char>> {
    if one_sub_per_symbol(r.adapter) {
        seq![r.identity.symbols@.map_values(|s: String| s@)[i]]
    } else {
        r.identity.symbols@.map_values(|s: String| s@)
    }
}

impl ConnectionRunner {
    /// A fresh runner for one identity, ready to dial.
    pub fn new(identity: ConnectionIdentity, config: ExchangeConfig, adapter: Adapter) -> (r:
        ConnectionRunner)
        requires
            identity.symbols@.len() > 0,
        ensures
            r.identity == identity,
            r.config == config,
            r.adapter == adapter,
            r.state == ConnState::Connecting,
            r.next_sub == 0,
            r.endpoint is None,
            runner_wf(r),
    {
        ConnectionRunner {
            identity,
            config,
            adapter,
            state: ConnState::Connecting,
            next_sub: 0,
            endpoint: None,
        }
    }

    /// Caches the runtime-resolved endpoint: it is resolved once, and
    /// every later redial under this identity reuses it.
    pub fn set_endpoint(&mut self, url: String)
        ensures
            final(self).endpoint == Some(url),
            final(self).identity == old(self).identity,
            final(self).config == old(self).config,
            final(self).adapter == old(self).adapter,
            final(self).state == old(self).state,
            final(self).next_sub == old(self).next_sub,
    {
        self.endpoint = Some(url);
    }

    /// Advances the lifecycle by one event and says what to do next.
    ///
    /// The connection identity is immutable across every transition: a
    /// failed stream reconnects under the same identity, and every
    /// subscription payload is computed from this runner's own identity
    /// and configuration alone, so no subscription state from another
    /// connection can leak into a new session.
    pub fn step(&mut self, e: LifecycleEvent, now: i64, metrics: &mut RuntimeMetrics) -> (a:
        ConnAction)
        requires
            runner_wf(*old(self)),
        ensures
            runner_wf(*final(self)),
            final(self).identity == old(self).identity,
            final(self).config == old(self).config,
            final(self).adapter == old(self).adapter,
            final(self).endpoint == old(self).endpoint,
            match e {
                LifecycleEvent::Connected => if old(self).state == ConnState::Connecting {
                    &&& final(self).state == ConnState::Subscribing
                    &&& final(self).next_sub == 0
                    &&& *final(metrics) == (RuntimeMetrics {
                        ws_connections_active: spec_bump(old(metrics).ws_connections_active),
                        ..*old(metrics)
                    })
                    &&& (a matches ConnAction::SendText(t) && t@ == Adapter::spec_subscribe(
                        old(self).adapter,
                        old(self).identity.channel,
                        spec_sub_symbols(*old(self), 0),
                        old(self).config,
                        now as int,
                    ))
                } else {
                    *final(self) == *old(self) && *final(metrics) == *old(metrics) && a is Idle
                },
                LifecycleEvent::ConnectFailed => if old(self).state == ConnState::Connecting {
                    &&& final(self).state == ConnState::ReconnectDelay
                    &&& *final(metrics) == (RuntimeMetrics {
                        ws_reconnects: spec_bump(old(metrics).ws_reconnects),
                        ..*old(metrics)
                    })
                    &&& a == ConnAction::Wait(RECONNECT_DELAY_MS)
                } else {
                    *final(self) == *old(self) && *final(metrics) == *old(metrics) && a is Idle
                },
                LifecycleEvent::SubscribeSent => if old(self).state == ConnState::Subscribing {
                    &&& *final(metrics) == (RuntimeMetrics {
                        subscriptions_sent: spec_bump(old(metrics).subscriptions_sent),
                        ..*old(metrics)
                    })
                    &&& if one_sub_per_symbol(old(self).adapter) && old(self).next_sub + 1 < old(
                        self,
                    ).identity.symbols@.len() {
                        &&& final(self).state == ConnState::Subscribing
                        &&& final(self).next_sub == old(self).next_sub + 1
                        &&& (a matches ConnAction::SendText(t) && t@ == Adapter::spec_subscribe(
                            old(self).adapter,
                            old(self).identity.channel,
                            spec_sub_symbols(*old(self), old(self).next_sub + 1),
                            old(self).config,
                            now as int,
                        ))
                    } else {
                        final(self).state == ConnState::Streaming && a is Idle
                    }
                } else {
                    *final(self) == *old(self) && *final(metrics) == *old(metrics) && a is Idle
                },
                LifecycleEvent::SubscribeFailed => if old(self).state == ConnState::Subscribing {
                    &&& final(self).state == ConnState::ReconnectDelay
                    &&& *final(metrics) == (RuntimeMetrics {
                        subscription_errors: spec_bump(old(metrics).subscription_errors),
                        ws_connections_active: spec_lower(old(metrics).ws_connections_active),
                        ws_reconnects: spec_bump(old(metrics).ws_reconnects),
                        ..*old(metrics)
                    })
                    &&& a == ConnAction::Wait(RECONNECT_DELAY_MS)
                } else {
                    *final(self) == *old(self) && *final(metrics) == *old(metrics) && a is Idle
                },
                LifecycleEvent::LinkLost => if old(self).state == ConnState::Streaming {
                    &&& final(self).state == ConnState::ReconnectDelay
                    &&& *final(metrics) == (RuntimeMetrics {
                        ws_connections_active: spec_lower(old(metrics).ws_connections_active),
                        ws_reconnects: spec_bump(old(metrics).ws_reconnects),
                        ..*old(metrics)
                    })
                    &&& a == ConnAction::Wait(RECONNECT_DELAY_MS)
                } else {
                    *final(self) == *old(self) && *final(metrics) == *old(metrics) && a is Idle
                },
                LifecycleEvent::DelayElapsed => if old(self).state == ConnState::ReconnectDelay {
                    &&& final(self).state == ConnState::Connecting
                    &&& final(self).next_sub == 0
                    &&& *final(metrics) == *old(metrics)
                    &&& (a matches ConnAction::Dial(u) && u@ == spec_dial_endpoint(*old(self)))
                } else {
                    *final(self) == *old(self) && *final(metrics) == *old(metrics) && a is Idle
                },
            },
    {
        match e {
            LifecycleEvent::Connected => {
                if self.state == ConnState::Connecting {
                    self.state = ConnState::Subscribing;
                    self.next_sub = 0;
                    bump(&mut metrics.ws_connections_active);
                    let payload = self.build_next_subscribe(now);
                    ConnAction::SendText(payload)
                } else {
                    ConnAction::Idle
                }
            },
            LifecycleEvent::ConnectFailed => {
                if self.state == ConnState::Connecting {
                    self.state = ConnState::ReconnectDelay;
                    bump(&mut metrics.ws_reconnects);
                    ConnAction::Wait(RECONNECT_DELAY_MS)
                } else {
                    ConnAction::Idle
                }
            },
            LifecycleEvent::SubscribeSent => {
                if self.state == ConnState::Subscribing {
                    bump(&mut metrics.subscriptions_sent);
                    let per_symbol = match &self.adapter {
                        Adapter::Bitfinex(_) => true,
                        Adapter::Bitstamp(_) => true,
                        _ => false,
                    };
                    let total = self.identity.symbols.len();
                    if per_symbol && self.next_sub + 1 < total {
                        self.next_sub = self.next_sub + 1;
                        let payload = self.build_next_subscribe(now);
                        ConnAction::SendText(payload)
                    } else {
                        self.state = ConnState::Streaming;
                        ConnAction::Idle
                    }
                } else {
                    ConnAction::Idle
                }
            },
            LifecycleEvent::SubscribeFailed => {
                if self.state == ConnState::Subscribing {
                    self.state = ConnState::ReconnectDelay;
                    bump(&mut metrics.subscription_errors);
                    lower(&mut metrics.ws_connections_active);
                    bump(&mut metrics.ws_reconnects);
                    ConnAction::Wait(RECONNECT_DELAY_MS)
                } else {
                    ConnAction::Idle
                }
            },
            LifecycleEvent::LinkLost => {
                if self.state == ConnState::Streaming {
                    self.state = ConnState::ReconnectDelay;
                    lower(&mut metrics.ws_connections_active);
                    bump(&mut metrics.ws_reconnects);
                    ConnAction::Wait(RECONNECT_DELAY_MS)
                } else {
                    ConnAction::Idle
                }
            },
            LifecycleEvent::DelayElapsed => {
                if self.state == ConnState::ReconnectDelay {
                    self.state = ConnState::Connecting;
                    self.next_sub = 0;
                    let url: String = match &self.endpoint {
                        Some(u) => u.clone(),
                        None => self.adapter.ws_url().to_owned(),
                    };
                    ConnAction::Dial(url)
                } else {
                    ConnAction::Idle
                }
            },
        }
    }

    /// The subscription payload for the current cursor position.
    fn build_next_subscribe(&self, now: i64) -> (r: String)
        requires
            runner_wf(*self),
        ensures
            r@ == Adapter::spec_subscribe(
                self.adapter,
                self.identity.channel,
                spec_sub_symbols(*self, self.next_sub as int),
                self.config,
                now as int,
            ),
    {
        let per_symbol = match &self.adapter {
            Adapter::Bitfinex(_) => true,
            Adapter::Bitstamp(_) => true,
            _ => false,
        };
        if per_symbol {
            let mut one: Vec<String> = Vec::new();
            one.push(self.identity.symbols[self.next_sub].clone());
            proof {
                assert(one@.map_values(|s: String| s@) =~= spec_sub_symbols(
                    *self,
                    self.next_sub as int,
                ));
            }
            self.adapter.build_subscribe_message(self.identity.channel, &one, &self.config, now)
        } else {
            self.adapter.build_subscribe_message(
                self.identity.channel,
                &self.identity.symbols,
                &self.config,
                now,
            )
        }
    }
}

/// What the stream loop does with one received frame.
pub enum FrameReply {
    /// Send this text back on the stream, e.g. an application-level pong.
    Reply(String),
    /// Hand this outcome to the outbound path.
    Outcome(ParseOutcome),
}

/// Whether a decoded frame is the venue's application-level ping.
pub open spec fn spec_kucoin_is_ping(j: Option<JsonValue>) -> bool {
    match j {
        Some(v) => spec_get_str(v, "type"@) == Some("ping"@),
        None => false,
    }
}

/// The echo of a ping's identifier: strings quoted, numbers as they
/// came, anything else `null`.
pub open spec fn spec_id_text(o: Option<JsonValue>) -> Seq<char> {
    match o {
        Some(JsonValue::Str(s)) => spec_quoted(s@),
        Some(JsonValue::Num(t)) => t@,
        _ => "null"@,
    }
}

/// The application-level pong answering one ping frame.
pub open spec fn spec_kucoin_pong(v: JsonValue) -> Seq<char> {
    "{\"type\":\"pong\",\"id\":"@ + spec_id_text(spec_get(v, "id"@)) + "}"@
}

/// The raw bytes of a gzip stream decoded to text; `None` when the bytes
/// are not a valid gzip stream of text. The decoding depends on the
/// bytes alone.
pub uninterp spec fn gunzip_of(b: Seq<u8>) -> Option<Seq<char>>;

/// Relies on flate2's gzip decoder: inflates a compressed binary frame
/// to its text.
#[verifier::external_body]
fn gunzip(b: &Vec<u8>) -> (r: Option<String>)
    ensures
        match r {
            Some(t) => gunzip_of(b@) == Some(t@),
            None => gunzip_of(b@) is None,
        },
{
    let mut d = flate2::read::GzDecoder::new(&b[..]);
    let mut out = String::new();
    match std::io::Read::read_to_string(&mut d, &mut out) {
        Ok(_) => Some(out),
        Err(_) => None,
    }
}

impl ConnectionRunner {
    /// Handles one text frame while streaming: the venue's application
    /// ping is answered directly, every other frame is parsed by the
    /// adapter into a canonical outcome.
    pub fn handle_text_frame(&mut self, text: &str, now: i64) -> (r: FrameReply)
        requires
            runner_wf(*old(self)),
        ensures
            runner_wf(*final(self)),
            final(self).identity == old(self).identity,
            final(self).config == old(self).config,
            final(self).state == old(self).state,
            final(self).next_sub == old(self).next_sub,
            final(self).endpoint == old(self).endpoint,
            same_venue(final(self).adapter, old(self).adapter),
            ({
                let j = json_of(text@);
                if old(self).adapter is Kucoin && spec_kucoin_is_ping(j) {
                    &&& (r matches FrameReply::Reply(p) && (match j {
                        Some(v) => p@ == spec_kucoin_pong(v),
                        None => false,
                    }))
                    &&& final(self).adapter == old(self).adapter
                } else {
                    r matches FrameReply::Outcome(o) && Adapter::parse_contract(
                        old(self).adapter,
                        final(self).adapter,
                        j,
                        spec_adapter_name(old(self).adapter),
                        now as int,
                        o@,
                    )
                }
            }),
    {
        let is_kucoin = match &self.adapter {
            Adapter::Kucoin(_) => true,
            _ => false,
        };
        if is_kucoin {
            match parse_json(text) {
                Some(v) => {
                    let is_ping: bool = match v.get("type") {
                        Some(x) => match x.as_str() {
                            Some(s) => crate::strings::str_eq(s.as_str(), "ping"),
                            None => false,
                        },
                        None => false,
                    };
                    if is_ping {
                        let mut out = String::new();
                        out.append("{\"type\":\"pong\",\"id\":");
                        match v.get("id") {
                            Some(JsonValue::Str(s)) => {
                                append_quoted(&mut out, s.as_str());
                            },
                            Some(JsonValue::Num(t)) => {
                                out.append(t.as_str());
                            },
                            _ => {
                                out.append("null");
                            },
                        }
                        out.append("}");
                        proof {
                            assert(out@ =~= spec_kucoin_pong(v));
                        }
                        return FrameReply::Reply(out);
                    }
                },
                None => {},
            }
        }
        let ex = self.adapter.name();
        let outcome = self.adapter.parse_message(text, ex, now);
        FrameReply::Outcome(outcome)
    }

    /// Handles one binary frame while streaming: the frame is inflated
    /// and its text parsed; a frame that does not inflate is ignored.
    pub fn handle_binary_frame(&mut self, bytes: &Vec<u8>, now: i64) -> (r: Option<ParseOutcome>)
        requires
            runner_wf(*old(self)),
        ensures
            runner_wf(*final(self)),
            final(self).identity == old(self).identity,
            final(self).config == old(self).config,
            final(self).state == old(self).state,
            final(self).next_sub == old(self).next_sub,
            final(self).endpoint == old(self).endpoint,
            same_venue(final(self).adapter, old(self).adapter),
            match gunzip_of(bytes@) {
                Some(text) => r matches Some(o) && Adapter::parse_contract(
                    old(self).adapter,
                    final(self).adapter,
                    json_of(text),
                    spec_adapter_name(old(self).adapter),
                    now as int,
                    o@,
                ),
                None => r is None && final(self).adapter == old(self).adapter,
            },
    {
        match gunzip(bytes) {
            Some(text) => {
                let ex = self.adapter.name();
                let outcome = self.adapter.parse_message(text.as_str(), ex, now);
                Some(outcome)
            },
            None => None,
        }
    }
}

/// Routes one parse outcome: market data is counted and handed to the
/// outbound pool, with a failed relay counted as a dropped message;
/// control traffic is ignored; a parse error is counted and the frame
/// discarded, the stream continuing uninterrupted.
pub fn handle_parsed(result: ParseOutcome, master: &mut MasterPool, metrics: &mut RuntimeMetrics)
    requires
        old(master).demo || old(master).senders@.len() > 0,
        pool_wf(*old(master)),
    ensures
        pool_wf(*final(master)),
        senders_frame(*final(master), *old(master)),
        final(master).demo == old(master).demo,
        match result@ {
            OutcomeModel::Market(m) => {
                &&& final(metrics).trades_received == spec_bump(old(metrics).trades_received)
                &&& final(metrics).parse_errors == old(metrics).parse_errors
                &&& final(metrics).exchanges_active == old(metrics).exchanges_active
                &&& final(metrics).ws_connections_active == old(metrics).ws_connections_active
                &&& final(metrics).trade_pairs_active == old(metrics).trade_pairs_active
                &&& final(metrics).orderbook_pairs_active == old(metrics).orderbook_pairs_active
                &&& final(metrics).ws_reconnects == old(metrics).ws_reconnects
                &&& final(metrics).subscriptions_sent == old(metrics).subscriptions_sent
                &&& final(metrics).subscription_errors == old(metrics).subscription_errors
                &&& (final(metrics).trades_forwarded == spec_bump(old(metrics).trades_forwarded)
                    || (final(metrics).trades_forwarded == old(metrics).trades_forwarded
                    && final(metrics).send_errors == spec_bump(old(metrics).send_errors)
                    && final(metrics).dropped_messages == spec_bump(
                    old(metrics).dropped_messages,
                )))
                &&& (old(master).demo ==> final(metrics).trades_forwarded == spec_bump(
                    old(metrics).trades_forwarded,
                ) && final(master).echo@.map_values(|s: String| s@)
                    == old(master).echo@.map_values(|s: String| s@).push(
                    crate::wire::spec_wire(m),
                ))
            },
            OutcomeModel::Control => *final(metrics) == *old(metrics) && *final(master) == *old(
                master,
            ),
            OutcomeModel::Error => *final(metrics) == (RuntimeMetrics {
                parse_errors: spec_bump(old(metrics).parse_errors),
                ..*old(metrics)
            }) && *final(master) == *old(master),
        },
{
    match result {
        ParseOutcome::Market(mm) => {
            bump(&mut metrics.trades_received);
            match master.send(&mm, metrics) {
                Ok(()) => {
                    bump(&mut metrics.trades_forwarded);
                },
                Err(_) => {
                    bump(&mut metrics.send_errors);
                    bump(&mut metrics.dropped_messages);
                },
            }
        },
        ParseOutcome::Control => {},
        ParseOutcome::Error => {
            bump(&mut metrics.parse_errors);
        },
    }
}

/// The runtime socket address embedded in the venue's bullet response:
/// the announced endpoint with the session token appended.
pub open spec fn spec_kucoin_endpoint(v: JsonValue) -> Option<Seq<char>> {
    let data = spec_field(v, "data"@);
    match spec_get_str(data, "token"@) {
        None => None,
        Some(token) => match crate::exchanges::spec_idx(
            spec_field(data, "instanceServers"@),
            0,
        ) {
            None => None,
            Some(s0) => match spec_get_str(s0, "endpoint"@) {
                None => None,
                Some(ep) => Some(ep + "?token="@ + token),
            },
        },
    }
}

/// Extracts the runtime endpoint from a decoded bullet response.
pub fn kucoin_endpoint_from_response(v: &JsonValue) -> (r: Option<String>)
    ensures
        match r {
            Some(u) => spec_kucoin_endpoint(*v) == Some(u@),
            None => spec_kucoin_endpoint(*v) is None,
        },
{
    let data = match v.get("data") {
        Some(d) => d,
        None => {
            return None;
        },
    };
    let token = match data.get("token") {
        Some(x) => match x.as_str() {
            Some(s) => s,
            None => {
                return None;
            },
        },
        None => {
            return None;
        },
    };
    let servers = match data.get("instanceServers") {
        Some(s) => s,
        None => {
            return None;
        },
    };
    let s0 = match servers.idx(0) {
        Some(s) => s,
        None => {
            return None;
        },
    };
    let ep = match s0.get("endpoint") {
        Some(x) => match x.as_str() {
            Some(s) => s,
            None => {
                return None;
            },
        },
        None => {
            return None;
        },
    };
    let mut out = ep.clone();
    out.append("?token=");
    out.append(token.as_str());
    proof {
        assert(out@ =~= ep@ + "?token="@ + token@);
    }
    Some(out)
}

/// How often the venue's application-level ping is sent: half the
/// interval advertised in the endpoint address, with the venue default
/// when none is advertised.
pub open spec fn spec_kucoin_ping_every(url: Seq<char>) -> int {
    (match spec_split_nth(url, "|ping="@, 1) {
        Some(s) => match spec_parse_u64(s) {
            Some(v) => v as int,
            None => 20000,
        },
        None => 20000,
    }) / 2
}

/// The application-level ping interval for one resolved endpoint.
pub fn kucoin_ping_every_ms(url: &str) -> (r: u64)
    ensures
        r == spec_kucoin_ping_every(url@),
{
    proof {
        reveal_strlit("|ping=");
    }
    let iv: u64 = match split_nth(url, "|ping=", 1) {
        Some(s) => match parse_u64(s.as_str()) {
            Some(v) => v,
            None => 20000,
        },
        None => 20000,
    };
    iv / 2
}

/// The application-level ping sent on the derived interval.
pub fn kucoin_ping_text(now: i64) -> (r: String)
    ensures
        r@ == "{\"type\":\"ping\",\"id\":\""@ + spec_dec_i64(now as int) + "\"}"@,
{
    let mut out = String::new();
    out.append("{\"type\":\"ping\",\"id\":\"");
    let t = i64_to_string(now);
    out.append(t.as_str());
    out.append("\"}");
    proof {
        assert(out@ =~= "{\"type\":\"ping\",\"id\":\""@ + spec_dec_i64(now as int) + "\"}"@);
    }
    out
}

} // verus!
