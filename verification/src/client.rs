//! Commands for a toy behind a device-local bridge.

use vstd::prelude::*;
use crate::action::Action;
use crate::error::{ConfigurationError, ValidationError};
use crate::members::{
    has_key, keys_distinct, lemma_value_of_at, lemma_value_of_has_key, value_of,
};
use crate::payload::{seconds_finite, Members, Payload, WireModel, WireValue};
use crate::request::{request_outcome, Request, RequestModel};
use crate::seconds::{encodes_finite, encodes_negative, Seconds};
use crate::strength::{clamped, Strength};
use crate::text::{decimal, decimal_text};

verus! {

/// The protocol by which the bridge is reached.
#[derive(Clone, Copy, Debug, PartialEq, Eq, Structural)]
pub enum Scheme {
    Http,
    Https,
}

impl Scheme {
    /// The start of a URL of this scheme.
    pub open spec fn prefix(self) -> Seq<char> {
        match self {
            Scheme::Http => "http://"@,
            Scheme::Https => "https://"@,
        }
    }
}

/// The `action` member of a command: the action's name, a colon, and the
/// strength in decimal notation.
pub open spec fn wire_action(action: Action, level: int) -> Seq<char> {
    action.name() + ":"@ + decimal(level as nat)
}

/// The members that every command has.
pub open spec fn common_members(action: Seq<char>, time: u64, stop_previous: bool) -> Members {
    seq![
        ("command"@, WireModel::Text("Function"@)),
        ("action"@, WireModel::Text(action)),
        ("timeSec"@, WireModel::Seconds(time)),
        ("stopPrevious"@, WireModel::Integer(if stop_previous { 1 } else { 0 })),
        ("apiVer"@, WireModel::Integer(1)),
    ]
}

/// The member that names the toy, where one is named.
pub open spec fn toy_members(toy_id: Option<Seq<char>>) -> Members {
    match toy_id {
        Some(id) => seq![("toy_id"@, WireModel::Text(id))],
        None => seq![],
    }
}

/// The members of a looping command: how long the toy runs and how long it
/// pauses in each round.
pub open spec fn loop_members(timing: Option<(u64, u64)>) -> Members {
    match timing {
        Some((running, pause)) => seq![
            ("loopRunningSec"@, WireModel::Seconds(running)),
            ("loopPauseSec"@, WireModel::Seconds(pause)),
        ],
        None => seq![],
    }
}

/// The body of a command.
pub open spec fn command_envelope(
    action: Seq<char>,
    time: u64,
    stop_previous: bool,
    toy_id: Option<Seq<char>>,
    timing: Option<(u64, u64)>,
) -> Members {
    common_members(action, time, stop_previous) + toy_members(toy_id) + loop_members(timing)
}

/// The eight keys of a command differ from one another.
proof fn lemma_keys_differ()
    ensures
        "command"@.len() == 7 && "command"@[0] == 'c',
        "action"@.len() == 6 && "action"@[0] == 'a' && "action"@[1] == 'c',
        "timeSec"@.len() == 7 && "timeSec"@[0] == 't',
        "stopPrevious"@.len() == 12 && "stopPrevious"@[0] == 's',
        "apiVer"@.len() == 6 && "apiVer"@[0] == 'a' && "apiVer"@[1] == 'p',
        "toy_id"@.len() == 6 && "toy_id"@[0] == 't',
        "loopRunningSec"@.len() == 14 && "loopRunningSec"@[0] == 'l',
        "loopPauseSec"@.len() == 12 && "loopPauseSec"@[0] == 'l',
{
    reveal_strlit("command");
    reveal_strlit("action");
    reveal_strlit("timeSec");
    reveal_strlit("stopPrevious");
    reveal_strlit("apiVer");
    reveal_strlit("toy_id");
    reveal_strlit("loopRunningSec");
    reveal_strlit("loopPauseSec");
}

/// What the body of a command holds: each key once; the toy's name exactly
/// where one is given, and as given; the loop durations exactly in a looping
/// command.
pub proof fn lemma_command_envelope(
    action: Seq<char>,
    time: u64,
    stop_previous: bool,
    toy_id: Option<Seq<char>>,
    timing: Option<(u64, u64)>,
)
    ensures
        keys_distinct(command_envelope(action, time, stop_previous, toy_id, timing)),
        encodes_finite(time) && (timing matches Some((running, pause)) ==> encodes_finite(running)
            && encodes_finite(pause)) ==> seconds_finite(
            command_envelope(action, time, stop_previous, toy_id, timing),
        ),
        value_of(command_envelope(action, time, stop_previous, toy_id, timing), "command"@)
            == Some(WireModel::Text("Function"@)),
        value_of(command_envelope(action, time, stop_previous, toy_id, timing), "action"@)
            == Some(WireModel::Text(action)),
        value_of(command_envelope(action, time, stop_previous, toy_id, timing), "timeSec"@)
            == Some(WireModel::Seconds(time)),
        value_of(command_envelope(action, time, stop_previous, toy_id, timing), "stopPrevious"@)
            == Some(WireModel::Integer(if stop_previous { 1 } else { 0 })),
        value_of(command_envelope(action, time, stop_previous, toy_id, timing), "apiVer"@)
            == Some(WireModel::Integer(1)),
        value_of(command_envelope(action, time, stop_previous, toy_id, timing), "toy_id"@)
            == match toy_id {
            Some(id) => Some(WireModel::Text(id)),
            None => None,
        },
        value_of(command_envelope(action, time, stop_previous, toy_id, timing), "loopRunningSec"@)
            == match timing {
            Some((running, pause)) => Some(WireModel::Seconds(running)),
            None => None,
        },
        value_of(command_envelope(action, time, stop_previous, toy_id, timing), "loopPauseSec"@)
            == match timing {
            Some((running, pause)) => Some(WireModel::Seconds(pause)),
            None => None,
        },
{
    lemma_keys_differ();
    let e = command_envelope(action, time, stop_previous, toy_id, timing);
    let c = common_members(action, time, stop_previous);
    let t = toy_members(toy_id);
    let l = loop_members(timing);
    assert(e.len() == 5 + t.len() + l.len());
    assert(forall|i: int| 0 <= i < 5 ==> e[i] == c[i]);
    assert(forall|i: int| 5 <= i < 5 + t.len() ==> e[i] == t[i - 5]);
    assert(forall|i: int| 5 + t.len() <= i < e.len() ==> e[i] == l[i - 5 - t.len()]);
    assert(e[0] == c[0] && e[1] == c[1] && e[2] == c[2] && e[3] == c[3] && e[4] == c[4]);
    lemma_value_of_at(e, "command"@, 0);
    lemma_value_of_at(e, "action"@, 1);
    lemma_value_of_at(e, "timeSec"@, 2);
    lemma_value_of_at(e, "stopPrevious"@, 3);
    lemma_value_of_at(e, "apiVer"@, 4);
    match toy_id {
        Some(id) => {
            assert(e[5] == toy_members(toy_id)[0]);
            lemma_value_of_at(e, "toy_id"@, 5);
            match timing {
                Some((running, pause)) => {
                    assert(e[6] == loop_members(timing)[0]);
                    assert(e[7] == loop_members(timing)[1]);
                    lemma_value_of_at(e, "loopRunningSec"@, 6);
                    lemma_value_of_at(e, "loopPauseSec"@, 7);
                },
                None => {
                    lemma_value_of_has_key(e, "loopRunningSec"@);
                    lemma_value_of_has_key(e, "loopPauseSec"@);
                },
            }
        },
        None => {
            lemma_value_of_has_key(e, "toy_id"@);
            match timing {
                Some((running, pause)) => {
                    assert(e[5] == loop_members(timing)[0]);
                    assert(e[6] == loop_members(timing)[1]);
                    lemma_value_of_at(e, "loopRunningSec"@, 5);
                    lemma_value_of_at(e, "loopPauseSec"@, 6);
                },
                None => {
                    lemma_value_of_has_key(e, "loopRunningSec"@);
                    lemma_value_of_has_key(e, "loopPauseSec"@);
                },
            }
        },
    }
}

/// What an optional string stands for.
pub open spec fn text_of(s: Option<String>) -> Option<Seq<char>> {
    match s {
        Some(t) => Some(t@),
        None => None,
    }
}

/// A client for one bridge: the host, and the one scheme and port by which
/// it is reached.
#[derive(Clone, Debug, PartialEq, Eq)]
pub struct LovenseClient {
    pub local_ip: String,
    pub scheme: Scheme,
    pub port: u16,
}

impl LovenseClient {
    /// The URL of `endpoint` on the bridge.
    pub open spec fn url(&self, endpoint: Seq<char>) -> Seq<char> {
        self.scheme.prefix() + self.local_ip@ + ":"@ + decimal(self.port as nat) + "/"@ + endpoint
    }

    /// A client that reaches the bridge at `local_ip` by https on `https_port`.
    pub fn new(local_ip: &str, https_port: u16) -> (r: LovenseClient)
        ensures
            r.local_ip@ == local_ip@,
            r.scheme == Scheme::Https,
            r.port == https_port,
    {
        LovenseClient { local_ip: String::from_str(local_ip), scheme: Scheme::Https, port: https_port }
    }

    /// A client that reaches the bridge at `local_ip` by http on `http_port`.
    pub fn new_http(local_ip: &str, http_port: u16) -> (r: LovenseClient)
        ensures
            r.local_ip@ == local_ip@,
            r.scheme == Scheme::Http,
            r.port == http_port,
    {
        LovenseClient { local_ip: String::from_str(local_ip), scheme: Scheme::Http, port: http_port }
    }

    /// A client for the bridge at `local_ip`, from a pair of ports of which a
    /// zero stands for a transport that is not configured. Exactly one of
    /// the two must be configured.
    pub fn with_ports(local_ip: &str, http_port: u16, https_port: u16) -> (r: Result<
        LovenseClient,
        ConfigurationError,
    >)
        ensures
            http_port == 0 && https_port == 0 ==> r == Err::<LovenseClient, ConfigurationError>(
                ConfigurationError::NoTransport,
            ),
            http_port != 0 && https_port != 0 ==> r == Err::<LovenseClient, ConfigurationError>(
                ConfigurationError::BothTransports,
            ),
            http_port != 0 && https_port == 0 ==> r is Ok && r->Ok_0.local_ip@ == local_ip@
                && r->Ok_0.scheme == Scheme::Http && r->Ok_0.port == http_port,
            http_port == 0 && https_port != 0 ==> r is Ok && r->Ok_0.local_ip@ == local_ip@
                && r->Ok_0.scheme == Scheme::Https && r->Ok_0.port == https_port,
    {
        if http_port == 0 && https_port == 0 {
            Err(ConfigurationError::NoTransport)
        } else if http_port != 0 && https_port != 0 {
            Err(ConfigurationError::BothTransports)
        } else if http_port != 0 {
            Ok(LovenseClient::new_http(local_ip, http_port))
        } else {
            Ok(LovenseClient::new(local_ip, https_port))
        }
    }

    /// What `single_function` gives. A strength below zero is refused, then
    /// a duration that is not a number; otherwise the request goes to the
    /// bridge's `command` endpoint, with the strength fitted to the action.
    pub open spec fn single_outcome(
        &self,
        action: Action,
        strength: int,
        time_sec: Seconds,
        toy_id: Option<Seq<char>>,
        stop_previous: bool,
    ) -> Result<RequestModel, ValidationError> {
        if strength < 0 {
            Err(ValidationError::NegativeStrength)
        } else if !encodes_finite(time_sec.bits) {
            Err(ValidationError::NonFiniteSeconds)
        } else {
            Ok(
                RequestModel {
                    url: self.url("command"@),
                    body: command_envelope(
                        wire_action(action, clamped(action, strength)),
                        time_sec.bits,
                        stop_previous,
                        toy_id,
                        None,
                    ),
                },
            )
        }
    }

    /// What `looping_function` gives. A strength below zero is refused, then
    /// a duration that is not a number, then a loop duration below zero;
    /// otherwise the request goes to the bridge's `command` endpoint, with
    /// the strength fitted to the action and with both loop durations.
    pub open spec fn looping_outcome(
        &self,
        action: Action,
        strength: int,
        time_sec: Seconds,
        loop_running_sec: Seconds,
        loop_pause_sec: Seconds,
        toy_id: Option<Seq<char>>,
        stop_previous: bool,
    ) -> Result<RequestModel, ValidationError> {
        if strength < 0 {
            Err(ValidationError::NegativeStrength)
        } else if !encodes_finite(time_sec.bits) || !encodes_finite(loop_running_sec.bits)
            || !encodes_finite(loop_pause_sec.bits) {
            Err(ValidationError::NonFiniteSeconds)
        } else if encodes_negative(loop_running_sec.bits) || encodes_negative(
            loop_pause_sec.bits,
        ) {
            Err(ValidationError::NegativeLoopSeconds)
        } else {
            Ok(
                RequestModel {
                    url: self.url("command"@),
                    body: command_envelope(
                        wire_action(action, clamped(action, strength)),
                        time_sec.bits,
                        stop_previous,
                        toy_id,
                        Some((loop_running_sec.bits, loop_pause_sec.bits)),
                    ),
                },
            )
        }
    }

    /// A single command goes out without loop durations, and with the toy's
    /// name exactly where one is given, as given. Its body holds each key
    /// once and only durations that are numbers.
    pub proof fn lemma_single_outcome(
        &self,
        action: Action,
        strength: int,
        time_sec: Seconds,
        toy_id: Option<Seq<char>>,
        stop_previous: bool,
    )
        ensures
            self.single_outcome(action, strength, time_sec, toy_id, stop_previous) matches Ok(q)
                ==> {
                &&& keys_distinct(q.body)
                &&& seconds_finite(q.body)
                &&& value_of(q.body, "action"@) == Some(
                    WireModel::Text(wire_action(action, clamped(action, strength))),
                )
                &&& !has_key(q.body, "loopRunningSec"@)
                &&& !has_key(q.body, "loopPauseSec"@)
                &&& has_key(q.body, "toy_id"@) <==> toy_id is Some
                &&& toy_id matches Some(id) ==> value_of(q.body, "toy_id"@) == Some(
                    WireModel::Text(id),
                )
            },
    {
        if self.single_outcome(action, strength, time_sec, toy_id, stop_previous) is Ok {
            let text = wire_action(action, clamped(action, strength));
            let e = command_envelope(text, time_sec.bits, stop_previous, toy_id, None);
            lemma_command_envelope(text, time_sec.bits, stop_previous, toy_id, None);
            lemma_value_of_has_key(e, "loopRunningSec"@);
            lemma_value_of_has_key(e, "loopPauseSec"@);
            lemma_value_of_has_key(e, "toy_id"@);
        }
    }

    /// A looping command goes out with both loop durations, and with the
    /// toy's name exactly where one is given, as given. Its body holds each
    /// key once and only durations that are numbers.
    pub proof fn lemma_looping_outcome(
        &self,
        action: Action,
        strength: int,
        time_sec: Seconds,
        loop_running_sec: Seconds,
        loop_pause_sec: Seconds,
        toy_id: Option<Seq<char>>,
        stop_previous: bool,
    )
        ensures
            self.looping_outcome(
                action,
                strength,
                time_sec,
                loop_running_sec,
                loop_pause_sec,
                toy_id,
                stop_previous,
            ) matches Ok(q) ==> {
                &&& keys_distinct(q.body)
                &&& seconds_finite(q.body)
                &&& value_of(q.body, "action"@) == Some(
                    WireModel::Text(wire_action(action, clamped(action, strength))),
                )
                &&& has_key(q.body, "loopRunningSec"@)
                &&& has_key(q.body, "loopPauseSec"@)
                &&& value_of(q.body, "loopRunningSec"@) == Some(
                    WireModel::Seconds(loop_running_sec.bits),
                )
                &&& value_of(q.body, "loopPauseSec"@) == Some(
                    WireModel::Seconds(loop_pause_sec.bits),
                )
                &&& has_key(q.body, "toy_id"@) <==> toy_id is Some
                &&& toy_id matches Some(id) ==> value_of(q.body, "toy_id"@) == Some(
                    WireModel::Text(id),
                )
            },
    {
        if self.looping_outcome(
            action,
            strength,
            time_sec,
            loop_running_sec,
            loop_pause_sec,
            toy_id,
            stop_previous,
        ) is Ok {
            let text = wire_action(action, clamped(action, strength));
            let timing = Some((loop_running_sec.bits, loop_pause_sec.bits));
            let e = command_envelope(text, time_sec.bits, stop_previous, toy_id, timing);
            lemma_command_envelope(text, time_sec.bits, stop_previous, toy_id, timing);
            lemma_value_of_has_key(e, "loopRunningSec"@);
            lemma_value_of_has_key(e, "loopPauseSec"@);
            lemma_value_of_has_key(e, "toy_id"@);
        }
    }

    /// Writes the URL of `endpoint` on the bridge.
    pub fn endpoint_url(&self, endpoint: &str) -> (r: String)
        ensures
            r@ == self.url(endpoint@),
    {
        let mut url = match self.scheme {
            Scheme::Http => String::from_str("http://"),
            Scheme::Https => String::from_str("https://"),
        };
        url.append(self.local_ip.as_str());
        url.append(":");
        let port = decimal_text(self.port as u64);
        url.append(port.as_str());
        url.append("/");
        url.append(endpoint);
        url
    }

    /// The request that carries `data` to `endpoint` on the bridge.
    fn request_to(&self, endpoint: &str, data: Payload) -> (r: Request)
        ensures
            r.url@ == self.url(endpoint@),
            r.body == data,
    {
        Request { url: self.endpoint_url(endpoint), body: data }
    }

    /// Writes the `action` member of a command.
    fn action_text(action: Action, strength: Strength) -> (r: String)
        ensures
            r@ == wire_action(action, strength@),
    {
        let mut text = action.to_string();
        text.append(":");
        let level = decimal_text(strength.level() as u64);
        text.append(level.as_str());
        text
    }

    /// The members that single and looping commands share: the five that
    /// every command has, then the toy's name where one is given.
    fn create_common_data(
        &self,
        action: String,
        time_sec: Seconds,
        toy_id: Option<String>,
        stop_previous: bool,
    ) -> (r: Payload)
        ensures
            r@ == common_members(action@, time_sec.bits, stop_previous) + toy_members(
                text_of(toy_id),
            ),
    {
        let mut data = Payload::new();
        data.push(String::from_str("command"), WireValue::Text(String::from_str("Function")));
        data.push(String::from_str("action"), WireValue::Text(action));
        data.push(String::from_str("timeSec"), WireValue::Seconds(time_sec));
        let stop: i64 = if stop_previous {
            1
        } else {
            0
        };
        data.push(String::from_str("stopPrevious"), WireValue::Integer(stop));
        data.push(String::from_str("apiVer"), WireValue::Integer(1));
        assert(data@ =~= common_members(action@, time_sec.bits, stop_previous));
        if let Some(id) = toy_id {
            data.push(String::from_str("toy_id"), WireValue::Text(id));
        }
        assert(data@ =~= common_members(action@, time_sec.bits, stop_previous) + toy_members(
            text_of(toy_id),
        ));
        data
    }

    /// The request for one run of `action` at `strength` for `time_sec`
    /// seconds (0 for no limit), on the toy `toy_id` or on every toy,
    /// stopping what ran before if `stop_previous`.
    ///
    /// The strength is fitted to the action: above the action's cap it
    /// becomes the cap. A strength below zero and a duration that is not a
    /// number are refused.
    pub fn single_function(
        &self,
        action: Action,
        strength: i32,
        time_sec: Seconds,
        toy_id: Option<String>,
        stop_previous: bool,
    ) -> (r: Result<Request, ValidationError>)
        ensures
            request_outcome(r) == self.single_outcome(
                action,
                strength as int,
                time_sec,
                text_of(toy_id),
                stop_previous,
            ),
            r matches Ok(q) ==> {
                &&& q.body.wf()
                &&& value_of(q.body@, "action"@) == Some(
                    WireModel::Text(wire_action(action, clamped(action, strength as int))),
                )
                &&& !has_key(q.body@, "loopRunningSec"@)
                &&& !has_key(q.body@, "loopPauseSec"@)
                &&& has_key(q.body@, "toy_id"@) <==> toy_id is Some
                &&& toy_id matches Some(id) ==> value_of(q.body@, "toy_id"@) == Some(
                    WireModel::Text(id@),
                )
            },
    {
        let level = match Strength::clamp(action, strength) {
            Ok(level) => level,
            Err(e) => {
                return Err(e);
            },
        };
        if !time_sec.is_finite() {
            return Err(ValidationError::NonFiniteSeconds);
        }
        let text = LovenseClient::action_text(action, level);
        let data = self.create_common_data(text, time_sec, toy_id, stop_previous);
        proof {
            assert(data@ =~= command_envelope(
                wire_action(action, clamped(action, strength as int)),
                time_sec.bits,
                stop_previous,
                text_of(toy_id),
                None,
            ));
            self.lemma_single_outcome(
                action,
                strength as int,
                time_sec,
                text_of(toy_id),
                stop_previous,
            );
        }
        Ok(self.request_to("command", data))
    }

    /// The request for `action` at `strength` in rounds: the toy runs for
    /// `loop_running_sec` seconds and pauses for `loop_pause_sec` seconds,
    /// over and over, for `time_sec` seconds in all (0 for no limit).
    ///
    /// The strength is fitted to the action as in `single_function`. A
    /// strength below zero, a duration that is not a number, and a loop
    /// duration below zero are refused.
    pub fn looping_function(
        &self,
        action: Action,
        strength: i32,
        time_sec: Seconds,
        loop_running_sec: Seconds,
        loop_pause_sec: Seconds,
        toy_id: Option<String>,
        stop_previous: bool,
    ) -> (r: Result<Request, ValidationError>)
        ensures
            request_outcome(r) == self.looping_outcome(
                action,
                strength as int,
                time_sec,
                loop_running_sec,
                loop_pause_sec,
                text_of(toy_id),
                stop_previous,
            ),
            r matches Ok(q) ==> {
                &&& q.body.wf()
                &&& value_of(q.body@, "action"@) == Some(
                    WireModel::Text(wire_action(action, clamped(action, strength as int))),
                )
                &&& value_of(q.body@, "loopRunningSec"@) == Some(
                    WireModel::Seconds(loop_running_sec.bits),
                )
                &&& value_of(q.body@, "loopPauseSec"@) == Some(
                    WireModel::Seconds(loop_pause_sec.bits),
                )
                &&& has_key(q.body@, "loopRunningSec"@)
                &&& has_key(q.body@, "loopPauseSec"@)
                &&& has_key(q.body@, "toy_id"@) <==> toy_id is Some
                &&& toy_id matches Some(id) ==> value_of(q.body@, "toy_id"@) == Some(
                    WireModel::Text(id@),
                )
            },
    {
        let level = match Strength::clamp(action, strength) {
            Ok(level) => level,
            Err(e) => {
                return Err(e);
            },
        };
        if !time_sec.is_finite() || !loop_running_sec.is_finite() || !loop_pause_sec.is_finite() {
            return Err(ValidationError::NonFiniteSeconds);
        }
        if loop_running_sec.is_negative() || loop_pause_sec.is_negative() {
            return Err(ValidationError::NegativeLoopSeconds);
        }
        let text = LovenseClient::action_text(action, level);
        let mut data = self.create_common_data(text, time_sec, toy_id, stop_previous);
        data.push(String::from_str("loopRunningSec"), WireValue::Seconds(loop_running_sec));
        data.push(String::from_str("loopPauseSec"), WireValue::Seconds(loop_pause_sec));
        proof {
            assert(data@ =~= command_envelope(
                wire_action(action, clamped(action, strength as int)),
                time_sec.bits,
                stop_previous,
                text_of(toy_id),
                Some((loop_running_sec.bits, loop_pause_sec.bits)),
            ));
            self.lemma_looping_outcome(
                action,
                strength as int,
                time_sec,
                loop_running_sec,
                loop_pause_sec,
                text_of(toy_id),
                stop_previous,
            );
        }
        Ok(self.request_to("command", data))
    }
}

/// One method for each action and shape of command.
impl LovenseClient {
    /// The request for one run of `Action::Vibrate`, as `single_function` makes
    /// it.
    pub fn single_vibrate(
        &self,
        strength: i32,
        time_sec: Seconds,
        toy_id: Option<String>,
        stop_previous: bool,
    ) -> (r: Result<Request, ValidationError>)
        ensures
            request_outcome(r) == self.single_outcome(
                Action::Vibrate,
                strength as int,
                time_sec,
                text_of(toy_id),
                stop_previous,
            ),
    {
        self.single_function(Action::Vibrate, strength, time_sec, toy_id, stop_previous)
    }

    /// The request for `Action::Vibrate` in rounds, as `looping_function` makes
    /// it.
    pub fn looping_vibrate(
        &self,
        strength: i32,
        time_sec: Seconds,
        loop_running_sec: Seconds,
        loop_pause_sec: Seconds,
        toy_id: Option<String>,
        stop_previous: bool,
    ) -> (r: Result<Request, ValidationError>)
        ensures
            request_outcome(r) == self.looping_outcome(
                Action::Vibrate,
                strength as int,
                time_sec,
                loop_running_sec,
                loop_pause_sec,
                text_of(toy_id),
                stop_previous,
            ),
    {
        self.looping_function(
            Action::Vibrate,
            strength,
            time_sec,
            loop_running_sec,
            loop_pause_sec,
            toy_id,
            stop_previous,
        )
    }

    /// The request for one run of `Action::Rotate`, as `single_function` makes
    /// it.
    pub fn single_rotate(
        &self,
        strength: i32,
        time_sec: Seconds,
        toy_id: Option<String>,
        stop_previous: bool,
    ) -> (r: Result<Request, ValidationError>)
        ensures
            request_outcome(r) == self.single_outcome(
                Action::Rotate,
                strength as int,
                time_sec,
                text_of(toy_id),
                stop_previous,
            ),
    {
        self.single_function(Action::Rotate, strength, time_sec, toy_id, stop_previous)
    }

    /// The request for `Action::Rotate` in rounds, as `looping_function` makes
    /// it.
    pub fn looping_rotate(
        &self,
        strength: i32,
        time_sec: Seconds,
        loop_running_sec: Seconds,
        loop_pause_sec: Seconds,
        toy_id: Option<String>,
        stop_previous: bool,
    ) -> (r: Result<Request, ValidationError>)
        ensures
            request_outcome(r) == self.looping_outcome(
                Action::Rotate,
                strength as int,
                time_sec,
                loop_running_sec,
                loop_pause_sec,
                text_of(toy_id),
                stop_previous,
            ),
    {
        self.looping_function(
            Action::Rotate,
            strength,
            time_sec,
            loop_running_sec,
            loop_pause_sec,
            toy_id,
            stop_previous,
        )
    }

    /// The request for one run of `Action::Pump`, as `single_function` makes
    /// it.
    pub fn single_pump(
        &self,
        strength: i32,
        time_sec: Seconds,
        toy_id: Option<String>,
        stop_previous: bool,
    ) -> (r: Result<Request, ValidationError>)
        ensures
            request_outcome(r) == self.single_outcome(
                Action::Pump,
                strength as int,
                time_sec,
                text_of(toy_id),
                stop_previous,
            ),
    {
        self.single_function(Action::Pump, strength, time_sec, toy_id, stop_previous)
    }

    /// The request for `Action::Pump` in rounds, as `looping_function` makes
    /// it.
    pub fn looping_pump(
        &self,
        strength: i32,
        time_sec: Seconds,
        loop_running_sec: Seconds,
        loop_pause_sec: Seconds,
        toy_id: Option<String>,
        stop_previous: bool,
    ) -> (r: Result<Request, ValidationError>)
        ensures
            request_outcome(r) == self.looping_outcome(
                Action::Pump,
                strength as int,
                time_sec,
                loop_running_sec,
                loop_pause_sec,
                text_of(toy_id),
                stop_previous,
            ),
    {
        self.looping_function(
            Action::Pump,
            strength,
            time_sec,
            loop_running_sec,
            loop_pause_sec,
            toy_id,
            stop_previous,
        )
    }

    /// The request for one run of `Action::Thrusting`, as `single_function` makes
    /// it.
    pub fn single_thrusting(
        &self,
        strength: i32,
        time_sec: Seconds,
        toy_id: Option<String>,
        stop_previous: bool,
    ) -> (r: Result<Request, ValidationError>)
        ensures
            request_outcome(r) == self.single_outcome(
                Action::Thrusting,
                strength as int,
                time_sec,
                text_of(toy_id),
                stop_previous,
            ),
    {
        self.single_function(Action::Thrusting, strength, time_sec, toy_id, stop_previous)
    }

    /// The request for `Action::Thrusting` in rounds, as `looping_function` makes
    /// it.
    pub fn looping_thrusting(
        &self,
        strength: i32,
        time_sec: Seconds,
        loop_running_sec: Seconds,
        loop_pause_sec: Seconds,
        toy_id: Option<String>,
        stop_previous: bool,
    ) -> (r: Result<Request, ValidationError>)
        ensures
            request_outcome(r) == self.looping_outcome(
                Action::Thrusting,
                strength as int,
                time_sec,
                loop_running_sec,
                loop_pause_sec,
                text_of(toy_id),
                stop_previous,
            ),
    {
        self.looping_function(
            Action::Thrusting,
            strength,
            time_sec,
            loop_running_sec,
            loop_pause_sec,
            toy_id,
            stop_previous,
        )
    }

    /// The request for one run of `Action::Fingering`, as `single_function` makes
    /// it.
    pub fn single_fingering(
        &self,
        strength: i32,
        time_sec: Seconds,
        toy_id: Option<String>,
        stop_previous: bool,
    ) -> (r: Result<Request, ValidationError>)
        ensures
            request_outcome(r) == self.single_outcome(
                Action::Fingering,
                strength as int,
                time_sec,
                text_of(toy_id),
                stop_previous,
            ),
    {
        self.single_function(Action::Fingering, strength, time_sec, toy_id, stop_previous)
    }

    /// The request for `Action::Fingering` in rounds, as `looping_function` makes
    /// it.
    pub fn looping_fingering(
        &self,
        strength: i32,
        time_sec: Seconds,
        loop_running_sec: Seconds,
        loop_pause_sec: Seconds,
        toy_id: Option<String>,
        stop_previous: bool,
    ) -> (r: Result<Request, ValidationError>)
        ensures
            request_outcome(r) == self.looping_outcome(
                Action::Fingering,
                strength as int,
                time_sec,
                loop_running_sec,
                loop_pause_sec,
                text_of(toy_id),
                stop_previous,
            ),
    {
        self.looping_function(
            Action::Fingering,
            strength,
            time_sec,
            loop_running_sec,
            loop_pause_sec,
            toy_id,
            stop_previous,
        )
    }

    /// The request for one run of `Action::Suction`, as `single_function` makes
    /// it.
    pub fn single_suction(
        &self,
        strength: i32,
        time_sec: Seconds,
        toy_id: Option<String>,
        stop_previous: bool,
    ) -> (r: Result<Request, ValidationError>)
        ensures
            request_outcome(r) == self.single_outcome(
                Action::Suction,
                strength as int,
                time_sec,
                text_of(toy_id),
                stop_previous,
            ),
    {
        self.single_function(Action::Suction, strength, time_sec, toy_id, stop_previous)
    }

    /// The request for `Action::Suction` in rounds, as `looping_function` makes
    /// it.
    pub fn looping_suction(
        &self,
        strength: i32,
        time_sec: Seconds,
        loop_running_sec: Seconds,
        loop_pause_sec: Seconds,
        toy_id: Option<String>,
        stop_previous: bool,
    ) -> (r: Result<Request, ValidationError>)
        ensures
            request_outcome(r) == self.looping_outcome(
                Action::Suction,
                strength as int,
                time_sec,
                loop_running_sec,
                loop_pause_sec,
                text_of(toy_id),
                stop_previous,
            ),
    {
        self.looping_function(
            Action::Suction,
            strength,
            time_sec,
            loop_running_sec,
            loop_pause_sec,
            toy_id,
            stop_previous,
        )
    }

    /// The request for one run of `Action::All`, as `single_function` makes
    /// it.
    pub fn single_all(
        &self,
        strength: i32,
        time_sec: Seconds,
        toy_id: Option<String>,
        stop_previous: bool,
    ) -> (r: Result<Request, ValidationError>)
        ensures
            request_outcome(r) == self.single_outcome(
                Action::All,
                strength as int,
                time_sec,
                text_of(toy_id),
                stop_previous,
            ),
    {
        self.single_function(Action::All, strength, time_sec, toy_id, stop_previous)
    }

    /// The request for `Action::All` in rounds, as `looping_function` makes
    /// it.
    pub fn looping_all(
        &self,
        strength: i32,
        time_sec: Seconds,
        loop_running_sec: Seconds,
        loop_pause_sec: Seconds,
        toy_id: Option<String>,
        stop_previous: bool,
    ) -> (r: Result<Request, ValidationError>)
        ensures
            request_outcome(r) == self.looping_outcome(
                Action::All,
                strength as int,
                time_sec,
                loop_running_sec,
                loop_pause_sec,
                text_of(toy_id),
                stop_previous,
            ),
    {
        self.looping_function(
            Action::All,
            strength,
            time_sec,
            loop_running_sec,
            loop_pause_sec,
            toy_id,
            stop_previous,
        )
    }
}

} // verus!
