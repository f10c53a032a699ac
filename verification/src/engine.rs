//! The event dispatch core: authorization and routing of chat commands,
//! status-change notification, and the effects each event produces.
//!
//! The engine owns only the last observed station status.  Each call of
//! [`Engine::step`] consumes one inbound event — a chat message, a telemetry
//! payload, or the shutdown signal — and returns the outbound effects the
//! surrounding transports must perform.  The engine itself never blocks,
//! never panics, and holds no transport state.

use vstd::prelude::*;

use crate::actuation::{build, encode, spec_build, spec_encode};
use crate::command::{parse_spec, Command, CommandView, Operation};
use crate::status::{observe, spec_observe, StationStatus};
use crate::telemetry::{decode_report, spec_decode, ReportView, TelemetryReport};
use crate::tristate::TriState;

verus! {

/// One inbound chat message: where it was said, by whom, and what was said.
#[derive(Clone, Debug)]
pub struct ChatMessageIn {
    pub room: String,
    pub sender: String,
    pub body: String,
}

/// The mathematical value of an inbound chat message.
pub ghost struct ChatMessageInView {
    pub room: Seq<char>,
    pub sender: Seq<char>,
    pub body: Seq<char>,
}

impl View for ChatMessageIn {
    type V = ChatMessageInView;

    open spec fn view(&self) -> ChatMessageInView {
        ChatMessageInView { room: self.room@, sender: self.sender@, body: self.body@ }
    }
}

/// One outbound chat message: the room to say it in and the markdown body.
#[derive(Clone, Debug, PartialEq)]
pub struct ChatMessageOut {
    pub room: String,
    pub body: String,
}

/// The mathematical value of an outbound chat message.
pub ghost struct ChatMessageOutView {
    pub room: Seq<char>,
    pub body: Seq<char>,
}

impl View for ChatMessageOut {
    type V = ChatMessageOutView;

    open spec fn view(&self) -> ChatMessageOutView {
        ChatMessageOutView { room: self.room@, body: self.body@ }
    }
}

/// The engine's configuration: which station it speaks for, the bot's own
/// chat identity, the rooms it watches, and who may issue privileged
/// operations.
#[derive(Clone, Debug)]
pub struct EngineConfig {
    pub station_name: String,
    pub bot_user: String,
    pub watched_rooms: Vec<String>,
    pub operators: Vec<String>,
}

/// The mathematical value of a configuration.
pub ghost struct ConfigView {
    pub station_name: Seq<char>,
    pub bot_user: Seq<char>,
    pub watched_rooms: Seq<Seq<char>>,
    pub operators: Seq<Seq<char>>,
}

impl View for EngineConfig {
    type V = ConfigView;

    open spec fn view(&self) -> ConfigView {
        ConfigView {
            station_name: self.station_name@,
            bot_user: self.bot_user@,
            watched_rooms: self.watched_rooms.deep_view(),
            operators: self.operators.deep_view(),
        }
    }
}

/// Why an inbound chat message was dropped without a reply.
#[derive(Clone, Copy, Debug, PartialEq, Eq, Structural)]
pub enum DropReason {
    /// The body does not start with the command marker.
    NotACommand,
    /// The message was said in a room the engine does not watch.
    UnwatchedRoom,
    /// The message was sent by the bot itself.
    OwnMessage,
    /// The command addresses another station.
    StationMismatch,
    /// An operator-only operation came from a sender who is no operator.
    NotAuthorized,
}

/// What the authorization filter decides for one inbound chat message.
#[derive(Clone, Debug)]
pub enum RouteDecision {
    /// Ignore the message silently.
    Drop(DropReason),
    /// Dispatch the command.
    RouteCommand(Command),
    /// Reply with a usage hint to the sender.
    RespondWithUsageError,
}

/// The mathematical value of a routing decision.
pub ghost enum RouteDecisionView {
    Drop(DropReason),
    RouteCommand(CommandView),
    RespondWithUsageError,
}

impl View for RouteDecision {
    type V = RouteDecisionView;

    open spec fn view(&self) -> RouteDecisionView {
        match self {
            RouteDecision::Drop(r) => RouteDecisionView::Drop(*r),
            RouteDecision::RouteCommand(c) => RouteDecisionView::RouteCommand(c@),
            RouteDecision::RespondWithUsageError => RouteDecisionView::RespondWithUsageError,
        }
    }
}

/// What the filter decides, in order: a body without the marker, a message in
/// an unwatched room and the bot's own messages are dropped silently before
/// anything is parsed; a body that fails to parse earns a usage reply; a
/// command for another station is dropped silently; an operator-only
/// operation from a non-operator is dropped silently; everything else is
/// routed.
pub open spec fn spec_authorize(msg: ChatMessageInView, cfg: ConfigView) -> RouteDecisionView {
    if !(msg.body.len() > 0 && msg.body[0] == '!') {
        RouteDecisionView::Drop(DropReason::NotACommand)
    } else if !cfg.watched_rooms.contains(msg.room) {
        RouteDecisionView::Drop(DropReason::UnwatchedRoom)
    } else if msg.sender == cfg.bot_user {
        RouteDecisionView::Drop(DropReason::OwnMessage)
    } else {
        match parse_spec(msg.body) {
            Err(_) => RouteDecisionView::RespondWithUsageError,
            Ok(cmd) => {
                if cmd.station_name != cfg.station_name {
                    RouteDecisionView::Drop(DropReason::StationMismatch)
                } else if cmd.op.spec_is_operator_only() && !cfg.operators.contains(msg.sender) {
                    RouteDecisionView::Drop(DropReason::NotAuthorized)
                } else {
                    RouteDecisionView::RouteCommand(cmd)
                }
            },
        }
    }
}

/// Whether one of the strings of `list` holds exactly the characters of `x`.
fn contains_string(list: &Vec<String>, x: &String) -> (r: bool)
    ensures
        r == list.deep_view().contains(x@),
{
    let mut j: usize = 0;
    while j < list.len()
        invariant
            j <= list@.len(),
            forall|k: int| 0 <= k < j ==> list@[k]@ != x@,
        decreases list@.len() - j,
    {
        if list[j] == *x {
            assert(list.deep_view()[j as int] == x@);
            return true;
        }
        j = j + 1;
    }
    assert forall|k: int| 0 <= k < list.deep_view().len() implies list.deep_view()[k] != x@ by {
        assert(list.deep_view()[k] == list@[k]@);
    }
    false
}

/// Applies the authorization and routing policy to one inbound message,
/// exactly per [`spec_authorize`].
pub fn authorize(msg: &ChatMessageIn, cfg: &EngineConfig) -> (r: RouteDecision)
    ensures
        r@ == spec_authorize(msg@, cfg@),
{
    if msg.body.as_str().is_empty() || msg.body.as_str().get_char(0) != '!' {
        return RouteDecision::Drop(DropReason::NotACommand);
    }
    if !contains_string(&cfg.watched_rooms, &msg.room) {
        return RouteDecision::Drop(DropReason::UnwatchedRoom);
    }
    if msg.sender == cfg.bot_user {
        return RouteDecision::Drop(DropReason::OwnMessage);
    }
    match Command::try_from(msg.body.clone()) {
        Err(_) => RouteDecision::RespondWithUsageError,
        Ok(cmd) => {
            if !(cmd.station_name == cfg.station_name) {
                RouteDecision::Drop(DropReason::StationMismatch)
            } else if cmd.op.is_operator_only() && !contains_string(&cfg.operators, &msg.sender) {
                RouteDecision::Drop(DropReason::NotAuthorized)
            } else {
                RouteDecision::RouteCommand(cmd)
            }
        },
    }
}

/// An operator-only operation is never routed for a sender outside the
/// operator set, whatever the message or the rest of the configuration.
pub proof fn lemma_operator_only_needs_privilege(msg: ChatMessageInView, cfg: ConfigView)
    requires
        !cfg.operators.contains(msg.sender),
        forall|cmd: CommandView|
            parse_spec(msg.body) == Ok::<CommandView, crate::command::ParseError>(cmd)
                ==> cmd.op.spec_is_operator_only(),
    ensures
        !(spec_authorize(msg, cfg) is RouteCommand),
{
}

/// One inbound event for the dispatch core.
#[derive(Clone, Debug)]
pub enum Event {
    /// A chat message arrived in some room.
    ChatMessage(ChatMessageIn),
    /// A raw telemetry payload arrived.
    Telemetry(String),
    /// The process is shutting down.
    Shutdown,
}

/// The mathematical value of an inbound event.
pub ghost enum EventView {
    ChatMessage(ChatMessageInView),
    Telemetry(Seq<char>),
    Shutdown,
}

impl View for Event {
    type V = EventView;

    open spec fn view(&self) -> EventView {
        match self {
            Event::ChatMessage(m) => EventView::ChatMessage(m@),
            Event::Telemetry(p) => EventView::Telemetry(p@),
            Event::Shutdown => EventView::Shutdown,
        }
    }
}

/// One outbound effect the surrounding transports must perform.
#[derive(Clone, Debug)]
pub enum Effect {
    /// Send a chat message.
    SendChat(ChatMessageOut),
    /// Publish an actuation payload on the telemetry channel.
    PublishActuation(String),
}

/// The mathematical value of an outbound effect.
pub ghost enum EffectView {
    SendChat(ChatMessageOutView),
    PublishActuation(Seq<char>),
}

impl View for Effect {
    type V = EffectView;

    open spec fn view(&self) -> EffectView {
        match self {
            Effect::SendChat(m) => EffectView::SendChat(m@),
            Effect::PublishActuation(p) => EffectView::PublishActuation(p@),
        }
    }
}

impl DeepView for Effect {
    type V = EffectView;

    open spec fn deep_view(&self) -> EffectView {
        self@
    }
}

/// The word a tri-state enablement renders as in a notification.
pub open spec fn enabled_word(t: TriState) -> Seq<char> {
    match t {
        TriState::True => "ENABLED"@,
        TriState::False => "DISABLED"@,
        TriState::Unknown => "unknown"@,
    }
}

/// The word a tri-state power activity renders as in a notification.
pub open spec fn active_word(t: TriState) -> Seq<char> {
    match t {
        TriState::True => "ON"@,
        TriState::False => "OFF"@,
        TriState::Unknown => "unknown"@,
    }
}

/// The word a tri-state PTT activity renders as in a notification.
pub open spec fn ptt_word(t: TriState) -> Seq<char> {
    match t {
        TriState::True => "ON AIR"@,
        TriState::False => "IDLE"@,
        TriState::Unknown => "unknown"@,
    }
}

/// The reply sent for a body that starts with the marker but fails to parse.
pub open spec fn usage_error_text(sender: Seq<char>, station: Seq<char>) -> Seq<char> {
    sender + ": That command failed, try `!"@ + station + " help` for usage details"@
}

/// The names of `rs` from `i` on, joined with a comma and a space.
pub open spec fn joined_names(rs: Seq<Seq<char>>, i: int) -> Seq<char>
    decreases rs.len() - i,
{
    if i < 0 || i >= rs.len() {
        Seq::empty()
    } else if i == rs.len() - 1 {
        rs[i]
    } else {
        rs[i] + ", "@ + joined_names(rs, i + 1)
    }
}

/// The usage notification `help` earns: the station, the grammar, and the
/// operator list when one is configured.
pub open spec fn help_text(cfg: ConfigView) -> Seq<char> {
    let base = "Remote station control for **"@ + cfg.station_name + "**.<br>\nUsage: !"@
        + cfg.station_name
        + " COMMAND<br>\nCommands: help, shutdown, power on, power off, ptt enable, ptt disable"@;
    if cfg.operators.len() > 0 {
        base + "<br>\nOperators: "@ + joined_names(cfg.operators, 0)
    } else {
        base
    }
}

/// The notification sent when the station status changes.
pub open spec fn status_text(station: Seq<char>, rep: ReportView) -> Seq<char> {
    "**"@ + station + "** at "@ + rep.timestamp + "<br>\nTX Power: ["@ + enabled_word(
        rep.status.tx_power_enabled,
    ) + "] ["@ + active_word(rep.status.tx_power_active) + "]<br>\nPTT: ["@ + enabled_word(
        rep.status.ptt_enabled,
    ) + "] ["@ + ptt_word(rep.status.ptt_active) + "]"@
}

/// The notification sent for a one-shot message in a report.
pub open spec fn message_text(station: Seq<char>, timestamp: Seq<char>, m: Seq<char>) -> Seq<char> {
    "**"@ + station + "** at "@ + timestamp + "<br>\nMessage: "@ + m
}

/// One chat send per room, all with the same body, in room order.
pub open spec fn spec_fan_out(rooms: Seq<Seq<char>>, body: Seq<char>) -> Seq<EffectView> {
    rooms.map_values(
        |r: Seq<char>| EffectView::SendChat(ChatMessageOutView { room: r, body: body }),
    )
}

/// The word a tri-state enablement renders as.
fn enabled_str(t: TriState) -> (r: &'static str)
    ensures
        r@ == enabled_word(t),
{
    match t {
        TriState::True => "ENABLED",
        TriState::False => "DISABLED",
        TriState::Unknown => "unknown",
    }
}

/// The word a tri-state power activity renders as.
fn active_str(t: TriState) -> (r: &'static str)
    ensures
        r@ == active_word(t),
{
    match t {
        TriState::True => "ON",
        TriState::False => "OFF",
        TriState::Unknown => "unknown",
    }
}

/// The word a tri-state PTT activity renders as.
fn ptt_str(t: TriState) -> (r: &'static str)
    ensures
        r@ == ptt_word(t),
{
    match t {
        TriState::True => "ON AIR",
        TriState::False => "IDLE",
        TriState::Unknown => "unknown",
    }
}

/// Builds the usage-error reply.
fn build_usage_error(sender: &str, station: &str) -> (r: String)
    ensures
        r@ == usage_error_text(sender@, station@),
{
    let mut s = String::from_str(sender);
    s.append(": That command failed, try `!");
    s.append(station);
    s.append(" help` for usage details");
    s
}

/// Builds the comma-joined name list.
fn build_joined_names(rs: &Vec<String>) -> (r: String)
    ensures
        r@ == joined_names(rs.deep_view(), 0),
{
    let mut r = String::new();
    let mut i = rs.len();
    assert(r@ =~= joined_names(rs.deep_view(), i as int));
    while i > 0
        invariant
            i <= rs@.len(),
            r@ == joined_names(rs.deep_view(), i as int),
        decreases i,
    {
        i = i - 1;
        let mut t = String::from_str(rs[i].as_str());
        if i + 1 < rs.len() {
            t.append(", ");
        }
        t.append(r.as_str());
        r = t;
        assert(rs.deep_view()[i as int] == rs@[i as int]@);
    }
    r
}

/// Builds the `help` usage notification.
fn build_help(cfg: &EngineConfig) -> (r: String)
    ensures
        r@ == help_text(cfg@),
{
    let mut s = String::from_str("Remote station control for **");
    s.append(cfg.station_name.as_str());
    s.append("**.<br>\nUsage: !");
    s.append(cfg.station_name.as_str());
    s.append(" COMMAND<br>\nCommands: help, shutdown, power on, power off, ptt enable, ptt disable");
    if cfg.operators.len() > 0 {
        s.append("<br>\nOperators: ");
        let names = build_joined_names(&cfg.operators);
        s.append(names.as_str());
    }
    s
}

/// Builds the status-change notification.
fn build_status_text(station: &str, rep: &TelemetryReport) -> (r: String)
    ensures
        r@ == status_text(station@, rep@),
{
    let mut s = String::from_str("**");
    s.append(station);
    s.append("** at ");
    s.append(rep.timestamp.as_str());
    s.append("<br>\nTX Power: [");
    s.append(enabled_str(rep.status.tx_power_enabled));
    s.append("] [");
    s.append(active_str(rep.status.tx_power_active));
    s.append("]<br>\nPTT: [");
    s.append(enabled_str(rep.status.ptt_enabled));
    s.append("] [");
    s.append(ptt_str(rep.status.ptt_active));
    s.append("]");
    s
}

/// Builds the one-shot message notification.
fn build_message_text(station: &str, timestamp: &str, m: &str) -> (r: String)
    ensures
        r@ == message_text(station@, timestamp@, m@),
{
    let mut s = String::from_str("**");
    s.append(station);
    s.append("** at ");
    s.append(timestamp);
    s.append("<br>\nMessage: ");
    s.append(m);
    s
}

/// Builds one chat send per watched room, all with the same body.
fn fan_out(rooms: &Vec<String>, body: &String) -> (effs: Vec<Effect>)
    ensures
        effs.deep_view() == spec_fan_out(rooms.deep_view(), body@),
{
    let mut effs: Vec<Effect> = Vec::new();
    let mut i: usize = 0;
    while i < rooms.len()
        invariant
            i <= rooms@.len(),
            effs@.len() == i,
            forall|j: int|
                0 <= j < i ==> (#[trigger] effs@[j])@ == EffectView::SendChat(
                    ChatMessageOutView { room: rooms@[j]@, body: body@ },
                ),
        decreases rooms@.len() - i,
    {
        let room_c = rooms[i].clone();
        let body_c = body.clone();
        assert(room_c@ == rooms@[i as int]@);
        assert(body_c@ == body@);
        effs.push(Effect::SendChat(ChatMessageOut { room: room_c, body: body_c }));
        i = i + 1;
    }
    assert forall|j: int| 0 <= j < rooms@.len() implies effs.deep_view()[j] == spec_fan_out(
        rooms.deep_view(),
        body@,
    )[j] by {
        assert(effs.deep_view()[j] == effs@[j]@);
        assert(rooms.deep_view()[j] == rooms@[j]@);
    }
    assert(effs.deep_view() =~~= spec_fan_out(rooms.deep_view(), body@));
    effs
}

/// The engine's whole state: its configuration and the last observed status.
pub struct Engine {
    pub config: EngineConfig,
    pub current_status: StationStatus,
}

/// The mathematical value of the engine's state.
pub ghost struct EngineView {
    pub config: ConfigView,
    pub current_status: StationStatus,
}

impl View for Engine {
    type V = EngineView;

    open spec fn view(&self) -> EngineView {
        EngineView { config: self.config@, current_status: self.current_status }
    }
}

/// What one step returns: the effects to perform, and whether the engine is
/// done and the loop must stop.
pub struct StepOutcome {
    pub effects: Vec<Effect>,
    pub done: bool,
}

/// The mathematical value of one step: the state afterwards, the effects in
/// order, and whether the engine is done.
pub ghost struct StepModel {
    pub engine: EngineView,
    pub effects: Seq<EffectView>,
    pub done: bool,
}

/// What one step does.  A shutdown signal stops the engine with no effects.
/// A chat message runs the authorization filter: a routed `help` earns one
/// usage notification back to its room, any other routed operation earns one
/// actuation publish, a malformed command earns one usage-error reply, and a
/// dropped message earns nothing.  A telemetry payload that decodes is
/// diffed: a changed status is stored and notified to every watched room, a
/// one-shot message is notified to every watched room regardless; a payload
/// that does not decode is dropped.
pub open spec fn spec_step(e: EngineView, ev: EventView) -> StepModel {
    match ev {
        EventView::Shutdown => StepModel { engine: e, effects: Seq::empty(), done: true },
        EventView::ChatMessage(m) => StepModel {
            engine: e,
            effects: match spec_authorize(m, e.config) {
                RouteDecisionView::Drop(_) => Seq::empty(),
                RouteDecisionView::RespondWithUsageError => seq![
                    EffectView::SendChat(
                        ChatMessageOutView {
                            room: m.room,
                            body: usage_error_text(m.sender, e.config.station_name),
                        },
                    ),
                ],
                RouteDecisionView::RouteCommand(cmd) => match cmd.op {
                    Operation::Help => seq![
                        EffectView::SendChat(
                            ChatMessageOutView { room: m.room, body: help_text(e.config) },
                        ),
                    ],
                    _ => seq![
                        EffectView::PublishActuation(spec_encode(spec_build(cmd.op)->Some_0)),
                    ],
                },
            },
            done: false,
        },
        EventView::Telemetry(p) => match spec_decode(p) {
            None => StepModel { engine: e, effects: Seq::empty(), done: false },
            Some(rep) => {
                let o = spec_observe(e.current_status, rep.status);
                StepModel {
                    engine: EngineView { config: e.config, current_status: o.0 },
                    effects: (if o.1 {
                        spec_fan_out(
                            e.config.watched_rooms,
                            status_text(e.config.station_name, rep),
                        )
                    } else {
                        Seq::empty()
                    }) + (match rep.message {
                        Some(m) => spec_fan_out(
                            e.config.watched_rooms,
                            message_text(e.config.station_name, rep.timestamp, m),
                        ),
                        None => Seq::empty(),
                    }),
                    done: false,
                }
            },
        },
    }
}

/// A dropped chat message is silent: it produces no effects at all and
/// leaves the engine unchanged.  In particular an operator-only command from
/// a non-operator neither publishes an actuation nor earns any reply.
pub proof fn lemma_dropped_message_is_silent(e: EngineView, m: ChatMessageInView)
    requires
        spec_authorize(m, e.config) is Drop,
    ensures
        spec_step(e, EventView::ChatMessage(m)).effects == Seq::<EffectView>::empty(),
        spec_step(e, EventView::ChatMessage(m)).engine == e,
{
}

/// A decodable telemetry payload without a one-shot message notifies at most
/// once: fed a second time to the engine the first step left behind, it
/// produces nothing.
pub proof fn lemma_repeated_telemetry_not_renotified(e: EngineView, p: Seq<char>)
    requires
        spec_decode(p) is Some,
        spec_decode(p)->Some_0.message is None,
    ensures
        ({
            let first = spec_step(e, EventView::Telemetry(p));
            spec_step(first.engine, EventView::Telemetry(p)).effects
                == Seq::<EffectView>::empty()
        }),
{
    let rep = spec_decode(p)->Some_0;
    let first = spec_step(e, EventView::Telemetry(p));
    assert(first.engine.current_status == rep.status);
    assert(spec_observe(first.engine.current_status, rep.status).1 == false);
    assert(Seq::<EffectView>::empty() + Seq::<EffectView>::empty()
        =~= Seq::<EffectView>::empty());
}

/// The stored status moves only on a telemetry payload that decodes: no chat
/// message, shutdown signal or malformed payload ever touches it, and the
/// configuration never changes at all.
pub proof fn lemma_status_changes_only_on_decoded_telemetry(e: EngineView, ev: EventView)
    requires
        spec_step(e, ev).engine != e,
    ensures
        ev is Telemetry,
        spec_decode(ev->Telemetry_0) is Some,
        spec_step(e, ev).engine.config == e.config,
{
}

impl Engine {
    /// A fresh engine: the given configuration and an all-unknown status.
    pub fn new(config: EngineConfig) -> (e: Engine)
        ensures
            e@.config == config@,
            e@.current_status == StationStatus::spec_initial(),
    {
        Engine { config, current_status: StationStatus::initial() }
    }

    /// Consumes one inbound event and returns the effects it produces,
    /// exactly per [`spec_step`].
    pub fn step(&mut self, event: Event) -> (r: StepOutcome)
        ensures
            ({
                let m = spec_step(old(self)@, event@);
                &&& final (self)@ == m.engine
                &&& r.effects.deep_view() == m.effects
                &&& r.done == m.done
            }),
    {
        let ghost m = spec_step(self@, event@);
        match event {
            Event::Shutdown => {
                let effects: Vec<Effect> = Vec::new();
                assert(effects.deep_view() =~~= m.effects);
                StepOutcome { effects, done: true }
            },
            Event::ChatMessage(msg) => {
                let decision = authorize(&msg, &self.config);
                match decision {
                    RouteDecision::Drop(_) => {
                        let effects: Vec<Effect> = Vec::new();
                        assert(effects.deep_view() =~~= m.effects);
                        StepOutcome { effects, done: false }
                    },
                    RouteDecision::RespondWithUsageError => {
                        let body = build_usage_error(
                            msg.sender.as_str(),
                            self.config.station_name.as_str(),
                        );
                        let mut effects: Vec<Effect> = Vec::new();
                        effects.push(Effect::SendChat(ChatMessageOut { room: msg.room, body }));
                        assert(effects.deep_view() =~~= m.effects);
                        StepOutcome { effects, done: false }
                    },
                    RouteDecision::RouteCommand(cmd) => {
                        let mut effects: Vec<Effect> = Vec::new();
                        match cmd.op {
                            Operation::Help => {
                                let body = build_help(&self.config);
                                effects.push(
                                    Effect::SendChat(ChatMessageOut { room: msg.room, body }),
                                );
                            },
                            _ => {
                                let payload = encode(&build(cmd.op));
                                effects.push(Effect::PublishActuation(payload));
                            },
                        }
                        assert(effects.deep_view() =~~= m.effects);
                        StepOutcome { effects, done: false }
                    },
                }
            },
            Event::Telemetry(p) => {
                match decode_report(p.as_str()) {
                    Err(_) => {
                        let effects: Vec<Effect> = Vec::new();
                        assert(effects.deep_view() =~~= m.effects);
                        StepOutcome { effects, done: false }
                    },
                    Ok(rep) => {
                        let ob = observe(self.current_status, rep.status);
                        self.current_status = ob.0;
                        let mut effects: Vec<Effect>;
                        if ob.1 {
                            let body = build_status_text(self.config.station_name.as_str(), &rep);
                            effects = fan_out(&self.config.watched_rooms, &body);
                        } else {
                            effects = Vec::new();
                            assert(effects.deep_view() =~~= Seq::<EffectView>::empty());
                        }
                        match &rep.message {
                            Some(one_shot) => {
                                let body = build_message_text(
                                    self.config.station_name.as_str(),
                                    rep.timestamp.as_str(),
                                    one_shot.as_str(),
                                );
                                let mut more = fan_out(&self.config.watched_rooms, &body);
                                let ghost e1 = effects.deep_view();
                                let ghost e2 = more.deep_view();
                                effects.append(&mut more);
                                assert(effects.deep_view() =~~= e1 + e2);
                            },
                            None => {
                                assert(effects.deep_view() =~~= effects.deep_view()
                                    + Seq::<EffectView>::empty());
                            },
                        }
                        assert(effects.deep_view() =~~= m.effects);
                        StepOutcome { effects, done: false }
                    },
                }
            },
        }
    }
}

} // verus!
