use remote_closedown::engine::{
    authorize, ChatMessageIn, DropReason, Effect, Engine, EngineConfig, Event, RouteDecision,
};
use remote_closedown::command::Operation;

fn config() -> EngineConfig {
    EngineConfig {
        station_name: "mb7pmf".to_string(),
        bot_user: "@bot:example.org".to_string(),
        watched_rooms: vec![
            "!room1:example.org".to_string(),
            "!room2:example.org".to_string(),
        ],
        operators: vec!["@op:example.org".to_string()],
    }
}

fn chat(room: &str, sender: &str, body: &str) -> Event {
    Event::ChatMessage(ChatMessageIn {
        room: room.to_string(),
        sender: sender.to_string(),
        body: body.to_string(),
    })
}

const TELEMETRY: &str = "{\"status\":{\"tx_power_enabled\":true,\"tx_power_active\":null,\
                        \"ptt_enabled\":null,\"ptt_active\":null},\"message\":null,\
                        \"timestamp\":\"2024-01-01T00:00:00Z\"}";

#[test]
fn operator_power_on_publishes_actuation() {
    let mut engine = Engine::new(config());
    let out = engine.step(chat("!room1:example.org", "@op:example.org", "!mb7pmf power on"));
    assert!(!out.done);
    assert_eq!(out.effects.len(), 1);
    match &out.effects[0] {
        Effect::PublishActuation(payload) => {
            assert_eq!(payload, "{\"enable_tx_power\":true,\"enable_ptt\":null}");
        }
        other => panic!("expected a publish, got {:?}", other),
    }
}

#[test]
fn status_change_notifies_every_room_once() {
    let mut engine = Engine::new(config());
    let out = engine.step(Event::Telemetry(TELEMETRY.to_string()));
    assert_eq!(out.effects.len(), 2);
    let expected_body = "**mb7pmf** at 2024-01-01T00:00:00Z<br>\n\
                         TX Power: [ENABLED] [unknown]<br>\n\
                         PTT: [unknown] [unknown]";
    let rooms = ["!room1:example.org", "!room2:example.org"];
    for (effect, room) in out.effects.iter().zip(rooms.iter()) {
        match effect {
            Effect::SendChat(msg) => {
                assert_eq!(msg.room, *room);
                assert_eq!(msg.body, expected_body);
            }
            other => panic!("expected a chat send, got {:?}", other),
        }
    }
    // the same payload again changes nothing and stays silent
    let again = engine.step(Event::Telemetry(TELEMETRY.to_string()));
    assert_eq!(again.effects.len(), 0);
}

#[test]
fn one_shot_message_notifies_regardless_of_status() {
    let mut engine = Engine::new(config());
    // first observe a status, so the next payload changes nothing
    let _ = engine.step(Event::Telemetry(TELEMETRY.to_string()));
    let with_message = "{\"status\":{\"tx_power_enabled\":true,\"tx_power_active\":null,\
                       \"ptt_enabled\":null,\"ptt_active\":null},\"message\":\"QRT soon\",\
                       \"timestamp\":\"2024-01-01T00:05:00Z\"}";
    let out = engine.step(Event::Telemetry(with_message.to_string()));
    // status unchanged: only the message fan-out, one send per room
    assert_eq!(out.effects.len(), 2);
    let expected_body = "**mb7pmf** at 2024-01-01T00:05:00Z<br>\nMessage: QRT soon";
    for effect in &out.effects {
        match effect {
            Effect::SendChat(msg) => assert_eq!(msg.body, expected_body),
            other => panic!("expected a chat send, got {:?}", other),
        }
    }
}

#[test]
fn malformed_telemetry_is_dropped() {
    let mut engine = Engine::new(config());
    let out = engine.step(Event::Telemetry("not json".to_string()));
    assert_eq!(out.effects.len(), 0);
    assert!(!out.done);
}

#[test]
fn non_operator_power_on_is_silent() {
    let mut engine = Engine::new(config());
    let out = engine.step(chat("!room1:example.org", "@user:example.org", "!mb7pmf power on"));
    assert_eq!(out.effects.len(), 0);
    assert!(!out.done);
}

#[test]
fn non_operator_may_ask_for_help() {
    let cfg = config();
    let msg = ChatMessageIn {
        room: "!room1:example.org".to_string(),
        sender: "@user:example.org".to_string(),
        body: "!mb7pmf help".to_string(),
    };
    match authorize(&msg, &cfg) {
        RouteDecision::RouteCommand(cmd) => assert_eq!(cmd.op, Operation::Help),
        other => panic!("expected the command to be routed, got {:?}", other),
    }
    let shutdown = ChatMessageIn {
        body: "!mb7pmf shutdown".to_string(),
        ..msg
    };
    assert!(matches!(authorize(&shutdown, &cfg), RouteDecision::Drop(_)));
}

#[test]
fn help_reply_names_station_and_operators() {
    let mut engine = Engine::new(config());
    let out = engine.step(chat("!room2:example.org", "@user:example.org", "!mb7pmf help"));
    assert_eq!(out.effects.len(), 1);
    match &out.effects[0] {
        Effect::SendChat(msg) => {
            assert_eq!(msg.room, "!room2:example.org");
            assert_eq!(
                msg.body,
                "Remote station control for **mb7pmf**.<br>\n\
                 Usage: !mb7pmf COMMAND<br>\n\
                 Commands: help, shutdown, power on, power off, ptt enable, ptt disable<br>\n\
                 Operators: @op:example.org"
            );
        }
        other => panic!("expected a chat send, got {:?}", other),
    }
}

#[test]
fn malformed_command_earns_one_usage_reply() {
    let mut engine = Engine::new(config());
    let out = engine.step(chat("!room1:example.org", "@user:example.org", "!mb7pmf flergle"));
    assert_eq!(out.effects.len(), 1);
    match &out.effects[0] {
        Effect::SendChat(msg) => {
            assert_eq!(msg.room, "!room1:example.org");
            assert_eq!(
                msg.body,
                "@user:example.org: That command failed, try `!mb7pmf help` for usage details"
            );
        }
        other => panic!("expected a chat send, got {:?}", other),
    }
}

#[test]
fn silent_filters_run_before_any_reply() {
    let mut engine = Engine::new(config());
    // no marker: silence, even though the room is watched
    let out = engine.step(chat("!room1:example.org", "@user:example.org", "hello there"));
    assert_eq!(out.effects.len(), 0);
    // unwatched room: silence, even for a malformed command
    let out = engine.step(chat("!elsewhere:example.org", "@user:example.org", "!mb7pmf flergle"));
    assert_eq!(out.effects.len(), 0);
    // the bot's own message: silence
    let out = engine.step(chat("!room1:example.org", "@bot:example.org", "!mb7pmf power on"));
    assert_eq!(out.effects.len(), 0);
    // another station's command: silence
    let out = engine.step(chat("!room1:example.org", "@op:example.org", "!gb3xyz power on"));
    assert_eq!(out.effects.len(), 0);
}

#[test]
fn filter_checks_run_in_order() {
    let cfg = config();
    // the marker check comes first: an unwatched room without a marker is
    // still "not a command"
    let msg = ChatMessageIn {
        room: "!elsewhere:example.org".to_string(),
        sender: "@user:example.org".to_string(),
        body: "hello".to_string(),
    };
    assert!(matches!(
        authorize(&msg, &cfg),
        RouteDecision::Drop(DropReason::NotACommand)
    ));
    // then the room check, before anything is parsed
    let msg = ChatMessageIn {
        body: "!mb7pmf flergle".to_string(),
        ..msg
    };
    assert!(matches!(
        authorize(&msg, &cfg),
        RouteDecision::Drop(DropReason::UnwatchedRoom)
    ));
    // then the self check
    let msg = ChatMessageIn {
        room: "!room1:example.org".to_string(),
        sender: "@bot:example.org".to_string(),
        body: "!mb7pmf help".to_string(),
    };
    assert!(matches!(
        authorize(&msg, &cfg),
        RouteDecision::Drop(DropReason::OwnMessage)
    ));
}

#[test]
fn malformed_command_replies_before_station_is_known() {
    // a body that fails to parse earns a usage reply even if it seems to
    // address another station: the station name is only known once parsing
    // succeeds
    let mut engine = Engine::new(config());
    let out = engine.step(chat("!room1:example.org", "@user:example.org", "!gb3xyz flergle"));
    assert_eq!(out.effects.len(), 1);
    assert!(matches!(&out.effects[0], Effect::SendChat(_)));
}

#[test]
fn shutdown_signal_stops_the_engine() {
    let mut engine = Engine::new(config());
    let out = engine.step(Event::Shutdown);
    assert!(out.done);
    assert_eq!(out.effects.len(), 0);
}
