use lovense_rust::action::Action;
use lovense_rust::client::{LovenseClient, Scheme};
use lovense_rust::error::{ConfigurationError, SendError, ValidationError};
use lovense_rust::payload::{Payload, WireValue};
use lovense_rust::request::{acknowledge, Ack, Delivery, Request};
use lovense_rust::seconds::Seconds;

fn secs(x: f64) -> Seconds {
    Seconds::from_bits(x.to_bits())
}

fn text(s: &str) -> WireValue {
    WireValue::Text(s.to_string())
}

fn keys(body: &Payload) -> Vec<String> {
    body.members().iter().map(|m| m.0.clone()).collect()
}

fn action_of(request: &Request) -> String {
    match request.body.get("action") {
        Some(WireValue::Text(s)) => s.clone(),
        other => panic!("no action member: {:?}", other),
    }
}

#[test]
fn test_vibrate() {
    let client = LovenseClient::new("192.168.0.92", 20010);
    let request = client.single_vibrate(8, secs(20.0), None, true).expect("Failed to vibrate");
    assert_eq!(request.url, "https://192.168.0.92:20010/command");
    assert_eq!(action_of(&request), "Vibrate:8");
}

#[test]
fn single_vibrate_above_the_cap_is_sent_as_twenty() {
    let client = LovenseClient::new("192.168.0.92", 20010);
    let request = client.single_function(Action::Vibrate, 25, secs(20.0), None, true).unwrap();
    assert_eq!(action_of(&request), "Vibrate:20");
    assert_eq!(
        request.body.members().clone(),
        vec![
            ("command".to_string(), text("Function")),
            ("action".to_string(), text("Vibrate:20")),
            ("timeSec".to_string(), WireValue::Seconds(secs(20.0))),
            ("stopPrevious".to_string(), WireValue::Integer(1)),
            ("apiVer".to_string(), WireValue::Integer(1)),
        ]
    );
}

#[test]
fn single_pump_above_the_cap_is_sent_as_three() {
    let client = LovenseClient::new_http("10.0.0.7", 30010);
    let request = client.single_function(Action::Pump, 25, secs(5.0), None, false).unwrap();
    assert_eq!(action_of(&request), "Pump:3");
    assert_eq!(request.body.get("stopPrevious"), Some(&WireValue::Integer(0)));
}

#[test]
fn strength_within_the_cap_is_sent_as_given() {
    let client = LovenseClient::new("h", 1);
    let actions = [
        (Action::Vibrate, "Vibrate"),
        (Action::Rotate, "Rotate"),
        (Action::Thrusting, "Thrusting"),
        (Action::Fingering, "Fingering"),
        (Action::Suction, "Suction"),
        (Action::All, "All"),
    ];
    for (action, name) in actions {
        for strength in 0..=20 {
            let request = client.single_function(action, strength, secs(1.0), None, false).unwrap();
            assert_eq!(action_of(&request), format!("{}:{}", name, strength));
        }
        for strength in [21, 22, 100, i32::MAX] {
            let request = client.single_function(action, strength, secs(1.0), None, false).unwrap();
            assert_eq!(action_of(&request), format!("{}:20", name));
        }
    }
}

#[test]
fn pump_strength_is_capped_at_three() {
    let client = LovenseClient::new("h", 1);
    for strength in 0..=3 {
        let request = client.single_pump(strength, secs(1.0), None, false).unwrap();
        assert_eq!(action_of(&request), format!("Pump:{}", strength));
    }
    for strength in [4, 5, 20, 21, i32::MAX] {
        let request = client.looping_pump(strength, secs(1.0), secs(2.0), secs(3.0), None, false).unwrap();
        assert_eq!(action_of(&request), "Pump:3");
    }
}

#[test]
fn negative_strength_is_refused() {
    let client = LovenseClient::new("h", 1);
    for strength in [-1, -20, i32::MIN] {
        assert_eq!(
            client.single_function(Action::Vibrate, strength, secs(1.0), None, false),
            Err(ValidationError::NegativeStrength)
        );
        assert_eq!(
            client.looping_function(Action::Pump, strength, secs(1.0), secs(1.0), secs(1.0), None, false),
            Err(ValidationError::NegativeStrength)
        );
    }
}

#[test]
fn negative_strength_is_reported_before_a_bad_duration() {
    let client = LovenseClient::new("h", 1);
    assert_eq!(
        client.single_function(Action::Vibrate, -1, secs(f64::NAN), None, false),
        Err(ValidationError::NegativeStrength)
    );
}

#[test]
fn non_finite_durations_are_refused() {
    let client = LovenseClient::new("h", 1);
    for bad in [f64::NAN, f64::INFINITY, f64::NEG_INFINITY] {
        assert_eq!(
            client.single_function(Action::Vibrate, 5, secs(bad), None, false),
            Err(ValidationError::NonFiniteSeconds)
        );
        assert_eq!(
            client.looping_function(Action::Vibrate, 5, secs(bad), secs(1.0), secs(1.0), None, false),
            Err(ValidationError::NonFiniteSeconds)
        );
        assert_eq!(
            client.looping_function(Action::Vibrate, 5, secs(1.0), secs(bad), secs(1.0), None, false),
            Err(ValidationError::NonFiniteSeconds)
        );
        assert_eq!(
            client.looping_function(Action::Vibrate, 5, secs(1.0), secs(1.0), secs(bad), None, false),
            Err(ValidationError::NonFiniteSeconds)
        );
    }
}

#[test]
fn negative_loop_durations_are_refused() {
    let client = LovenseClient::new("h", 1);
    assert_eq!(
        client.looping_function(Action::Vibrate, 5, secs(1.0), secs(-0.5), secs(1.0), None, false),
        Err(ValidationError::NegativeLoopSeconds)
    );
    assert_eq!(
        client.looping_function(Action::Vibrate, 5, secs(1.0), secs(1.0), secs(-3.0), None, false),
        Err(ValidationError::NegativeLoopSeconds)
    );
    assert_eq!(
        client.looping_function(Action::Vibrate, 5, secs(1.0), secs(f64::NAN), secs(-3.0), None, false),
        Err(ValidationError::NonFiniteSeconds)
    );
}

#[test]
fn zero_loop_durations_are_accepted() {
    let client = LovenseClient::new("h", 1);
    let request = client
        .looping_function(Action::Vibrate, 5, secs(0.0), secs(0.0), secs(-0.0), None, false)
        .unwrap();
    assert_eq!(request.body.get("loopRunningSec"), Some(&WireValue::Seconds(secs(0.0))));
    assert_eq!(request.body.get("loopPauseSec"), Some(&WireValue::Seconds(secs(-0.0))));
}

#[test]
fn single_command_has_no_loop_members() {
    let client = LovenseClient::new("h", 1);
    for toy in [None, Some("ab12".to_string())] {
        let request = client.single_function(Action::Rotate, 3, secs(2.5), toy, true).unwrap();
        assert_eq!(request.body.get("loopRunningSec"), None);
        assert_eq!(request.body.get("loopPauseSec"), None);
    }
}

#[test]
fn looping_command_has_both_loop_members() {
    let client = LovenseClient::new("h", 1);
    let request = client
        .looping_function(Action::Rotate, 3, secs(60.0), secs(4.0), secs(1.5), Some("ab12".to_string()), true)
        .unwrap();
    assert_eq!(
        request.body.members().clone(),
        vec![
            ("command".to_string(), text("Function")),
            ("action".to_string(), text("Rotate:3")),
            ("timeSec".to_string(), WireValue::Seconds(secs(60.0))),
            ("stopPrevious".to_string(), WireValue::Integer(1)),
            ("apiVer".to_string(), WireValue::Integer(1)),
            ("toy_id".to_string(), text("ab12")),
            ("loopRunningSec".to_string(), WireValue::Seconds(secs(4.0))),
            ("loopPauseSec".to_string(), WireValue::Seconds(secs(1.5))),
        ]
    );
}

#[test]
fn toy_id_is_left_out_when_none_is_given() {
    let client = LovenseClient::new("h", 1);
    let single = client.single_function(Action::All, 1, secs(1.0), None, false).unwrap();
    assert_eq!(single.body.get("toy_id"), None);
    assert_eq!(keys(&single.body), ["command", "action", "timeSec", "stopPrevious", "apiVer"]);
    let looping = client
        .looping_function(Action::All, 1, secs(1.0), secs(1.0), secs(1.0), None, false)
        .unwrap();
    assert_eq!(looping.body.get("toy_id"), None);
    assert_eq!(
        keys(&looping.body),
        ["command", "action", "timeSec", "stopPrevious", "apiVer", "loopRunningSec", "loopPauseSec"]
    );
}

#[test]
fn toy_id_is_sent_as_given() {
    let client = LovenseClient::new("h", 1);
    for id in ["f08c2d1b", "", "with \"quotes\" and \u{e9}"] {
        let single = client.single_function(Action::All, 1, secs(1.0), Some(id.to_string()), false).unwrap();
        assert_eq!(single.body.get("toy_id"), Some(&text(id)));
        let looping = client
            .looping_function(Action::All, 1, secs(1.0), secs(1.0), secs(1.0), Some(id.to_string()), false)
            .unwrap();
        assert_eq!(looping.body.get("toy_id"), Some(&text(id)));
    }
}

#[test]
fn each_shortcut_names_its_action() {
    let c = LovenseClient::new("h", 1);
    let t = secs(1.0);
    assert_eq!(action_of(&c.single_vibrate(2, t, None, false).unwrap()), "Vibrate:2");
    assert_eq!(action_of(&c.single_rotate(2, t, None, false).unwrap()), "Rotate:2");
    assert_eq!(action_of(&c.single_pump(2, t, None, false).unwrap()), "Pump:2");
    assert_eq!(action_of(&c.single_thrusting(2, t, None, false).unwrap()), "Thrusting:2");
    assert_eq!(action_of(&c.single_fingering(2, t, None, false).unwrap()), "Fingering:2");
    assert_eq!(action_of(&c.single_suction(2, t, None, false).unwrap()), "Suction:2");
    assert_eq!(action_of(&c.single_all(2, t, None, false).unwrap()), "All:2");
    assert_eq!(action_of(&c.looping_vibrate(2, t, t, t, None, false).unwrap()), "Vibrate:2");
    assert_eq!(action_of(&c.looping_rotate(2, t, t, t, None, false).unwrap()), "Rotate:2");
    assert_eq!(action_of(&c.looping_pump(2, t, t, t, None, false).unwrap()), "Pump:2");
    assert_eq!(action_of(&c.looping_thrusting(2, t, t, t, None, false).unwrap()), "Thrusting:2");
    assert_eq!(action_of(&c.looping_fingering(2, t, t, t, None, false).unwrap()), "Fingering:2");
    assert_eq!(action_of(&c.looping_suction(2, t, t, t, None, false).unwrap()), "Suction:2");
    assert_eq!(action_of(&c.looping_all(2, t, t, t, None, false).unwrap()), "All:2");
}

#[test]
fn shortcuts_agree_with_the_general_operations() {
    let c = LovenseClient::new_http("h", 8080);
    let t = secs(3.0);
    assert_eq!(
        c.single_suction(30, t, Some("x".to_string()), true),
        c.single_function(Action::Suction, 30, t, Some("x".to_string()), true)
    );
    assert_eq!(
        c.looping_thrusting(7, t, secs(1.0), secs(2.0), None, false),
        c.looping_function(Action::Thrusting, 7, t, secs(1.0), secs(2.0), None, false)
    );
    assert!(c.looping_all(1, t, t, t, None, false).unwrap().body.get("loopPauseSec").is_some());
    assert!(c.single_all(1, t, None, false).unwrap().body.get("loopPauseSec").is_none());
}

#[test]
fn url_names_scheme_host_and_port() {
    assert_eq!(LovenseClient::new("192.168.0.92", 20010).endpoint_url("command"), "https://192.168.0.92:20010/command");
    assert_eq!(LovenseClient::new_http("192.168.0.92", 20011).endpoint_url("command"), "http://192.168.0.92:20011/command");
    assert_eq!(LovenseClient::new_http("localhost", 0).endpoint_url("x"), "http://localhost:0/x");
    assert_eq!(LovenseClient::new("example.org", 65535).endpoint_url(""), "https://example.org:65535/");
    let request = LovenseClient::new_http("10.1.2.3", 80).single_all(0, secs(0.0), None, false).unwrap();
    assert_eq!(request.url, "http://10.1.2.3:80/command");
}

#[test]
fn constructors_set_one_transport() {
    let secure = LovenseClient::new("a", 443);
    assert_eq!(secure.local_ip, "a");
    assert_eq!(secure.scheme, Scheme::Https);
    assert_eq!(secure.port, 443);
    let plain = LovenseClient::new_http("b", 80);
    assert_eq!(plain.local_ip, "b");
    assert_eq!(plain.scheme, Scheme::Http);
    assert_eq!(plain.port, 80);
}

#[test]
fn both_ports_or_none_is_a_configuration_error() {
    assert_eq!(LovenseClient::with_ports("h", 0, 0), Err(ConfigurationError::NoTransport));
    assert_eq!(LovenseClient::with_ports("h", 20011, 20010), Err(ConfigurationError::BothTransports));
    assert_eq!(LovenseClient::with_ports("h", 1, 65535), Err(ConfigurationError::BothTransports));
}

#[test]
fn one_port_configures_its_transport() {
    assert_eq!(LovenseClient::with_ports("h", 20011, 0), Ok(LovenseClient::new_http("h", 20011)));
    assert_eq!(LovenseClient::with_ports("h", 0, 20010), Ok(LovenseClient::new("h", 20010)));
}

#[test]
fn refused_connection_is_a_send_error() {
    let outcome = Delivery::Failed { reason: "connection refused".to_string() };
    assert_eq!(acknowledge(outcome), Err(SendError { reason: "connection refused".to_string() }));
}

#[test]
fn any_reply_is_an_acknowledgement() {
    for status in [200, 204, 404, 500] {
        let outcome = Delivery::Answered { status, body: b"{\"code\":200}".to_vec() };
        assert_eq!(acknowledge(outcome), Ok(Ack { status }));
    }
}
