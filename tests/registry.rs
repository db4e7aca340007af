use navigator_assistant::registry::{MessageFilter, WebsocketManager};

#[test]
fn register_gives_increasing_ids() {
    let mut m = WebsocketManager::new();
    assert_eq!(m.register(None), Some(0));
    assert_eq!(m.register(Some("pwm")), Some(1));
    assert_eq!(m.get_client_count(), 2);
}

#[test]
fn compile_filter_cases() {
    assert_eq!(WebsocketManager::compile_filter(None), MessageFilter::Everything);
    assert_eq!(WebsocketManager::compile_filter(Some("")), MessageFilter::Everything);
    assert_eq!(
        WebsocketManager::compile_filter(Some("temp.*")),
        MessageFilter::Pattern("temp.*".to_string())
    );
    assert_eq!(WebsocketManager::compile_filter(Some("(")), MessageFilter::Nothing);
}

#[test]
fn deregister_twice_same_as_once() {
    let mut once = WebsocketManager::new();
    let mut twice = WebsocketManager::new();
    for m in [&mut once, &mut twice] {
        m.register(None);
        m.register(Some("pwm"));
        m.register(None);
    }
    once.deregister(1);
    twice.deregister(1);
    twice.deregister(1);
    assert_eq!(once.get_client_count(), 2);
    assert_eq!(twice.get_client_count(), 2);
    assert_eq!(once.send("pwm", ""), twice.send("pwm", ""));
    assert_eq!(twice.send("pwm", ""), vec![0, 2]);
}

#[test]
fn deregister_unknown_id_is_noop() {
    let mut m = WebsocketManager::new();
    m.register(None);
    m.deregister(42);
    assert_eq!(m.get_client_count(), 1);
    assert_eq!(m.send("x", ""), vec![0]);
}

#[test]
fn no_subscriber_broadcast_is_noop() {
    let m = WebsocketManager::new();
    assert!(!m.needs_message());
    assert!(m.send("{\"anything\":1}", "").is_empty());
}

#[test]
fn one_subscriber_needs_message() {
    let mut m = WebsocketManager::new();
    m.register(None);
    assert!(m.needs_message());
}

#[test]
fn temperature_filter_correctness() {
    let mut m = WebsocketManager::new();
    let filtered = m.register(Some("temperature")).unwrap();
    let all = m.register(None).unwrap();
    assert_eq!(m.send("{\"type\":\"temperature\",\"value\":25.5}", ""), vec![filtered, all]);
    assert_eq!(m.send("{\"type\":\"pressure\",\"value\":101.3}", ""), vec![all]);
    assert_eq!(m.send("{\"type\":\"Temperature\"}", ""), vec![all]);
}

#[test]
fn regex_filter_matches_anywhere() {
    let mut m = WebsocketManager::new();
    let id = m.register(Some("ch[0-9]+")).unwrap();
    assert_eq!(m.send("\"channel\":[\"Ch3\"], \"ch12\"", ""), vec![id]);
    assert!(m.send("\"Ch3\"", "").is_empty());
}

#[test]
fn invalid_pattern_receives_nothing() {
    let mut m = WebsocketManager::new();
    m.register(Some("(unclosed"));
    assert_eq!(m.get_client_count(), 1);
    assert!(m.send("(unclosed", "").is_empty());
}

#[test]
fn scenario_two_subscribers_pwm_and_all() {
    let mut m = WebsocketManager::new();
    let pwm = m.register(Some("pwm")).unwrap();
    let all = m.register(None).unwrap();
    let temperature = "{\"model\":\"Navigator_v4\",\"input\":[{\"type\":\"Temperature\",\"unit\":\"C\",\"value\":25.0}]}";
    assert_eq!(m.send(temperature, "temperature"), vec![all]);
    let pwm_result = "{\"model\":\"Navigator_v4\",\"output\":[{\"PWM\":{\"channel\":[\"Ch3\"],\"value\":[500]}}]}";
    assert_eq!(m.send(pwm_result, "pwm"), vec![pwm, all]);
}

#[test]
fn filter_matches_logical_name() {
    let mut m = WebsocketManager::new();
    let t = m.register(Some("temperature")).unwrap();
    assert_eq!(
        WebsocketManager::compile_filter(Some("temperature")),
        MessageFilter::Pattern("temperature".to_string())
    );
    assert_eq!(m.send("{\"type\":\"Temperature\"}", "temperature"), vec![t]);
    assert!(m.send("{\"type\":\"Pressure\"}", "pressure").is_empty());
}

#[test]
fn failed_delivery_removes_subscriber() {
    let mut m = WebsocketManager::new();
    m.register(None);
    m.register(None);
    m.register(None);
    m.remove_failed(&vec![0, 2, 99]);
    assert_eq!(m.get_client_count(), 1);
    assert_eq!(m.send("x", ""), vec![1]);
    m.remove_failed(&vec![]);
    assert_eq!(m.get_client_count(), 1);
}

#[test]
fn body_holding_its_name_is_matched_on_body() {
    let mut m = WebsocketManager::new();
    let t = m.register(Some("temperature")).unwrap();
    let body = "{\"name\":\"temperature\",\"value\":1}";
    assert_eq!(m.send(body, "temperature"), vec![t]);
    assert!(m.send("{\"name\":\"pressure\"}", "pressure").is_empty());
}
