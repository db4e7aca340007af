use navigator_assistant::packages::Sensors;
use navigator_assistant::websocket::{
    ack_text, handle_frame, trim, request_endpoint, split_commands, Route, RouteError, WebsocketQuery,
};

#[test]
fn split_on_double_ampersand() {
    assert_eq!(split_commands("a&&b"), vec!["a".to_string(), "b".to_string()]);
    assert_eq!(split_commands("a&&&b"), vec!["a".to_string(), "&b".to_string()]);
    assert_eq!(split_commands(""), vec!["".to_string()]);
    assert_eq!(split_commands("&&"), vec!["".to_string(), "".to_string()]);
    assert_eq!(split_commands("x&y"), vec!["x&y".to_string()]);
}

#[test]
fn route_reads() {
    assert_eq!(
        request_endpoint("/input/temperature"),
        Ok(Route::Read { sensor: Sensors::Temperature, cached: false })
    );
    assert_eq!(
        request_endpoint("//input/ADC/cached"),
        Ok(Route::Read { sensor: Sensors::Adc, cached: true })
    );
    assert_eq!(
        request_endpoint("/input/wind"),
        Err(RouteError::UnknownSensor("wind".to_string()))
    );
}

#[test]
fn route_outputs() {
    assert_eq!(request_endpoint("/output/userled"), Ok(Route::GetLedAll));
    assert_eq!(
        request_endpoint("/output/userled/{\"userled\":\"Led1\",\"value\":true}"),
        Ok(Route::SetLed("{\"userled\":\"Led1\",\"value\":true}".to_string()))
    );
    assert_eq!(
        request_endpoint("/output/neopixel/{\"red\":1,\"green\":2,\"blue\":3}"),
        Ok(Route::SetNeopixel("{\"red\":1,\"green\":2,\"blue\":3}".to_string()))
    );
    assert_eq!(
        request_endpoint("/output/pwm/enable/{\"enable\":true}"),
        Ok(Route::PwmEnable("{\"enable\":true}".to_string()))
    );
    assert_eq!(
        request_endpoint("/output/pwm/frequency/{\"frequency\":60}"),
        Ok(Route::PwmFrequency("{\"frequency\":60}".to_string()))
    );
    assert_eq!(
        request_endpoint("/output/pwm/channel/value/{\"channel\":\"Ch3\",\"value\":500}"),
        Ok(Route::PwmChannelValue("{\"channel\":\"Ch3\",\"value\":500}".to_string()))
    );
    assert_eq!(request_endpoint("/output/get_connected"), Ok(Route::GetConnected));
}

#[test]
fn route_errors() {
    assert_eq!(request_endpoint("input/adc"), Err(RouteError::MissingSlash));
    assert_eq!(request_endpoint("/output/unknown"), Err(RouteError::InvalidSelection));
    assert_eq!(request_endpoint("/output"), Err(RouteError::InvalidSelection));
    assert_eq!(request_endpoint("/settings/x"), Err(RouteError::UnknownCommand));
    assert_eq!(request_endpoint("/"), Err(RouteError::UnknownCommand));
}

#[test]
fn frame_is_split_trimmed_and_routed() {
    let r = handle_frame(" /input/adc && /output/userled&&nope ");
    assert_eq!(r.len(), 3);
    assert_eq!(r[0], Ok(Route::Read { sensor: Sensors::Adc, cached: false }));
    assert_eq!(r[1], Ok(Route::GetLedAll));
    assert_eq!(r[2], Err(RouteError::MissingSlash));
}

#[test]
fn response_texts() {
    assert_eq!(ack_text(), "\"Ok: Command received\"");
    assert_eq!(
        RouteError::MissingSlash.text("nope"),
        "\"Error: Invalid command:\" nope, missing / ?"
    );
    assert_eq!(RouteError::UnknownCommand.text("/x"), "\"Error: Invalid command:\" /x");
    assert_eq!(
        RouteError::InvalidSelection.text("/output/x"),
        "\"Error: Invalid command selected\""
    );
    assert_eq!(
        RouteError::UnknownSensor("wind".to_string()).text("/input/wind"),
        "\"Error: wind is not a valid Sensors variant\""
    );
}

#[test]
fn query_pattern() {
    let q = WebsocketQuery { filter: Some("pwm".to_string()) };
    assert_eq!(q.pattern(), Some("pwm"));
    assert_eq!(WebsocketQuery { filter: None }.pattern(), None);
}

#[test]
fn trim_removes_unicode_white_space() {
    assert_eq!(trim("  \t/input/adc\n "), "/input/adc");
    assert_eq!(trim("\u{3000}\u{a0}x y\u{2029}"), "x y");
    assert_eq!(trim(" \u{200b}x"), "\u{200b}x");
    assert_eq!(trim("   "), "");
    assert_eq!(trim(""), "");
    for s in ["\u{85}a\u{1680}", "\u{2000}\u{200a}b\u{202f}\u{205f}", "\u{b}c\u{c}\u{d}"] {
        assert_eq!(trim(s), s.trim());
    }
}
