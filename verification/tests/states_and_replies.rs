use brayton::emscripten::{
    error_envelope, error_json, internal_panic_reply, invalid_input_reply, serialization_failure_reply,
};
use brayton::recompression::CycleStates as RecompStates;
use brayton::simple::CycleStates;

#[test]
fn as_array_orders_states_one_through_six() {
    let states = CycleStates {
        s1: String::from("s1"),
        s2: String::from("s2"),
        s3: String::from("s3"),
        s4: String::from("s4"),
        s5: String::from("s5"),
        s6: String::from("s6"),
    };
    let arr = states.as_array();
    assert_eq!(arr, ["s1", "s2", "s3", "s4", "s5", "s6"].map(String::from));
}

#[test]
fn as_array_of_numbers() {
    let states = CycleStates { s1: 1u32, s2: 2, s3: 3, s4: 4, s5: 5, s6: 6 };
    assert_eq!(states.as_array(), [1, 2, 3, 4, 5, 6]);
}

#[test]
fn recompression_states_hold_ten_points() {
    let s = RecompStates { s1: 1, s2: 2, s3: 3, s4: 4, s5: 5, s6: 6, s7: 7, s8: 8, s9: 9, s10: 10 };
    assert_eq!(s.s10, 10);
    assert_eq!(s.clone().s4, 4);
}

#[test]
fn error_json_quotes_message() {
    assert_eq!(error_json("unknown model: Bogus"), r#"{"error":"unknown model: Bogus"}"#);
}

#[test]
fn error_json_escapes_message() {
    assert_eq!(error_json("got \"x\"\n"), r#"{"error":"got \"x\"\n"}"#);
    assert_eq!(error_json("a\\b\t"), r#"{"error":"a\\b\t"}"#);
    assert_eq!(error_json(""), r#"{"error":""}"#);
}

#[test]
fn error_envelope_wraps_value() {
    assert_eq!(error_envelope("\"internal panic\""), r#"{"error":"internal panic"}"#);
}

#[test]
fn error_json_escapes_control_characters() {
    assert_eq!(error_json("\u{1}\u{8}\u{c}\r\u{1f}"), r#"{"error":"\u0001\b\f\r\u001f"}"#);
    assert_eq!(error_json("é/\u{7f}"), "{\"error\":\"é/\u{7f}\"}");
}

#[test]
fn interface_replies() {
    assert_eq!(invalid_input_reply("EOF"), r#"{"error":"invalid input: EOF"}"#);
    assert_eq!(serialization_failure_reply("x"), r#"{"error":"serialization failed: x"}"#);
    assert_eq!(internal_panic_reply(), r#"{"error":"internal panic"}"#);
}
