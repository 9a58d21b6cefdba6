use lobe_chat_client::response::{frame_response, BizResponse};

#[test]
fn new_keeps_fields() {
    let r = BizResponse::new(3, "hi", "there");
    assert_eq!(r.code, 3);
    assert_eq!(r.msg, "hi");
    assert_eq!(r.data, "there");
}

#[test]
fn json_text_of_reply() {
    let r = BizResponse::new(0, "start download file", "");
    assert_eq!(r.to_str(), r#"{"code":0,"msg":"start download file","data":""}"#);
}

#[test]
fn json_text_escapes_strings() {
    let r = BizResponse::new(-12, "a\"b", "line\nnext");
    assert_eq!(r.to_str(), r#"{"code":-12,"msg":"a\"b","data":"line\nnext"}"#);
}

#[test]
fn json_text_extreme_codes() {
    assert_eq!(
        BizResponse::new(i32::MIN, "", "").to_str(),
        r#"{"code":-2147483648,"msg":"","data":""}"#
    );
    assert_eq!(
        BizResponse::new(i32::MAX, "", "").to_str(),
        r#"{"code":2147483647,"msg":"","data":""}"#
    );
}

#[test]
fn framing_falls_back_without_json() {
    assert_eq!(
        frame_response(7, None, Some("\"x\"".to_string())),
        r#"{"code":1,"msg":"serde failed","data":}"#
    );
    assert_eq!(
        frame_response(10, Some("\"m\"".to_string()), Some("\"d\"".to_string())),
        r#"{"code":10,"msg":"m","data":"d"}"#
    );
}
