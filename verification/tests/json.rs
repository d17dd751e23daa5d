use rbridger::json::{kind_by_type, reply_kind, ReplyKind};

#[test]
fn kinds_by_type() {
    assert_eq!(kind_by_type(Some("APIError")), ReplyKind::APIError);
    assert_eq!(kind_by_type(Some("APIStateResponse")), ReplyKind::APIStateResponse);
    assert_eq!(
        kind_by_type(Some("AuthenticationTokenResponse")),
        ReplyKind::AuthenticationTokenResponse
    );
    assert_eq!(kind_by_type(Some("AuthenticationResponse")), ReplyKind::AuthenticationResponse);
    assert_eq!(
        kind_by_type(Some("InjectParameterDataResponse")),
        ReplyKind::InjectParameterDataResponse
    );
    assert_eq!(
        kind_by_type(Some("ParameterCreationResponse")),
        ReplyKind::ParameterCreationResponse
    );
    assert_eq!(kind_by_type(Some("HotkeyTriggerResponse")), ReplyKind::HotkeyTriggerResponse);
    assert_eq!(kind_by_type(Some("apierror")), ReplyKind::Unknown);
    assert_eq!(kind_by_type(None), ReplyKind::Untyped);
}

#[test]
fn kinds_of_messages() {
    let text = r#"{"apiName":"VTubeStudioPublicAPI","messageType":"APIError","data":{"errorID":8}}"#;
    assert_eq!(reply_kind(text), Some(ReplyKind::APIError));
    assert_eq!(reply_kind(r#"{"messageType":"Something"}"#), Some(ReplyKind::Unknown));
    assert_eq!(reply_kind(r#"{"messageType":8}"#), Some(ReplyKind::Untyped));
    assert_eq!(reply_kind("{}"), Some(ReplyKind::Untyped));
    assert_eq!(reply_kind("[1, 2]"), Some(ReplyKind::Untyped));
    assert_eq!(reply_kind("APIError"), None);
    assert_eq!(reply_kind(""), None);
}
