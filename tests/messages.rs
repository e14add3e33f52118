use kanjilab_server::correlation::PendingResponses;
use kanjilab_server::messages::{BaseMessage, MessageKind, OutPayload, OutRespStatusPayload, Status};

#[test]
fn request_tags_round_trip() {
    let kinds = [
        MessageKind::InReqSendPublicKey,
        MessageKind::InReqVerifySignature,
        MessageKind::InReqRegisterClient,
        MessageKind::InReqClientList,
        MessageKind::InReqSendChat,
        MessageKind::InReqMakeAdmin,
        MessageKind::InReqStartGame,
        MessageKind::InReqStopGame,
        MessageKind::InReqSendAnswer,
        MessageKind::InReqSendGameSettings,
    ];
    for k in kinds {
        assert_eq!(MessageKind::from_request_tag(k.tag()), Some(k));
    }
    assert_eq!(MessageKind::InReqVerifySignature.tag(), "IN_REQ_verifysignature");
    assert_eq!(MessageKind::from_request_tag("IN_RESP_question"), None);
    assert_eq!(MessageKind::from_request_tag("nonsense"), None);
}

#[test]
fn message_type_follows_payload() {
    let m = BaseMessage::new(OutPayload::Status(OutRespStatusPayload { status: Status::Success }), Some("c".to_string()));
    assert_eq!(m.message_type(), "OUT_RESP_status");
    assert_eq!(m.correlation_id, "c");
    let fresh = BaseMessage::new(OutPayload::Status(OutRespStatusPayload { status: Status::Success }), None);
    assert_eq!(fresh.correlation_id.len(), 36);
    assert_eq!(Status::InvalidJsonError.as_str(), "invalidJSONError");
    assert_eq!(Status::Success.as_str(), "success");
}

#[test]
fn pending_responses_complete_once() {
    let mut p = PendingResponses::new();
    assert!(!p.complete("x"));
    p.insert("x".to_string());
    p.insert("x".to_string());
    assert!(p.contains("x"));
    assert!(p.complete("x"));
    assert!(!p.contains("x"));
    assert!(!p.complete("x"));
}
