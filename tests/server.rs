use base64::Engine;
use ed25519_dalek::{Signer, SigningKey};
use kanjilab_server::game::GameState;
use kanjilab_server::messages::{
    BaseMessage, Effect, InReqMakeAdminPayload, InReqRegisterClientPayload, InReqSendAnswerPayload,
    InReqSendChatPayload, InReqSendGameSettingsPayload, InReqSendPublicKey, InReqStartGamePayload,
    InReqVerifySignature, InRespQuestionPayload, OutPayload, Status,
};
use kanjilab_server::server::{FrameError, Inbound, Payload, Server};
use kanjilab_server::structures::{GameSettings, QuestionInfo};

fn b64(bytes: &[u8]) -> String {
    base64::engine::general_purpose::STANDARD.encode(bytes)
}

fn sends(effects: &[Effect]) -> Vec<(Vec<String>, BaseMessage)> {
    effects
        .iter()
        .filter_map(|e| match e {
            Effect::Send { to, message } => Some((to.clone(), message.clone())),
            _ => None,
        })
        .collect()
}

fn status_of(effects: &[Effect]) -> Status {
    match &effects[0] {
        Effect::Send { message, .. } => match &message.payload {
            OutPayload::Status(s) => s.status,
            other => panic!("not a status: {:?}", other),
        },
        other => panic!("not a send: {:?}", other),
    }
}

/// Opens a connection, passes the handshake with the key made from `seed`.
fn validated(server: &mut Server, seed: u8) -> String {
    let conn = server.connect().unwrap();
    let key = SigningKey::from_bytes(&[seed; 32]);
    let r = server.handle_send_public_key(
        &conn,
        "k",
        Payload::Valid(InReqSendPublicKey { key: b64(key.verifying_key().as_bytes()) }),
    );
    let challenge = match &sends(&r)[0].1.payload {
        OutPayload::SignMessage(p) => p.message.clone(),
        other => panic!("no challenge: {:?}", other),
    };
    let signature = b64(&key.sign(challenge.as_bytes()).to_bytes());
    let r = server.handle_verify_signature(&conn, "v", Payload::Valid(InReqVerifySignature { signature }));
    assert_eq!(status_of(&r), Status::Success);
    conn
}

fn register(server: &mut Server, name: &str, seed: u8) -> (String, Vec<Effect>) {
    let conn = validated(server, seed);
    let r = server.handle_register_client(
        &conn,
        "reg",
        Payload::Valid(InReqRegisterClientPayload { name: name.to_string() }),
    );
    (conn, r)
}

fn settings(rounds_count: u64, round_duration: u64) -> GameSettings {
    GameSettings { rounds_count, round_duration, ..GameSettings::default() }
}

fn make_admin(server: &mut Server, conn: &str) {
    let password = server.get_admin_password();
    let r = server.handle_make_admin(
        conn,
        "adm",
        Payload::Valid(InReqMakeAdminPayload { admin_password: password, client_id: conn.to_string() }),
    );
    assert_eq!(status_of(&r), Status::Success);
}

fn question_request_id(effects: &[Effect], admin: &str) -> String {
    sends(effects)
        .into_iter()
        .find(|(to, m)| matches!(m.payload, OutPayload::Question(_)) && to == &vec![admin.to_string()])
        .map(|(_, m)| m.correlation_id)
        .expect("no question request to the admin")
}

fn answer_question(server: &mut Server, admin: &str, correlation_id: &str, readings: &[&str]) -> Vec<Effect> {
    assert!(server.take_response(admin, correlation_id));
    server.handle_question(
        admin,
        correlation_id,
        Payload::Valid(InRespQuestionPayload {
            question: QuestionInfo {
                readings: readings.iter().map(|r| r.to_string()).collect(),
                content: "{}".to_string(),
            },
            question_svg: "<svg/>".to_string(),
        }),
    )
}

#[test]
fn register_announces_client() {
    let mut server = Server::new(false);
    let (a, r) = register(&mut server, "Alice", 1);
    let s = sends(&r);
    assert_eq!(s.len(), 2);
    assert_eq!(s[0].0, vec![a.clone()]);
    assert_eq!(s[0].1.correlation_id, "reg");
    match &s[0].1.payload {
        OutPayload::ClientRegistered(p) => assert_eq!(p.id, a),
        other => panic!("{:?}", other),
    }
    assert_eq!(s[1].0, vec![a.clone()]);
    match &s[1].1.payload {
        OutPayload::ClientRegisteredNotice(p) => {
            assert_eq!(p.client.id, a);
            assert_eq!(p.client.name, "Alice");
            assert!(!p.client.is_admin);
        },
        other => panic!("{:?}", other),
    }
}

#[test]
fn register_twice_keeps_one_entry() {
    let mut server = Server::new(false);
    let (a, _) = register(&mut server, "Alice", 1);
    let r = server.handle_register_client(&a, "again", Payload::Valid(InReqRegisterClientPayload { name: "Bob".to_string() }));
    assert_eq!(status_of(&r), Status::AlreadyRegisteredError);
    assert_eq!(server.get_client_list().len(), 1);
    assert_eq!(server.get_client(&a).unwrap().name, "Alice");
}

#[test]
fn register_requires_handshake() {
    let mut server = Server::new(false);
    let conn = server.connect().unwrap();
    let r = server.handle_register_client(&conn, "r", Payload::Valid(InReqRegisterClientPayload { name: "X".to_string() }));
    assert_eq!(status_of(&r), Status::NotValidatedError);
    let r = server.handle_verify_signature(&conn, "v", Payload::Valid(InReqVerifySignature { signature: "AAAA".to_string() }));
    assert_eq!(status_of(&r), Status::NoKeyError);
    let r = server.handle_register_client(&conn, "r", Payload::Missing);
    assert_eq!(status_of(&r), Status::MissingPayloadError);
    let r = server.handle_register_client(&conn, "r", Payload::Malformed);
    assert_eq!(status_of(&r), Status::WrongPayloadError);
}

#[test]
fn wrong_signature_and_revalidation_refused() {
    let mut server = Server::new(false);
    let conn = server.connect().unwrap();
    let key = SigningKey::from_bytes(&[3u8; 32]);
    server.handle_send_public_key(&conn, "k", Payload::Valid(InReqSendPublicKey { key: b64(key.verifying_key().as_bytes()) }));
    let bad = b64(&key.sign(b"not the challenge").to_bytes());
    let r = server.handle_verify_signature(&conn, "v", Payload::Valid(InReqVerifySignature { signature: bad }));
    assert_eq!(status_of(&r), Status::WrongSignatureError);
    let conn2 = validated(&mut server, 4);
    let r = server.handle_send_public_key(&conn2, "k", Payload::Valid(InReqSendPublicKey { key: "x".to_string() }));
    assert_eq!(status_of(&r), Status::AlreadyValidatedError);
    let r = server.handle_verify_signature(&conn2, "v", Payload::Valid(InReqVerifySignature { signature: "x".to_string() }));
    assert_eq!(status_of(&r), Status::AlreadyValidatedError);
}

#[test]
fn disconnect_notifies_remaining_once() {
    let mut server = Server::new(false);
    let (a, _) = register(&mut server, "A", 1);
    let (b, _) = register(&mut server, "B", 2);
    let (c, _) = register(&mut server, "C", 3);
    let r = server.disconnect(&b);
    let s = sends(&r);
    assert_eq!(s.len(), 1);
    assert_eq!(s[0].0, vec![a.clone(), c.clone()]);
    match &s[0].1.payload {
        OutPayload::ClientDisconnected(p) => assert_eq!(p.id, b),
        other => panic!("{:?}", other),
    }
    assert_eq!(server.get_client_list().len(), 2);
    assert!(!server.has_connection(&b));
    let unregistered = server.connect().unwrap();
    assert!(server.disconnect(&unregistered).is_empty());
}

#[test]
fn make_admin_password_checked() {
    let mut server = Server::new(false);
    let (a, _) = register(&mut server, "A", 1);
    let (b, _) = register(&mut server, "B", 2);
    let r = server.handle_make_admin(
        &a,
        "m1",
        Payload::Valid(InReqMakeAdminPayload { admin_password: "wrong".to_string(), client_id: a.clone() }),
    );
    assert_eq!(r.len(), 1);
    assert_eq!(status_of(&r), Status::WrongPasswordError);
    assert!(!server.get_client(&a).unwrap().is_admin);
    let r = server.handle_make_admin(
        &a,
        "m2",
        Payload::Valid(InReqMakeAdminPayload { admin_password: server.get_admin_password(), client_id: a.clone() }),
    );
    assert_eq!(status_of(&r), Status::Success);
    let s = sends(&r);
    assert_eq!(s.len(), 2);
    assert_eq!(s[1].0, vec![a.clone(), b.clone()]);
    match &s[1].1.payload {
        OutPayload::AdminMade(p) => assert_eq!(p.id, a),
        other => panic!("{:?}", other),
    }
    assert!(server.get_client(&a).unwrap().is_admin);
    let r = server.handle_make_admin(
        &a,
        "m3",
        Payload::Valid(InReqMakeAdminPayload { admin_password: server.get_admin_password(), client_id: "nobody".to_string() }),
    );
    assert_eq!(status_of(&r), Status::MissingClientError);
}

#[test]
fn auto_admin_promotes_first_client() {
    let mut server = Server::new(true);
    let (a, r) = register(&mut server, "A", 1);
    assert_eq!(r.len(), 4);
    assert!(server.get_client(&a).unwrap().is_admin);
    let (b, r) = register(&mut server, "B", 2);
    assert_eq!(r.len(), 2);
    assert!(!server.get_client(&b).unwrap().is_admin);
}

#[test]
fn start_game_twice_reports_already_started() {
    let mut server = Server::new(false);
    let (a, _) = register(&mut server, "A", 1);
    make_admin(&mut server, &a);
    let r = server.handle_start_game(&a, "s1", Payload::Valid(InReqStartGamePayload { game_settings: settings(3, 30) }));
    assert_eq!(status_of(&r), Status::Success);
    assert_eq!(server.get_game_state(), GameState::GameStarting);
    let s = sends(&r);
    assert!(matches!(s[1].1.payload, OutPayload::GameStarted(_)));
    question_request_id(&r, &a);
    let r = server.handle_start_game(&a, "s2", Payload::Valid(InReqStartGamePayload { game_settings: settings(3, 30) }));
    assert_eq!(status_of(&r), Status::AlreadyStarted);
}

#[test]
fn start_game_needs_admin() {
    let mut server = Server::new(false);
    let (a, _) = register(&mut server, "A", 1);
    let r = server.handle_start_game(&a, "s", Payload::Valid(InReqStartGamePayload { game_settings: settings(3, 30) }));
    assert_eq!(status_of(&r), Status::NoRightsError);
    let stranger = server.connect().unwrap();
    let r = server.handle_start_game(&stranger, "s", Payload::Valid(InReqStartGamePayload { game_settings: settings(3, 30) }));
    assert_eq!(status_of(&r), Status::NotRegisteredError);
    let r = server.handle_stop_game(&a, "t");
    assert_eq!(status_of(&r), Status::NoRightsError);
}

#[test]
fn question_is_broadcast_and_answers_recorded() {
    let mut server = Server::new(false);
    let (a, _) = register(&mut server, "A", 1);
    let (b, _) = register(&mut server, "B", 2);
    make_admin(&mut server, &a);
    let r = server.handle_start_game(&a, "s", Payload::Valid(InReqStartGamePayload { game_settings: settings(3, 30) }));
    let q = question_request_id(&r, &a);
    let r = answer_question(&mut server, &a, &q, &["tanuki"]);
    assert_eq!(r.len(), 2);
    assert!(matches!(r[0], Effect::StartTimer { seconds: 30, .. }));
    let s = sends(&r);
    assert_eq!(s[0].0, vec![a.clone(), b.clone()]);
    match &s[0].1.payload {
        OutPayload::QuestionNotice(p) => assert_eq!(p.question_svg, "<svg/>"),
        other => panic!("{:?}", other),
    }
    assert_eq!(server.get_game_state(), GameState::AnswerQuestion);
    let r = server.handle_send_answer(&b, "ans", Payload::Valid(InReqSendAnswerPayload { answer: "tanuki".to_string() }), 10);
    assert_eq!(status_of(&r), Status::Success);
    assert_eq!(r.len(), 2);
    let answers = server.game().get_answers_for_round(0);
    assert_eq!(answers.len(), 1);
    assert!(answers[0].is_correct);
    let r = server.handle_send_answer(&b, "ans2", Payload::Valid(InReqSendAnswerPayload { answer: "tanuki".to_string() }), 11);
    assert_eq!(status_of(&r), Status::AlreadyAnswered);
    assert_eq!(server.game().get_answers_for_round(0).len(), 1);
}

#[test]
fn all_answered_ends_round_early() {
    let mut server = Server::new(false);
    let (a, _) = register(&mut server, "A", 1);
    let (b, _) = register(&mut server, "B", 2);
    make_admin(&mut server, &a);
    let r = server.handle_start_game(&a, "s", Payload::Valid(InReqStartGamePayload { game_settings: settings(3, 30) }));
    let q = question_request_id(&r, &a);
    let r = answer_question(&mut server, &a, &q, &["x"]);
    let token = match r[0] {
        Effect::StartTimer { token, .. } => token,
        _ => panic!("no timer"),
    };
    server.handle_send_answer(&a, "1", Payload::Valid(InReqSendAnswerPayload { answer: "x".to_string() }), 1);
    let r = server.handle_send_answer(&b, "2", Payload::Valid(InReqSendAnswerPayload { answer: "y".to_string() }), 2);
    assert_eq!(r[2], Effect::CancelTimer { token });
    assert_eq!(server.get_game_state(), GameState::WaitingQuestion);
    let s = sends(&r);
    match &s[2].1.payload {
        OutPayload::RoundEnded(p) => assert_eq!(p.answers.len(), 2),
        other => panic!("{:?}", other),
    }
    question_request_id(&r, &a);
    assert!(server.on_round_timer(token).is_empty());
}

#[test]
fn answer_without_question_refused() {
    let mut server = Server::new(false);
    let (a, _) = register(&mut server, "A", 1);
    let r = server.handle_send_answer(&a, "x", Payload::Valid(InReqSendAnswerPayload { answer: "x".to_string() }), 0);
    assert_eq!(status_of(&r), Status::NoQuestion);
}

#[test]
fn timer_expiry_and_stop_flow() {
    let mut server = Server::new(false);
    let (a, _) = register(&mut server, "A", 1);
    make_admin(&mut server, &a);
    let r = server.handle_start_game(&a, "s", Payload::Valid(InReqStartGamePayload { game_settings: settings(2, 5) }));
    let q = question_request_id(&r, &a);
    let r = answer_question(&mut server, &a, &q, &["x"]);
    let token = match r[0] {
        Effect::StartTimer { token, .. } => token,
        _ => panic!("no timer"),
    };
    let r = server.on_round_timer(token);
    assert_eq!(server.get_game_state(), GameState::WaitingQuestion);
    let q2 = question_request_id(&r, &a);
    let r = server.handle_stop_game(&a, "stop");
    assert_eq!(r.len(), 1);
    assert_eq!(status_of(&r), Status::Success);
    assert_eq!(server.get_game_state(), GameState::WaitingQuestion);
    let r = answer_question(&mut server, &a, &q2, &["y"]);
    assert_eq!(server.get_game_state(), GameState::Lobby);
    let s = sends(&r);
    assert!(matches!(s[0].1.payload, OutPayload::GameStopped(_)));
    let r = server.handle_stop_game(&a, "stop2");
    assert_eq!(status_of(&r), Status::AlreadyStopped);
}

#[test]
fn stop_during_round_cancels_timer() {
    let mut server = Server::new(false);
    let (a, _) = register(&mut server, "A", 1);
    make_admin(&mut server, &a);
    let r = server.handle_start_game(&a, "s", Payload::Valid(InReqStartGamePayload { game_settings: settings(4, 60) }));
    let q = question_request_id(&r, &a);
    let r = answer_question(&mut server, &a, &q, &["x"]);
    let token = match r[0] {
        Effect::StartTimer { token, .. } => token,
        _ => panic!("no timer"),
    };
    let r = server.handle_stop_game(&a, "stop");
    assert_eq!(r[1], Effect::CancelTimer { token });
    assert_eq!(server.get_game_state(), GameState::Lobby);
}

#[test]
fn second_question_reports_already_exist() {
    let mut server = Server::new(false);
    let (a, _) = register(&mut server, "A", 1);
    make_admin(&mut server, &a);
    let r = server.handle_start_game(&a, "s", Payload::Valid(InReqStartGamePayload { game_settings: settings(2, 5) }));
    let q = question_request_id(&r, &a);
    answer_question(&mut server, &a, &q, &["x"]);
    assert!(!server.take_response(&a, &q));
    let r = server.handle_question(
        &a,
        &q,
        Payload::Valid(InRespQuestionPayload {
            question: QuestionInfo { readings: vec![], content: "{}".to_string() },
            question_svg: String::new(),
        }),
    );
    assert_eq!(status_of(&r), Status::AlreadyExist);
}

#[test]
fn chat_settings_and_misc_requests() {
    let mut server = Server::new(false);
    let (a, _) = register(&mut server, "A", 1);
    let r = server.handle_send_chat(&a, "c", Payload::Valid(InReqSendChatPayload { message: "hi".to_string() }));
    match &sends(&r)[0].1.payload {
        OutPayload::ChatSent(p) => {
            assert_eq!(p.id, a);
            assert_eq!(p.message, "hi");
        },
        other => panic!("{:?}", other),
    }
    let r = server.handle_send_game_settings(&a, "g", Payload::Valid(InReqSendGameSettingsPayload { game_settings: settings(9, 8) }));
    assert_eq!(r.len(), 2);
    assert_eq!(server.game().get_rounds_count(), 9);
    let r = server.handle_unknown_message(&a, "u");
    assert_eq!(status_of(&r), Status::UnknownMessageError);
    let r = server.handle_frame_error(&a, FrameError::InvalidJson);
    assert_eq!(status_of(&r), Status::InvalidJsonError);
    assert_eq!(sends(&r)[0].1.correlation_id, "");
    let stranger = server.connect().unwrap();
    let r = server.handle_get_client_list(&stranger, "l");
    assert_eq!(status_of(&r), Status::NotRegisteredError);
}

#[test]
fn test_client_interactions() {
    let mut server = Server::new(false);

    let (c0, r) = register(&mut server, "Client0", 10);
    let s = sends(&r);
    match &s[0].1.payload {
        OutPayload::ClientRegistered(p) => assert_eq!(p.id, c0),
        other => panic!("{:?}", other),
    }
    assert!(uuid::Uuid::parse_str(&c0).is_ok());
    match &s[1].1.payload {
        OutPayload::ClientRegisteredNotice(p) => {
            assert_eq!(p.client.id, c0);
            assert_eq!(p.client.name, "Client0");
        },
        other => panic!("{:?}", other),
    }
    assert_eq!(s[1].0, vec![c0.clone()]);

    let (c1, r) = register(&mut server, "Client1", 11);
    let s = sends(&r);
    assert_eq!(s[1].0, vec![c0.clone(), c1.clone()]);

    let (c2, r) = register(&mut server, "Client2", 12);
    let s = sends(&r);
    assert_eq!(s[1].0, vec![c0.clone(), c1.clone(), c2.clone()]);

    let r = server.disconnect(&c1);
    let s = sends(&r);
    assert_eq!(s[0].0, vec![c0.clone(), c2.clone()]);
    match &s[0].1.payload {
        OutPayload::ClientDisconnected(p) => assert_eq!(p.id, c1),
        other => panic!("{:?}", other),
    }

    let (c1, r) = register(&mut server, "Client1new", 11);
    let s = sends(&r);
    assert_eq!(s[1].0, vec![c0.clone(), c2.clone(), c1.clone()]);
    match &s[1].1.payload {
        OutPayload::ClientRegisteredNotice(p) => assert_eq!(p.client.name, "Client1new"),
        other => panic!("{:?}", other),
    }

    let r = server.handle_make_admin(
        &c0,
        "m",
        Payload::Valid(InReqMakeAdminPayload { admin_password: "wrong".to_string(), client_id: c0.clone() }),
    );
    assert_eq!(status_of(&r), Status::WrongPasswordError);
    assert_eq!(Status::WrongPasswordError.as_str(), "wrongPasswordError");

    let r = server.handle_make_admin(
        &c0,
        "m",
        Payload::Valid(InReqMakeAdminPayload { admin_password: server.get_admin_password(), client_id: c0.clone() }),
    );
    assert_eq!(status_of(&r), Status::Success);
    assert_eq!(Status::Success.as_str(), "success");
    let s = sends(&r);
    assert_eq!(s[1].0, vec![c0.clone(), c2.clone(), c1.clone()]);
    match &s[1].1.payload {
        OutPayload::AdminMade(p) => assert_eq!(p.id, c0),
        other => panic!("{:?}", other),
    }

    for conn in [&c0, &c1, &c2] {
        let r = server.handle_get_client_list(conn, "l");
        match &sends(&r)[0].1.payload {
            OutPayload::ClientList(p) => {
                assert_eq!(p.clients.len(), 3);
                let expected = [(&c0, "Client0", true), (&c1, "Client1new", false), (&c2, "Client2", false)];
                for (id, name, is_admin) in expected {
                    assert!(p.clients.iter().any(|c| &c.id == id && c.name == name && c.is_admin == is_admin));
                }
            },
            other => panic!("{:?}", other),
        }
    }
}

#[test]
fn open_connection_refuses_taken_id() {
    let mut server = Server::with_password(false, "pw".to_string());
    assert!(server.open_connection("c1".to_string(), "challenge-1".to_string()));
    assert!(!server.open_connection("c1".to_string(), "challenge-2".to_string()));
    assert!(server.has_connection("c1"));
    let r = server.handle_send_public_key("c1", "k", Payload::Valid(InReqSendPublicKey { key: "abc".to_string() }));
    match &sends(&r)[0].1.payload {
        OutPayload::SignMessage(p) => assert_eq!(p.message, "challenge-1"),
        other => panic!("{:?}", other),
    }
    let r = server.handle_send_public_key("nobody", "k", Payload::Valid(InReqSendPublicKey { key: "abc".to_string() }));
    assert!(r.is_empty());
}

#[test]
fn given_password_grants_admin() {
    let mut server = Server::with_password(false, "pw".to_string());
    assert_eq!(server.get_admin_password(), "pw");
    let (a, _) = register(&mut server, "A", 1);
    let r = server.handle_make_admin(
        &a,
        "m",
        Payload::Valid(InReqMakeAdminPayload { admin_password: "pw".to_string(), client_id: a.clone() }),
    );
    assert_eq!(status_of(&r), Status::Success);
    assert!(server.get_client(&a).unwrap().is_admin);
    let fresh = Server::new(false);
    assert_eq!(fresh.get_admin_password().len(), 36);
    assert_eq!(fresh.get_game_state(), GameState::Lobby);
}

#[test]
fn handle_message_dispatches_by_kind() {
    let mut server = Server::new(false);
    let (a, _) = register(&mut server, "A", 1);
    let r = server.handle_message(&a, "u", Inbound::Unknown, 0);
    assert_eq!(status_of(&r), Status::UnknownMessageError);
    let r = server.handle_message(&a, "l", Inbound::ClientList, 0);
    match &sends(&r)[0].1.payload {
        OutPayload::ClientList(p) => assert_eq!(p.clients.len(), 1),
        other => panic!("{:?}", other),
    }
    let r = server.handle_message(&a, "s", Inbound::StartGame(Payload::Missing), 0);
    assert_eq!(status_of(&r), Status::NoRightsError);
    make_admin(&mut server, &a);
    let r = server.handle_message(&a, "s", Inbound::StartGame(Payload::Missing), 0);
    assert_eq!(status_of(&r), Status::MissingPayloadError);
    let r = server.handle_message(&a, "x", Inbound::StopGame, 0);
    assert_eq!(status_of(&r), Status::AlreadyStopped);
    let r = server.handle_message(&a, "c", Inbound::SendChat(Payload::Valid(InReqSendChatPayload { message: "yo".to_string() })), 0);
    assert_eq!(r.len(), 2);
}

#[test]
fn new_game_always_asks_the_admin() {
    let mut server = Server::new(false);
    let (a, _) = register(&mut server, "A", 1);
    let (b, _) = register(&mut server, "B", 2);
    make_admin(&mut server, &b);
    let r = server.handle_start_game(&b, "s", Payload::Valid(InReqStartGamePayload { game_settings: settings(2, 9) }));
    let requests: Vec<_> = sends(&r).into_iter().filter(|(_, m)| matches!(m.payload, OutPayload::Question(_))).collect();
    assert_eq!(requests.len(), 1);
    assert_eq!(requests[0].0, vec![b.clone()]);
    assert!(server.disconnect(&a).len() == 1);
}
