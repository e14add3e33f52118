use vstd::prelude::*;

use crate::auth::{AuthError, PendingAuth};
use crate::correlation::PendingResponses;
use crate::crypto::{signature_check, SignatureError};
use crate::game::{
    answer_recorded, has_answer_of, is_accepted, same_question, AnswerError, Game, GameModel,
    GameState, QuestionError, QuestionOutcome, RoundModel,
};
use crate::ids::new_uuid;
use crate::messages::{
    BaseMessage, Effect, InReqMakeAdminPayload, InReqRegisterClientPayload, InReqSendAnswerPayload,
    InReqSendChatPayload, InReqSendGameSettingsPayload, InReqSendPublicKey, InReqStartGamePayload,
    InReqVerifySignature, InRespQuestionPayload, OutNotifAdminMadePayload,
    OutNotifChatSentPayload, OutNotifClientAnsweredPayload, OutNotifClientDisconnectedPayload,
    OutNotifClientRegisteredPayload, OutNotifGameSettingsChangedPayload,
    OutNotifGameStartedPayload, OutNotifGameStoppedPayload, OutNotifQuestionPayload,
    OutNotifRoundEndedPayload, OutPayload, OutReqQuestionPayload, OutRespClientListPayload,
    OutRespClientRegisteredPayload, OutRespSignMessagePayload, OutRespStatusPayload, Status,
};
use crate::registry::{
    admin_moved, at_most_one_admin, has_admin, has_id, ids_unique, is_new_client, ClientRegistry,
};
use crate::structures::ClientInfo;
use crate::text::{copy_string, same_text};

verus! {

/// A payload as the decoder at the edge found it.
#[derive(Clone, Debug, PartialEq, Eq)]
pub enum Payload<T> {
    Valid(T),
    /// The message carried no payload.
    Missing,
    /// The payload does not have the shape its message type asks for.
    Malformed,
}

/// Why an inbound frame could not be read as a message.
#[derive(Clone, Copy, Debug, PartialEq, Eq, Structural)]
pub enum FrameError {
    /// Receiving the frame failed.
    Receive,
    /// The frame is not text.
    NotText,
    /// The text is not a JSON message envelope.
    InvalidJson,
}

/// One accepted connection: its id, its handshake state and the responses
/// awaited from it.
pub struct ConnectionData {
    pub id: String,
    pub auth: PendingAuth,
    pub responses: PendingResponses,
}

/// A connection as contracts see it.
pub struct ConnectionModel {
    pub id: Seq<char>,
    pub auth: PendingAuth,
    pub pending: Set<Seq<char>>,
}

/// The server as contracts see it.
pub struct ServerModel {
    pub clients: Seq<ClientInfo>,
    pub game: GameModel,
    pub connections: Seq<ConnectionModel>,
    pub admin_password: Seq<char>,
    pub auto_admin: bool,
}

/// No two connections carry the same id.
pub open spec fn connection_ids_unique(s: Seq<ConnectionModel>) -> bool {
    forall|i: int, j: int|
        0 <= i < s.len() && 0 <= j < s.len() && #[trigger] s[i].id == #[trigger] s[j].id ==> i == j
}

/// The position of connection `id` in `s`, or -1.
pub open spec fn connection_index(s: Seq<ConnectionModel>, id: Seq<char>) -> int {
    if exists|i: int| 0 <= i < s.len() && #[trigger] s[i].id == id {
        choose|i: int| 0 <= i < s.len() && #[trigger] s[i].id == id
    } else {
        -1
    }
}

/// Some connection in `conns` has id `id`.
pub open spec fn has_connection_for(conns: Seq<ConnectionModel>, id: Seq<char>) -> bool {
    exists|j: int| 0 <= j < conns.len() && #[trigger] conns[j].id == id
}

/// Every registered client has an open connection.
pub open spec fn clients_connected(m: ServerModel) -> bool {
    forall|i: int| 0 <= i < m.clients.len() ==> has_connection_for(m.connections, (#[trigger] m.clients[i]).id@)
}

/// `to` lists the ids of `clients`, in order.
pub open spec fn addressed_to_all(to: Seq<String>, clients: Seq<ClientInfo>) -> bool {
    &&& to.len() == clients.len()
    &&& forall|i: int| 0 <= i < to.len() ==> #[trigger] to[i]@ == clients[i].id@
}

/// `to` names the one connection `id`.
pub open spec fn addressed_to(to: Seq<String>, id: Seq<char>) -> bool {
    to.len() == 1 && to[0]@ == id
}

/// `e` sends `status` to connection `to` under `correlation_id`.
pub open spec fn is_status(e: Effect, to: Seq<char>, correlation_id: Seq<char>, status: Status) -> bool {
    &&& e matches Effect::Send { to: t, message }
    &&& addressed_to(t@, to)
    &&& message.correlation_id@ == correlation_id
    &&& message.payload == OutPayload::Status(OutRespStatusPayload { status })
}

/// `e` sends a message to connection `to` under `correlation_id`.
pub open spec fn is_reply(e: Effect, to: Seq<char>, correlation_id: Seq<char>) -> bool {
    &&& e matches Effect::Send { to: t, message }
    &&& addressed_to(t@, to)
    &&& message.correlation_id@ == correlation_id
}

/// `e` delivers one message to every client of `clients`.
pub open spec fn is_notice(e: Effect, clients: Seq<ClientInfo>) -> bool {
    &&& e matches Effect::Send { to, message }
    &&& addressed_to_all(to@, clients)
}

/// The payload that `e` sends, when it sends one.
pub open spec fn payload_of(e: Effect) -> OutPayload
    recommends
        e is Send,
{
    e->Send_message.payload
}

/// A single status reply to `to`.
pub open spec fn only_status(r: Seq<Effect>, to: Seq<char>, correlation_id: Seq<char>, status: Status) -> bool {
    r.len() == 1 && is_status(r[0], to, correlation_id, status)
}

/// The replies to a payload that is missing or malformed; the server does
/// not change then.
pub open spec fn payload_refused<T>(p: Payload<T>, r: Seq<Effect>, to: Seq<char>, correlation_id: Seq<char>) -> bool {
    &&& p is Missing ==> only_status(r, to, correlation_id, Status::MissingPayloadError)
    &&& p is Malformed ==> only_status(r, to, correlation_id, Status::WrongPayloadError)
}

/// `after` is `before` with one more client: id `id`, name `name`, key
/// `key`, not an admin.
pub open spec fn registered(before: Seq<ClientInfo>, after: Seq<ClientInfo>, id: Seq<char>, name: Seq<char>, key: Seq<char>) -> bool {
    &&& after.len() == before.len() + 1
    &&& after.drop_last() == before
    &&& is_new_client(after.last(), id, name, key)
}

/// The id of the admin among `clients`.
pub open spec fn admin_of(clients: Seq<ClientInfo>) -> Seq<char>
    recommends
        has_admin(clients),
{
    clients[choose|i: int| 0 <= i < clients.len() && #[trigger] clients[i].is_admin].id@
}

/// Asking the admin for the next question: when there is an admin, one
/// request goes to its connection under a fresh correlation id, which that
/// connection now awaits; without an admin nothing happens.
pub open spec fn question_requested(before: ServerModel, after: ServerModel, r: Seq<Effect>) -> bool {
    let k = connection_index(before.connections, admin_of(before.clients));
    if has_admin(before.clients) {
        &&& r.len() == 1
        &&& is_reply(r[0], admin_of(before.clients), r[0]->Send_message.correlation_id@)
        &&& payload_of(r[0]) == OutPayload::Question(OutReqQuestionPayload {})
        &&& after == (ServerModel {
            connections: before.connections.update(k, ConnectionModel {
                pending: before.connections[k].pending.insert(r[0]->Send_message.correlation_id@),
                ..before.connections[k]
            }),
            ..before
        })
    } else {
        r.len() == 0 && after == before
    }
}

/// What follows when the game has entered its current phase: starting a
/// game is announced and the admin is asked for a question; a finished
/// round is announced with its question and answers and the admin is asked
/// for the next; a return to the lobby is announced with the last round's
/// question and answers.
pub open spec fn entered_state(before: ServerModel, after: ServerModel, r: Seq<Effect>) -> bool {
    let g = before.game;
    match g.state {
        GameState::GameStarting => {
            &&& r.len() >= 1
            &&& is_notice(r[0], before.clients)
            &&& payload_of(r[0]) == OutPayload::GameStarted(OutNotifGameStartedPayload { game_settings: g.settings })
            &&& question_requested(before, after, r.skip(1))
        },
        GameState::WaitingQuestion => {
            let last = g.rounds[g.round_index - 1];
            &&& r.len() >= 1
            &&& is_notice(r[0], before.clients)
            &&& payload_of(r[0]) matches OutPayload::RoundEnded(x) && same_question(x.question, last.question) && x.answers@ == last.answers
            &&& question_requested(before, after, r.skip(1))
        },
        GameState::Lobby => {
            &&& after == before
            &&& r.len() == 1
            &&& is_notice(r[0], before.clients)
            &&& payload_of(r[0]) matches OutPayload::GameStopped(x) && {
                &&& (x.question is None <==> g.round_index >= g.rounds.len())
                &&& (x.question matches Some(q) ==> same_question(q, g.rounds[g.round_index as int].question))
                &&& x.answers@ == g.current_answers()
            }
        },
        _ => r.len() == 0 && after == before,
    }
}

/// Client `id` is registered and is the admin.
pub open spec fn is_admin_client(clients: Seq<ClientInfo>, id: Seq<char>) -> bool {
    exists|i: int| 0 <= i < clients.len() && #[trigger] clients[i].id@ == id && clients[i].is_admin
}

/// `m` with the game replaced by `g`.
pub open spec fn with_game(m: ServerModel, g: GameModel) -> ServerModel {
    ServerModel { game: g, ..m }
}

/// The status that answers a frame that could not be read.
pub open spec fn frame_status(e: FrameError) -> Status {
    match e {
        FrameError::Receive => Status::ReceivingMessageError,
        FrameError::NotText => Status::InvalidTextError,
        FrameError::InvalidJson => Status::InvalidJsonError,
    }
}

/// A client submits its public key: it is stored and the challenge to
/// sign is returned; refused once the connection is validated.
pub open spec fn key_submitted(
    before: ServerModel,
    after: ServerModel,
    conn: Seq<char>,
    correlation_id: Seq<char>,
    payload: Payload<InReqSendPublicKey>,
    r: Seq<Effect>,
) -> bool {
    &&& (!(payload is Valid) ==> payload_refused(payload, r, conn, correlation_id) && after == before)
    &&& (payload matches Payload::Valid(p) ==> ({
        let k = connection_index(before.connections, conn);
        let auth = before.connections[k].auth;
        &&& k < 0 ==> r.len() == 0 && after == before
        &&& k >= 0 && auth.validated ==> only_status(r, conn, correlation_id, Status::AlreadyValidatedError)
            && after == before
        &&& k >= 0 && !auth.validated ==> {
            &&& after == (ServerModel {
                connections: before.connections.update(k, ConnectionModel {
                    auth: PendingAuth { key: Some(p.key), ..auth },
                    ..before.connections[k]
                }),
                ..before
            })
            &&& r.len() == 1
            &&& is_reply(r[0], conn, correlation_id)
            &&& payload_of(r[0]) == OutPayload::SignMessage(OutRespSignMessagePayload { message: auth.challenge })
        }
    }))
}

/// A client submits its signature of the challenge: a valid one
/// validates the connection.
pub open spec fn signature_submitted(
    before: ServerModel,
    after: ServerModel,
    conn: Seq<char>,
    correlation_id: Seq<char>,
    payload: Payload<InReqVerifySignature>,
    r: Seq<Effect>,
) -> bool {
    &&& (!(payload is Valid) ==> payload_refused(payload, r, conn, correlation_id) && after == before)
    &&& (payload matches Payload::Valid(p) ==> ({
        let k = connection_index(before.connections, conn);
        let auth = before.connections[k].auth;
        let valid = auth.key is Some && signature_check(auth.key.unwrap()@, auth.challenge@, p.signature@)
            == Ok::<bool, SignatureError>(true);
        &&& k < 0 ==> r.len() == 0 && after == before
        &&& k >= 0 && auth.validated ==> only_status(r, conn, correlation_id, Status::AlreadyValidatedError)
            && after == before
        &&& k >= 0 && !auth.validated && auth.key is None ==> only_status(r, conn, correlation_id, Status::NoKeyError)
            && after == before
        &&& k >= 0 && !auth.validated && auth.key is Some && !valid ==> only_status(r, conn, correlation_id, Status::WrongSignatureError)
            && after == before
        &&& k >= 0 && !auth.validated && valid ==> only_status(r, conn, correlation_id, Status::Success)
            && after == (ServerModel {
                connections: before.connections.update(k, ConnectionModel {
                    auth: PendingAuth { validated: true, ..auth },
                    ..before.connections[k]
                }),
                ..before
            })
    }))
}

/// A validated connection registers under a display name; the client is
/// told its id and the settings, and every client sees the newcomer.
/// Under the auto-admin policy the first client while there is no admin
/// is made admin at once.
pub open spec fn registration_handled(
    before: ServerModel,
    after: ServerModel,
    conn: Seq<char>,
    correlation_id: Seq<char>,
    payload: Payload<InReqRegisterClientPayload>,
    r: Seq<Effect>,
) -> bool {
    &&& (!(payload is Valid) ==> payload_refused(payload, r, conn, correlation_id) && after == before)
    &&& (payload matches Payload::Valid(p) ==> ({
        let k = connection_index(before.connections, conn);
        let auth = before.connections[k].auth;
        let auto = before.auto_admin && !has_admin(before.clients);
        &&& k < 0 ==> r.len() == 0 && after == before
        &&& k >= 0 && !auth.validated ==> only_status(r, conn, correlation_id, Status::NotValidatedError)
            && after == before
        &&& k >= 0 && auth.validated && has_id(before.clients, conn) ==> only_status(r, conn, correlation_id, Status::AlreadyRegisteredError)
            && after == before
        &&& k >= 0 && auth.validated && !has_id(before.clients, conn) ==> exists|joined: Seq<ClientInfo>| {
            &&& #[trigger] registered(before.clients, joined, conn, p.name@, auth.key.unwrap()@)
            &&& after == (ServerModel { clients: after.clients, ..before })
            &&& is_reply(r[0], conn, correlation_id)
            &&& payload_of(r[0]) matches OutPayload::ClientRegistered(x) && x.id@ == conn && x.game_settings == before.game.settings
            &&& is_notice(r[1], joined)
            &&& payload_of(r[1]) == OutPayload::ClientRegisteredNotice(OutNotifClientRegisteredPayload { client: joined.last() })
            &&& !auto ==> r.len() == 2 && after.clients == joined
            &&& auto ==> {
                &&& r.len() == 4
                &&& admin_moved(joined, after.clients, conn)
                &&& is_reply(r[2], conn, r[2]->Send_message.correlation_id@)
                &&& payload_of(r[2]) == OutPayload::Status(OutRespStatusPayload { status: Status::Success })
                &&& is_notice(r[3], after.clients)
                &&& payload_of(r[3]) matches OutPayload::AdminMade(x) && x.id@ == conn
            }
        }
    }))
}

/// A registered client asks to make client `client_id` the admin; the
/// admin password must match. On success the target becomes the only
/// admin and every client is told once.
pub open spec fn admin_request_handled(
    before: ServerModel,
    after: ServerModel,
    conn: Seq<char>,
    correlation_id: Seq<char>,
    payload: Payload<InReqMakeAdminPayload>,
    r: Seq<Effect>,
) -> bool {
    &&& (!has_id(before.clients, conn) ==> only_status(r, conn, correlation_id, Status::NotRegisteredError) && after == before)
    &&& (has_id(before.clients, conn) && !(payload is Valid) ==> payload_refused(payload, r, conn, correlation_id) && after == before)
    &&& (has_id(before.clients, conn) ==> (payload matches Payload::Valid(p) ==> {
        &&& p.admin_password@ != before.admin_password ==> only_status(r, conn, correlation_id, Status::WrongPasswordError)
            && after == before
        &&& p.admin_password@ == before.admin_password && !has_id(before.clients, p.client_id@) ==> only_status(r, conn, correlation_id, Status::MissingClientError)
            && after == before
        &&& p.admin_password@ == before.admin_password && has_id(before.clients, p.client_id@) ==> {
            &&& after == (ServerModel { clients: after.clients, ..before })
            &&& admin_moved(before.clients, after.clients, p.client_id@)
            &&& r.len() == 2
            &&& is_status(r[0], conn, correlation_id, Status::Success)
            &&& is_notice(r[1], after.clients)
            &&& payload_of(r[1]) matches OutPayload::AdminMade(x) && x.id@ == p.client_id@
        }
    }))
}

/// The admin starts a game from the lobby with the given settings.
pub open spec fn start_request_handled(
    before: ServerModel,
    after: ServerModel,
    conn: Seq<char>,
    correlation_id: Seq<char>,
    payload: Payload<InReqStartGamePayload>,
    r: Seq<Effect>,
) -> bool {
    &&& (!has_id(before.clients, conn) ==> only_status(r, conn, correlation_id, Status::NotRegisteredError) && after == before)
    &&& (has_id(before.clients, conn) && !is_admin_client(before.clients, conn) ==> only_status(r, conn, correlation_id, Status::NoRightsError)
        && after == before)
    &&& (is_admin_client(before.clients, conn) && !(payload is Valid) ==> payload_refused(payload, r, conn, correlation_id) && after == before)
    &&& (is_admin_client(before.clients, conn) ==> (payload matches Payload::Valid(p) ==> {
        &&& before.game.state != GameState::Lobby ==> only_status(r, conn, correlation_id, Status::AlreadyStarted)
            && after == before
        &&& before.game.state == GameState::Lobby ==> {
            &&& r.len() >= 1
            &&& is_status(r[0], conn, correlation_id, Status::Success)
            &&& entered_state(with_game(before, GameModel {
                state: GameState::GameStarting,
                round_index: 0,
                settings: p.game_settings,
                end_game: false,
                rounds: Seq::empty(),
                timer: None,
            }), after, r.skip(1))
        }
    }))
}

/// The admin stops the game. The stop takes effect at the next decision:
/// an open round is cancelled and decided at once (back to the lobby);
/// otherwise the admin's next question ends the game.
pub open spec fn stop_request_handled(
    before: ServerModel,
    after: ServerModel,
    conn: Seq<char>,
    correlation_id: Seq<char>,
    r: Seq<Effect>,
) -> bool {
    &&& (!has_id(before.clients, conn) ==> only_status(r, conn, correlation_id, Status::NotRegisteredError) && after == before)
    &&& (has_id(before.clients, conn) && !is_admin_client(before.clients, conn) ==> only_status(r, conn, correlation_id, Status::NoRightsError)
        && after == before)
    &&& (is_admin_client(before.clients, conn) ==> {
        let marked = GameModel { end_game: true, ..before.game };
        &&& before.game.state == GameState::Lobby ==> only_status(r, conn, correlation_id, Status::AlreadyStopped)
            && after == before
        &&& before.game.state == GameState::AnswerQuestion ==> {
            &&& r.len() >= 2
            &&& is_status(r[0], conn, correlation_id, Status::Success)
            &&& r[1] == Effect::CancelTimer { token: before.game.timer.unwrap() }
            &&& marked.after_round(after.game)
            &&& entered_state(with_game(before, after.game), after, r.skip(2))
        }
        &&& before.game.state != GameState::Lobby && before.game.state != GameState::AnswerQuestion ==> only_status(r, conn, correlation_id, Status::Success)
            && after == with_game(before, marked)
    })
}

/// A registered client answers the open round. Once every registered
/// client has answered, the round is cancelled and decided at once.
pub open spec fn answer_handled(
    before: ServerModel,
    after: ServerModel,
    conn: Seq<char>,
    correlation_id: Seq<char>,
    payload: Payload<InReqSendAnswerPayload>,
    now: u64,
    r: Seq<Effect>,
) -> bool {
    &&& (!has_id(before.clients, conn) ==> only_status(r, conn, correlation_id, Status::NotRegisteredError) && after == before)
    &&& (has_id(before.clients, conn) && !(payload is Valid) ==> payload_refused(payload, r, conn, correlation_id) && after == before)
    &&& (has_id(before.clients, conn) ==> (payload matches Payload::Valid(p) ==> {
        let g = before.game;
        &&& !g.round_open() ==> only_status(r, conn, correlation_id, Status::NoQuestion) && after == before
        &&& g.round_open() && has_answer_of(g.current_answers(), conn) ==> only_status(r, conn, correlation_id, Status::AlreadyAnswered)
            && after == before
        &&& g.round_open() && !has_answer_of(g.current_answers(), conn) ==> exists|recorded: GameModel| {
            &&& #[trigger] answer_recorded(g, recorded, conn, p.answer@, now, Ok(is_accepted(g.rounds[g.round_index as int].question, p.answer@)))
            &&& r.len() >= 2
            &&& is_status(r[0], conn, correlation_id, Status::Success)
            &&& is_notice(r[1], before.clients)
            &&& payload_of(r[1]) matches OutPayload::ClientAnswered(x) && x.id@ == conn
            &&& recorded.current_answers().len() != before.clients.len() ==> r.len() == 2 && after == with_game(before, recorded)
            &&& recorded.current_answers().len() == before.clients.len() ==> {
                &&& r.len() >= 3
                &&& r[2] == Effect::CancelTimer { token: g.timer.unwrap() }
                &&& recorded.after_round(after.game)
                &&& after.game.state != GameState::AnswerQuestion
                &&& entered_state(with_game(before, after.game), after, r.skip(3))
            }
        }
    }))
}

/// The admin's response with the next question: the round opens and
/// every client sees the question, or, with a stop pending, the game
/// returns to the lobby.
pub open spec fn question_handled(
    before: ServerModel,
    after: ServerModel,
    conn: Seq<char>,
    correlation_id: Seq<char>,
    payload: Payload<InRespQuestionPayload>,
    r: Seq<Effect>,
) -> bool {
    &&& (!has_id(before.clients, conn) ==> only_status(r, conn, correlation_id, Status::NotRegisteredError) && after == before)
    &&& (has_id(before.clients, conn) && !(payload is Valid) ==> payload_refused(payload, r, conn, correlation_id) && after == before)
    &&& (has_id(before.clients, conn) ==> (payload matches Payload::Valid(p) ==> {
        let g = before.game;
        let waiting = g.state == GameState::GameStarting || g.state == GameState::WaitingQuestion;
        &&& g.rounds.len() > g.round_index ==> only_status(r, conn, correlation_id, Status::AlreadyExist) && after == before
        &&& g.rounds.len() == g.round_index && !waiting ==> only_status(r, conn, correlation_id, Status::NotExpected) && after == before
        &&& waiting && g.end_game ==> {
            &&& after.game == (GameModel { state: GameState::Lobby, end_game: false, ..g })
            &&& entered_state(with_game(before, after.game), after, r)
        }
        &&& waiting && !g.end_game ==> {
            &&& r.len() == 2
            &&& r[0] matches Effect::StartTimer { token, seconds } && seconds == g.settings.round_duration
                && after == with_game(before, GameModel {
                    state: GameState::AnswerQuestion,
                    rounds: g.rounds.push(RoundModel { question: p.question, answers: Seq::empty() }),
                    timer: Some(token),
                    ..g
                })
            &&& is_notice(r[1], before.clients)
            &&& payload_of(r[1]) == OutPayload::QuestionNotice(OutNotifQuestionPayload { question_svg: p.question_svg })
        }
    }))
}

/// A registered client replaces the game settings; every client is told.
pub open spec fn settings_request_handled(
    before: ServerModel,
    after: ServerModel,
    conn: Seq<char>,
    correlation_id: Seq<char>,
    payload: Payload<InReqSendGameSettingsPayload>,
    r: Seq<Effect>,
) -> bool {
    &&& (!has_id(before.clients, conn) ==> only_status(r, conn, correlation_id, Status::NotRegisteredError) && after == before)
    &&& (has_id(before.clients, conn) && !(payload is Valid) ==> payload_refused(payload, r, conn, correlation_id) && after == before)
    &&& (has_id(before.clients, conn) ==> (payload matches Payload::Valid(p) ==> {
        &&& after == with_game(before, GameModel { settings: p.game_settings, ..before.game })
        &&& r.len() == 2
        &&& is_notice(r[0], before.clients)
        &&& payload_of(r[0]) == OutPayload::GameSettingsChanged(OutNotifGameSettingsChangedPayload { game_settings: p.game_settings })
        &&& is_status(r[1], conn, correlation_id, Status::Success)
    }))
}

/// A registered client sends a chat message; every client receives it.
pub open spec fn chat_handled(
    before: ServerModel,
    conn: Seq<char>,
    correlation_id: Seq<char>,
    payload: Payload<InReqSendChatPayload>,
    r: Seq<Effect>,
) -> bool {
    &&& (!has_id(before.clients, conn) ==> only_status(r, conn, correlation_id, Status::NotRegisteredError))
    &&& (has_id(before.clients, conn) && !(payload is Valid) ==> payload_refused(payload, r, conn, correlation_id))
    &&& (has_id(before.clients, conn) ==> (payload matches Payload::Valid(p) ==> {
        &&& r.len() == 2
        &&& is_notice(r[0], before.clients)
        &&& payload_of(r[0]) matches OutPayload::ChatSent(x) && x.id@ == conn && x.message == p.message
        &&& is_status(r[1], conn, correlation_id, Status::Success)
    }))
}

/// A registered client asks for the list of registered clients.
pub open spec fn client_list_handled(
    before: ServerModel,
    conn: Seq<char>,
    correlation_id: Seq<char>,
    r: Seq<Effect>,
) -> bool {
    &&& (!has_id(before.clients, conn) ==> only_status(r, conn, correlation_id, Status::NotRegisteredError))
    &&& (has_id(before.clients, conn) ==> {
        &&& r.len() == 1
        &&& is_reply(r[0], conn, correlation_id)
        &&& payload_of(r[0]) matches OutPayload::ClientList(x) && x.clients@ == before.clients
    })
}

/// An inbound message as the edge decoded it: one variant per request
/// kind, the admin's response to a question request, or a message of a type
/// outside the vocabulary.
#[derive(Clone, Debug, PartialEq, Eq)]
pub enum Inbound {
    SendPublicKey(Payload<InReqSendPublicKey>),
    VerifySignature(Payload<InReqVerifySignature>),
    RegisterClient(Payload<InReqRegisterClientPayload>),
    ClientList,
    SendChat(Payload<InReqSendChatPayload>),
    MakeAdmin(Payload<InReqMakeAdminPayload>),
    StartGame(Payload<InReqStartGamePayload>),
    StopGame,
    SendAnswer(Payload<InReqSendAnswerPayload>),
    SendGameSettings(Payload<InReqSendGameSettingsPayload>),
    QuestionResponse(Payload<InRespQuestionPayload>),
    Unknown,
}

/// What handling `message` from connection `conn` does, by its kind.
pub open spec fn message_handled(
    before: ServerModel,
    after: ServerModel,
    conn: Seq<char>,
    correlation_id: Seq<char>,
    message: Inbound,
    now: u64,
    r: Seq<Effect>,
) -> bool {
    match message {
        Inbound::SendPublicKey(p) => key_submitted(before, after, conn, correlation_id, p, r),
        Inbound::VerifySignature(p) => signature_submitted(before, after, conn, correlation_id, p, r),
        Inbound::RegisterClient(p) => registration_handled(before, after, conn, correlation_id, p, r),
        Inbound::ClientList => after == before && client_list_handled(before, conn, correlation_id, r),
        Inbound::SendChat(p) => after == before && chat_handled(before, conn, correlation_id, p, r),
        Inbound::MakeAdmin(p) => admin_request_handled(before, after, conn, correlation_id, p, r),
        Inbound::StartGame(p) => start_request_handled(before, after, conn, correlation_id, p, r),
        Inbound::StopGame => stop_request_handled(before, after, conn, correlation_id, r),
        Inbound::SendAnswer(p) => answer_handled(before, after, conn, correlation_id, p, now, r),
        Inbound::SendGameSettings(p) => settings_request_handled(before, after, conn, correlation_id, p, r),
        Inbound::QuestionResponse(p) => question_handled(before, after, conn, correlation_id, p, r),
        Inbound::Unknown => after == before && only_status(r, conn, correlation_id, Status::UnknownMessageError),
    }
}

/// The multiplayer game server: client registry, game, and connections.
pub struct Server {
    registry: ClientRegistry,
    game: Game,
    connections: Vec<ConnectionData>,
    admin_password: String,
    auto_admin: bool,
}

impl View for Server {
    type V = ServerModel;

    closed spec fn view(&self) -> ServerModel {
        ServerModel {
            clients: self.registry@,
            game: self.game@,
            connections: self.connections@.map_values(|c: ConnectionData| ConnectionModel {
                id: c.id@,
                auth: c.auth,
                pending: c.responses@,
            }),
            admin_password: self.admin_password@,
            auto_admin: self.auto_admin,
        }
    }
}

impl Server {
    pub closed spec fn well_formed(&self) -> bool {
        &&& self.registry.well_formed()
        &&& self.game.well_formed()
        &&& connection_ids_unique(self@.connections)
        &&& forall|i: int| 0 <= i < self.connections@.len() ==> (#[trigger] self.connections@[i]).responses.well_formed()
        &&& forall|i: int| 0 <= i < self.connections@.len() ==> (#[trigger] self.connections@[i]).auth.validated ==> self.connections@[i].auth.key is Some
        &&& clients_connected(self@)
    }

    /// Clients keep their connections when neither the client ids nor the
    /// connection ids change.
    proof fn lemma_connected_kept(before: ServerModel, after: ServerModel)
        requires
            clients_connected(before),
            after.clients.len() == before.clients.len(),
            forall|i: int| 0 <= i < after.clients.len() ==> #[trigger] after.clients[i].id@ == before.clients[i].id@,
            after.connections.len() >= before.connections.len(),
            forall|j: int| 0 <= j < before.connections.len() ==> #[trigger] after.connections[j].id == before.connections[j].id,
        ensures
            clients_connected(after),
    {
        assert forall|i: int| 0 <= i < after.clients.len() implies has_connection_for(after.connections, (#[trigger] after.clients[i]).id@) by {
            assert(before.clients[i].id@ == after.clients[i].id@);
            assert(has_connection_for(before.connections, before.clients[i].id@));
            let j = choose|j: int| 0 <= j < before.connections.len() && #[trigger] before.connections[j].id == before.clients[i].id@;
            assert(after.connections[j].id == before.connections[j].id);
        }
    }

    /// After client `conn` leaves the registry, each remaining client has
    /// another id and had an open connection.
    proof fn lemma_leaver_gone(before: ServerModel, left: Seq<ClientInfo>, conn: Seq<char>)
        requires
            clients_connected(before),
            ids_unique(before.clients),
            has_id(before.clients, conn) ==> exists|i: int|
                0 <= i < before.clients.len() && #[trigger] before.clients[i].id@ == conn && left == before.clients.remove(i),
            !has_id(before.clients, conn) ==> left == before.clients,
        ensures
            forall|i: int| 0 <= i < left.len() ==> (#[trigger] left[i]).id@ != conn && has_connection_for(before.connections, left[i].id@),
    {
        if has_id(before.clients, conn) {
            let k = choose|i: int|
                0 <= i < before.clients.len() && #[trigger] before.clients[i].id@ == conn && left == before.clients.remove(i);
            assert forall|i: int| 0 <= i < left.len() implies (#[trigger] left[i]).id@ != conn && has_connection_for(before.connections, left[i].id@) by {
                let a = if i < k { i } else { i + 1 };
                assert(left[i] == before.clients[a]);
                assert(has_connection_for(before.connections, before.clients[a].id@));
                if before.clients[a].id@ == conn {
                    assert(before.clients[a].id@ == before.clients[k].id@);
                }
            }
        } else {
            assert forall|i: int| 0 <= i < left.len() implies (#[trigger] left[i]).id@ != conn && has_connection_for(before.connections, left[i].id@) by {
                assert(has_connection_for(before.connections, before.clients[i].id@));
                if before.clients[i].id@ == conn {
                    assert(has_id(before.clients, conn));
                }
            }
        }
    }

    /// Dropping the connection `conn` (at `k`, or none when `k` is -1)
    /// leaves every client of `left` connected.
    proof fn lemma_connected_after_leave(conns: Seq<ConnectionModel>, after: Seq<ConnectionModel>, left: Seq<ClientInfo>, conn: Seq<char>, k: int)
        requires
            forall|i: int| 0 <= i < left.len() ==> (#[trigger] left[i]).id@ != conn && has_connection_for(conns, left[i].id@),
            k == -1 ==> after == conns,
            k != -1 ==> 0 <= k < conns.len() && conns[k].id == conn && after == conns.remove(k),
        ensures
            forall|i: int| 0 <= i < left.len() ==> has_connection_for(after, (#[trigger] left[i]).id@),
    {
        assert forall|i: int| 0 <= i < left.len() implies has_connection_for(after, (#[trigger] left[i]).id@) by {
            let id = left[i].id@;
            assert(id != conn && has_connection_for(conns, id));
            let j = choose|j: int| 0 <= j < conns.len() && #[trigger] conns[j].id == id;
            if k != -1 {
                assert(j != k);
                let b = if j < k { j } else { j - 1 };
                assert(after[b] == conns[j]);
            } else {
                assert(after[j] == conns[j]);
            }
        }
    }

    /// Every registered client has an open connection.
    pub proof fn lemma_clients_connected(&self)
        requires
            self.well_formed(),
        ensures
            clients_connected(self@),
    {
    }

    /// In every reachable state a client id has at most one entry in the
    /// registry, and at most one client is admin: registering again from the
    /// same connection never adds a second entry.
    pub proof fn lemma_one_entry_per_client(&self)
        requires
            self.well_formed(),
        ensures
            ids_unique(self@.clients),
            at_most_one_admin(self@.clients),
    {
    }

    /// In every reachable state the game keeps its invariant: an open round
    /// has its question and an armed timer, the ledger holds rounds 0..k, and
    /// no client has two answers in a round.
    pub proof fn lemma_game_consistent(&self)
        requires
            self.well_formed(),
        ensures
            self@.game.consistent(),
    {
    }

    proof fn lemma_connection_view(&self, i: int)
        requires
            0 <= i < self.connections@.len(),
        ensures
            self@.connections.len() == self.connections@.len(),
            self@.connections[i].id == self.connections@[i].id@,
            self@.connections[i].auth == self.connections@[i].auth,
            self@.connections[i].pending == self.connections@[i].responses@,
    {
    }

    /// A server in the lobby with no connection, a newly generated admin
    /// password, and no client; `auto_admin` makes the first client to
    /// register the admin.
    pub fn new(auto_admin: bool) -> (r: Server)
        ensures
            r.well_formed(),
            r@.clients.len() == 0,
            r@.connections.len() == 0,
            r@.game.state == GameState::Lobby,
            r@.game.round_index == 0,
            r@.game.rounds.len() == 0,
            r@.auto_admin == auto_admin,
            r@.admin_password.len() == 36,
    {
        Server::with_password(auto_admin, new_uuid())
    }

    /// A server in the lobby with no connection and no client, whose admin
    /// password is `admin_password`.
    pub fn with_password(auto_admin: bool, admin_password: String) -> (r: Server)
        ensures
            r.well_formed(),
            r@.clients.len() == 0,
            r@.connections.len() == 0,
            r@.game.state == GameState::Lobby,
            r@.game.round_index == 0,
            r@.game.rounds.len() == 0,
            r@.auto_admin == auto_admin,
            r@.admin_password == admin_password@,
    {
        let s = Server {
            registry: ClientRegistry::new(),
            game: Game::new(),
            connections: Vec::new(),
            admin_password,
            auto_admin,
        };
        assert(s@.connections =~= Seq::<ConnectionModel>::empty());
        s
    }

    /// The password that grants admin rights.
    pub fn get_admin_password(&self) -> (r: String)
        ensures
            r@ == self@.admin_password,
    {
        copy_string(&self.admin_password)
    }

    /// The registered clients.
    pub fn get_client_list(&self) -> (r: Vec<ClientInfo>)
        ensures
            r@ == self@.clients,
    {
        self.registry.get_client_list()
    }

    /// The record of client `id`, if registered.
    pub fn get_client(&self, id: &str) -> (r: Option<ClientInfo>)
        ensures
            r is None <==> !has_id(self@.clients, id@),
            r matches Some(c) ==> c.id@ == id@ && exists|i: int|
                0 <= i < self@.clients.len() && #[trigger] self@.clients[i] == c,
    {
        let r = self.registry.get_client(id);
        proof {
            if r is Some {
                let c = r->0;
                let i = choose|i: int| 0 <= i < self.registry@.len() && #[trigger] self.registry@[i] == c;
                assert(self@.clients[i] == c);
            }
        }
        r
    }

    /// The current phase of the game.
    pub fn get_game_state(&self) -> (r: GameState)
        ensures
            r == self@.game.state,
    {
        self.game.get_game_state()
    }

    /// The game, for reading.
    pub fn game(&self) -> (r: &Game)
        ensures
            r@ == self@.game,
    {
        &self.game
    }

    /// The position of connection `id`.
    fn find_connection(&self, id: &str) -> (r: Option<usize>)
        ensures
            r matches Some(i) ==> i < self@.connections.len() && self@.connections[i as int].id == id@,
            r is None ==> connection_index(self@.connections, id@) == -1,
    {
        let mut i: usize = 0;
        while i < self.connections.len()
            invariant
                i <= self.connections@.len(),
                forall|j: int| 0 <= j < i ==> #[trigger] self.connections@[j].id@ != id@,
            decreases self.connections@.len() - i,
        {
            if same_text(self.connections[i].id.as_str(), id) {
                proof {
                    self.lemma_connection_view(i as int);
                }
                return Some(i);
            }
            i = i + 1;
        }
        proof {
            if exists|j: int| 0 <= j < self@.connections.len() && #[trigger] self@.connections[j].id == id@ {
                let j = choose|j: int| 0 <= j < self@.connections.len() && #[trigger] self@.connections[j].id == id@;
                self.lemma_connection_view(j);
            }
        }
        None
    }

    /// Whether connection `id` is open.
    pub fn has_connection(&self, id: &str) -> (r: bool)
        requires
            self.well_formed(),
        ensures
            r == (connection_index(self@.connections, id@) >= 0),
    {
        match self.find_connection(id) {
            Some(i) => {
                proof {
                    self.lemma_index_of(i as int);
                }
                true
            },
            None => false,
        }
    }

    proof fn lemma_index_of(&self, i: int)
        requires
            self.well_formed(),
            0 <= i < self@.connections.len(),
        ensures
            connection_index(self@.connections, self@.connections[i].id) == i,
    {
        let id = self@.connections[i].id;
        assert(exists|j: int| 0 <= j < self@.connections.len() && #[trigger] self@.connections[j].id == id);
        let k = choose|j: int| 0 <= j < self@.connections.len() && #[trigger] self@.connections[j].id == id;
        assert(self@.connections[k].id == self@.connections[i].id);
    }

    /// Opens a connection under a freshly generated id, with a freshly
    /// generated challenge; `None`, with nothing changed, in the unlikely
    /// case that the generated id is taken.
    pub fn connect(&mut self) -> (r: Option<String>)
        requires
            old(self).well_formed(),
        ensures
            final(self).well_formed(),
            final(self)@.clients == old(self)@.clients,
            final(self)@.game == old(self)@.game,
            r is None ==> final(self)@ == old(self)@,
            r is None ==> exists|i: int|
                0 <= i < old(self)@.connections.len() && #[trigger] old(self)@.connections[i].id.len() == 36,
            r matches Some(id) ==> {
                &&& id@.len() == 36
                &&& connection_index(old(self)@.connections, id@) == -1
                &&& final(self)@.connections.len() == old(self)@.connections.len() + 1
                &&& final(self)@.connections.drop_last() == old(self)@.connections
                &&& final(self)@.connections.last().id == id@
                &&& final(self)@.connections.last().auth.key is None
                &&& !final(self)@.connections.last().auth.validated
                &&& final(self)@.connections.last().pending.is_empty()
            },
    {
        let id = new_uuid();
        let out = copy_string(&id);
        if self.open_connection(id, new_uuid()) {
            Some(out)
        } else {
            proof {
                let i = choose|i: int| 0 <= i < old(self)@.connections.len() && #[trigger] old(self)@.connections[i].id == out@;
                assert(old(self)@.connections[i].id.len() == 36);
            }
            None
        }
    }

    /// Opens a connection with id `id` whose handshake challenge is
    /// `challenge`; refused (false), with nothing changed, when a connection
    /// with that id is open.
    pub fn open_connection(&mut self, id: String, challenge: String) -> (r: bool)
        requires
            old(self).well_formed(),
        ensures
            final(self).well_formed(),
            r == (connection_index(old(self)@.connections, id@) == -1),
            !r ==> final(self)@ == old(self)@,
            r ==> final(self)@ == (ServerModel {
                connections: old(self)@.connections.push(ConnectionModel {
                    id: id@,
                    auth: PendingAuth { challenge, key: None, validated: false },
                    pending: Set::empty(),
                }),
                ..old(self)@
            }),
    {
        if self.find_connection(id.as_str()).is_some() {
            proof {
                let i = choose|i: int| 0 <= i < self@.connections.len() && #[trigger] self@.connections[i].id == id@;
                self.lemma_index_of(i);
            }
            return false;
        }
        let ghost before = self@;
        let ghost key = id@;
        self.connections.push(ConnectionData { id, auth: PendingAuth::with_challenge(challenge), responses: PendingResponses::new() });
        proof {
            let n = before.connections.len();
            assert(self@.connections.last().pending =~= Set::<Seq<char>>::empty());
            assert(self@.connections =~= before.connections.push(self@.connections.last()));
            assert forall|i: int, j: int|
                0 <= i < self@.connections.len() && 0 <= j < self@.connections.len() && #[trigger] self@.connections[i].id
                    == #[trigger] self@.connections[j].id implies i == j by {
                if i < n && j < n {
                    assert(before.connections[i].id == before.connections[j].id);
                } else if i < n {
                    assert(before.connections[i].id == key);
                } else if j < n {
                    assert(before.connections[j].id == key);
                }
            }
            Self::lemma_connected_kept(before, self@);
        }
        true
    }

    /// Routes a response: when connection `conn` awaits a response under
    /// `correlation_id`, that request is completed (true) and no longer
    /// awaited; otherwise nothing changes (false).
    pub fn take_response(&mut self, conn: &str, correlation_id: &str) -> (r: bool)
        requires
            old(self).well_formed(),
        ensures
            final(self).well_formed(),
            final(self)@.clients == old(self)@.clients,
            final(self)@.game == old(self)@.game,
            final(self)@.connections.len() == old(self)@.connections.len(),
            ({
                let k = connection_index(old(self)@.connections, conn@);
                &&& r == (k >= 0 && old(self)@.connections[k].pending.contains(correlation_id@))
                &&& r ==> final(self)@.connections == old(self)@.connections.update(k, ConnectionModel {
                    pending: old(self)@.connections[k].pending.remove(correlation_id@),
                    ..old(self)@.connections[k]
                })
                &&& !r ==> final(self)@ == old(self)@
            }),
    {
        match self.find_connection(conn) {
            None => false,
            Some(i) => {
                proof {
                    self.lemma_index_of(i as int);
                    self.lemma_connection_view(i as int);
                }
                if !self.connections[i].responses.contains(correlation_id) {
                    return false;
                }
                let ghost before = self@;
                let ghost before_conns = self.connections@;
                self.connections[i].responses.complete(correlation_id);
                proof {
                    self.lemma_connection_view(i as int);
                    assert forall|j: int| 0 <= j < self.connections@.len() && j != i implies #[trigger] self.connections@[j] == before_conns[j] by {}
                    assert(self@.connections =~= before.connections.update(i as int, ConnectionModel {
                        pending: before.connections[i as int].pending.remove(correlation_id@),
                        ..before.connections[i as int]
                    }));
                    assert forall|a: int, b: int|
                        0 <= a < self@.connections.len() && 0 <= b < self@.connections.len() && #[trigger] self@.connections[a].id
                            == #[trigger] self@.connections[b].id implies a == b by {
                        assert(before.connections[a].id == before.connections[b].id);
                    }
                    Self::lemma_connected_kept(before, self@);
                }
                true
            },
        }
    }

    /// Closes connection `conn`: its client, if registered, leaves the
    /// registry, and the remaining clients are told once; the connection and
    /// the responses awaited from it are dropped.
    pub fn disconnect(&mut self, conn: &str) -> (r: Vec<Effect>)
        requires
            old(self).well_formed(),
        ensures
            final(self).well_formed(),
            final(self)@.game == old(self)@.game,
            has_id(old(self)@.clients, conn@) ==> {
                &&& exists|i: int|
                    0 <= i < old(self)@.clients.len() && #[trigger] old(self)@.clients[i].id@ == conn@
                        && final(self)@.clients == old(self)@.clients.remove(i)
                &&& r@.len() == 1
                &&& is_notice(r@[0], final(self)@.clients)
                &&& payload_of(r@[0]) matches OutPayload::ClientDisconnected(p) && p.id@ == conn@
            },
            !has_id(old(self)@.clients, conn@) ==> final(self)@.clients == old(self)@.clients && r@.len() == 0,
            ({
                let k = connection_index(old(self)@.connections, conn@);
                &&& k >= 0 ==> final(self)@.connections == old(self)@.connections.remove(k)
                &&& k < 0 ==> final(self)@.connections == old(self)@.connections
            }),
    {
        let ghost start = self@;
        let registered = self.registry.contains(conn);
        self.registry.remove_client(conn);
        proof {
            Self::lemma_leaver_gone(start, self@.clients, conn@);
        }
        let ghost left = self@.clients;
        match self.find_connection(conn) {
            None => {
                proof {
                    assert(self@.connections == start.connections);
                    Self::lemma_connected_after_leave(start.connections, self@.connections, left, conn@, -1);
                }
            },
            Some(i) => {
                proof {
                    self.lemma_index_of(i as int);
                }
                let ghost before = self@;
                let ghost before_conns = self.connections@;
                let _ = self.connections.remove(i);
                proof {
                    assert(self@.connections =~= before.connections.remove(i as int));
                    assert forall|a: int, b: int|
                        0 <= a < self@.connections.len() && 0 <= b < self@.connections.len() && #[trigger] self@.connections[a].id
                            == #[trigger] self@.connections[b].id implies a == b by {
                        let x = if a < i { a } else { a + 1 };
                        let y = if b < i { b } else { b + 1 };
                        assert(before.connections[x].id == before.connections[y].id);
                    }
                    assert forall|j: int| 0 <= j < self.connections@.len() implies (#[trigger] self.connections@[j]).responses.well_formed() by {
                        let x = if j < i { j } else { j + 1 };
                        assert(self.connections@[j] == before_conns[x]);
                    }
                    assert forall|j: int| 0 <= j < self.connections@.len() implies (#[trigger] self.connections@[j]).auth.validated ==> self.connections@[j].auth.key is Some by {
                        let x = if j < i { j } else { j + 1 };
                        assert(self.connections@[j] == before_conns[x]);
                    }
                    assert(before.connections == start.connections);
                    Self::lemma_connected_after_leave(start.connections, self@.connections, left, conn@, i as int);
                }
            },
        }
        let mut effects: Vec<Effect> = Vec::new();
        if registered {
            let payload = OutPayload::ClientDisconnected(
                OutNotifClientDisconnectedPayload { id: conn.to_owned() },
            );
            effects.push(self.notify_all(payload));
        }
        effects
    }

    /// The reply to a payload that is missing or malformed.
    fn refuse_payload<T>(conn: &str, correlation_id: &str, payload: &Payload<T>) -> (r: Vec<Effect>)
        requires
            !(payload is Valid),
        ensures
            payload_refused(*payload, r@, conn@, correlation_id@),
    {
        let status = match payload {
            Payload::Missing => Status::MissingPayloadError,
            _ => Status::WrongPayloadError,
        };
        let mut r: Vec<Effect> = Vec::new();
        r.push(Self::status(conn, correlation_id, status));
        r
    }

    /// A single status reply.
    fn status_only(conn: &str, correlation_id: &str, status: Status) -> (r: Vec<Effect>)
        ensures
            only_status(r@, conn@, correlation_id@, status),
    {
        let mut r: Vec<Effect> = Vec::new();
        r.push(Self::status(conn, correlation_id, status));
        r
    }

    proof fn lemma_update_auth(&self, before: Server, i: int)
        requires
            before.well_formed(),
            0 <= i < before.connections@.len(),
            self.connections@.len() == before.connections@.len(),
            forall|j: int| 0 <= j < self.connections@.len() && j != i ==> #[trigger] self.connections@[j] == before.connections@[j],
            self.connections@[i].id == before.connections@[i].id,
            self.connections@[i].responses == before.connections@[i].responses,
            self.connections@[i].auth.validated ==> self.connections@[i].auth.key is Some,
            self.registry == before.registry,
            self.game == before.game,
            self.admin_password == before.admin_password,
            self.auto_admin == before.auto_admin,
        ensures
            self.well_formed(),
            self@ == (ServerModel {
                connections: before@.connections.update(i, ConnectionModel {
                    auth: self.connections@[i].auth,
                    ..before@.connections[i]
                }),
                ..before@
            }),
    {
        assert(self@.connections =~= before@.connections.update(i, ConnectionModel {
            auth: self.connections@[i].auth,
            ..before@.connections[i]
        }));
        assert forall|a: int, b: int|
            0 <= a < self@.connections.len() && 0 <= b < self@.connections.len() && #[trigger] self@.connections[a].id
                == #[trigger] self@.connections[b].id implies a == b by {
            assert(before@.connections[a].id == before@.connections[b].id);
        }
        Self::lemma_connected_kept(before@, self@);
    }

    /// A client submits its public key: it is stored and the challenge to
    /// sign is returned; refused once the connection is validated.
    pub fn handle_send_public_key(&mut self, conn: &str, correlation_id: &str, payload: Payload<InReqSendPublicKey>) -> (r: Vec<Effect>)
        requires
            old(self).well_formed(),
        ensures
            final(self).well_formed(),
            key_submitted(old(self)@, final(self)@, conn@, correlation_id@, payload, r@),
    {
        let p = match payload {
            Payload::Valid(p) => p,
            _ => {
                return Self::refuse_payload(conn, correlation_id, &payload);
            },
        };
        let i = match self.find_connection(conn) {
            None => {
                return Vec::new();
            },
            Some(i) => i,
        };
        proof {
            self.lemma_index_of(i as int);
            self.lemma_connection_view(i as int);
        }
        let ghost before = *self;
        match self.connections[i].auth.submit_public_key(p.key) {
            Err(_) => {
                proof {
                    self.lemma_update_auth(before, i as int);
                    assert(self@.connections =~= before@.connections);
                }
                Self::status_only(conn, correlation_id, Status::AlreadyValidatedError)
            },
            Ok(challenge) => {
                proof {
                    self.lemma_update_auth(before, i as int);
                }
                let mut r: Vec<Effect> = Vec::new();
                r.push(Self::reply(conn, correlation_id, OutPayload::SignMessage(OutRespSignMessagePayload { message: challenge })));
                r
            },
        }
    }

    /// A client submits its signature of the challenge: a valid one
    /// validates the connection.
    pub fn handle_verify_signature(&mut self, conn: &str, correlation_id: &str, payload: Payload<InReqVerifySignature>) -> (r: Vec<Effect>)
        requires
            old(self).well_formed(),
        ensures
            final(self).well_formed(),
            signature_submitted(old(self)@, final(self)@, conn@, correlation_id@, payload, r@),
    {
        let p = match payload {
            Payload::Valid(p) => p,
            _ => {
                return Self::refuse_payload(conn, correlation_id, &payload);
            },
        };
        let i = match self.find_connection(conn) {
            None => {
                return Vec::new();
            },
            Some(i) => i,
        };
        proof {
            self.lemma_index_of(i as int);
            self.lemma_connection_view(i as int);
        }
        let ghost before = *self;
        let outcome = self.connections[i].auth.verify(p.signature.as_str());
        proof {
            self.lemma_update_auth(before, i as int);
            if self.connections@[i as int].auth == before.connections@[i as int].auth {
                assert(self@.connections =~= before@.connections);
            }
        }
        match outcome {
            Ok(()) => Self::status_only(conn, correlation_id, Status::Success),
            Err(AuthError::AlreadyValidated) => Self::status_only(conn, correlation_id, Status::AlreadyValidatedError),
            Err(AuthError::NoKey) => Self::status_only(conn, correlation_id, Status::NoKeyError),
            Err(AuthError::WrongSignature) => Self::status_only(conn, correlation_id, Status::WrongSignatureError),
        }
    }

    /// Grants admin to client `target` on behalf of connection `conn`: a
    /// success reply under `correlation_id`, then one notice to all.
    fn grant_admin(&mut self, conn: &str, correlation_id: &str, target: &str) -> (r: Vec<Effect>)
        requires
            old(self).well_formed(),
            has_id(old(self)@.clients, target@),
        ensures
            final(self).well_formed(),
            final(self)@ == (ServerModel { clients: final(self)@.clients, ..old(self)@ }),
            admin_moved(old(self)@.clients, final(self)@.clients, target@),
            r@.len() == 2,
            is_status(r@[0], conn@, correlation_id@, Status::Success),
            is_notice(r@[1], final(self)@.clients),
            payload_of(r@[1]) matches OutPayload::AdminMade(x) && x.id@ == target@,
    {
        let ghost before = self@;
        let _ = self.registry.make_admin(target);
        assert(self@ =~= (ServerModel { clients: self@.clients, ..before }));
        let mut r: Vec<Effect> = Vec::new();
        r.push(Self::status(conn, correlation_id, Status::Success));
        r.push(self.notify_all(OutPayload::AdminMade(OutNotifAdminMadePayload { id: target.to_owned() })));
        r
    }

    /// A validated connection registers under a display name; the client is
    /// told its id and the settings, and every client sees the newcomer.
    /// Under the auto-admin policy the first client while there is no admin
    /// is made admin at once.
    pub fn handle_register_client(&mut self, conn: &str, correlation_id: &str, payload: Payload<InReqRegisterClientPayload>) -> (r: Vec<Effect>)
        requires
            old(self).well_formed(),
        ensures
            final(self).well_formed(),
            registration_handled(old(self)@, final(self)@, conn@, correlation_id@, payload, r@),
    {
        let p = match payload {
            Payload::Valid(p) => p,
            _ => {
                return Self::refuse_payload(conn, correlation_id, &payload);
            },
        };
        let i = match self.find_connection(conn) {
            None => {
                return Vec::new();
            },
            Some(i) => i,
        };
        proof {
            self.lemma_index_of(i as int);
            self.lemma_connection_view(i as int);
        }
        if !self.connections[i].auth.validated {
            return Self::status_only(conn, correlation_id, Status::NotValidatedError);
        }
        let key = match &self.connections[i].auth.key {
            Some(k) => copy_string(k),
            None => {
                return Self::status_only(conn, correlation_id, Status::NotValidatedError);
            },
        };
        let ghost before = self@;
        let auto = self.auto_admin && self.registry.get_admin_id().is_none();
        if !self.registry.add_client(conn, p.name.as_str(), key.as_str()) {
            return Self::status_only(conn, correlation_id, Status::AlreadyRegisteredError);
        }
        let ghost joined = self@.clients;
        assert(self@ =~= (ServerModel { clients: joined, ..before }));
        assert(joined.drop_last() =~= before.clients);
        proof {
            assert forall|j: int| 0 <= j < joined.len() implies has_connection_for(self@.connections, (#[trigger] joined[j]).id@) by {
                if j < before.clients.len() {
                    assert(joined[j] == before.clients[j]);
                    assert(has_connection_for(before.connections, before.clients[j].id@));
                } else {
                    assert(self@.connections[i as int].id == conn@);
                }
            }
        }
        let client = self.registry.get_client(conn).unwrap();
        proof {
            let j = choose|j: int| 0 <= j < joined.len() && #[trigger] joined[j] == client;
            assert(joined[j].id@ == joined.last().id@);
            assert(j == joined.len() - 1);
        }
        let mut r: Vec<Effect> = Vec::new();
        r.push(Self::reply(
            conn,
            correlation_id,
            OutPayload::ClientRegistered(OutRespClientRegisteredPayload { id: conn.to_owned(), game_settings: self.game.get_game_settings() }),
        ));
        r.push(self.notify_all(OutPayload::ClientRegisteredNotice(OutNotifClientRegisteredPayload { client })));
        if auto {
            assert(has_id(joined, conn@)) by {
                assert(joined[joined.len() - 1].id@ == conn@);
            }
            let fresh = new_uuid();
            let mut more = self.grant_admin(conn, fresh.as_str(), conn);
            r.append(&mut more);
        }
        assert(registered(before.clients, joined, conn@, p.name@, key@));
        r
    }

    /// A registered client asks to make client `client_id` the admin; the
    /// admin password must match. On success the target becomes the only
    /// admin and every client is told once.
    pub fn handle_make_admin(&mut self, conn: &str, correlation_id: &str, payload: Payload<InReqMakeAdminPayload>) -> (r: Vec<Effect>)
        requires
            old(self).well_formed(),
        ensures
            final(self).well_formed(),
            admin_request_handled(old(self)@, final(self)@, conn@, correlation_id@, payload, r@),
    {
        if !self.registry.contains(conn) {
            return Self::status_only(conn, correlation_id, Status::NotRegisteredError);
        }
        let p = match payload {
            Payload::Valid(p) => p,
            _ => {
                return Self::refuse_payload(conn, correlation_id, &payload);
            },
        };
        if !same_text(p.admin_password.as_str(), self.admin_password.as_str()) {
            return Self::status_only(conn, correlation_id, Status::WrongPasswordError);
        }
        if !self.registry.contains(p.client_id.as_str()) {
            return Self::status_only(conn, correlation_id, Status::MissingClientError);
        }
        self.grant_admin(conn, correlation_id, p.client_id.as_str())
    }

    /// Asks the admin for the next question, awaiting its response.
    fn request_question(&mut self) -> (r: Vec<Effect>)
        requires
            old(self).well_formed(),
        ensures
            final(self).well_formed(),
            question_requested(old(self)@, final(self)@, r@),
    {
        let admin = match self.registry.get_admin_id() {
            None => {
                return Vec::new();
            },
            Some(a) => a,
        };
        proof {
            let i = choose|i: int| 0 <= i < self@.clients.len() && #[trigger] self@.clients[i].is_admin && self@.clients[i].id == admin;
            let j = choose|j: int| 0 <= j < self@.clients.len() && #[trigger] self@.clients[j].is_admin;
            assert(i == j);
            assert(has_connection_for(self@.connections, self@.clients[i].id@));
            assert(admin_of(self@.clients) == admin@);
        }
        let k = match self.find_connection(admin.as_str()) {
            None => {
                proof {
                    let j = choose|j: int| 0 <= j < self@.connections.len() && #[trigger] self@.connections[j].id == admin@;
                    assert(connection_index(self@.connections, admin@) >= 0);
                }
                return Vec::new();
            },
            Some(k) => k,
        };
        proof {
            self.lemma_index_of(k as int);
            self.lemma_connection_view(k as int);
        }
        let correlation_id = new_uuid();
        let ghost before = *self;
        self.connections[k].responses.insert(copy_string(&correlation_id));
        proof {
            self.lemma_connection_view(k as int);
            assert forall|j: int| 0 <= j < self.connections@.len() && j != k implies #[trigger] self.connections@[j] == before.connections@[j] by {}
            assert(self@.connections =~= before@.connections.update(k as int, ConnectionModel {
                pending: before@.connections[k as int].pending.insert(correlation_id@),
                ..before@.connections[k as int]
            }));
            assert forall|a: int, b: int|
                0 <= a < self@.connections.len() && 0 <= b < self@.connections.len() && #[trigger] self@.connections[a].id
                    == #[trigger] self@.connections[b].id implies a == b by {
                assert(before@.connections[a].id == before@.connections[b].id);
            }
            Self::lemma_connected_kept(before@, self@);
        }
        let mut r: Vec<Effect> = Vec::new();
        r.push(Self::reply(admin.as_str(), correlation_id.as_str(), OutPayload::Question(OutReqQuestionPayload {})));
        r
    }

    /// The effects of entering the game's current phase.
    fn enter_state(&mut self) -> (r: Vec<Effect>)
        requires
            old(self).well_formed(),
        ensures
            final(self).well_formed(),
            entered_state(old(self)@, final(self)@, r@),
    {
        let state = self.game.get_game_state();
        match state {
            GameState::GameStarting => {
                let mut r: Vec<Effect> = Vec::new();
                r.push(self.notify_all(OutPayload::GameStarted(OutNotifGameStartedPayload { game_settings: self.game.get_game_settings() })));
                let mut more = self.request_question();
                let ghost first = r@;
                let ghost asked = more@;
                r.append(&mut more);
                assert(r@.skip(1) =~= asked);
                r
            },
            GameState::WaitingQuestion => {
                let last = self.game.get_current_round() - 1;
                let question = self.game.get_question_for_round(last).unwrap();
                let answers = self.game.get_answers_for_round(last);
                let mut r: Vec<Effect> = Vec::new();
                r.push(self.notify_all(OutPayload::RoundEnded(OutNotifRoundEndedPayload { question, answers })));
                let mut more = self.request_question();
                let ghost first = r@;
                let ghost asked = more@;
                r.append(&mut more);
                assert(r@.skip(1) =~= asked);
                r
            },
            GameState::Lobby => {
                let current = self.game.get_current_round();
                let question = self.game.get_question_for_round(current);
                let answers = self.game.get_answers_for_round(current);
                assert(answers@ =~= self@.game.current_answers());
                let mut r: Vec<Effect> = Vec::new();
                r.push(self.notify_all(OutPayload::GameStopped(OutNotifGameStoppedPayload { question, answers })));
                r
            },
            _ => Vec::new(),
        }
    }

    /// Checks that `conn` is a registered client (and, with `admin`, the
    /// admin); the refusal to send otherwise.
    fn check_client(&self, conn: &str, correlation_id: &str, admin: bool) -> (r: Option<Vec<Effect>>)
        requires
            self.well_formed(),
        ensures
            !has_id(self@.clients, conn@) ==> (r matches Some(e) && only_status(e@, conn@, correlation_id@, Status::NotRegisteredError)),
            has_id(self@.clients, conn@) && admin && !is_admin_client(self@.clients, conn@) ==> (r matches Some(e)
                && only_status(e@, conn@, correlation_id@, Status::NoRightsError)),
            has_id(self@.clients, conn@) && (!admin || is_admin_client(self@.clients, conn@)) ==> r is None,
    {
        if !self.registry.contains(conn) {
            return Some(Self::status_only(conn, correlation_id, Status::NotRegisteredError));
        }
        if admin && !self.registry.is_admin(conn) {
            return Some(Self::status_only(conn, correlation_id, Status::NoRightsError));
        }
        None
    }

    /// The admin starts a game from the lobby with the given settings.
    pub fn handle_start_game(&mut self, conn: &str, correlation_id: &str, payload: Payload<InReqStartGamePayload>) -> (r: Vec<Effect>)
        requires
            old(self).well_formed(),
        ensures
            final(self).well_formed(),
            start_request_handled(old(self)@, final(self)@, conn@, correlation_id@, payload, r@),
    {
        proof {
            if is_admin_client(self@.clients, conn@) {
                let i = choose|i: int| 0 <= i < self@.clients.len() && #[trigger] self@.clients[i].id@ == conn@ && self@.clients[i].is_admin;
                assert(has_id(self@.clients, conn@));
            }
        }
        match self.check_client(conn, correlation_id, true) {
            Some(e) => {
                return e;
            },
            None => {},
        }
        let p = match payload {
            Payload::Valid(p) => p,
            _ => {
                return Self::refuse_payload(conn, correlation_id, &payload);
            },
        };
        if self.game.get_game_state() != GameState::Lobby {
            return Self::status_only(conn, correlation_id, Status::AlreadyStarted);
        }
        let ghost before = self@;
        let _ = self.game.start_game(p.game_settings);
        assert(self@ =~= with_game(before, self@.game));
        let mut r: Vec<Effect> = Vec::new();
        r.push(Self::status(conn, correlation_id, Status::Success));
        let mut more = self.enter_state();
        let ghost entered = more@;
        r.append(&mut more);
        assert(r@.skip(1) =~= entered);
        r
    }

    /// The admin stops the game. The stop takes effect at the next decision:
    /// an open round is cancelled and decided at once (back to the lobby);
    /// otherwise the admin's next question ends the game.
    pub fn handle_stop_game(&mut self, conn: &str, correlation_id: &str) -> (r: Vec<Effect>)
        requires
            old(self).well_formed(),
        ensures
            final(self).well_formed(),
            stop_request_handled(old(self)@, final(self)@, conn@, correlation_id@, r@),
    {
        proof {
            if is_admin_client(self@.clients, conn@) {
                let i = choose|i: int| 0 <= i < self@.clients.len() && #[trigger] self@.clients[i].id@ == conn@ && self@.clients[i].is_admin;
                assert(has_id(self@.clients, conn@));
            }
        }
        match self.check_client(conn, correlation_id, true) {
            Some(e) => {
                return e;
            },
            None => {},
        }
        let state = self.game.get_game_state();
        if state == GameState::Lobby {
            return Self::status_only(conn, correlation_id, Status::AlreadyStopped);
        }
        let timer = self.game.armed_timer();
        let ghost before = self@;
        let _ = self.game.stop_game();
        assert(self@ =~= with_game(before, self@.game));
        let mut r: Vec<Effect> = Vec::new();
        r.push(Self::status(conn, correlation_id, Status::Success));
        if state == GameState::AnswerQuestion {
            r.push(Effect::CancelTimer { token: timer.unwrap() });
            let mut more = self.enter_state();
            let ghost entered = more@;
            r.append(&mut more);
            assert(r@.skip(2) =~= entered);
        }
        r
    }

    /// A registered client answers the open round. Once every registered
    /// client has answered, the round is cancelled and decided at once.
    pub fn handle_send_answer(&mut self, conn: &str, correlation_id: &str, payload: Payload<InReqSendAnswerPayload>, now: u64) -> (r: Vec<Effect>)
        requires
            old(self).well_formed(),
        ensures
            final(self).well_formed(),
            answer_handled(old(self)@, final(self)@, conn@, correlation_id@, payload, now, r@),
    {
        match self.check_client(conn, correlation_id, false) {
            Some(e) => {
                return e;
            },
            None => {},
        }
        let p = match payload {
            Payload::Valid(p) => p,
            _ => {
                return Self::refuse_payload(conn, correlation_id, &payload);
            },
        };
        let timer = self.game.armed_timer();
        let ghost before = self@;
        match self.game.record_answer(conn, p.answer.as_str(), now) {
            Err(AnswerError::NoCurrentQuestion) => {
                return Self::status_only(conn, correlation_id, Status::NoQuestion);
            },
            Err(AnswerError::AlreadyAnswered) => {
                return Self::status_only(conn, correlation_id, Status::AlreadyAnswered);
            },
            Ok(_) => {},
        }
        let ghost recorded = self@.game;
        assert(self@ =~= with_game(before, recorded));
        let mut r: Vec<Effect> = Vec::new();
        r.push(Self::status(conn, correlation_id, Status::Success));
        r.push(self.notify_all(OutPayload::ClientAnswered(OutNotifClientAnsweredPayload { id: conn.to_owned() })));
        if self.game.all_clients_answered(self.registry.len()) {
            let _ = self.game.end_round_early();
            assert(self@ =~= with_game(before, self@.game));
            r.push(Effect::CancelTimer { token: timer.unwrap() });
            let mut more = self.enter_state();
            let ghost entered = more@;
            r.append(&mut more);
            assert(r@.skip(3) =~= entered);
        }
        r
    }

    /// Handles one inbound message from connection `conn`, dispatching on
    /// its kind; `now` is when it arrived, which an answer records.
    pub fn handle_message(&mut self, conn: &str, correlation_id: &str, message: Inbound, now: u64) -> (r: Vec<Effect>)
        requires
            old(self).well_formed(),
        ensures
            final(self).well_formed(),
            message_handled(old(self)@, final(self)@, conn@, correlation_id@, message, now, r@),
    {
        match message {
            Inbound::SendPublicKey(p) => self.handle_send_public_key(conn, correlation_id, p),
            Inbound::VerifySignature(p) => self.handle_verify_signature(conn, correlation_id, p),
            Inbound::RegisterClient(p) => self.handle_register_client(conn, correlation_id, p),
            Inbound::ClientList => self.handle_get_client_list(conn, correlation_id),
            Inbound::SendChat(p) => self.handle_send_chat(conn, correlation_id, p),
            Inbound::MakeAdmin(p) => self.handle_make_admin(conn, correlation_id, p),
            Inbound::StartGame(p) => self.handle_start_game(conn, correlation_id, p),
            Inbound::StopGame => self.handle_stop_game(conn, correlation_id),
            Inbound::SendAnswer(p) => self.handle_send_answer(conn, correlation_id, p, now),
            Inbound::SendGameSettings(p) => self.handle_send_game_settings(conn, correlation_id, p),
            Inbound::QuestionResponse(p) => self.handle_question(conn, correlation_id, p),
            Inbound::Unknown => self.handle_unknown_message(conn, correlation_id),
        }
    }

    /// The admin's response with the next question: the round opens and
    /// every client sees the question, or, with a stop pending, the game
    /// returns to the lobby.
    pub fn handle_question(&mut self, conn: &str, correlation_id: &str, payload: Payload<InRespQuestionPayload>) -> (r: Vec<Effect>)
        requires
            old(self).well_formed(),
        ensures
            final(self).well_formed(),
            question_handled(old(self)@, final(self)@, conn@, correlation_id@, payload, r@),
    {
        match self.check_client(conn, correlation_id, false) {
            Some(e) => {
                return e;
            },
            None => {},
        }
        let p = match payload {
            Payload::Valid(p) => p,
            _ => {
                return Self::refuse_payload(conn, correlation_id, &payload);
            },
        };
        let ghost before = self@;
        let seconds = self.game.get_round_duration();
        match self.game.set_current_question(p.question) {
            Err(QuestionError::AlreadyExists) => Self::status_only(conn, correlation_id, Status::AlreadyExist),
            Err(QuestionError::NotExpected) => Self::status_only(conn, correlation_id, Status::NotExpected),
            Ok(QuestionOutcome::GameEnded) => {
                assert(self@ =~= with_game(before, self@.game));
                self.enter_state()
            },
            Ok(QuestionOutcome::RoundOpened(token)) => {
                assert(self@ =~= with_game(before, self@.game));
                let mut r: Vec<Effect> = Vec::new();
                r.push(Effect::StartTimer { token, seconds });
                r.push(self.notify_all(OutPayload::QuestionNotice(OutNotifQuestionPayload { question_svg: p.question_svg })));
                r
            },
        }
    }

    /// The round timer `token` went off or was cancelled: the round it
    /// guards is decided, once; a stale token changes nothing.
    pub fn on_round_timer(&mut self, token: u64) -> (r: Vec<Effect>)
        requires
            old(self).well_formed(),
        ensures
            final(self).well_formed(),
            old(self)@.game.timer == Some(token) ==> {
                &&& old(self)@.game.after_round(final(self)@.game)
                &&& entered_state(with_game(old(self)@, final(self)@.game), final(self)@, r@)
            },
            old(self)@.game.timer != Some(token) ==> r@.len() == 0 && final(self)@ == old(self)@,
    {
        let ghost before = self@;
        if self.game.on_round_timer(token) {
            assert(self@ =~= with_game(before, self@.game));
            self.enter_state()
        } else {
            Vec::new()
        }
    }

    /// A registered client replaces the game settings; every client is told.
    pub fn handle_send_game_settings(&mut self, conn: &str, correlation_id: &str, payload: Payload<InReqSendGameSettingsPayload>) -> (r: Vec<Effect>)
        requires
            old(self).well_formed(),
        ensures
            final(self).well_formed(),
            settings_request_handled(old(self)@, final(self)@, conn@, correlation_id@, payload, r@),
    {
        match self.check_client(conn, correlation_id, false) {
            Some(e) => {
                return e;
            },
            None => {},
        }
        let p = match payload {
            Payload::Valid(p) => p,
            _ => {
                return Self::refuse_payload(conn, correlation_id, &payload);
            },
        };
        let ghost before = self@;
        self.game.set_game_settings(p.game_settings);
        assert(self@ =~= with_game(before, self@.game));
        let mut r: Vec<Effect> = Vec::new();
        r.push(self.notify_all(OutPayload::GameSettingsChanged(OutNotifGameSettingsChangedPayload { game_settings: self.game.get_game_settings() })));
        r.push(Self::status(conn, correlation_id, Status::Success));
        r
    }

    /// A registered client sends a chat message; every client receives it.
    pub fn handle_send_chat(&self, conn: &str, correlation_id: &str, payload: Payload<InReqSendChatPayload>) -> (r: Vec<Effect>)
        requires
            self.well_formed(),
        ensures
            chat_handled(self@, conn@, correlation_id@, payload, r@),
    {
        match self.check_client(conn, correlation_id, false) {
            Some(e) => {
                return e;
            },
            None => {},
        }
        let p = match payload {
            Payload::Valid(p) => p,
            _ => {
                return Self::refuse_payload(conn, correlation_id, &payload);
            },
        };
        let mut r: Vec<Effect> = Vec::new();
        r.push(self.notify_all(OutPayload::ChatSent(OutNotifChatSentPayload { id: conn.to_owned(), message: p.message })));
        r.push(Self::status(conn, correlation_id, Status::Success));
        r
    }

    /// A registered client asks for the list of registered clients.
    pub fn handle_get_client_list(&self, conn: &str, correlation_id: &str) -> (r: Vec<Effect>)
        requires
            self.well_formed(),
        ensures
            client_list_handled(self@, conn@, correlation_id@, r@),
    {
        match self.check_client(conn, correlation_id, false) {
            Some(e) => {
                return e;
            },
            None => {},
        }
        let mut r: Vec<Effect> = Vec::new();
        r.push(Self::reply(conn, correlation_id, OutPayload::ClientList(OutRespClientListPayload { clients: self.registry.get_client_list() })));
        r
    }

    /// A message of a type outside the vocabulary.
    pub fn handle_unknown_message(&self, conn: &str, correlation_id: &str) -> (r: Vec<Effect>)
        ensures
            only_status(r@, conn@, correlation_id@, Status::UnknownMessageError),
    {
        Self::status_only(conn, correlation_id, Status::UnknownMessageError)
    }

    /// A frame that could not be read as a message: a status reply under an
    /// empty correlation id; the connection stays open.
    pub fn handle_frame_error(&self, conn: &str, error: FrameError) -> (r: Vec<Effect>)
        ensures
            only_status(r@, conn@, Seq::<char>::empty(), frame_status(error)),
    {
        let status = match error {
            FrameError::Receive => Status::ReceivingMessageError,
            FrameError::NotText => Status::InvalidTextError,
            FrameError::InvalidJson => Status::InvalidJsonError,
        };
        let empty = String::new();
        Self::status_only(conn, empty.as_str(), status)
    }

    /// A status reply.
    fn status(to: &str, correlation_id: &str, status: Status) -> (r: Effect)
        ensures
            is_status(r, to@, correlation_id@, status),
    {
        let message = BaseMessage::new(
            OutPayload::Status(OutRespStatusPayload { status }),
            Some(correlation_id.to_owned()),
        );
        let mut to_list: Vec<String> = Vec::new();
        to_list.push(to.to_owned());
        Effect::Send { to: to_list, message }
    }

    /// A reply carrying `payload` to connection `to`.
    fn reply(to: &str, correlation_id: &str, payload: OutPayload) -> (r: Effect)
        ensures
            is_reply(r, to@, correlation_id@),
            payload_of(r) == payload,
    {
        let message = BaseMessage::new(payload, Some(correlation_id.to_owned()));
        let mut to_list: Vec<String> = Vec::new();
        to_list.push(to.to_owned());
        Effect::Send { to: to_list, message }
    }

    /// The ids of the registered clients, in order.
    fn client_ids(&self) -> (r: Vec<String>)
        ensures
            addressed_to_all(r@, self@.clients),
    {
        let clients = self.registry.get_client_list();
        let mut ids: Vec<String> = Vec::new();
        let mut i: usize = 0;
        while i < clients.len()
            invariant
                i <= clients@.len(),
                clients@ == self@.clients,
                ids@.len() == i,
                forall|j: int| 0 <= j < i ==> #[trigger] ids@[j]@ == clients@[j].id@,
            decreases clients@.len() - i,
        {
            ids.push(clients[i].id.clone());
            i = i + 1;
        }
        ids
    }

    /// A notification to every registered client, under a fresh correlation id.
    fn notify_all(&self, payload: OutPayload) -> (r: Effect)
        ensures
            is_notice(r, self@.clients),
            payload_of(r) == payload,
    {
        let to = self.client_ids();
        Effect::Send { to, message: BaseMessage::new(payload, None) }
    }
}

} // verus!
