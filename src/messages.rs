use vstd::prelude::*;

use crate::structures::{AnswerInfo, ClientInfo, GameSettings, QuestionInfo};
use crate::ids::new_uuid;
use crate::text::same_text;

verus! {

/// The closed vocabulary of message types on the wire, in five families:
/// requests in, responses out, requests out, responses in, notifications out.
#[derive(Clone, Copy, Debug, PartialEq, Eq, Structural)]
pub enum MessageKind {
    InReqSendPublicKey,
    InReqVerifySignature,
    InReqRegisterClient,
    InReqClientList,
    InReqSendChat,
    InReqMakeAdmin,
    InReqStartGame,
    InReqStopGame,
    InReqSendAnswer,
    InReqSendGameSettings,
    OutRespSignMessage,
    OutRespStatus,
    OutRespClientRegistered,
    OutRespClientList,
    OutReqQuestion,
    InRespQuestion,
    OutNotifClientRegistered,
    OutNotifClientDisconnected,
    OutNotifChatSent,
    OutNotifAdminMade,
    OutNotifGameStarted,
    OutNotifGameStopped,
    OutNotifQuestion,
    OutNotifClientAnswered,
    OutNotifRoundEnded,
    OutNotifGameSettingsChanged,
}

impl MessageKind {
    /// The wire tag of each kind.
    pub open spec fn spec_tag(self) -> Seq<char> {
        match self {
            MessageKind::InReqSendPublicKey => "IN_REQ_sendPublicKey"@,
            MessageKind::InReqVerifySignature => "IN_REQ_verifysignature"@,
            MessageKind::InReqRegisterClient => "IN_REQ_registerClient"@,
            MessageKind::InReqClientList => "IN_REQ_clientList"@,
            MessageKind::InReqSendChat => "IN_REQ_sendChat"@,
            MessageKind::InReqMakeAdmin => "IN_REQ_makeAdmin"@,
            MessageKind::InReqStartGame => "IN_REQ_startGame"@,
            MessageKind::InReqStopGame => "IN_REQ_stopGame"@,
            MessageKind::InReqSendAnswer => "IN_REQ_sendAnswer"@,
            MessageKind::InReqSendGameSettings => "IN_REQ_sendGameSettings"@,
            MessageKind::OutRespSignMessage => "OUT_RESP_signMessage"@,
            MessageKind::OutRespStatus => "OUT_RESP_status"@,
            MessageKind::OutRespClientRegistered => "OUT_RESP_clientRegistered"@,
            MessageKind::OutRespClientList => "OUT_RESP_clientList"@,
            MessageKind::OutReqQuestion => "OUT_REQ_question"@,
            MessageKind::InRespQuestion => "IN_RESP_question"@,
            MessageKind::OutNotifClientRegistered => "OUT_NOTIF_clientRegistered"@,
            MessageKind::OutNotifClientDisconnected => "OUT_NOTIF_clientDisconnected"@,
            MessageKind::OutNotifChatSent => "OUT_NOTIF_chatSent"@,
            MessageKind::OutNotifAdminMade => "OUT_NOTIF_adminMade"@,
            MessageKind::OutNotifGameStarted => "OUT_NOTIF_gameStarted"@,
            MessageKind::OutNotifGameStopped => "OUT_NOTIF_gameStopped"@,
            MessageKind::OutNotifQuestion => "OUT_NOTIF_question"@,
            MessageKind::OutNotifClientAnswered => "OUT_NOTIF_clientAnswered"@,
            MessageKind::OutNotifRoundEnded => "OUT_NOTIF_roundEnded"@,
            MessageKind::OutNotifGameSettingsChanged => "OUT_NOTIF_gameSettingsChanged"@,
        }
    }

    /// The wire tag of this kind.
    pub fn tag(&self) -> (r: &'static str)
        ensures
            r@ == self.spec_tag(),
    {
        match self {
            MessageKind::InReqSendPublicKey => "IN_REQ_sendPublicKey",
            MessageKind::InReqVerifySignature => "IN_REQ_verifysignature",
            MessageKind::InReqRegisterClient => "IN_REQ_registerClient",
            MessageKind::InReqClientList => "IN_REQ_clientList",
            MessageKind::InReqSendChat => "IN_REQ_sendChat",
            MessageKind::InReqMakeAdmin => "IN_REQ_makeAdmin",
            MessageKind::InReqStartGame => "IN_REQ_startGame",
            MessageKind::InReqStopGame => "IN_REQ_stopGame",
            MessageKind::InReqSendAnswer => "IN_REQ_sendAnswer",
            MessageKind::InReqSendGameSettings => "IN_REQ_sendGameSettings",
            MessageKind::OutRespSignMessage => "OUT_RESP_signMessage",
            MessageKind::OutRespStatus => "OUT_RESP_status",
            MessageKind::OutRespClientRegistered => "OUT_RESP_clientRegistered",
            MessageKind::OutRespClientList => "OUT_RESP_clientList",
            MessageKind::OutReqQuestion => "OUT_REQ_question",
            MessageKind::InRespQuestion => "IN_RESP_question",
            MessageKind::OutNotifClientRegistered => "OUT_NOTIF_clientRegistered",
            MessageKind::OutNotifClientDisconnected => "OUT_NOTIF_clientDisconnected",
            MessageKind::OutNotifChatSent => "OUT_NOTIF_chatSent",
            MessageKind::OutNotifAdminMade => "OUT_NOTIF_adminMade",
            MessageKind::OutNotifGameStarted => "OUT_NOTIF_gameStarted",
            MessageKind::OutNotifGameStopped => "OUT_NOTIF_gameStopped",
            MessageKind::OutNotifQuestion => "OUT_NOTIF_question",
            MessageKind::OutNotifClientAnswered => "OUT_NOTIF_clientAnswered",
            MessageKind::OutNotifRoundEnded => "OUT_NOTIF_roundEnded",
            MessageKind::OutNotifGameSettingsChanged => "OUT_NOTIF_gameSettingsChanged",
        }
    }

    /// The kinds a client may send on its own, with their tags.
    pub open spec fn is_inbound_request(self) -> bool {
        match self {
            MessageKind::InReqSendPublicKey | MessageKind::InReqVerifySignature
            | MessageKind::InReqRegisterClient | MessageKind::InReqClientList
            | MessageKind::InReqSendChat | MessageKind::InReqMakeAdmin
            | MessageKind::InReqStartGame | MessageKind::InReqStopGame
            | MessageKind::InReqSendAnswer | MessageKind::InReqSendGameSettings => true,
            _ => false,
        }
    }

    /// The inbound request kind whose tag is `tag`, if any; every other tag
    /// is an unknown message.
    pub fn from_request_tag(tag: &str) -> (r: Option<MessageKind>)
        ensures
            r matches Some(k) ==> k.is_inbound_request() && k.spec_tag() == tag@,
            r is None ==> forall|k: MessageKind| #[trigger] k.is_inbound_request() ==> k.spec_tag() != tag@,
    {
        if same_text(tag, "IN_REQ_sendPublicKey") {
            Some(MessageKind::InReqSendPublicKey)
        } else if same_text(tag, "IN_REQ_verifysignature") {
            Some(MessageKind::InReqVerifySignature)
        } else if same_text(tag, "IN_REQ_registerClient") {
            Some(MessageKind::InReqRegisterClient)
        } else if same_text(tag, "IN_REQ_clientList") {
            Some(MessageKind::InReqClientList)
        } else if same_text(tag, "IN_REQ_sendChat") {
            Some(MessageKind::InReqSendChat)
        } else if same_text(tag, "IN_REQ_makeAdmin") {
            Some(MessageKind::InReqMakeAdmin)
        } else if same_text(tag, "IN_REQ_startGame") {
            Some(MessageKind::InReqStartGame)
        } else if same_text(tag, "IN_REQ_stopGame") {
            Some(MessageKind::InReqStopGame)
        } else if same_text(tag, "IN_REQ_sendAnswer") {
            Some(MessageKind::InReqSendAnswer)
        } else if same_text(tag, "IN_REQ_sendGameSettings") {
            Some(MessageKind::InReqSendGameSettings)
        } else {
            None
        }
    }
}

/// Binds a payload type to the kind of message it travels in.
pub trait MessageType {
    fn message_kind() -> MessageKind;
}

/// The status strings that answer a request.
#[derive(Clone, Copy, Debug, PartialEq, Eq, Structural)]
pub enum Status {
    Success,
    ReceivingMessageError,
    InvalidTextError,
    InvalidJsonError,
    MissingPayloadError,
    WrongPayloadError,
    UnknownMessageError,
    AlreadyValidatedError,
    WrongSignatureError,
    NoKeyError,
    NotValidatedError,
    AlreadyRegisteredError,
    NotRegisteredError,
    NoRightsError,
    WrongPasswordError,
    MissingClientError,
    AlreadyStarted,
    AlreadyStopped,
    NoQuestion,
    AlreadyAnswered,
    AlreadyExist,
    NotExpected,
}

impl Status {
    /// The text of each status on the wire.
    pub open spec fn spec_text(self) -> Seq<char> {
        match self {
            Status::Success => "success"@,
            Status::ReceivingMessageError => "receivingMessageError"@,
            Status::InvalidTextError => "invalidTextError"@,
            Status::InvalidJsonError => "invalidJSONError"@,
            Status::MissingPayloadError => "missingPayloadError"@,
            Status::WrongPayloadError => "wrongPayloadError"@,
            Status::UnknownMessageError => "unknownMessageError"@,
            Status::AlreadyValidatedError => "alreadyValidatedError"@,
            Status::WrongSignatureError => "wrongSignatureError"@,
            Status::NoKeyError => "noKeyError"@,
            Status::NotValidatedError => "notValidatedError"@,
            Status::AlreadyRegisteredError => "alreadyRegisteredError"@,
            Status::NotRegisteredError => "notRegisteredError"@,
            Status::NoRightsError => "noRightsError"@,
            Status::WrongPasswordError => "wrongPasswordError"@,
            Status::MissingClientError => "missingClientError"@,
            Status::AlreadyStarted => "alreadyStarted"@,
            Status::AlreadyStopped => "alreadyStopped"@,
            Status::NoQuestion => "noQuestion"@,
            Status::AlreadyAnswered => "alreadyAnswered"@,
            Status::AlreadyExist => "alreadyExist"@,
            Status::NotExpected => "notExpected"@,
        }
    }

    /// The text of this status on the wire.
    pub fn as_str(&self) -> (r: &'static str)
        ensures
            r@ == self.spec_text(),
    {
        match self {
            Status::Success => "success",
            Status::ReceivingMessageError => "receivingMessageError",
            Status::InvalidTextError => "invalidTextError",
            Status::InvalidJsonError => "invalidJSONError",
            Status::MissingPayloadError => "missingPayloadError",
            Status::WrongPayloadError => "wrongPayloadError",
            Status::UnknownMessageError => "unknownMessageError",
            Status::AlreadyValidatedError => "alreadyValidatedError",
            Status::WrongSignatureError => "wrongSignatureError",
            Status::NoKeyError => "noKeyError",
            Status::NotValidatedError => "notValidatedError",
            Status::AlreadyRegisteredError => "alreadyRegisteredError",
            Status::NotRegisteredError => "notRegisteredError",
            Status::NoRightsError => "noRightsError",
            Status::WrongPasswordError => "wrongPasswordError",
            Status::MissingClientError => "missingClientError",
            Status::AlreadyStarted => "alreadyStarted",
            Status::AlreadyStopped => "alreadyStopped",
            Status::NoQuestion => "noQuestion",
            Status::AlreadyAnswered => "alreadyAnswered",
            Status::AlreadyExist => "alreadyExist",
            Status::NotExpected => "notExpected",
        }
    }
}

/// The payload of `InReqSendPublicKey`.
#[derive(Clone, Debug, PartialEq, Eq)]
pub struct InReqSendPublicKey {
    pub key: String,
}

impl MessageType for InReqSendPublicKey {
    fn message_kind() -> MessageKind {
        MessageKind::InReqSendPublicKey
    }
}

/// The payload of `InReqVerifySignature`.
#[derive(Clone, Debug, PartialEq, Eq)]
pub struct InReqVerifySignature {
    pub signature: String,
}

impl MessageType for InReqVerifySignature {
    fn message_kind() -> MessageKind {
        MessageKind::InReqVerifySignature
    }
}

/// The payload of `InReqRegisterClient`.
#[derive(Clone, Debug, PartialEq, Eq)]
pub struct InReqRegisterClientPayload {
    pub name: String,
}

impl MessageType for InReqRegisterClientPayload {
    fn message_kind() -> MessageKind {
        MessageKind::InReqRegisterClient
    }
}

/// The payload of `InReqClientList`.
#[derive(Clone, Copy, Debug, PartialEq, Eq)]
pub struct InReqClientListPayload {}

impl MessageType for InReqClientListPayload {
    fn message_kind() -> MessageKind {
        MessageKind::InReqClientList
    }
}

/// The payload of `InReqSendChat`.
#[derive(Clone, Debug, PartialEq, Eq)]
pub struct InReqSendChatPayload {
    pub message: String,
}

impl MessageType for InReqSendChatPayload {
    fn message_kind() -> MessageKind {
        MessageKind::InReqSendChat
    }
}

/// The payload of `InReqMakeAdmin`.
#[derive(Clone, Debug, PartialEq, Eq)]
pub struct InReqMakeAdminPayload {
    pub admin_password: String,
    pub client_id: String,
}

impl MessageType for InReqMakeAdminPayload {
    fn message_kind() -> MessageKind {
        MessageKind::InReqMakeAdmin
    }
}

/// The payload of `InReqStartGame`.
#[derive(Clone, Debug, PartialEq, Eq)]
pub struct InReqStartGamePayload {
    pub game_settings: GameSettings,
}

impl MessageType for InReqStartGamePayload {
    fn message_kind() -> MessageKind {
        MessageKind::InReqStartGame
    }
}

/// The payload of `InReqStopGame`.
#[derive(Clone, Copy, Debug, PartialEq, Eq)]
pub struct InReqStopGamePayload {}

impl MessageType for InReqStopGamePayload {
    fn message_kind() -> MessageKind {
        MessageKind::InReqStopGame
    }
}

/// The payload of `InReqSendAnswer`.
#[derive(Clone, Debug, PartialEq, Eq)]
pub struct InReqSendAnswerPayload {
    pub answer: String,
}

impl MessageType for InReqSendAnswerPayload {
    fn message_kind() -> MessageKind {
        MessageKind::InReqSendAnswer
    }
}

/// The payload of `InReqSendGameSettings`.
#[derive(Clone, Debug, PartialEq, Eq)]
pub struct InReqSendGameSettingsPayload {
    pub game_settings: GameSettings,
}

impl MessageType for InReqSendGameSettingsPayload {
    fn message_kind() -> MessageKind {
        MessageKind::InReqSendGameSettings
    }
}

/// The payload of `OutRespSignMessage`.
#[derive(Clone, Debug, PartialEq, Eq)]
pub struct OutRespSignMessagePayload {
    pub message: String,
}

impl MessageType for OutRespSignMessagePayload {
    fn message_kind() -> MessageKind {
        MessageKind::OutRespSignMessage
    }
}

/// The payload of `OutRespStatus`.
#[derive(Clone, Copy, Debug, PartialEq, Eq)]
pub struct OutRespStatusPayload {
    pub status: Status,
}

impl MessageType for OutRespStatusPayload {
    fn message_kind() -> MessageKind {
        MessageKind::OutRespStatus
    }
}

/// The payload of `OutRespClientRegistered`.
#[derive(Clone, Debug, PartialEq, Eq)]
pub struct OutRespClientRegisteredPayload {
    pub id: String,
    pub game_settings: GameSettings,
}

impl MessageType for OutRespClientRegisteredPayload {
    fn message_kind() -> MessageKind {
        MessageKind::OutRespClientRegistered
    }
}

/// The payload of `OutRespClientList`.
#[derive(Clone, Debug, PartialEq, Eq)]
pub struct OutRespClientListPayload {
    pub clients: Vec<ClientInfo>,
}

impl MessageType for OutRespClientListPayload {
    fn message_kind() -> MessageKind {
        MessageKind::OutRespClientList
    }
}

/// The payload of `OutReqQuestion`.
#[derive(Clone, Copy, Debug, PartialEq, Eq)]
pub struct OutReqQuestionPayload {}

impl MessageType for OutReqQuestionPayload {
    fn message_kind() -> MessageKind {
        MessageKind::OutReqQuestion
    }
}

/// The payload of `InRespQuestion`.
#[derive(Clone, Debug, PartialEq, Eq)]
pub struct InRespQuestionPayload {
    pub question: QuestionInfo,
    pub question_svg: String,
}

impl MessageType for InRespQuestionPayload {
    fn message_kind() -> MessageKind {
        MessageKind::InRespQuestion
    }
}

/// The payload of `OutNotifClientRegistered`.
#[derive(Clone, Debug, PartialEq, Eq)]
pub struct OutNotifClientRegisteredPayload {
    pub client: ClientInfo,
}

impl MessageType for OutNotifClientRegisteredPayload {
    fn message_kind() -> MessageKind {
        MessageKind::OutNotifClientRegistered
    }
}

/// The payload of `OutNotifClientDisconnected`.
#[derive(Clone, Debug, PartialEq, Eq)]
pub struct OutNotifClientDisconnectedPayload {
    pub id: String,
}

impl MessageType for OutNotifClientDisconnectedPayload {
    fn message_kind() -> MessageKind {
        MessageKind::OutNotifClientDisconnected
    }
}

/// The payload of `OutNotifChatSent`.
#[derive(Clone, Debug, PartialEq, Eq)]
pub struct OutNotifChatSentPayload {
    pub id: String,
    pub message: String,
}

impl MessageType for OutNotifChatSentPayload {
    fn message_kind() -> MessageKind {
        MessageKind::OutNotifChatSent
    }
}

/// The payload of `OutNotifAdminMade`.
#[derive(Clone, Debug, PartialEq, Eq)]
pub struct OutNotifAdminMadePayload {
    pub id: String,
}

impl MessageType for OutNotifAdminMadePayload {
    fn message_kind() -> MessageKind {
        MessageKind::OutNotifAdminMade
    }
}

/// The payload of `OutNotifGameStarted`.
#[derive(Clone, Debug, PartialEq, Eq)]
pub struct OutNotifGameStartedPayload {
    pub game_settings: GameSettings,
}

impl MessageType for OutNotifGameStartedPayload {
    fn message_kind() -> MessageKind {
        MessageKind::OutNotifGameStarted
    }
}

/// The payload of `OutNotifGameStopped`.
#[derive(Clone, Debug, PartialEq, Eq)]
pub struct OutNotifGameStoppedPayload {
    pub question: Option<QuestionInfo>,
    pub answers: Vec<AnswerInfo>,
}

impl MessageType for OutNotifGameStoppedPayload {
    fn message_kind() -> MessageKind {
        MessageKind::OutNotifGameStopped
    }
}

/// The payload of `OutNotifQuestion`.
#[derive(Clone, Debug, PartialEq, Eq)]
pub struct OutNotifQuestionPayload {
    pub question_svg: String,
}

impl MessageType for OutNotifQuestionPayload {
    fn message_kind() -> MessageKind {
        MessageKind::OutNotifQuestion
    }
}

/// The payload of `OutNotifClientAnswered`.
#[derive(Clone, Debug, PartialEq, Eq)]
pub struct OutNotifClientAnsweredPayload {
    pub id: String,
}

impl MessageType for OutNotifClientAnsweredPayload {
    fn message_kind() -> MessageKind {
        MessageKind::OutNotifClientAnswered
    }
}

/// The payload of `OutNotifRoundEnded`.
#[derive(Clone, Debug, PartialEq, Eq)]
pub struct OutNotifRoundEndedPayload {
    pub question: QuestionInfo,
    pub answers: Vec<AnswerInfo>,
}

impl MessageType for OutNotifRoundEndedPayload {
    fn message_kind() -> MessageKind {
        MessageKind::OutNotifRoundEnded
    }
}

/// The payload of `OutNotifGameSettingsChanged`.
#[derive(Clone, Debug, PartialEq, Eq)]
pub struct OutNotifGameSettingsChangedPayload {
    pub game_settings: GameSettings,
}

impl MessageType for OutNotifGameSettingsChangedPayload {
    fn message_kind() -> MessageKind {
        MessageKind::OutNotifGameSettingsChanged
    }
}

/// What the server sends: one variant per outbound payload type.
#[derive(Clone, Debug, PartialEq, Eq)]
pub enum OutPayload {
    SignMessage(OutRespSignMessagePayload),
    Status(OutRespStatusPayload),
    ClientRegistered(OutRespClientRegisteredPayload),
    ClientList(OutRespClientListPayload),
    Question(OutReqQuestionPayload),
    ClientRegisteredNotice(OutNotifClientRegisteredPayload),
    ClientDisconnected(OutNotifClientDisconnectedPayload),
    ChatSent(OutNotifChatSentPayload),
    AdminMade(OutNotifAdminMadePayload),
    GameStarted(OutNotifGameStartedPayload),
    GameStopped(OutNotifGameStoppedPayload),
    QuestionNotice(OutNotifQuestionPayload),
    ClientAnswered(OutNotifClientAnsweredPayload),
    RoundEnded(OutNotifRoundEndedPayload),
    GameSettingsChanged(OutNotifGameSettingsChangedPayload),
}

impl OutPayload {
    pub open spec fn spec_kind(&self) -> MessageKind {
        match self {
            OutPayload::SignMessage(_) => MessageKind::OutRespSignMessage,
            OutPayload::Status(_) => MessageKind::OutRespStatus,
            OutPayload::ClientRegistered(_) => MessageKind::OutRespClientRegistered,
            OutPayload::ClientList(_) => MessageKind::OutRespClientList,
            OutPayload::Question(_) => MessageKind::OutReqQuestion,
            OutPayload::ClientRegisteredNotice(_) => MessageKind::OutNotifClientRegistered,
            OutPayload::ClientDisconnected(_) => MessageKind::OutNotifClientDisconnected,
            OutPayload::ChatSent(_) => MessageKind::OutNotifChatSent,
            OutPayload::AdminMade(_) => MessageKind::OutNotifAdminMade,
            OutPayload::GameStarted(_) => MessageKind::OutNotifGameStarted,
            OutPayload::GameStopped(_) => MessageKind::OutNotifGameStopped,
            OutPayload::QuestionNotice(_) => MessageKind::OutNotifQuestion,
            OutPayload::ClientAnswered(_) => MessageKind::OutNotifClientAnswered,
            OutPayload::RoundEnded(_) => MessageKind::OutNotifRoundEnded,
            OutPayload::GameSettingsChanged(_) => MessageKind::OutNotifGameSettingsChanged,
        }
    }

    /// The kind of message this payload travels in.
    pub fn kind(&self) -> (r: MessageKind)
        ensures
            r == self.spec_kind(),
    {
        match self {
            OutPayload::SignMessage(_) => MessageKind::OutRespSignMessage,
            OutPayload::Status(_) => MessageKind::OutRespStatus,
            OutPayload::ClientRegistered(_) => MessageKind::OutRespClientRegistered,
            OutPayload::ClientList(_) => MessageKind::OutRespClientList,
            OutPayload::Question(_) => MessageKind::OutReqQuestion,
            OutPayload::ClientRegisteredNotice(_) => MessageKind::OutNotifClientRegistered,
            OutPayload::ClientDisconnected(_) => MessageKind::OutNotifClientDisconnected,
            OutPayload::ChatSent(_) => MessageKind::OutNotifChatSent,
            OutPayload::AdminMade(_) => MessageKind::OutNotifAdminMade,
            OutPayload::GameStarted(_) => MessageKind::OutNotifGameStarted,
            OutPayload::GameStopped(_) => MessageKind::OutNotifGameStopped,
            OutPayload::QuestionNotice(_) => MessageKind::OutNotifQuestion,
            OutPayload::ClientAnswered(_) => MessageKind::OutNotifClientAnswered,
            OutPayload::RoundEnded(_) => MessageKind::OutNotifRoundEnded,
            OutPayload::GameSettingsChanged(_) => MessageKind::OutNotifGameSettingsChanged,
        }
    }
}

/// An outbound message: its correlation id and its payload; the message
/// type follows from the payload.
#[derive(Clone, Debug, PartialEq, Eq)]
pub struct BaseMessage {
    pub correlation_id: String,
    pub payload: OutPayload,
}

impl BaseMessage {
    /// A message carrying `payload`, under `correlation_id` when one is
    /// given, else under a freshly generated one.
    pub fn new(payload: OutPayload, correlation_id: Option<String>) -> (r: BaseMessage)
        ensures
            r.payload == payload,
            correlation_id matches Some(c) ==> r.correlation_id == c,
            correlation_id is None ==> r.correlation_id@.len() == 36,
    {
        let correlation_id = match correlation_id {
            Some(c) => c,
            None => new_uuid(),
        };
        BaseMessage { correlation_id, payload }
    }

    /// The wire tag of this message's type.
    pub fn message_type(&self) -> (r: &'static str)
        ensures
            r@ == self.payload.spec_kind().spec_tag(),
    {
        self.payload.kind().tag()
    }
}

/// What the caller is to do after a step of the server.
#[derive(Clone, Debug, PartialEq, Eq)]
pub enum Effect {
    /// Deliver `message` to each connection in `to`, in order.
    Send { to: Vec<String>, message: BaseMessage },
    /// Arm the round timer `token` to go off after `seconds`.
    StartTimer { token: u64, seconds: u64 },
    /// Cancel the round timer `token`; the round it guarded is decided.
    CancelTimer { token: u64 },
}

} // verus!
