use vstd::prelude::*;

use crate::structures::{copy_answers, AnswerInfo, GameSettings, QuestionInfo};
use crate::text::{contains_text, same_text};

verus! {

/// The authoritative phase of the game.
#[derive(Clone, Copy, Debug, PartialEq, Eq, Structural)]
pub enum GameState {
    Lobby,
    GameStarting,
    WaitingQuestion,
    AnswerQuestion,
    WatchingQuestion,
}

impl GameState {
    /// Whether a game is under way (any phase other than the lobby).
    pub fn is_running(&self) -> (r: bool)
        ensures
            r == (*self != GameState::Lobby),
    {
        !matches!(self, GameState::Lobby)
    }
}

/// Why an answer was not recorded.
#[derive(Clone, Copy, Debug, PartialEq, Eq, Structural)]
pub enum AnswerError {
    /// No round is open for answers.
    NoCurrentQuestion,
    /// This client has answered in this round already.
    AlreadyAnswered,
}

/// Why a question was not taken.
#[derive(Clone, Copy, Debug, PartialEq, Eq, Structural)]
pub enum QuestionError {
    /// The current round has its question already.
    AlreadyExists,
    /// The game is not waiting for a question.
    NotExpected,
}

/// What taking a question did.
#[derive(Clone, Copy, Debug, PartialEq, Eq, Structural)]
pub enum QuestionOutcome {
    /// The round was opened; its timer is known by this token.
    RoundOpened(u64),
    /// A stop was pending: the game went back to the lobby instead.
    GameEnded,
}

/// One round of the ledger: its question and the answers given.
pub struct Round {
    pub question: QuestionInfo,
    pub answers: Vec<AnswerInfo>,
}

/// A round as contracts see it.
pub struct RoundModel {
    pub question: QuestionInfo,
    pub answers: Seq<AnswerInfo>,
}

/// The game as contracts see it.
pub struct GameModel {
    pub state: GameState,
    pub round_index: u64,
    pub settings: GameSettings,
    /// A stop was asked for and has not taken effect yet.
    pub end_game: bool,
    /// The ledger: entry `k` is round `k` of the current game.
    pub rounds: Seq<RoundModel>,
    /// The token of the armed round timer, if one is armed.
    pub timer: Option<u64>,
}

/// Two questions hold the same readings and content.
pub open spec fn same_question(a: QuestionInfo, b: QuestionInfo) -> bool {
    a.readings@ == b.readings@ && a.content == b.content
}

/// No client has two answers in `answers`.
pub open spec fn answers_unique(answers: Seq<AnswerInfo>) -> bool {
    forall|i: int, j: int|
        0 <= i < answers.len() && 0 <= j < answers.len() && #[trigger] answers[i].id@
            == #[trigger] answers[j].id@ ==> i == j
}

/// Whether `answers` holds an answer of client `id`.
pub open spec fn has_answer_of(answers: Seq<AnswerInfo>, id: Seq<char>) -> bool {
    exists|i: int| 0 <= i < answers.len() && #[trigger] answers[i].id@ == id
}

/// Whether `answer` is one of the question's accepted readings.
pub open spec fn is_accepted(q: QuestionInfo, answer: Seq<char>) -> bool {
    exists|i: int| 0 <= i < q.readings@.len() && #[trigger] q.readings@[i]@ == answer
}

impl GameModel {
    /// A round is open for answers.
    pub open spec fn round_open(self) -> bool {
        self.state == GameState::AnswerQuestion
    }

    /// The answers of the round in progress (empty when it has no question).
    pub open spec fn current_answers(self) -> Seq<AnswerInfo> {
        if self.round_index < self.rounds.len() {
            self.rounds[self.round_index as int].answers
        } else {
            Seq::empty()
        }
    }

    /// The invariant of the game.
    pub open spec fn consistent(self) -> bool {
        &&& self.round_index <= self.rounds.len() <= self.round_index + 1
        &&& (self.state == GameState::AnswerQuestion ==> self.rounds.len() == self.round_index + 1)
        &&& (self.state == GameState::GameStarting || self.state == GameState::WaitingQuestion
            ==> self.rounds.len() == self.round_index)
        &&& (self.state == GameState::Lobby ==> !self.end_game)
        &&& (self.state == GameState::WaitingQuestion ==> self.round_index >= 1)
        &&& (self.timer is Some <==> self.state == GameState::AnswerQuestion)
        &&& forall|k: int| 0 <= k < self.rounds.len() ==> answers_unique(#[trigger] self.rounds[k].answers)
    }

    /// How a round that closes decides the next phase: a pending stop wins,
    /// then the last round goes to the lobby, any other to the next question.
    pub open spec fn after_round(self, next: GameModel) -> bool {
        &&& next.settings == self.settings
        &&& next.rounds == self.rounds
        &&& next.timer is None
        &&& !next.end_game
        &&& if self.end_game || self.round_index + 1 >= self.settings.rounds_count {
            next.state == GameState::Lobby && next.round_index == self.round_index
        } else {
            next.state == GameState::WaitingQuestion && next.round_index == self.round_index + 1
        }
    }
}

/// `after` is `before` with one more answer in the open round: the answer
/// of client `id`, scored by the round's question, and `r` is that score.
pub open spec fn answer_recorded(
    before: GameModel,
    after: GameModel,
    id: Seq<char>,
    answer: Seq<char>,
    time: u64,
    r: Result<bool, AnswerError>,
) -> bool {
    let k = before.round_index as int;
    let q = before.rounds[k].question;
    let a = after.rounds[k].answers;
    &&& r == Ok::<bool, AnswerError>(is_accepted(q, answer))
    &&& after.state == before.state
    &&& after.round_index == before.round_index
    &&& after.settings == before.settings
    &&& after.end_game == before.end_game
    &&& after.timer == before.timer
    &&& after.rounds.len() == before.rounds.len()
    &&& forall|j: int| 0 <= j < after.rounds.len() && j != k ==> #[trigger] after.rounds[j] == before.rounds[j]
    &&& after.rounds[k].question == q
    &&& a.len() == before.rounds[k].answers.len() + 1
    &&& a.subrange(0, a.len() - 1) == before.rounds[k].answers
    &&& a.last().id@ == id
    &&& a.last().answer@ == answer
    &&& a.last().is_correct == is_accepted(q, answer)
    &&& a.last().answer_time == time
}

/// The round index never goes down within a game.
pub open spec fn round_order_kept(before: GameModel, after: GameModel) -> bool {
    after.round_index >= before.round_index
}

/// The game state machine with its answer ledger.
pub struct Game {
    state: GameState,
    round_index: u64,
    settings: GameSettings,
    end_game: bool,
    rounds: Vec<Round>,
    timer: Option<u64>,
    next_timer: u64,
}

impl View for Game {
    type V = GameModel;

    closed spec fn view(&self) -> GameModel {
        GameModel {
            state: self.state,
            round_index: self.round_index,
            settings: self.settings,
            end_game: self.end_game,
            rounds: self.rounds@.map_values(|r: Round| RoundModel { question: r.question, answers: r.answers@ }),
            timer: self.timer,
        }
    }
}

impl Game {
    pub open spec fn well_formed(&self) -> bool {
        self@.consistent()
    }

    /// A game in the lobby, with default settings and an empty ledger.
    pub fn new() -> (r: Game)
        ensures
            r.well_formed(),
            r@.state == GameState::Lobby,
            r@.round_index == 0,
            r@.settings == GameSettings::spec_default(),
            !r@.end_game,
            r@.rounds.len() == 0,
    {
        let g = Game {
            state: GameState::Lobby,
            round_index: 0,
            settings: GameSettings::default(),
            end_game: false,
            rounds: Vec::new(),
            timer: None,
            next_timer: 0,
        };
        assert(g@.rounds =~= Seq::<RoundModel>::empty());
        g
    }

    /// The current phase.
    pub fn get_game_state(&self) -> (r: GameState)
        ensures
            r == self@.state,
    {
        self.state
    }

    /// The index of the current round.
    pub fn get_current_round(&self) -> (r: u64)
        ensures
            r == self@.round_index,
    {
        self.round_index
    }

    /// The current settings.
    pub fn get_game_settings(&self) -> (r: GameSettings)
        ensures
            r == self@.settings,
    {
        self.settings.duplicate()
    }

    /// How long a round stays open, in seconds.
    pub fn get_round_duration(&self) -> (r: u64)
        ensures
            r == self@.settings.round_duration,
    {
        self.settings.round_duration
    }

    /// How many rounds a game has.
    pub fn get_rounds_count(&self) -> (r: u64)
        ensures
            r == self@.settings.rounds_count,
    {
        self.settings.rounds_count
    }

    /// The token of the armed round timer, if any.
    pub fn armed_timer(&self) -> (r: Option<u64>)
        ensures
            r == self@.timer,
    {
        self.timer
    }

    /// Sets the phase directly. Only moves that keep the game's invariant are
    /// allowed: into or out of an open round only through the transitions
    /// below, and to the lobby only with no stop pending.
    pub fn set_game_state(&mut self, new_state: GameState)
        requires
            old(self).well_formed(),
            (new_state == GameState::AnswerQuestion) == (old(self)@.state == GameState::AnswerQuestion),
            new_state == GameState::GameStarting || new_state == GameState::WaitingQuestion
                ==> old(self)@.rounds.len() == old(self)@.round_index,
            new_state == GameState::Lobby ==> !old(self)@.end_game,
            new_state == GameState::WaitingQuestion ==> old(self)@.round_index >= 1,
        ensures
            final(self).well_formed(),
            final(self)@ == (GameModel { state: new_state, ..old(self)@ }),
            round_order_kept(old(self)@, final(self)@),
    {
        self.state = new_state;
    }

    /// Starts a game from the lobby: the given settings take effect, the
    /// round index goes back to 0 and the ledger is cleared. Refused (false)
    /// in any other phase, with nothing changed.
    pub fn start_game(&mut self, game_settings: GameSettings) -> (r: bool)
        requires
            old(self).well_formed(),
        ensures
            final(self).well_formed(),
            r == (old(self)@.state == GameState::Lobby),
            r ==> final(self)@ == (GameModel {
                state: GameState::GameStarting,
                round_index: 0,
                settings: game_settings,
                end_game: false,
                rounds: Seq::empty(),
                timer: None,
            }),
            !r ==> final(self)@ == old(self)@,
    {
        if self.state != GameState::Lobby {
            return false;
        }
        self.settings = game_settings;
        self.round_index = 0;
        self.rounds = Vec::new();
        self.end_game = false;
        self.timer = None;
        self.state = GameState::GameStarting;
        assert(self@.rounds =~= Seq::<RoundModel>::empty());
        true
    }

    /// Closes the open round: a pending stop wins, then the last round goes
    /// to the lobby, any other to the next question.
    fn finish_round(&mut self)
        requires
            old(self).well_formed(),
            old(self)@.state == GameState::AnswerQuestion,
        ensures
            final(self).well_formed(),
            old(self)@.after_round(final(self)@),
            final(self).next_timer == old(self).next_timer,
    {
        self.timer = None;
        if self.end_game {
            self.end_game = false;
            self.state = GameState::Lobby;
        } else if self.settings.rounds_count <= 1 || self.round_index >= self.settings.rounds_count
            - 1 {
            self.state = GameState::Lobby;
        } else {
            self.round_index = self.round_index + 1;
            self.state = GameState::WaitingQuestion;
        }
    }

    /// Asks the game to stop; refused (false) in the lobby. The stop is marked
    /// and takes effect at the next decision: an open round is cancelled and
    /// decided at once (to the lobby); otherwise the next question ends the
    /// game instead of opening a round.
    pub fn stop_game(&mut self) -> (r: bool)
        requires
            old(self).well_formed(),
        ensures
            final(self).well_formed(),
            round_order_kept(old(self)@, final(self)@),
            r == (old(self)@.state != GameState::Lobby),
            !r ==> final(self)@ == old(self)@,
            r && old(self)@.state == GameState::AnswerQuestion ==> (GameModel {
                end_game: true,
                ..old(self)@
            }).after_round(final(self)@),
            r && old(self)@.state != GameState::AnswerQuestion ==> final(self)@ == (GameModel {
                end_game: true,
                ..old(self)@
            }),
    {
        if self.state == GameState::Lobby {
            return false;
        }
        self.end_game = true;
        if self.state == GameState::AnswerQuestion {
            self.finish_round();
        }
        true
    }

    /// The round timer with token `token` went off (or was cancelled): the
    /// round it guards is decided, once. A token that is not the armed one
    /// changes nothing (false).
    pub fn on_round_timer(&mut self, token: u64) -> (r: bool)
        requires
            old(self).well_formed(),
        ensures
            final(self).well_formed(),
            round_order_kept(old(self)@, final(self)@),
            r == (old(self)@.timer == Some(token)),
            r ==> old(self)@.after_round(final(self)@),
            !r ==> final(self)@ == old(self)@,
    {
        let armed = match self.timer {
            Some(t) => t == token,
            None => false,
        };
        if armed {
            self.finish_round();
        }
        armed
    }

    /// Ends the open round before its timer: the same decision as when the
    /// timer goes off. False, with nothing changed, when no round is open.
    pub fn end_round_early(&mut self) -> (r: bool)
        requires
            old(self).well_formed(),
        ensures
            final(self).well_formed(),
            round_order_kept(old(self)@, final(self)@),
            r == old(self)@.round_open(),
            r ==> old(self)@.after_round(final(self)@),
            !r ==> final(self)@ == old(self)@,
    {
        if self.state == GameState::AnswerQuestion {
            self.finish_round();
            true
        } else {
            false
        }
    }

    /// Takes the admin's question for the current round. When a stop is
    /// pending the game goes to the lobby instead; otherwise the question is
    /// recorded, the round opens and its timer is armed.
    pub fn set_current_question(&mut self, question: QuestionInfo) -> (r: Result<
        QuestionOutcome,
        QuestionError,
    >)
        requires
            old(self).well_formed(),
        ensures
            final(self).well_formed(),
            round_order_kept(old(self)@, final(self)@),
            old(self)@.rounds.len() > old(self)@.round_index ==> r == Err::<
                QuestionOutcome,
                QuestionError,
            >(QuestionError::AlreadyExists) && final(self)@ == old(self)@,
            old(self)@.rounds.len() == old(self)@.round_index && old(self)@.state
                != GameState::GameStarting && old(self)@.state != GameState::WaitingQuestion
                ==> r == Err::<QuestionOutcome, QuestionError>(QuestionError::NotExpected)
                && final(self)@ == old(self)@,
            (old(self)@.state == GameState::GameStarting || old(self)@.state
                == GameState::WaitingQuestion) && old(self)@.end_game ==> r == Ok::<
                QuestionOutcome,
                QuestionError,
            >(QuestionOutcome::GameEnded) && final(self)@ == (GameModel {
                state: GameState::Lobby,
                end_game: false,
                ..old(self)@
            }),
            (old(self)@.state == GameState::GameStarting || old(self)@.state
                == GameState::WaitingQuestion) && !old(self)@.end_game ==> (r matches Ok(
                QuestionOutcome::RoundOpened(t),
            ) && final(self)@ == (GameModel {
                state: GameState::AnswerQuestion,
                rounds: old(self)@.rounds.push(RoundModel { question, answers: Seq::empty() }),
                timer: Some(t),
                ..old(self)@
            })),
    {
        if (self.rounds.len() as u64) > self.round_index {
            return Err(QuestionError::AlreadyExists);
        }
        if self.state != GameState::GameStarting && self.state != GameState::WaitingQuestion {
            return Err(QuestionError::NotExpected);
        }
        if self.end_game {
            self.end_game = false;
            self.state = GameState::Lobby;
            return Ok(QuestionOutcome::GameEnded);
        }
        let ghost before = self@;
        self.rounds.push(Round { question, answers: Vec::new() });
        let t = self.next_timer;
        self.next_timer = if self.next_timer < u64::MAX {
            self.next_timer + 1
        } else {
            0
        };
        self.timer = Some(t);
        self.state = GameState::AnswerQuestion;
        assert(self@.rounds =~= before.rounds.push(RoundModel { question, answers: Seq::empty() }));
        assert forall|k: int| 0 <= k < self@.rounds.len() implies answers_unique(
            #[trigger] self@.rounds[k].answers,
        ) by {
            if k < before.rounds.len() {
                assert(self@.rounds[k] == before.rounds[k]);
            }
        }
        Ok(QuestionOutcome::RoundOpened(t))
    }

    proof fn lemma_round_view(&self, k: int)
        requires
            0 <= k < self.rounds@.len(),
        ensures
            self@.rounds.len() == self.rounds@.len(),
            self@.rounds[k].answers == self.rounds@[k].answers@,
            self@.rounds[k].question == self.rounds@[k].question,
    {
    }

    /// Whether client `client_id` has an answer in round `k`.
    fn has_answered(&self, k: usize, client_id: &str) -> (r: bool)
        requires
            k < self@.rounds.len(),
        ensures
            r == has_answer_of(self@.rounds[k as int].answers, client_id@),
    {
        proof {
            self.lemma_round_view(k as int);
        }
        let n = self.rounds[k].answers.len();
        let mut i: usize = 0;
        while i < n
            invariant
                k < self.rounds@.len(),
                n == self@.rounds[k as int].answers.len(),
                self@.rounds[k as int].answers == self.rounds@[k as int].answers@,
                i <= n,
                forall|j: int| 0 <= j < i ==> #[trigger] self@.rounds[k as int].answers[j].id@ != client_id@,
            decreases n - i,
        {
            if same_text(self.rounds[k].answers[i].id.as_str(), client_id) {
                return true;
            }
            i = i + 1;
        }
        false
    }

    /// Records the answer of client `client_id` in the open round, scored by
    /// whether it is one of the question's accepted readings, and returns
    /// that score. Refused when no round is open, and when this client has
    /// answered in this round already; nothing changes then.
    pub fn record_answer(&mut self, client_id: &str, answer: &str, answer_time: u64) -> (r: Result<
        bool,
        AnswerError,
    >)
        requires
            old(self).well_formed(),
        ensures
            final(self).well_formed(),
            round_order_kept(old(self)@, final(self)@),
            !old(self)@.round_open() ==> r == Err::<bool, AnswerError>(AnswerError::NoCurrentQuestion)
                && final(self)@ == old(self)@,
            old(self)@.round_open() && has_answer_of(old(self)@.current_answers(), client_id@) ==> r
                == Err::<bool, AnswerError>(AnswerError::AlreadyAnswered) && final(self)@ == old(self)@,
            old(self)@.round_open() && !has_answer_of(old(self)@.current_answers(), client_id@)
                ==> answer_recorded(
                old(self)@,
                final(self)@,
                client_id@,
                answer@,
                answer_time,
                r,
            ),
    {
        if self.state != GameState::AnswerQuestion {
            return Err(AnswerError::NoCurrentQuestion);
        }
        let n = self.rounds.len();
        assert(self@.rounds.len() == n);
        let k = self.round_index as usize;
        if self.has_answered(k, client_id) {
            return Err(AnswerError::AlreadyAnswered);
        }
        let is_correct = contains_text(&self.rounds[k].question.readings, answer);
        let info = AnswerInfo {
            id: client_id.to_owned(),
            answer: answer.to_owned(),
            is_correct,
            answer_time,
        };
        let ghost before = self@;
        self.rounds[k].answers.push(info);
        assert(self@.rounds[k as int].answers =~= before.rounds[k as int].answers.push(info));
        assert(self@.rounds[k as int].answers.subrange(0, before.rounds[k as int].answers.len() as int)
            =~= before.rounds[k as int].answers);
        assert forall|j: int| 0 <= j < self@.rounds.len() && j != k implies #[trigger] self@.rounds[j]
            == before.rounds[j] by {}
        assert forall|j: int| 0 <= j < self@.rounds.len() implies answers_unique(
            #[trigger] self@.rounds[j].answers,
        ) by {
            if j != k {
                assert(self@.rounds[j] == before.rounds[j]);
            } else {
                let a = self@.rounds[j].answers;
                let old_a = before.rounds[j].answers;
                assert forall|x: int, y: int|
                    0 <= x < a.len() && 0 <= y < a.len() && #[trigger] a[x].id@ == #[trigger] a[y].id@ implies x == y by {
                    if x < old_a.len() && y < old_a.len() {
                        assert(old_a[x] == a[x] && old_a[y] == a[y]);
                    } else if x < old_a.len() {
                        assert(old_a[x] == a[x]);
                    } else if y < old_a.len() {
                        assert(old_a[y] == a[y]);
                    }
                }
            }
        }
        Ok(is_correct)
    }

    /// Whether a round is open and the number of its answers equals the
    /// number `registered` of registered clients.
    pub fn all_clients_answered(&self, registered: usize) -> (r: bool)
        requires
            self.well_formed(),
        ensures
            r == (self@.round_open() && self@.current_answers().len() == registered),
    {
        if self.state != GameState::AnswerQuestion {
            return false;
        }
        let n = self.rounds.len();
        assert(self@.rounds.len() == n);
        let k = self.round_index as usize;
        proof {
            self.lemma_round_view(k as int);
        }
        self.rounds[k].answers.len() == registered
    }

    /// The answers recorded for round `round_index` (none for a round
    /// without a question).
    pub fn get_answers_for_round(&self, round_index: u64) -> (r: Vec<AnswerInfo>)
        ensures
            round_index < self@.rounds.len() ==> r@ == self@.rounds[round_index as int].answers,
            round_index >= self@.rounds.len() ==> r@.len() == 0,
    {
        if (round_index as usize) < self.rounds.len() && round_index <= usize::MAX as u64 {
            copy_answers(&self.rounds[round_index as usize].answers)
        } else {
            Vec::new()
        }
    }

    /// The whole ledger: every round of the current game with its question
    /// and its answers, in round order.
    pub fn get_all_answers(&self) -> (r: Vec<Round>)
        ensures
            r@.len() == self@.rounds.len(),
            forall|k: int|
                0 <= k < r@.len() ==> same_question(#[trigger] r@[k].question, self@.rounds[k].question)
                    && r@[k].answers@ == self@.rounds[k].answers,
    {
        let mut out: Vec<Round> = Vec::new();
        let n = self.rounds.len();
        let mut i: usize = 0;
        while i < n
            invariant
                n == self.rounds@.len(),
                n == self@.rounds.len(),
                i <= n,
                out@.len() == i,
                forall|k: int|
                    0 <= k < i ==> same_question(#[trigger] out@[k].question, self@.rounds[k].question)
                        && out@[k].answers@ == self@.rounds[k].answers,
            decreases n - i,
        {
            proof {
                self.lemma_round_view(i as int);
            }
            let round = Round {
                question: self.rounds[i].question.duplicate(),
                answers: copy_answers(&self.rounds[i].answers),
            };
            out.push(round);
            i = i + 1;
        }
        out
    }

    /// The question of round `round_index`, if it has one.
    pub fn get_question_for_round(&self, round_index: u64) -> (r: Option<QuestionInfo>)
        ensures
            r is None <==> round_index >= self@.rounds.len(),
            r matches Some(q) ==> same_question(q, self@.rounds[round_index as int].question),
    {
        if (round_index as usize) < self.rounds.len() && round_index <= usize::MAX as u64 {
            Some(self.rounds[round_index as usize].question.duplicate())
        } else {
            None
        }
    }

    /// In every round of the ledger a client has at most one recorded answer:
    /// two answers of one round with the same client id are the same entry.
    pub proof fn lemma_one_answer_per_client(&self, k: int, i: int, j: int)
        requires
            self.well_formed(),
            0 <= k < self@.rounds.len(),
            0 <= i < self@.rounds[k].answers.len(),
            0 <= j < self@.rounds[k].answers.len(),
            self@.rounds[k].answers[i].id@ == self@.rounds[k].answers[j].id@,
        ensures
            i == j,
    {
        assert(answers_unique(self@.rounds[k].answers));
    }

    /// Replaces the settings as a whole; nothing else changes.
    pub fn set_game_settings(&mut self, game_settings: GameSettings)
        requires
            old(self).well_formed(),
        ensures
            final(self).well_formed(),
            final(self)@ == (GameModel { settings: game_settings, ..old(self)@ }),
            round_order_kept(old(self)@, final(self)@),
    {
        self.settings = game_settings;
    }
}

} // verus!
