use vstd::prelude::*;

use crate::text::{copy_opt_string, copy_string, copy_strings};

verus! {

/// A registered client as the registry records it and as it is announced.
#[derive(Clone, Debug, PartialEq, Eq)]
pub struct ClientInfo {
    pub id: String,
    pub key: String,
    pub name: String,
    pub is_admin: bool,
}

impl ClientInfo {
    /// A copy of this record.
    pub fn duplicate(&self) -> (r: ClientInfo)
        ensures
            r == *self,
    {
        ClientInfo {
            id: copy_string(&self.id),
            key: copy_string(&self.key),
            name: copy_string(&self.name),
            is_admin: self.is_admin,
        }
    }
}

/// A copy of a list of client records.
pub fn copy_clients(v: &Vec<ClientInfo>) -> (r: Vec<ClientInfo>)
    ensures
        r@ == v@,
{
    let mut out: Vec<ClientInfo> = Vec::new();
    let mut i: usize = 0;
    while i < v.len()
        invariant
            i <= v@.len(),
            out@ == v@.subrange(0, i as int),
        decreases v@.len() - i,
    {
        out.push(v[i].duplicate());
        i = i + 1;
        assert(out@ =~= v@.subrange(0, i as int));
    }
    assert(v@.subrange(0, v@.len() as int) =~= v@);
    out
}

/// The settings of a game; replaced as a whole.
#[derive(Clone, Debug, PartialEq, Eq)]
pub struct GameSettings {
    pub min_frequency: u64,
    pub max_frequency: u64,
    pub using_max_frequency: bool,
    /// How long a round stays open, in seconds.
    pub round_duration: u64,
    /// How many rounds a game has.
    pub rounds_count: u64,
    pub word_part: Option<String>,
    pub word_part_reading: Option<String>,
    pub fonts_count: u64,
    pub first_font_name: Option<String>,
}

impl GameSettings {
    pub open spec fn spec_default() -> GameSettings {
        GameSettings {
            min_frequency: 0,
            max_frequency: 0,
            using_max_frequency: false,
            round_duration: 0,
            rounds_count: 0,
            word_part: None,
            word_part_reading: None,
            fonts_count: 0,
            first_font_name: None,
        }
    }

    /// A copy of these settings.
    pub fn duplicate(&self) -> (r: GameSettings)
        ensures
            r == *self,
    {
        GameSettings {
            min_frequency: self.min_frequency,
            max_frequency: self.max_frequency,
            using_max_frequency: self.using_max_frequency,
            round_duration: self.round_duration,
            rounds_count: self.rounds_count,
            word_part: copy_opt_string(&self.word_part),
            word_part_reading: copy_opt_string(&self.word_part_reading),
            fonts_count: self.fonts_count,
            first_font_name: copy_opt_string(&self.first_font_name),
        }
    }
}

impl Default for GameSettings {
    fn default() -> (r: GameSettings)
        ensures
            r == GameSettings::spec_default(),
    {
        GameSettings {
            min_frequency: 0,
            max_frequency: 0,
            using_max_frequency: false,
            round_duration: 0,
            rounds_count: 0,
            word_part: None,
            word_part_reading: None,
            fonts_count: 0,
            first_font_name: None,
        }
    }
}

/// A question as the game logic sees it: the readings that count as a
/// correct answer, and the question's full content as JSON text, which is
/// carried through unchanged.
#[derive(Clone, Debug, PartialEq, Eq)]
pub struct QuestionInfo {
    pub readings: Vec<String>,
    pub content: String,
}

impl QuestionInfo {
    /// A copy of this question.
    pub fn duplicate(&self) -> (r: QuestionInfo)
        ensures
            r.readings@ == self.readings@,
            r.content == self.content,
    {
        QuestionInfo { readings: copy_strings(&self.readings), content: copy_string(&self.content) }
    }
}

/// One recorded answer of one client.
#[derive(Clone, Debug, PartialEq, Eq)]
pub struct AnswerInfo {
    pub id: String,
    pub answer: String,
    pub is_correct: bool,
    /// When the answer came in, as the caller's clock gave it.
    pub answer_time: u64,
}

impl AnswerInfo {
    /// A copy of this answer.
    pub fn duplicate(&self) -> (r: AnswerInfo)
        ensures
            r == *self,
    {
        AnswerInfo {
            id: copy_string(&self.id),
            answer: copy_string(&self.answer),
            is_correct: self.is_correct,
            answer_time: self.answer_time,
        }
    }
}

/// A copy of a list of answers.
pub fn copy_answers(v: &Vec<AnswerInfo>) -> (r: Vec<AnswerInfo>)
    ensures
        r@ == v@,
{
    let mut out: Vec<AnswerInfo> = Vec::new();
    let mut i: usize = 0;
    while i < v.len()
        invariant
            i <= v@.len(),
            out@ == v@.subrange(0, i as int),
        decreases v@.len() - i,
    {
        out.push(v[i].duplicate());
        i = i + 1;
        assert(out@ =~= v@.subrange(0, i as int));
    }
    assert(v@.subrange(0, v@.len() as int) =~= v@);
    out
}

} // verus!
