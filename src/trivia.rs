//! The per-chat trivia game: three questions about one character, five
//! points for each correct answer.
use std::collections::HashMap;
use vstd::prelude::*;
use crate::catalog::{Character, FetchError};
use crate::registry::SubscriberId;
use crate::text::{decimal, decimal_string, lower_of, lowercase, trim_str, trimmed};

verus! {

broadcast use vstd::std_specs::hash::group_hash_axioms;

/// Number of questions in one game.
pub const QUESTION_COUNT: usize = 3;

/// Points for one correct answer.
pub const CORRECT_REWARD: u32 = 5;

/// One chat's game in progress.
pub struct TriviaSession {
    pub character: Character,
    pub score: u32,
    pub question_index: usize,
}

impl TriviaSession {
    /// A live session asks one of the questions and has earned at most the
    /// reward of each question already answered.
    pub open spec fn wf(&self) -> bool {
        &&& self.question_index < QUESTION_COUNT
        &&& self.score <= CORRECT_REWARD * self.question_index
    }
}

/// Session of a game that has just started on `c`.
pub open spec fn start_session(c: Character) -> TriviaSession {
    TriviaSession { character: c, score: 0, question_index: 0 }
}

/// Text of question `index` about `c`.
pub open spec fn question_spec(c: Character, index: int) -> Seq<char> {
    if index == 0 {
        "¿Esta vivo "@ + c.name@ + "?, Si o No"@
    } else if index == 1 {
        "¿Cual es la especie de "@ + c.name@ + "?"@
    } else if index == 2 {
        "¿Cual es el tipo de "@ + c.name@ + "?"@
    } else {
        "Fin del juego"@
    }
}

/// The answer that question `index` about `c` expects, before case folding.
pub open spec fn expected_spec(c: Character, index: int) -> Seq<char> {
    if index == 0 {
        if c.status@ == "Alive"@ {
            "si"@
        } else {
            "no"@
        }
    } else if index == 1 {
        c.species@
    } else if index == 2 {
        c.character_type@
    } else {
        Seq::empty()
    }
}

/// Whether `answer` is right for the current question of `s`: trimmed and
/// case-folded, it equals the case-folded expected answer.
pub open spec fn answer_is_correct(s: TriviaSession, answer: Seq<char>) -> bool {
    lower_of(trimmed(answer)) == lower_of(expected_spec(s.character, s.question_index as int))
}

/// Score of `s` once its current question is graded.
pub open spec fn graded_score(s: TriviaSession, correct: bool) -> u32 {
    if correct {
        (s.score + CORRECT_REWARD) as u32
    } else {
        s.score
    }
}

/// Sessions after the chat `id` answered, rightly or not: its game moves to
/// the next question, or ends and is removed after the last one.
pub open spec fn sessions_after(
    m: Map<SubscriberId, TriviaSession>,
    id: SubscriberId,
    correct: bool,
) -> Map<SubscriberId, TriviaSession> {
    if !m.contains_key(id) {
        m
    } else if m[id].question_index + 1 < QUESTION_COUNT {
        m.insert(
            id,
            TriviaSession {
                character: m[id].character,
                score: graded_score(m[id], correct),
                question_index: (m[id].question_index + 1) as usize,
            },
        )
    } else {
        m.remove(id)
    }
}

/// Text of question `index` about `c`.
pub fn question_text(c: &Character, index: usize) -> (r: String)
    ensures
        r@ == question_spec(*c, index as int),
        r@.len() > 0,
{
    proof {
        reveal_strlit("¿Esta vivo ");
        reveal_strlit("¿Cual es la especie de ");
        reveal_strlit("¿Cual es el tipo de ");
        reveal_strlit("Fin del juego");
    }
    if index == 0 {
        let mut q = String::from_str("¿Esta vivo ");
        q.append(c.name.as_str());
        q.append("?, Si o No");
        q
    } else if index == 1 {
        let mut q = String::from_str("¿Cual es la especie de ");
        q.append(c.name.as_str());
        q.append("?");
        q
    } else if index == 2 {
        let mut q = String::from_str("¿Cual es el tipo de ");
        q.append(c.name.as_str());
        q.append("?");
        q
    } else {
        String::from_str("Fin del juego")
    }
}

/// The answer that question `index` about `c` expects, before case folding.
pub fn expected_answer(c: &Character, index: usize) -> (r: String)
    ensures
        r@ == expected_spec(*c, index as int),
{
    if index == 0 {
        if c.status == String::from_str("Alive") {
            String::from_str("si")
        } else {
            String::from_str("no")
        }
    } else if index == 1 {
        c.species.clone()
    } else if index == 2 {
        c.character_type.clone()
    } else {
        String::new()
    }
}

/// Grades `answer` against the current question of `s`.
pub fn check_answer(s: &TriviaSession, answer: &str) -> (r: bool)
    ensures
        r == answer_is_correct(*s, answer@),
{
    let given = lowercase(trim_str(answer));
    let expected = expected_answer(&s.character, s.question_index);
    let expected = lowercase(expected.as_str());
    answers_match(&given, &expected)
}

/// Whether a trimmed, case-folded answer equals the case-folded expected one.
pub fn answers_match(given: &String, expected: &String) -> (r: bool)
    ensures
        r == (given@ == expected@),
{
    *given == *expected
}

/// What a chat is told after answering.
pub enum AnswerReply {
    /// The game goes on with `question`.
    Next { correct: bool, question: String },
    /// The game is over with the final `score`.
    Finished { correct: bool, score: u32 },
}

impl AnswerReply {
    /// The messages for the chat, in order: the verdict on the answer, then
    /// the next question or the final score.
    pub fn messages(&self) -> (r: (String, String))
        ensures
            r.0@ == (if self.is_correct() { "Respuesta correcta!"@ } else { "Respuesta incorrecta!"@ }),
            r.1@ == match *self {
                AnswerReply::Next { question, .. } => question@,
                AnswerReply::Finished { score, .. } => final_message_spec(score),
            },
    {
        let verdict = match self {
            AnswerReply::Next { correct, .. } | AnswerReply::Finished { correct, .. } => *correct,
        };
        let first = if verdict {
            String::from_str("Respuesta correcta!")
        } else {
            String::from_str("Respuesta incorrecta!")
        };
        let second = match self {
            AnswerReply::Next { question, .. } => question.clone(),
            AnswerReply::Finished { score, .. } => final_message(*score),
        };
        (first, second)
    }

    pub open spec fn is_correct(&self) -> bool {
        match *self {
            AnswerReply::Next { correct, .. } => correct,
            AnswerReply::Finished { correct, .. } => correct,
        }
    }
}

/// The message that ends a game with `score` points.
pub open spec fn final_message_spec(score: u32) -> Seq<char> {
    "Fin del juego! \n\n Tu puntaje es: "@ + decimal(score as nat) + " puntos"@
}

/// The message that ends a game with `score` points.
pub fn final_message(score: u32) -> (r: String)
    ensures
        r@ == final_message_spec(score),
{
    let mut m = String::from_str("Fin del juego! \n\n Tu puntaje es: ");
    let s = decimal_string(score as usize);
    m.append(s.as_str());
    m.append(" puntos");
    m
}

/// The trivia games in progress, at most one per chat.
pub struct TriviaStore {
    sessions: HashMap<SubscriberId, TriviaSession>,
}

impl View for TriviaStore {
    type V = Map<SubscriberId, TriviaSession>;

    closed spec fn view(&self) -> Map<SubscriberId, TriviaSession> {
        self.sessions@
    }
}

impl TriviaStore {
    /// Every stored session is live.
    pub open spec fn wf(&self) -> bool {
        forall|id: SubscriberId| #[trigger] self@.contains_key(id) ==> self@[id].wf()
    }

    /// A store without games.
    pub fn new() -> (r: TriviaStore)
        ensures
            r@ == Map::<SubscriberId, TriviaSession>::empty(),
            r.wf(),
    {
        TriviaStore { sessions: HashMap::new() }
    }

    /// Whether chat `id` has a game in progress.
    pub fn has_game(&self, id: SubscriberId) -> (r: bool)
        ensures
            r == self@.contains_key(id),
    {
        self.sessions.contains_key(&id)
    }

    /// Score and question index of chat `id`'s game, if one is in progress.
    pub fn progress(&self, id: SubscriberId) -> (r: Option<(u32, usize)>)
        ensures
            match r {
                None => !self@.contains_key(id),
                Some((score, index)) => {
                    &&& self@.contains_key(id)
                    &&& score == self@[id].score
                    &&& index == self@[id].question_index
                },
            },
    {
        match self.sessions.get(&id) {
            None => None,
            Some(s) => Some((s.score, s.question_index)),
        }
    }

    /// Starts a game for chat `id` on the character that was picked, replacing
    /// any game in progress, and returns the first question. Where the pick
    /// failed, nothing changes and the failure is returned.
    pub fn start_game(&mut self, id: SubscriberId, pick: Result<Character, FetchError>) -> (r:
        Result<String, FetchError>)
        requires
            old(self).wf(),
        ensures
            final(self).wf(),
            match pick {
                Err(e) => r == Err::<String, FetchError>(e) && final(self)@ == old(self)@,
                Ok(c) => {
                    &&& r is Ok
                    &&& r->Ok_0@ == question_spec(c, 0)
                    &&& r->Ok_0@.len() > 0
                    &&& final(self)@ == old(self)@.insert(id, start_session(c))
                },
            },
    {
        match pick {
            Err(e) => Err(e),
            Ok(c) => {
                let question = question_text(&c, 0);
                self.sessions.insert(id, TriviaSession { character: c, score: 0, question_index: 0 });
                proof {
                    assert forall|k: SubscriberId| #[trigger] self@.contains_key(k) implies self@[k].wf() by {
                        if k != id {
                            assert(old(self)@.contains_key(k));
                        }
                    }
                }
                Ok(question)
            },
        }
    }

    /// Records an answer of chat `id` already graded as `correct`: the game
    /// moves to the next question or ends. Without a game in progress nothing
    /// changes.
    pub fn record_answer(&mut self, id: SubscriberId, correct: bool) -> (r: Option<AnswerReply>)
        requires
            old(self).wf(),
        ensures
            final(self).wf(),
            final(self)@ == sessions_after(old(self)@, id, correct),
            !old(self)@.contains_key(id) ==> r is None,
            old(self)@.contains_key(id) ==> {
                let s = old(self)@[id];
                match r {
                    None => false,
                    Some(AnswerReply::Next { correct: c, question }) => {
                        &&& s.question_index + 1 < QUESTION_COUNT
                        &&& c == correct
                        &&& question@ == question_spec(s.character, s.question_index + 1)
                    },
                    Some(AnswerReply::Finished { correct: c, score }) => {
                        &&& s.question_index + 1 >= QUESTION_COUNT
                        &&& c == correct
                        &&& score == graded_score(s, correct)
                    },
                }
            },
    {
        match self.sessions.remove(&id) {
            None => {
                proof {
                    assert(self@ =~= old(self)@);
                }
                None
            },
            Some(s) => {
                proof {
                    assert(old(self)@.contains_key(id) && old(self)@[id] == s);
                    assert(s.wf());
                }
                let score = if correct {
                    s.score + CORRECT_REWARD
                } else {
                    s.score
                };
                let index = s.question_index + 1;
                if index < QUESTION_COUNT {
                    let question = question_text(&s.character, index);
                    self.sessions.insert(
                        id,
                        TriviaSession { character: s.character, score, question_index: index },
                    );
                    Some(AnswerReply::Next { correct, question })
                } else {
                    Some(AnswerReply::Finished { correct, score })
                }
            },
        }
    }

    /// Grades `answer` for chat `id`'s current question and records it; see
    /// `record_answer`. Without a game in progress nothing changes.
    pub fn submit_answer(&mut self, id: SubscriberId, answer: &str) -> (r: Option<AnswerReply>)
        requires
            old(self).wf(),
        ensures
            final(self).wf(),
            !old(self)@.contains_key(id) ==> r is None && final(self)@ == old(self)@,
            old(self)@.contains_key(id) ==> {
                let s = old(self)@[id];
                let correct = answer_is_correct(s, answer@);
                &&& final(self)@ == sessions_after(old(self)@, id, correct)
                &&& match r {
                    None => false,
                    Some(AnswerReply::Next { correct: c, question }) => {
                        &&& s.question_index + 1 < QUESTION_COUNT
                        &&& c == correct
                        &&& question@ == question_spec(s.character, s.question_index + 1)
                    },
                    Some(AnswerReply::Finished { correct: c, score }) => {
                        &&& s.question_index + 1 >= QUESTION_COUNT
                        &&& c == correct
                        &&& score == graded_score(s, correct)
                    },
                }
            },
    {
        match self.sessions.get(&id) {
            None => None,
            Some(s) => {
                let correct = check_answer(s, answer);
                self.record_answer(id, correct)
            },
        }
    }
}

/// A game started for a chat asks the first question with no points, and after
/// three answers it is over: the session is gone and the score is five points
/// per correct answer.
pub proof fn lemma_game_takes_three_answers(
    m: Map<SubscriberId, TriviaSession>,
    id: SubscriberId,
    c: Character,
    a1: bool,
    a2: bool,
    a3: bool,
)
    ensures
        ({
            let m0 = m.insert(id, start_session(c));
            let m1 = sessions_after(m0, id, a1);
            let m2 = sessions_after(m1, id, a2);
            let m3 = sessions_after(m2, id, a3);
            &&& m0[id].question_index == 0
            &&& m0[id].score == 0
            &&& m1.contains_key(id) && m1[id].question_index == 1
            &&& m2.contains_key(id) && m2[id].question_index == 2
            &&& m2[id].question_index + 1 >= QUESTION_COUNT
            &&& graded_score(m2[id], a3) == CORRECT_REWARD * ((if a1 { 1u32 } else { 0u32 }) + (
            if a2 { 1u32 } else { 0u32 }) + (if a3 { 1u32 } else { 0u32 }))
            &&& !m3.contains_key(id)
            &&& forall|k: SubscriberId| k != id ==> m3.contains_key(k) == m.contains_key(k)
        }),
{
}

} // verus!
