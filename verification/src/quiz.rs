use vstd::prelude::*;
use vstd::string::StringExecFns;

verus! {

/// A quiz record: its unique identifier, its topic, and the score it
/// received, if it was graded.
#[derive(Debug, Clone)]
pub struct QuizData {
    pub id: String,
    pub topic: String,
    pub score: Option<i32>,
}

/// The acknowledgement text for a saved quiz with this topic and id.
pub open spec fn quiz_ack(topic: Seq<char>, id: Seq<char>) -> Seq<char> {
    "Quiz saved: "@ + topic + " - "@ + id
}

/// The topic and the id stand in the acknowledgement exactly, each as one
/// contiguous run at a fixed offset: the topic right after the leading
/// text, the id after the separator, reaching to the end.
pub proof fn lemma_quiz_ack_embeds(topic: Seq<char>, id: Seq<char>)
    ensures
        quiz_ack(topic, id).len() == 15 + topic.len() + id.len(),
        quiz_ack(topic, id).subrange(12, 12 + topic.len() as int) == topic,
        quiz_ack(topic, id).subrange(
            15 + topic.len() as int,
            quiz_ack(topic, id).len() as int,
        ) == id,
{
    reveal_strlit("Quiz saved: ");
    reveal_strlit(" - ");
    assert(quiz_ack(topic, id).subrange(12, 12 + topic.len() as int) =~= topic);
    assert(quiz_ack(topic, id).subrange(
        15 + topic.len() as int,
        quiz_ack(topic, id).len() as int,
    ) =~= id);
}

/// Acknowledges a quiz submission. Nothing is validated and nothing is
/// stored: the result is the acknowledgement string for the quiz's topic
/// and id, and `get_quizzes` stays empty.
pub fn save_quiz(quiz: QuizData) -> (ack: String)
    ensures
        ack@ == quiz_ack(quiz.topic@, quiz.id@),
{
    let mut ack = "Quiz saved: ".to_owned();
    ack.append(quiz.topic.as_str());
    ack.append(" - ");
    ack.append(quiz.id.as_str());
    proof {
        assert(ack@ =~= quiz_ack(quiz.topic@, quiz.id@));
    }
    ack
}

/// Lists the stored quiz records. No store exists, so the list is empty,
/// whatever `save_quiz` was called with before.
pub fn get_quizzes() -> (quizzes: Vec<QuizData>)
    ensures
        quizzes@ == Seq::<QuizData>::empty(),
{
    Vec::new()
}

} // verus!
