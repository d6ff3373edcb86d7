use vstd::prelude::*;
use vstd::string::StringExecFns;

verus! {

/// A study-session record: its unique identifier, its subject, and
/// whether the session was completed.
#[derive(Debug, Clone)]
pub struct StudySessionData {
    pub id: String,
    pub subject: String,
    pub completed: bool,
}

/// The acknowledgement text for a saved session with this subject and id.
pub open spec fn session_ack(subject: Seq<char>, id: Seq<char>) -> Seq<char> {
    "Session saved: "@ + subject + " - "@ + id
}

/// The subject and the id stand in the acknowledgement exactly, each as
/// one contiguous run at a fixed offset: the subject right after the
/// leading text, the id after the separator, reaching to the end.
pub proof fn lemma_session_ack_embeds(subject: Seq<char>, id: Seq<char>)
    ensures
        session_ack(subject, id).len() == 18 + subject.len() + id.len(),
        session_ack(subject, id).subrange(15, 15 + subject.len() as int) == subject,
        session_ack(subject, id).subrange(
            18 + subject.len() as int,
            session_ack(subject, id).len() as int,
        ) == id,
{
    reveal_strlit("Session saved: ");
    reveal_strlit(" - ");
    assert(session_ack(subject, id).subrange(15, 15 + subject.len() as int) =~= subject);
    assert(session_ack(subject, id).subrange(
        18 + subject.len() as int,
        session_ack(subject, id).len() as int,
    ) =~= id);
}

/// Acknowledges a study-session submission. Nothing is validated and
/// nothing is stored: the result is the acknowledgement string for the
/// session's subject and id, and `get_sessions` stays empty.
pub fn save_session(session: StudySessionData) -> (ack: String)
    ensures
        ack@ == session_ack(session.subject@, session.id@),
{
    let mut ack = "Session saved: ".to_owned();
    ack.append(session.subject.as_str());
    ack.append(" - ");
    ack.append(session.id.as_str());
    proof {
        assert(ack@ =~= session_ack(session.subject@, session.id@));
    }
    ack
}

/// Lists the stored study-session records. No store exists, so the list
/// is empty, whatever `save_session` was called with before.
pub fn get_sessions() -> (sessions: Vec<StudySessionData>)
    ensures
        sessions@ == Seq::<StudySessionData>::empty(),
{
    Vec::new()
}

} // verus!
