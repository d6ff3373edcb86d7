//! Backend command handlers for the Synapse study application.
//!
//! The handlers serve three kinds of data: a static application
//! descriptor, quiz records, and study-session records. Saving a record
//! produces an acknowledgement string naming the record; no store exists
//! yet, so the listing handlers return an empty collection whatever was
//! saved before.

mod info;
mod planner;
mod quiz;

pub use info::get_app_info;
pub use info::AppInfo;
pub use planner::get_sessions;
pub use planner::lemma_session_ack_embeds;
pub use planner::save_session;
pub use planner::session_ack;
pub use planner::StudySessionData;
pub use quiz::get_quizzes;
pub use quiz::lemma_quiz_ack_embeds;
pub use quiz::quiz_ack;
pub use quiz::save_quiz;
pub use quiz::QuizData;
