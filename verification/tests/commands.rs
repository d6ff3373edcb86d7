use synapse::{get_app_info, get_quizzes, get_sessions, save_quiz, save_session};
use synapse::{QuizData, StudySessionData};

#[test]
fn app_info_is_the_fixed_pair() {
    let info = get_app_info();
    assert_eq!(info.name, "Synapse");
    assert_eq!(info.version, "0.1.0");
}

#[test]
fn app_info_same_on_every_call() {
    let first = get_app_info();
    let second = get_app_info();
    assert_eq!(first.name, second.name);
    assert_eq!(first.version, second.version);
}

#[test]
fn save_quiz_formats_topic_and_id() {
    let quiz = QuizData {
        id: String::from("q-7"),
        topic: String::from("Algebra"),
        score: Some(88),
    };
    assert_eq!(save_quiz(quiz), "Quiz saved: Algebra - q-7");
}

#[test]
fn save_quiz_ignores_missing_score() {
    let quiz = QuizData {
        id: String::from("q-9"),
        topic: String::from("History"),
        score: None,
    };
    assert_eq!(save_quiz(quiz), "Quiz saved: History - q-9");
}

#[test]
fn save_quiz_with_empty_strings() {
    let quiz = QuizData {
        id: String::new(),
        topic: String::new(),
        score: None,
    };
    assert_eq!(save_quiz(quiz), "Quiz saved:  - ");
}

#[test]
fn get_quizzes_is_empty() {
    assert!(get_quizzes().is_empty());
}

#[test]
fn get_quizzes_stays_empty_after_save() {
    let quiz = QuizData {
        id: String::from("q-1"),
        topic: String::from("Geometry"),
        score: Some(100),
    };
    let _ack = save_quiz(quiz);
    assert!(get_quizzes().is_empty());
}

#[test]
fn save_session_formats_subject_and_id() {
    let session = StudySessionData {
        id: String::from("s-3"),
        subject: String::from("Biology"),
        completed: true,
    };
    assert_eq!(save_session(session), "Session saved: Biology - s-3");
}

#[test]
fn save_session_ignores_completed_flag() {
    let done = StudySessionData {
        id: String::from("s-4"),
        subject: String::from("Chemistry"),
        completed: true,
    };
    let open = StudySessionData {
        id: String::from("s-4"),
        subject: String::from("Chemistry"),
        completed: false,
    };
    assert_eq!(save_session(done), save_session(open));
}

#[test]
fn save_session_with_empty_strings() {
    let session = StudySessionData {
        id: String::new(),
        subject: String::new(),
        completed: false,
    };
    assert_eq!(save_session(session), "Session saved:  - ");
}

#[test]
fn get_sessions_is_empty() {
    assert!(get_sessions().is_empty());
}

#[test]
fn get_sessions_stays_empty_after_save() {
    let session = StudySessionData {
        id: String::from("s-8"),
        subject: String::from("Physics"),
        completed: false,
    };
    let _ack = save_session(session);
    assert!(get_sessions().is_empty());
}
