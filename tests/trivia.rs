use bot_rust::catalog::{Character, FetchError};
use bot_rust::trivia::{answers_match, check_answer, expected_answer, final_message, question_text, AnswerReply, TriviaSession, TriviaStore};

fn rick() -> Character {
    Character {
        name: "Rick Sanchez".to_string(),
        status: "Alive".to_string(),
        species: "Human".to_string(),
        character_type: "Scientist".to_string(),
        image: "https://img/1.jpeg".to_string(),
        episode: vec![],
    }
}

fn finished_score(r: Option<AnswerReply>) -> u32 {
    match r {
        Some(AnswerReply::Finished { score, .. }) => score,
        _ => panic!("expected the game to end"),
    }
}

#[test]
fn start_game_asks_first_question_with_no_points() {
    let mut store = TriviaStore::new();
    let q = store.start_game(9, Ok(rick())).unwrap();
    assert_eq!(q, "¿Esta vivo Rick Sanchez?, Si o No");
    assert_eq!(store.progress(9), Some((0, 0)));
}

#[test]
fn start_game_failure_leaves_no_game() {
    let mut store = TriviaStore::new();
    assert!(matches!(store.start_game(9, Err(FetchError::Transport)), Err(FetchError::Transport)));
    assert!(!store.has_game(9));
}

#[test]
fn three_correct_answers_score_fifteen() {
    let mut store = TriviaStore::new();
    store.start_game(1, Ok(rick())).unwrap();
    match store.submit_answer(1, "  SI ") {
        Some(AnswerReply::Next { correct, question }) => {
            assert!(correct);
            assert_eq!(question, "¿Cual es la especie de Rick Sanchez?");
        }
        _ => panic!("expected the second question"),
    }
    match store.submit_answer(1, "human") {
        Some(AnswerReply::Next { correct, question }) => {
            assert!(correct);
            assert_eq!(question, "¿Cual es el tipo de Rick Sanchez?");
        }
        _ => panic!("expected the third question"),
    }
    assert_eq!(store.progress(1), Some((10, 2)));
    assert_eq!(finished_score(store.submit_answer(1, "scientist")), 15);
    assert!(!store.has_game(1));
}

#[test]
fn three_wrong_answers_score_zero() {
    let mut store = TriviaStore::new();
    store.start_game(1, Ok(rick())).unwrap();
    store.submit_answer(1, "no");
    store.submit_answer(1, "Alien");
    assert_eq!(finished_score(store.submit_answer(1, "Robot")), 0);
    assert!(!store.has_game(1));
}

#[test]
fn answer_without_game_is_noop() {
    let mut store = TriviaStore::new();
    assert!(store.submit_answer(5, "si").is_none());
    assert!(!store.has_game(5));
    assert_eq!(store.progress(5), None);
}

#[test]
fn new_game_replaces_old_one() {
    let mut store = TriviaStore::new();
    store.start_game(1, Ok(rick())).unwrap();
    store.submit_answer(1, "si");
    store.start_game(1, Ok(rick())).unwrap();
    assert_eq!(store.progress(1), Some((0, 0)));
}

#[test]
fn dead_character_expects_no() {
    let mut c = rick();
    c.status = "Dead".to_string();
    assert_eq!(expected_answer(&c, 0), "no");
    assert_eq!(expected_answer(&rick(), 0), "si");
    assert_eq!(expected_answer(&rick(), 1), "Human");
    assert_eq!(expected_answer(&rick(), 2), "Scientist");
}

#[test]
fn check_answer_trims_and_folds_case() {
    let s = TriviaSession { character: rick(), score: 0, question_index: 1 };
    assert!(check_answer(&s, "  hUMAN\n"));
    assert!(!check_answer(&s, "Humano"));
}

#[test]
fn question_text_per_index() {
    assert_eq!(question_text(&rick(), 2), "¿Cual es el tipo de Rick Sanchez?");
    assert_eq!(question_text(&rick(), 3), "Fin del juego");
}

#[test]
fn reply_messages_give_verdict_and_score() {
    let r = AnswerReply::Finished { correct: false, score: 10 };
    let (a, b) = r.messages();
    assert_eq!(a, "Respuesta incorrecta!");
    assert_eq!(b, "Fin del juego! \n\n Tu puntaje es: 10 puntos");
    assert_eq!(final_message(15), "Fin del juego! \n\n Tu puntaje es: 15 puntos");
}

#[test]
fn folded_answers_compare_exactly() {
    assert!(answers_match(&"human".to_string(), &"human".to_string()));
    assert!(!answers_match(&"human".to_string(), &"Human".to_string()));
}
