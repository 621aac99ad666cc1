use bot_rust::dispatch::{callback_handler, commands_handler, main_menu, parse_callback, search_term, CallbackAction, Command, Reply};
use bot_rust::registry::SubscriptionRegistry;

fn text(r: &Reply) -> &str {
    match r {
        Reply::Text(t) | Reply::TextWithMenu(t) => t.as_str(),
        _ => panic!("expected a text reply"),
    }
}

#[test]
fn callback_data_maps_to_buttons() {
    assert_eq!(parse_callback("random_character"), CallbackAction::RandomCharacter);
    assert_eq!(parse_callback("subscribe"), CallbackAction::Subscribe);
    assert_eq!(parse_callback("unsubscribe"), CallbackAction::Unsubscribe);
    assert_eq!(parse_callback("info"), CallbackAction::Info);
    assert_eq!(parse_callback("buscar"), CallbackAction::Unknown);
}

#[test]
fn subscribe_and_unsubscribe_buttons_update_registry() {
    let mut reg = SubscriptionRegistry::new();
    let r = callback_handler(&mut reg, 5, CallbackAction::Subscribe);
    assert_eq!(text(&r), "¡Te has suscrito a las notificaciones diarias!");
    assert!(reg.contains(5));
    let r = callback_handler(&mut reg, 5, CallbackAction::Unsubscribe);
    assert_eq!(text(&r), "Has cancelado tu suscripción a las notificaciones diarias.");
    assert!(!reg.contains(5));
    assert!(matches!(callback_handler(&mut reg, 5, CallbackAction::Unknown), Reply::Silent));
    assert!(matches!(callback_handler(&mut reg, 5, CallbackAction::RandomCharacter), Reply::RandomCharacter));
}

#[test]
fn start_subscribes_and_shows_menu() {
    let mut reg = SubscriptionRegistry::new();
    let r = commands_handler(&mut reg, 8, Command::Start, "/start");
    assert!(matches!(r, Reply::TextWithMenu(_)));
    assert!(text(&r).starts_with("¡Hola!"));
    assert!(reg.contains(8));
    assert_eq!(main_menu().len(), 5);
    assert_eq!(main_menu()[1].1, "subscribe");
}

#[test]
fn buscar_extracts_term_or_prompts() {
    let mut reg = SubscriptionRegistry::new();
    match commands_handler(&mut reg, 8, Command::Buscar, "/buscar   Rick ") {
        Reply::SearchFor(t) => assert_eq!(t, "Rick"),
        _ => panic!("expected a search"),
    }
    let r = commands_handler(&mut reg, 8, Command::Buscar, "/buscar");
    assert_eq!(text(&r), "Por favor proporciona un nombre para buscar.\nEjemplo: /buscar Rick");
    assert_eq!(search_term("hola"), "");
    assert!(!reg.contains(8));
}

#[test]
fn trivia_command_starts_a_game() {
    let mut reg = SubscriptionRegistry::new();
    assert!(matches!(commands_handler(&mut reg, 3, Command::Trivia, "/trivia"), Reply::StartTrivia));
    assert!(!reg.contains(3));
}
