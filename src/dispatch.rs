//! What the bot does for each command and menu button: registry updates and
//! the reply that the chat layer sends.
use vstd::prelude::*;
use crate::registry::{SubscriberId, SubscriptionRegistry};
use crate::text::{has_prefix, strip_prefix_str, trim_str, trimmed};

verus! {

/// Commands the bot understands.
#[derive(PartialEq, Eq, Structural, Clone, Copy, Debug)]
pub enum Command {
    /// Subscribe and show the menu.
    Start,
    /// Show the menu.
    Menu,
    /// Send a random character.
    Random,
    /// Search characters by the name that follows the command.
    Buscar,
    /// Start a trivia game about a random character.
    Trivia,
}

/// Buttons of the main menu.
#[derive(PartialEq, Eq, Structural, Clone, Copy, Debug)]
pub enum CallbackAction {
    RandomCharacter,
    Subscribe,
    Unsubscribe,
    Info,
    /// Data that no button sends.
    Unknown,
}

/// What the chat layer does in answer to one command or button.
pub enum Reply {
    /// Send this text.
    Text(String),
    /// Send this text with the main menu attached.
    TextWithMenu(String),
    /// Pick a random character and send it.
    RandomCharacter,
    /// Search characters by this name and send the result.
    SearchFor(String),
    /// Pick a random character and start a trivia game on it.
    StartTrivia,
    /// Send nothing.
    Silent,
}

pub open spec fn greeting_spec() -> Seq<char> {
    "¡Hola! Te enviaré un personaje de Rick y Morty cada día a las 9:00 AM UTC."@
}

pub open spec fn menu_title_spec() -> Seq<char> {
    "Menú principal:"@
}

pub open spec fn search_prompt_spec() -> Seq<char> {
    "Por favor proporciona un nombre para buscar.\nEjemplo: /buscar Rick"@
}

pub open spec fn subscribed_spec() -> Seq<char> {
    "¡Te has suscrito a las notificaciones diarias!"@
}

pub open spec fn unsubscribed_spec() -> Seq<char> {
    "Has cancelado tu suscripción a las notificaciones diarias."@
}

pub open spec fn info_spec() -> Seq<char> {
    "Este bot te envía información sobre personajes de Rick y Morty.\n\nComandos disponibles:\n/start - Iniciar el bot\n/menu - Mostrar menú principal\n/random - Obtener un personaje aleatorio"@
}

/// The button sending `data`.
pub open spec fn callback_spec(data: Seq<char>) -> CallbackAction {
    if data == "random_character"@ {
        CallbackAction::RandomCharacter
    } else if data == "subscribe"@ {
        CallbackAction::Subscribe
    } else if data == "unsubscribe"@ {
        CallbackAction::Unsubscribe
    } else if data == "info"@ {
        CallbackAction::Info
    } else {
        CallbackAction::Unknown
    }
}

/// The button sending `data`.
pub fn parse_callback(data: &str) -> (r: CallbackAction)
    ensures
        r == callback_spec(data@),
{
    let d = String::from_str(data);
    if d == String::from_str("random_character") {
        CallbackAction::RandomCharacter
    } else if d == String::from_str("subscribe") {
        CallbackAction::Subscribe
    } else if d == String::from_str("unsubscribe") {
        CallbackAction::Unsubscribe
    } else if d == String::from_str("info") {
        CallbackAction::Info
    } else {
        CallbackAction::Unknown
    }
}

/// Buttons of the main menu, as label and data.
pub fn main_menu() -> (r: Vec<(String, String)>)
    ensures
        r@.len() == 5,
        r@[0].1@ == "random_character"@,
        r@[1].1@ == "subscribe"@,
        r@[2].1@ == "unsubscribe"@,
        r@[3].1@ == "buscar"@,
        r@[4].1@ == "info"@,
{
    let mut v: Vec<(String, String)> = Vec::new();
    v.push((String::from_str("🎲 Personaje Aleatorio"), String::from_str("random_character")));
    v.push((String::from_str("📝 Suscribirse"), String::from_str("subscribe")));
    v.push((String::from_str("❌ Cancelar Suscripción"), String::from_str("unsubscribe")));
    v.push((String::from_str("🔍 Buscar Personaje"), String::from_str("buscar")));
    v.push((String::from_str("ℹ️ Información"), String::from_str("info")));
    v
}

/// The name searched by the text of a `/buscar` command: what follows the
/// command word, trimmed; empty where the text does not start with it.
pub open spec fn search_term_spec(text: Seq<char>) -> Seq<char> {
    if has_prefix(text, "/buscar"@) {
        trimmed(text.subrange("/buscar"@.len() as int, text.len() as int))
    } else {
        Seq::empty()
    }
}

/// The name searched by the text of a `/buscar` command.
pub fn search_term(text: &str) -> (r: String)
    ensures
        r@ == search_term_spec(text@),
{
    proof {
        reveal_strlit("/buscar");
    }
    match strip_prefix_str(text, "/buscar") {
        Some(rest) => {
            proof {
                assert(text@.subrange(0, 7) =~= "/buscar"@);
                assert(text@.subrange(7, text@.len() as int) =~= rest@);
            }
            String::from_str(trim_str(rest))
        },
        None => String::new(),
    }
}

/// Whether `r` is `Text` with text `s`.
pub open spec fn is_text(r: Reply, s: Seq<char>) -> bool {
    match r {
        Reply::Text(t) => t@ == s,
        _ => false,
    }
}

/// Whether `r` is `TextWithMenu` with text `s`.
pub open spec fn is_menu_text(r: Reply, s: Seq<char>) -> bool {
    match r {
        Reply::TextWithMenu(t) => t@ == s,
        _ => false,
    }
}

/// Handles button `action` pressed in chat `id`.
pub fn callback_handler(registry: &mut SubscriptionRegistry, id: SubscriberId, action: CallbackAction) -> (r:
    Reply)
    ensures
        action == CallbackAction::Subscribe ==> final(registry)@ == old(registry)@.insert(id),
        action == CallbackAction::Unsubscribe ==> final(registry)@ == old(registry)@.remove(id),
        action != CallbackAction::Subscribe && action != CallbackAction::Unsubscribe
            ==> final(registry)@ == old(registry)@,
        match action {
            CallbackAction::RandomCharacter => r is RandomCharacter,
            CallbackAction::Subscribe => is_text(r, subscribed_spec()),
            CallbackAction::Unsubscribe => is_text(r, unsubscribed_spec()),
            CallbackAction::Info => is_text(r, info_spec()),
            CallbackAction::Unknown => r is Silent,
        },
{
    match action {
        CallbackAction::RandomCharacter => Reply::RandomCharacter,
        CallbackAction::Subscribe => {
            registry.subscribe(id);
            Reply::Text(String::from_str("¡Te has suscrito a las notificaciones diarias!"))
        },
        CallbackAction::Unsubscribe => {
            registry.unsubscribe(id);
            Reply::Text(String::from_str("Has cancelado tu suscripción a las notificaciones diarias."))
        },
        CallbackAction::Info => Reply::Text(
            String::from_str(
                "Este bot te envía información sobre personajes de Rick y Morty.\n\nComandos disponibles:\n/start - Iniciar el bot\n/menu - Mostrar menú principal\n/random - Obtener un personaje aleatorio",
            ),
        ),
        CallbackAction::Unknown => Reply::Silent,
    }
}

/// Handles command `cmd` sent in chat `id` with message text `text`.
pub fn commands_handler(
    registry: &mut SubscriptionRegistry,
    id: SubscriberId,
    cmd: Command,
    text: &str,
) -> (r: Reply)
    ensures
        cmd == Command::Start ==> final(registry)@ == old(registry)@.insert(id),
        cmd != Command::Start ==> final(registry)@ == old(registry)@,
        match cmd {
            Command::Start => is_menu_text(r, greeting_spec()),
            Command::Menu => is_menu_text(r, menu_title_spec()),
            Command::Random => r is RandomCharacter,
            Command::Trivia => r is StartTrivia,
            Command::Buscar => if search_term_spec(text@).len() == 0 {
                is_text(r, search_prompt_spec())
            } else {
                match r {
                    Reply::SearchFor(t) => t@ == search_term_spec(text@),
                    _ => false,
                }
            },
        },
{
    match cmd {
        Command::Start => {
            registry.subscribe(id);
            Reply::TextWithMenu(
                String::from_str(
                    "¡Hola! Te enviaré un personaje de Rick y Morty cada día a las 9:00 AM UTC.",
                ),
            )
        },
        Command::Menu => Reply::TextWithMenu(String::from_str("Menú principal:")),
        Command::Random => Reply::RandomCharacter,
        Command::Trivia => Reply::StartTrivia,
        Command::Buscar => {
            let term = search_term(text);
            if term.as_str().is_empty() {
                Reply::Text(
                    String::from_str(
                        "Por favor proporciona un nombre para buscar.\nEjemplo: /buscar Rick",
                    ),
                )
            } else {
                Reply::SearchFor(term)
            }
        },
    }
}

} // verus!
