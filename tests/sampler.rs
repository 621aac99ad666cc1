use bot_rust::catalog::{Character, Episode, FetchError};
use bot_rust::sampler::{episode_label, get_episode_names, get_random_character, pick_at, random_character_message};

fn named(name: &str, episodes: usize) -> Character {
    Character {
        name: name.to_string(),
        status: "Alive".to_string(),
        species: "Human".to_string(),
        character_type: String::new(),
        image: String::new(),
        episode: (0..episodes).map(|i| format!("https://ep/{}", i)).collect(),
    }
}

fn pilot() -> Episode {
    Episode {
        id: 1,
        name: "Pilot".to_string(),
        air_date: "December 2, 2013".to_string(),
        episode: "S01E01".to_string(),
        characters: vec![],
        url: "https://ep/1".to_string(),
        created: String::new(),
    }
}

#[test]
fn empty_collection_is_an_error() {
    assert!(matches!(get_random_character(vec![]), Err(FetchError::EmptyCollection)));
}

#[test]
fn single_item_is_always_picked() {
    let (c, n) = get_random_character(vec![named("Morty", 3)]).unwrap();
    assert_eq!(c.name, "Morty");
    assert_eq!(n, 3);
}

#[test]
fn pick_is_a_member_and_roughly_uniform() {
    let names = ["a", "b", "c", "d"];
    let mut counts = [0usize; 4];
    for _ in 0..4000 {
        let items: Vec<Character> = names.iter().map(|n| named(n, 1)).collect();
        let (c, _) = get_random_character(items).unwrap();
        let i = names.iter().position(|n| *n == c.name).expect("picked item is a member");
        counts[i] += 1;
    }
    for k in counts {
        assert!(k > 800 && k < 1200, "counts {:?}", counts);
    }
}

#[test]
fn pick_at_returns_that_item() {
    let items = vec![named("a", 1), named("b", 2), named("c", 5)];
    let (c, n) = pick_at(items, 2);
    assert_eq!(c.name, "c");
    assert_eq!(n, 5);
}

#[test]
fn episode_labels_degrade_per_reference() {
    assert_eq!(episode_label(&pilot()), "Pilot (S01E01)");
    let labels = get_episode_names(&vec![Some(pilot()), None]);
    assert_eq!(labels, vec!["Pilot (S01E01)".to_string(), "Unknown episode".to_string()]);
}

#[test]
fn random_character_message_numbers_episodes() {
    let c = named("Morty", 1);
    let m = random_character_message(&c, 1, &vec!["Pilot (S01E01)".to_string()]);
    assert_eq!(
        m,
        "Personaje aleatorio:\n\nNombre: Morty\nEstado: Alive\nEspecie: Human\nTipo: \nImagen: \nAparece en 1 episodio\n\nEpisodios:\n1. Pilot (S01E01)\n"
    );
    let m2 = random_character_message(&named("Rick", 2), 12, &vec![]);
    assert!(m2.contains("Aparece en 12 episodios\n"));
}
