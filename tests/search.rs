use bot_rust::catalog::Character;
use bot_rust::search::found_character;
use bot_rust::text::decimal_string;

fn named(name: &str) -> Character {
    Character {
        name: name.to_string(),
        status: "Dead".to_string(),
        species: "Human".to_string(),
        character_type: String::new(),
        image: String::new(),
        episode: vec![],
    }
}

#[test]
fn search_without_results() {
    assert_eq!(found_character("Zzz", &vec![]), "No se encontraron personajes con el nombre 'Zzz'");
}

#[test]
fn search_lists_each_match() {
    let r = found_character("Rick", &vec![named("Rick"), named("Rick II")]);
    assert_eq!(
        r,
        "Encontrados 2 personajes que coinciden con 'Rick':\n\n📌 *Rick*\n• Estado: Dead\n\n📌 *Rick II*\n• Estado: Dead\n\n"
    );
}

#[test]
fn search_caps_listing_at_twenty() {
    let found: Vec<Character> = (0..25).map(|i| named(&format!("R{}", i))).collect();
    let r = found_character("R", &found);
    assert_eq!(r.matches("📌").count(), 20);
    assert!(r.starts_with("Encontrados 25 personajes"));
    assert!(r.ends_with("ℹ️ *Mostrando 20 de 25 personajes encontrados*"));
    assert!(!r.contains("*R20*"));
}

#[test]
fn decimal_rendering() {
    assert_eq!(decimal_string(0), "0");
    assert_eq!(decimal_string(907), "907");
    assert_eq!(decimal_string(usize::MAX), usize::MAX.to_string());
}
