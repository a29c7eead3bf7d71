use openclips::steam::{keep_letters, normalize, pick_name, strip_marks, suggest_name};

fn names() -> Vec<String> {
    [
        "Rocket League",
        "Rocket League Sideswipe",
        "Dead Space",
        "Dead Space 2",
        "Half-Life 2",
    ]
    .iter()
    .map(|s| s.to_string())
    .collect()
}

#[test]
fn exact_normalized_match_wins() {
    assert_eq!(
        suggest_name("RocketLeague.exe", &names()).map(String::as_str),
        Some("Rocket League")
    );
    assert_eq!(suggest_name("hl2.exe", &names()), None);
    assert_eq!(
        suggest_name("deadspace-win64-shipping.exe", &names()).map(String::as_str),
        Some("Dead Space")
    );
}

#[test]
fn prefix_match_prefers_shortest() {
    assert_eq!(
        suggest_name("rocket.exe", &names()).map(String::as_str),
        Some("Rocket League")
    );
    assert_eq!(suggest_name("x.exe", &names()), None);
}

#[test]
fn an_exact_match_wins_over_a_shorter_prefix_match() {
    let list = vec!["Portal!".to_owned(), "Portal Two".to_owned(), "PORTAL".to_owned()];
    assert_eq!(
        suggest_name("portal_dx12.exe", &list).map(String::as_str),
        Some("Portal!")
    );
}

#[test]
fn the_shortest_counts_bytes() {
    let list = vec!["Dooms\u{e9}\u{e9}".to_owned(), "Doom games".to_owned()];
    let normals = vec!["dooms".to_owned(), "doomgames".to_owned()];
    assert_eq!(pick_name("doom", &normals, &list), Some(0));
    let wide = vec!["Doom\u{e9}\u{e9}\u{e9}\u{e9}".to_owned(), "Doom games".to_owned()];
    assert_eq!(pick_name("doom", &normals, &wide), Some(1));
    assert_eq!(pick_name("do", &normals, &list), None);
}

#[test]
fn marks_and_punctuation_are_dropped() {
    assert_eq!(strip_marks("game64-win64-shipping_dx11"), "game");
    assert_eq!(keep_letters("Half-Life 2: \u{c9}pisode"), "HalfLife2pisode");
}

#[test]
fn normalized_names_stay() {
    for text in ["Half-Life 2", "\u{130}stanbul \u{212a}", "ABC def 9!", ""] {
        let once = normalize(text);
        assert!(once.chars().all(|c| c.is_ascii_lowercase() || c.is_ascii_digit()));
        assert_eq!(normalize(&once), once);
    }
    assert_eq!(normalize("Half-Life 2"), "halflife2");
}
