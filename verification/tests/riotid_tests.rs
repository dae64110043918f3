use matchbot::riotid::{is_valid_riot_id, RiotIdDirectory};

#[test]
fn accepted_riot_ids_have_a_tagged_shape() {
    assert!(is_valid_riot_id("Martige#0123"));
    assert!(is_valid_riot_id("a#b"));
    assert!(is_valid_riot_id("player_one#NA1"));
    assert!(is_valid_riot_id("prefix a#b suffix"));
}

#[test]
fn rejected_riot_ids_lack_the_tag() {
    assert!(!is_valid_riot_id(""));
    assert!(!is_valid_riot_id("Martige"));
    assert!(!is_valid_riot_id("#ab"));
    assert!(!is_valid_riot_id("ab#"));
    assert!(!is_valid_riot_id("a##"));
    assert!(!is_valid_riot_id("a# b"));
    assert!(!is_valid_riot_id("##"));
}

#[test]
fn directory_keeps_the_latest_accepted_id() {
    let mut dir = RiotIdDirectory::new();
    assert_eq!(dir.len(), 0);
    assert!(dir.set_riot_id(42, String::from("Martige#0123")));
    assert_eq!(dir.get_riot_id(42), Some(&String::from("Martige#0123")));
    // An update replaces the previous id.
    assert!(dir.set_riot_id(42, String::from("Martige#NA1")));
    assert_eq!(dir.get_riot_id(42), Some(&String::from("Martige#NA1")));
    assert_eq!(dir.len(), 1);
    // A rejected id changes nothing.
    assert!(!dir.set_riot_id(42, String::from("nope")));
    assert_eq!(dir.get_riot_id(42), Some(&String::from("Martige#NA1")));
    assert_eq!(dir.get_riot_id(7), None);
}
