use mint_watch::text::{has_suffix, same_text};

#[test]
fn same_text_compares_character_for_character() {
    assert!(same_text("", ""));
    assert!(same_text("pump", "pump"));
    assert!(same_text("añb→c", "añb→c"));
    assert!(!same_text("pump", "Pump"));
    assert!(!same_text("pump", "pum"));
    assert!(!same_text("pum", "pump"));
    assert!(!same_text("", "p"));
    assert!(!same_text("e\u{301}", "\u{e9}"));
}

#[test]
fn has_suffix_finds_the_last_characters() {
    assert!(has_suffix("Tokenpump", "pump"));
    assert!(has_suffix("pump", "pump"));
    assert!(has_suffix("pump", ""));
    assert!(has_suffix("", ""));
    assert!(!has_suffix("", "pump"));
    assert!(!has_suffix("ump", "pump"));
    assert!(!has_suffix("pumpA", "pump"));
    assert!(!has_suffix("TokenPUMP", "pump"));
    assert!(!has_suffix("pum p", "pump"));
}

#[test]
fn has_suffix_works_on_characters_of_several_bytes() {
    assert!(has_suffix("caf\u{e9}", "\u{e9}"));
    assert!(has_suffix("x→pump", "→pump"));
    assert!(!has_suffix("caf\u{e9}", "\u{a9}"));
    assert!(!has_suffix("\u{e9}", "caf\u{e9}"));
}
