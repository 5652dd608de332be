use tessera_model_gate::champions::{ChampionEntry, ChampionRegistry};

fn registry() -> ChampionRegistry {
    ChampionRegistry {
        champions: vec![ChampionEntry {
            task_class: "log_extraction".into(),
            model_id: "qwen36-27b-q8".into(),
            since: Some("2026-07-20".into()),
        }],
    }
}

#[test]
fn champion_is_matched_by_class() {
    assert_eq!(registry().champion_for("log_extraction"), Some("qwen36-27b-q8"));
    assert_eq!(registry().champion_for("unknown_class"), None);
}

#[test]
fn is_champion_checks_model() {
    assert!(registry().is_champion("log_extraction", "qwen36-27b-q8"));
    assert!(!registry().is_champion("log_extraction", "gpt-oss-20b-local"));
}

#[test]
fn first_entry_for_a_class_decides() {
    let mut r = registry();
    r.champions.push(ChampionEntry { task_class: "log_extraction".into(), model_id: "other".into(), since: None });
    assert_eq!(r.champion_for("log_extraction"), Some("qwen36-27b-q8"));
    assert!(!r.is_champion("log_extraction", "other"));
}

#[test]
fn empty_registry_has_no_champion() {
    let r = ChampionRegistry { champions: vec![] };
    assert_eq!(r.champion_for("log_extraction"), None);
    assert!(!r.is_champion("log_extraction", "qwen36-27b-q8"));
}
