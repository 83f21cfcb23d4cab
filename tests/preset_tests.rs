use crosshair_overlay::config::{CrosshairConfig, CrosshairStyle};
use crosshair_overlay::presets::{delete_preset, load_config, load_presets, save_preset, CrosshairPreset};

fn preset(id: &str, name: &str) -> CrosshairPreset {
    CrosshairPreset {
        id: id.to_string(),
        name: name.to_string(),
        config: CrosshairConfig::default(),
        created_at: "2024-01-01T00:00:00Z".to_string(),
    }
}

#[test]
fn saving_same_id_twice_keeps_one_entry_with_latest_name() {
    let mut presets = Vec::new();
    save_preset(&mut presets, preset("favorite", "First"));
    save_preset(&mut presets, preset("favorite", "Renamed"));
    let matching: Vec<&CrosshairPreset> = presets.iter().filter(|p| p.id == "favorite").collect();
    assert_eq!(matching.len(), 1);
    assert_eq!(matching[0].name, "Renamed");
    assert_eq!(presets.len(), 1);
}

#[test]
fn saving_keeps_other_presets_in_order() {
    let mut presets = vec![preset("a", "A"), preset("favorite", "Old"), preset("b", "B")];
    save_preset(&mut presets, preset("favorite", "New"));
    let ids: Vec<&str> = presets.iter().map(|p| p.id.as_str()).collect();
    assert_eq!(ids, vec!["a", "favorite", "b"]);
    assert_eq!(presets[1].name, "New");
}

#[test]
fn saving_new_id_appends() {
    let mut presets = vec![preset("a", "A")];
    save_preset(&mut presets, preset("b", "B"));
    assert_eq!(presets, vec![preset("a", "A"), preset("b", "B")]);
}

#[test]
fn deleting_missing_id_changes_nothing() {
    let mut presets = vec![preset("a", "A"), preset("b", "B")];
    delete_preset(&mut presets, &"zzz".to_string());
    assert_eq!(presets, vec![preset("a", "A"), preset("b", "B")]);
}

#[test]
fn deleting_removes_every_entry_with_id() {
    let mut presets = vec![preset("a", "A"), preset("x", "X1"), preset("b", "B"), preset("x", "X2")];
    delete_preset(&mut presets, &"x".to_string());
    assert_eq!(presets, vec![preset("a", "A"), preset("b", "B")]);
}

#[test]
fn missing_presets_load_as_empty() {
    assert!(load_presets(None).is_empty());
}

#[test]
fn stored_presets_load_as_they_are() {
    let stored = vec![preset("a", "A")];
    assert_eq!(load_presets(Some(stored)), vec![preset("a", "A")]);
}

#[test]
fn missing_config_loads_as_default() {
    assert_eq!(load_config(None), CrosshairConfig::default());
}

#[test]
fn stored_config_loads_as_it_is() {
    let mut c = CrosshairConfig::default();
    c.style = CrosshairStyle::Circle;
    c.size = 40;
    let expected = c.duplicate();
    assert_eq!(load_config(Some(c)), expected);
}

#[test]
fn out_of_range_config_loads_as_default() {
    let mut c = CrosshairConfig::default();
    c.dot_size = -5;
    assert_eq!(load_config(Some(c)), CrosshairConfig::default());
}

#[test]
fn saving_replaces_first_duplicate_and_drops_the_rest() {
    let mut presets = vec![preset("x", "X1"), preset("a", "A"), preset("x", "X2")];
    save_preset(&mut presets, preset("x", "X3"));
    assert_eq!(presets, vec![preset("x", "X3"), preset("a", "A")]);
}

#[test]
fn resaving_first_entry_keeps_its_position() {
    let mut presets = vec![preset("x", "Old"), preset("y", "Y")];
    save_preset(&mut presets, preset("x", "New"));
    assert_eq!(presets, vec![preset("x", "New"), preset("y", "Y")]);
}
