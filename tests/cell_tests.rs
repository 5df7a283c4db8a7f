use verge_config::{ConfigValue, Draft, IProfiles, IVerge, ItemType, PrfItem, Setting};

fn setting(key: &str, value: &str) -> Setting {
    Setting { key: key.to_string(), value: value.to_string() }
}

fn verge_with(value: &str) -> IVerge {
    IVerge { settings: vec![setting("theme", value)] }
}

fn theme(v: &IVerge) -> String {
    v.settings[0].value.clone()
}

#[test]
fn commit_after_edit_publishes_value() {
    let mut cell = Draft::new(verge_with("light"));
    cell.draft_mut().settings[0].value = "dark".to_string();
    assert_eq!(theme(cell.latest()), "dark");
    assert_eq!(theme(cell.data()), "light");
    cell.commit();
    assert!(!cell.has_draft());
    assert_eq!(theme(cell.latest()), "dark");
    assert_eq!(theme(cell.data()), "dark");
}

#[test]
fn discard_after_edit_restores_value() {
    let mut cell = Draft::new(verge_with("light"));
    cell.draft_mut().settings[0].value = "dark".to_string();
    cell.discard();
    assert!(!cell.has_draft());
    assert_eq!(theme(cell.latest()), "light");
}

#[test]
fn commit_and_discard_without_draft_change_nothing() {
    let mut cell = Draft::new(verge_with("light"));
    cell.commit();
    assert_eq!(theme(cell.latest()), "light");
    cell.discard();
    assert_eq!(theme(cell.latest()), "light");
    assert!(!cell.has_draft());
}

#[test]
fn draft_starts_as_copy_and_edits_accumulate() {
    let mut cell = Draft::new(verge_with("light"));
    assert_eq!(theme(cell.draft_mut()), "light");
    cell.draft_mut().settings.push(setting("language", "en"));
    cell.draft_mut().settings[0].value = "dark".to_string();
    assert_eq!(cell.latest().settings.len(), 2);
    assert_eq!(cell.data().settings.len(), 1);
    cell.commit();
    assert_eq!(cell.latest().settings.len(), 2);
    assert_eq!(theme(cell.latest()), "dark");
}

#[test]
fn commit_value_replaces_and_drops_draft() {
    let mut cell = Draft::new(verge_with("light"));
    cell.draft_mut().settings[0].value = "dark".to_string();
    cell.commit_value(verge_with("system"));
    assert!(!cell.has_draft());
    assert_eq!(theme(cell.latest()), "system");
}

#[test]
fn duplicate_is_a_full_copy() {
    let v = verge_with("light");
    let d = v.duplicate();
    assert_eq!(theme(&d), "light");
    assert_eq!(d.settings[0].key, "theme");
}

fn count(p: &IProfiles, uid: &str) -> usize {
    p.items.iter().filter(|i| i.uid == uid).count()
}

#[test]
fn ensure_synthetic_on_empty_list() {
    let mut p = IProfiles::new();
    p.ensure_synthetic();
    assert_eq!(p.items.len(), 2);
    assert_eq!(p.items[0].uid, "Merge");
    assert_eq!(p.items[0].itype, ItemType::Merge);
    assert_eq!(p.items[0].file, "Merge.yaml");
    assert_eq!(p.items[1].uid, "Script");
    assert_eq!(p.items[1].itype, ItemType::Script);
    assert_eq!(p.items[1].name, "Script");
}

#[test]
fn ensure_synthetic_twice_adds_no_duplicates() {
    let mut p = IProfiles::new();
    p.ensure_synthetic();
    p.ensure_synthetic();
    assert_eq!(count(&p, "Merge"), 1);
    assert_eq!(count(&p, "Script"), 1);
    assert_eq!(p.items.len(), 2);
}

#[test]
fn ensure_synthetic_keeps_existing_items() {
    let mut p = IProfiles::new();
    p.append_item(PrfItem {
        uid: "r1".to_string(),
        itype: ItemType::Remote,
        name: "Remote".to_string(),
        file: "r1.yaml".to_string(),
    });
    p.append_item(PrfItem::from_script());
    p.ensure_synthetic();
    assert_eq!(p.items.len(), 3);
    assert_eq!(p.items[0].uid, "r1");
    assert_eq!(p.items[1].uid, "Script");
    assert_eq!(p.items[2].uid, "Merge");
    assert_eq!(p.get_item(&"Merge".to_string()), Some(2));
    assert_eq!(p.get_item(&"missing".to_string()), None);
}
