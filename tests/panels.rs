use sulla::dock::{default_plan, Side};
use sulla::hierarchy::{Asset, Colour, HierarchyState, ObjectConfig, MAX_SIZE};
use sulla::tabs::{placeholder_text, tab_kind, TabKind};

#[test]
fn confirming_cube_appends_one_object_and_clears_the_editor() {
    let mut h = HierarchyState::new();
    h.push_object("Light");
    assert!(h.open_editor(true));
    h.new_name.push_str("Cube");
    assert!(h.confirm());
    assert_eq!(h.assets.len(), 2);
    match &h.assets[1] {
        Asset::Object(o) => assert_eq!(o.name(), "Cube"),
        _ => panic!("expected a plain object"),
    }
    assert!(h.new_name.is_empty());
    assert!(!h.adding);
}

#[test]
fn editor_stays_open_until_confirmed() {
    let mut h = HierarchyState::new();
    assert!(!h.open_editor(false));
    assert!(h.open_editor(true));
    assert!(h.open_editor(false));
    assert!(h.adding);
}

#[test]
fn confirming_with_the_editor_closed_does_nothing() {
    let mut h = HierarchyState::new();
    h.new_name.push_str("Cube");
    assert!(!h.confirm());
    assert!(h.assets.is_empty());
    assert_eq!(h.new_name, "Cube");
}

#[test]
fn names_may_repeat() {
    let mut h = HierarchyState::new();
    for _ in 0..2 {
        h.open_editor(true);
        h.new_name.push_str("Cube");
        assert!(h.confirm());
    }
    assert_eq!(h.assets.len(), 2);
}

#[test]
fn size_is_held_to_its_range() {
    let mut o = ObjectConfig::new("Cube");
    assert_eq!(o.size(), 0);
    o.set_size(42);
    assert_eq!(o.size(), 42);
    o.set_size(100);
    assert_eq!(o.size(), MAX_SIZE);
    o.set_size(101);
    assert_eq!(o.size(), 100);
    o.set_size(u16::MAX);
    assert_eq!(o.size(), 100);
    o.set_size(0);
    assert_eq!(o.size(), 0);
    assert_eq!(o.name(), "Cube");
}

#[test]
fn new_object_is_transparent_and_colour_can_be_set() {
    let mut o = ObjectConfig::new("Cube");
    assert_eq!(o.colour(), Colour { r: 0, g: 0, b: 0, a: 0 });
    let red = Colour { r: 255, g: 0, b: 0, a: 255 };
    o.set_size(7);
    o.set_colour(red);
    assert_eq!(o.colour(), red);
    assert_eq!(o.size(), 7);
    assert_eq!(o.name(), "Cube");
}

#[test]
fn default_asset_is_an_unnamed_object() {
    match Asset::default() {
        Asset::Object(o) => {
            assert_eq!(o.name(), "");
            assert_eq!(o.size(), 0);
            assert_eq!(o.colour(), Colour::transparent());
        }
        _ => panic!("expected a plain object"),
    }
}

#[test]
fn tab_labels_choose_their_panels() {
    assert_eq!(tab_kind(&"Assets".to_string()), TabKind::Assets);
    assert_eq!(tab_kind(&"Hierarchy".to_string()), TabKind::Hierarchy);
    assert_eq!(tab_kind(&"Timeline".to_string()), TabKind::Timeline);
    assert_eq!(tab_kind(&"scene".to_string()), TabKind::Scene);
    assert_eq!(tab_kind(&"Scene".to_string()), TabKind::Placeholder);
    assert_eq!(tab_kind(&"Player".to_string()), TabKind::Placeholder);
    assert_eq!(tab_kind(&"assets".to_string()), TabKind::Placeholder);
    assert_eq!(tab_kind(&String::new()), TabKind::Placeholder);
}

#[test]
fn placeholder_names_the_tab() {
    assert_eq!(placeholder_text("Player"), "Empty Player contents");
    assert_eq!(placeholder_text(""), "Empty  contents");
}

fn plan_labels(tabs: &[String]) -> Vec<&str> {
    tabs.iter().map(|s| s.as_str()).collect()
}

#[test]
fn default_layout_is_fixed() {
    let p = default_plan();
    assert_eq!(plan_labels(&p.root), vec!["Timeline"]);
    assert_eq!(p.splits.len(), 2);
    assert_eq!(p.splits[0].target, 0);
    assert_eq!(p.splits[0].side, Side::Left);
    assert_eq!(p.splits[0].percent, 25);
    assert_eq!(plan_labels(&p.splits[0].tabs), vec!["Hierarchy", "Assets"]);
    assert_eq!(p.splits[1].target, 0);
    assert_eq!(p.splits[1].side, Side::Above);
    assert_eq!(p.splits[1].percent, 50);
    assert_eq!(plan_labels(&p.splits[1].tabs), vec!["Player", "Scene"]);
}

#[test]
fn default_layout_is_the_same_every_time() {
    let a = default_plan();
    let b = default_plan();
    assert_eq!(a.root, b.root);
    assert_eq!(a.splits.len(), b.splits.len());
    for (x, y) in a.splits.iter().zip(b.splits.iter()) {
        assert_eq!(x.target, y.target);
        assert_eq!(x.side, y.side);
        assert_eq!(x.percent, y.percent);
        assert_eq!(x.tabs, y.tabs);
    }
}
