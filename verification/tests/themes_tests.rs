use zellij_home::loader::get_default_themes;
use zellij_home::themes::Themes;

fn collection(entries: &[(&str, u32)]) -> Themes<u32> {
    let mut themes = Themes::new();
    for (name, theme) in entries {
        themes.insert(name.to_string(), *theme);
    }
    themes
}

fn contents(themes: &Themes<u32>, names: &[&str]) -> Vec<Option<u32>> {
    names.iter().map(|name| themes.get(name).copied()).collect()
}

#[test]
fn new_collection_is_empty() {
    let themes: Themes<u32> = Themes::new();
    assert_eq!(themes.len(), 0);
    assert_eq!(themes.get("dark"), None);
    assert!(!themes.contains("dark"));
}

#[test]
fn default_collection_is_empty() {
    let themes: Themes<String> = Themes::default();
    assert_eq!(themes.len(), 0);
    assert_eq!(themes.get(""), None);
}

#[test]
fn inserted_theme_is_found() {
    let mut themes = Themes::new();
    themes.insert("dark".to_string(), 7u32);
    assert_eq!(themes.get("dark"), Some(&7));
    assert!(themes.contains("dark"));
    assert!(!themes.contains("light"));
    assert_eq!(themes.len(), 1);
}

#[test]
fn insert_replaces_a_theme_of_the_same_name() {
    let mut themes = collection(&[("dark", 1), ("light", 2)]);
    themes.insert("dark".to_string(), 3);
    assert_eq!(themes.len(), 2);
    assert_eq!(themes.get("dark"), Some(&3));
    assert_eq!(themes.get("light"), Some(&2));
}

#[test]
fn names_are_compared_exactly() {
    let themes = collection(&[("dark", 1)]);
    assert_eq!(themes.get("Dark"), None);
    assert_eq!(themes.get("dark "), None);
    assert_eq!(themes.get(""), None);
}

#[test]
fn empty_name_is_a_name() {
    let themes = collection(&[("", 9)]);
    assert_eq!(themes.get(""), Some(&9));
    assert_eq!(themes.len(), 1);
}

#[test]
fn merge_holds_the_themes_of_both() {
    let below = collection(&[("dark", 1)]);
    let above = collection(&[("light", 2)]);
    let merged = below.merge(above);
    assert_eq!(merged.len(), 2);
    assert_eq!(merged.get("dark"), Some(&1));
    assert_eq!(merged.get("light"), Some(&2));
}

#[test]
fn merge_prefers_the_collection_on_top() {
    let below = collection(&[("dark", 1), ("light", 2)]);
    let above = collection(&[("dark", 3)]);
    let merged = below.merge(above);
    assert_eq!(merged.len(), 2);
    assert_eq!(merged.get("dark"), Some(&3));
    assert_eq!(merged.get("light"), Some(&2));
}

#[test]
fn merge_depends_on_the_order() {
    let one = below_and_above().0.merge(below_and_above().1);
    let other = below_and_above().1.merge(below_and_above().0);
    assert_eq!(one.get("dark"), Some(&3));
    assert_eq!(other.get("dark"), Some(&1));
}

fn below_and_above() -> (Themes<u32>, Themes<u32>) {
    (collection(&[("dark", 1)]), collection(&[("dark", 3)]))
}

#[test]
fn merge_with_an_empty_collection_changes_nothing() {
    let merged = collection(&[("dark", 1), ("light", 2)]).merge(Themes::new());
    assert_eq!(contents(&merged, &["dark", "light"]), vec![Some(1), Some(2)]);
    assert_eq!(merged.len(), 2);
    let merged = Themes::new().merge(collection(&[("dark", 1), ("light", 2)]));
    assert_eq!(contents(&merged, &["dark", "light"]), vec![Some(1), Some(2)]);
    assert_eq!(merged.len(), 2);
}

#[test]
fn merging_three_in_order_is_merging_pairwise() {
    let a = || collection(&[("dark", 1), ("light", 2), ("solar", 3)]);
    let b = || collection(&[("light", 20), ("nord", 40)]);
    let c = || collection(&[("dark", 100), ("nord", 400), ("mono", 500)]);
    let names = ["dark", "light", "solar", "nord", "mono", "none"];
    let in_order = get_default_themes(vec![Some(a()), Some(b()), Some(c())]);
    let left_first = a().merge(b()).merge(c());
    let right_first = a().merge(b().merge(c()));
    let expected = vec![Some(100), Some(20), Some(3), Some(400), Some(500), None];
    assert_eq!(contents(&in_order, &names), expected);
    assert_eq!(contents(&left_first, &names), expected);
    assert_eq!(contents(&right_first, &names), expected);
    assert_eq!(in_order.len(), 5);
    assert_eq!(left_first.len(), 5);
    assert_eq!(right_first.len(), 5);
}

#[test]
fn last_writer_wins_and_unique_names_survive() {
    let a = collection(&[("dark", 1), ("light", 2)]);
    let b = collection(&[("nord", 3)]);
    let c = collection(&[("dark", 4)]);
    let merged = get_default_themes(vec![Some(a), Some(b), Some(c)]);
    assert_eq!(merged.get("dark"), Some(&4));
    assert_eq!(merged.get("light"), Some(&2));
    assert_eq!(merged.get("nord"), Some(&3));
    assert_eq!(merged.len(), 3);
}

#[test]
fn undecodable_resource_is_passed_over() {
    let base = collection(&[("dark", 10), ("light", 20)]);
    let last = collection(&[("dark", 30)]);
    let themes = get_default_themes(vec![Some(base), None, Some(last)]);
    assert_eq!(themes.len(), 2);
    assert_eq!(themes.get("dark"), Some(&30));
    assert_eq!(themes.get("light"), Some(&20));
}

#[test]
fn undecodable_resource_changes_nothing_wherever_it_stands() {
    let a = || collection(&[("dark", 1), ("light", 2)]);
    let b = || collection(&[("dark", 3), ("nord", 4)]);
    let names = ["dark", "light", "nord"];
    let expected = contents(&get_default_themes(vec![Some(a()), Some(b())]), &names);
    assert_eq!(expected, vec![Some(3), Some(2), Some(4)]);
    let first = get_default_themes(vec![None, Some(a()), Some(b())]);
    let middle = get_default_themes(vec![Some(a()), None, Some(b())]);
    let last = get_default_themes(vec![Some(a()), Some(b()), None]);
    assert_eq!(contents(&first, &names), expected);
    assert_eq!(contents(&middle, &names), expected);
    assert_eq!(contents(&last, &names), expected);
    assert_eq!(first.len(), 3);
    assert_eq!(middle.len(), 3);
    assert_eq!(last.len(), 3);
}

#[test]
fn no_resources_give_no_themes() {
    let themes: Themes<u32> = get_default_themes(vec![]);
    assert_eq!(themes.len(), 0);
    let themes: Themes<u32> = get_default_themes(vec![None, None]);
    assert_eq!(themes.len(), 0);
}

#[test]
fn single_resource_is_taken_as_it_is() {
    let themes = get_default_themes(vec![Some(collection(&[("dark", 1), ("light", 2)]))]);
    assert_eq!(contents(&themes, &["dark", "light"]), vec![Some(1), Some(2)]);
    assert_eq!(themes.len(), 2);
}

#[test]
fn definitions_of_any_type_are_carried() {
    let mut base = Themes::new();
    base.insert("dark".to_string(), "X".to_string());
    base.insert("light".to_string(), "Y".to_string());
    let mut last = Themes::new();
    last.insert("dark".to_string(), "Z".to_string());
    let themes = get_default_themes(vec![Some(base), None, Some(last)]);
    assert_eq!(themes.get("dark").map(|theme| theme.as_str()), Some("Z"));
    assert_eq!(themes.get("light").map(|theme| theme.as_str()), Some("Y"));
    assert_eq!(themes.len(), 2);
}
