use snip::theme::catalog::{theme_entries, theme_list_order};
use snip::theme::Appearance;

fn names(list: &[&str]) -> Vec<String> {
    list.iter().map(|n| (*n).to_owned()).collect()
}

#[test]
fn a_theme_file_takes_the_place_of_a_built_in_theme() {
    let entries = theme_entries(&names(&["dark-default", "light-default"]), &names(&["mine", "dark-default", "mine"]));
    assert_eq!(
        entries,
        vec![("dark-default".to_owned(), false), ("light-default".to_owned(), true), ("mine".to_owned(), false)]
    );
}

#[test]
fn dark_themes_come_first_then_names_in_order() {
    let keys = vec![
        (Appearance::Light, "solar".to_owned()),
        (Appearance::Dark, "nord".to_owned()),
        (Appearance::Light, "gruvbox".to_owned()),
        (Appearance::Dark, "dark-default".to_owned()),
        (Appearance::Dark, "Zed".to_owned()),
    ];
    assert_eq!(theme_list_order(&keys), vec![4, 3, 1, 2, 0]);
    assert_eq!(theme_list_order(&Vec::new()), Vec::<usize>::new());
}
