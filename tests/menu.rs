use pdf_reviewer::menu::FileMenu;

#[test]
fn menu_offers_each_entry_in_listing_order() {
    let names = vec!["b.pdf".to_string(), "a.pdf".to_string(), "notes.txt".to_string()];
    let menu = FileMenu::new(names.clone());
    assert_eq!(menu.choice_count(), 3);
    assert_eq!(menu.items, names);
    assert_eq!(menu.entry(0), Some(&"b.pdf".to_string()));
    assert_eq!(menu.entry(2), Some(&"notes.txt".to_string()));
    assert_eq!(menu.entry(3), None);
}

#[test]
fn menu_default_selection_is_first_entry() {
    let menu = FileMenu::new(vec!["doc.pdf".to_string()]);
    assert_eq!(menu.default_index(), 0);
    assert_eq!(menu.entry(menu.default_index()), Some(&"doc.pdf".to_string()));
}

#[test]
fn empty_listing_offers_no_choice() {
    let menu = FileMenu::new(Vec::new());
    assert_eq!(menu.choice_count(), 0);
    assert_eq!(menu.entry(0), None);
}
