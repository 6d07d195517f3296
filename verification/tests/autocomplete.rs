use ffxiv_bot::autocomplete::{item_name_suggestions, server_name_suggestions, SUGGESTION_LIMIT};
use ffxiv_bot::items::Item;

fn item(id: u16, ja: &str) -> Item {
    Item { id, en: format!("en{}", id), de: String::new(), ja: ja.to_string(), fr: String::new() }
}

#[test]
fn item_suggestions_keep_matching_names_in_order() {
    let items = vec![item(1, "ポーション"), item(2, "エーテル"), item(3, "ハイポーション"), item(4, "エリクサー")];
    assert_eq!(item_name_suggestions(&items, "ポーション"), vec!["ポーション", "ハイポーション"]);
    assert_eq!(item_name_suggestions(&items, "エ"), vec!["エーテル", "エリクサー"]);
    assert_eq!(item_name_suggestions(&items, "").len(), 4);
    assert!(item_name_suggestions(&items, "剣").is_empty());
}

#[test]
fn item_suggestions_stop_at_the_limit() {
    let items: Vec<Item> = (0..40u16).map(|i| item(i, &format!("薬{}", i))).collect();
    let r = item_name_suggestions(&items, "薬");
    assert_eq!(r.len(), SUGGESTION_LIMIT);
    assert_eq!(r[0], "薬0");
    assert_eq!(r[24], "薬24");
}

#[test]
fn server_suggestions_leave_out_korea() {
    let names: Vec<String> =
        ["Mana", "Korea", "Meteor", "KoreaMana", "Materia"].iter().map(|s| s.to_string()).collect();
    assert_eq!(server_name_suggestions(&names, "M"), vec!["Mana", "Meteor", "Materia"]);
    assert_eq!(server_name_suggestions(&names, ""), vec!["Mana", "Meteor", "Materia"]);
    assert!(server_name_suggestions(&names, "Korea").is_empty());
}
