use ffxiv_bot::paginate::{
    button_id, is_own_press, page_buttons, paginate_step, pressed_button, PageButton, PageStep,
};

#[test]
fn button_ids_follow_the_invocation_id() {
    assert_eq!(button_id(123, PageButton::First), "123first");
    assert_eq!(button_id(123, PageButton::Prev), "123prev");
    assert_eq!(button_id(123, PageButton::Stop), "123stop");
    assert_eq!(button_id(123, PageButton::Next), "123next");
    assert_eq!(button_id(123, PageButton::Last), "123last");
    let row = page_buttons(7);
    let ids: Vec<&str> = row.iter().map(|b| b.custom_id.as_str()).collect();
    assert_eq!(ids, vec!["7first", "7prev", "7stop", "7next", "7last"]);
    let emojis: Vec<char> = row.iter().map(|b| b.emoji).collect();
    assert_eq!(emojis, vec!['⏮', '◀', '⏹', '▶', '⏭']);
    assert!(row.iter().all(|b| b.label.is_none()));
}

#[test]
fn presses_are_recognised() {
    assert_eq!(pressed_button(55, "55first"), Some(PageButton::First));
    assert_eq!(pressed_button(55, "55prev"), Some(PageButton::Prev));
    assert_eq!(pressed_button(55, "55stop"), Some(PageButton::Stop));
    assert_eq!(pressed_button(55, "55next"), Some(PageButton::Next));
    assert_eq!(pressed_button(55, "55last"), Some(PageButton::Last));
    assert_eq!(pressed_button(55, "56next"), None);
    assert_eq!(pressed_button(55, "55-add-wishlist"), None);
    assert!(is_own_press("55next", 55));
    assert!(is_own_press("551next", 55));
    assert!(!is_own_press("5next", 55));
}

#[test]
fn steps_move_between_pages() {
    assert_eq!(paginate_step(2, 5, Some(PageButton::First)), PageStep::Show(0));
    assert_eq!(paginate_step(2, 5, Some(PageButton::Prev)), PageStep::Show(1));
    assert_eq!(paginate_step(2, 5, Some(PageButton::Next)), PageStep::Show(3));
    assert_eq!(paginate_step(4, 5, Some(PageButton::Next)), PageStep::Show(0));
    assert_eq!(paginate_step(0, 5, Some(PageButton::Last)), PageStep::Show(4));
    assert_eq!(paginate_step(3, 5, Some(PageButton::Stop)), PageStep::Stop);
    assert_eq!(paginate_step(3, 5, None), PageStep::Ignore);
    assert_eq!(paginate_step(0, 1, Some(PageButton::Next)), PageStep::Show(0));
}

#[test]
fn next_then_prev_returns() {
    for current in 0..4usize {
        let PageStep::Show(p) = paginate_step(current, 5, Some(PageButton::Next)) else { panic!() };
        assert_eq!(paginate_step(p, 5, Some(PageButton::Prev)), PageStep::Show(current));
    }
}

#[test]
fn next_presses_cycle_through_all_pages() {
    for count in 1..6usize {
        for start in 0..count {
            let mut page = start;
            for _ in 0..count {
                let PageStep::Show(p) = paginate_step(page, count, Some(PageButton::Next)) else { panic!() };
                page = p;
            }
            assert_eq!(page, start);
        }
    }
}
