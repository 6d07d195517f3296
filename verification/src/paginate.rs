use vstd::prelude::*;

use crate::embed::{Button, ButtonView};
use crate::text::{
    concat_str, decimal, decimal_string, equal_str, starts_with_str, starts_with_text,
};

verus! {

/// The five buttons under a paged message.
#[derive(Clone, Copy, Debug, PartialEq, Eq, Structural)]
pub enum PageButton {
    First,
    Prev,
    Stop,
    Next,
    Last,
}

/// What a press on a paged message leads to.
#[derive(Clone, Copy, Debug, PartialEq, Eq, Structural)]
pub enum PageStep {
    /// Show the page at this index in place of the current one.
    Show(usize),
    /// Stop listening for presses.
    Stop,
    /// The press was not one of the five buttons: wait for the next one.
    Ignore,
}

impl PageButton {
    /// The text that follows the message id in the button's id.
    pub open spec fn spec_suffix(self) -> Seq<char> {
        match self {
            PageButton::First => "first"@,
            PageButton::Prev => "prev"@,
            PageButton::Stop => "stop"@,
            PageButton::Next => "next"@,
            PageButton::Last => "last"@,
        }
    }

    /// The symbol on the button.
    pub open spec fn spec_emoji(self) -> char {
        match self {
            PageButton::First => '⏮',
            PageButton::Prev => '◀',
            PageButton::Stop => '⏹',
            PageButton::Next => '▶',
            PageButton::Last => '⏭',
        }
    }

    fn suffix(&self) -> (s: &'static str)
        ensures
            s@ == self.spec_suffix(),
    {
        match self {
            PageButton::First => "first",
            PageButton::Prev => "prev",
            PageButton::Stop => "stop",
            PageButton::Next => "next",
            PageButton::Last => "last",
        }
    }

    fn emoji(&self) -> (c: char)
        ensures
            c == self.spec_emoji(),
    {
        match self {
            PageButton::First => '⏮',
            PageButton::Prev => '◀',
            PageButton::Stop => '⏹',
            PageButton::Next => '▶',
            PageButton::Last => '⏭',
        }
    }
}

/// The id of `button` under the message of the command invocation `context_id`.
pub open spec fn spec_button_id(context_id: u64, button: PageButton) -> Seq<char> {
    decimal(context_id as nat) + button.spec_suffix()
}

/// The buttons in the order in which they stand under the message.
pub open spec fn button_order() -> Seq<PageButton> {
    seq![PageButton::First, PageButton::Prev, PageButton::Stop, PageButton::Next, PageButton::Last]
}

/// The id of `button` under the message of the command invocation `context_id`.
pub fn button_id(context_id: u64, button: PageButton) -> (s: String)
    ensures
        s@ == spec_button_id(context_id, button),
{
    let id = decimal_string(context_id);
    concat_str(id.as_str(), button.suffix())
}

/// The row of buttons under the message of the command invocation `context_id`.
pub fn page_buttons(context_id: u64) -> (row: Vec<Button>)
    ensures
        row@.len() == 5,
        forall|i: int|
            0 <= i < 5 ==> #[trigger] row@[i]@ == (ButtonView {
                custom_id: spec_button_id(context_id, button_order()[i]),
                emoji: button_order()[i].spec_emoji(),
                label: None,
            }),
{
    let order = [PageButton::First, PageButton::Prev, PageButton::Stop, PageButton::Next, PageButton::Last];
    let mut row: Vec<Button> = Vec::new();
    let mut i: usize = 0;
    while i < 5
        invariant
            i <= 5,
            order@ == button_order(),
            row@.len() == i,
            forall|j: int|
                0 <= j < i ==> #[trigger] row@[j]@ == (ButtonView {
                    custom_id: spec_button_id(context_id, button_order()[j]),
                    emoji: button_order()[j].spec_emoji(),
                    label: None,
                }),
        decreases 5 - i,
    {
        let b = order[i];
        row.push(Button { custom_id: button_id(context_id, b), emoji: b.emoji(), label: None });
        i = i + 1;
    }
    row
}

/// Whether a press with id `custom_id` belongs to the message of `context_id`: its id
/// begins with the invocation's id.
pub fn is_own_press(custom_id: &str, context_id: u64) -> (b: bool)
    ensures
        b == starts_with_text(custom_id@, decimal(context_id as nat)),
{
    let id = decimal_string(context_id);
    starts_with_str(custom_id, id.as_str())
}

/// The button whose id is `custom_id`, if any is.
pub open spec fn spec_pressed(context_id: u64, custom_id: Seq<char>) -> Option<PageButton> {
    if custom_id == spec_button_id(context_id, PageButton::First) {
        Some(PageButton::First)
    } else if custom_id == spec_button_id(context_id, PageButton::Prev) {
        Some(PageButton::Prev)
    } else if custom_id == spec_button_id(context_id, PageButton::Stop) {
        Some(PageButton::Stop)
    } else if custom_id == spec_button_id(context_id, PageButton::Next) {
        Some(PageButton::Next)
    } else if custom_id == spec_button_id(context_id, PageButton::Last) {
        Some(PageButton::Last)
    } else {
        None
    }
}

/// The button of the message of `context_id` whose id is `custom_id`, if any is.
pub fn pressed_button(context_id: u64, custom_id: &str) -> (r: Option<PageButton>)
    ensures
        r == spec_pressed(context_id, custom_id@),
{
    let first = button_id(context_id, PageButton::First);
    let prev = button_id(context_id, PageButton::Prev);
    let stop = button_id(context_id, PageButton::Stop);
    let next = button_id(context_id, PageButton::Next);
    let last = button_id(context_id, PageButton::Last);
    if equal_str(custom_id, first.as_str()) {
        Some(PageButton::First)
    } else if equal_str(custom_id, prev.as_str()) {
        Some(PageButton::Prev)
    } else if equal_str(custom_id, stop.as_str()) {
        Some(PageButton::Stop)
    } else if equal_str(custom_id, next.as_str()) {
        Some(PageButton::Next)
    } else if equal_str(custom_id, last.as_str()) {
        Some(PageButton::Last)
    } else {
        None
    }
}

/// What a press leads to on page `current` of `page_count` pages: the first and last
/// buttons go to the first and last page, the next button goes one page on and from the
/// last page back to the first, the previous button goes one page back.
pub open spec fn spec_step(current: nat, page_count: nat, press: Option<PageButton>) -> PageStep {
    match press {
        Some(PageButton::First) => PageStep::Show(0),
        Some(PageButton::Prev) => PageStep::Show((current - 1) as usize),
        Some(PageButton::Stop) => PageStep::Stop,
        Some(PageButton::Next) => if current + 1 >= page_count {
            PageStep::Show(0)
        } else {
            PageStep::Show((current + 1) as usize)
        },
        Some(PageButton::Last) => PageStep::Show((page_count - 1) as usize),
        None => PageStep::Ignore,
    }
}

/// The page shown after `step`, where `current` was shown before.
pub open spec fn page_after(current: nat, step: PageStep) -> nat {
    match step {
        PageStep::Show(p) => p as nat,
        _ => current,
    }
}

/// What a press leads to on page `current` of `page_count` pages. The previous button
/// on the first page has no page to go to, and is left out.
pub fn paginate_step(current: usize, page_count: usize, press: Option<PageButton>) -> (s: PageStep)
    requires
        0 < page_count,
        current < page_count,
        !(press == Some(PageButton::Prev) && current == 0),
    ensures
        s == spec_step(current as nat, page_count as nat, press),
        page_after(current as nat, s) < page_count,
        press == Some(PageButton::First) ==> s == PageStep::Show(0),
        press == Some(PageButton::Prev) ==> s == PageStep::Show((current - 1) as usize),
        press == Some(PageButton::Next) ==> s == PageStep::Show(
            if current + 1 < page_count {
                (current + 1) as usize
            } else {
                0
            },
        ),
        press == Some(PageButton::Last) ==> s == PageStep::Show((page_count - 1) as usize),
        press == Some(PageButton::Stop) ==> s == PageStep::Stop,
        press is None ==> s == PageStep::Ignore,
{
    match press {
        Some(PageButton::First) => PageStep::Show(0),
        Some(PageButton::Prev) => PageStep::Show(current - 1),
        Some(PageButton::Stop) => PageStep::Stop,
        Some(PageButton::Next) => {
            if current + 1 >= page_count {
                PageStep::Show(0)
            } else {
                PageStep::Show(current + 1)
            }
        },
        Some(PageButton::Last) => PageStep::Show(page_count - 1),
        None => PageStep::Ignore,
    }
}


/// Appending to the same text keeps appended texts apart.
proof fn lemma_append_cancel(d: Seq<char>, a: Seq<char>, b: Seq<char>)
    requires
        d + a == d + b,
    ensures
        a == b,
{
    assert(a =~= (d + a).subrange(d.len() as int, (d + a).len() as int));
    assert(b =~= (d + b).subrange(d.len() as int, (d + b).len() as int));
}

/// A press on any of the five buttons is recognised as that button.
pub proof fn lemma_button_recognized(context_id: u64, button: PageButton)
    ensures
        spec_pressed(context_id, spec_button_id(context_id, button)) == Some(button),
{
    reveal_strlit("first");
    reveal_strlit("prev");
    reveal_strlit("stop");
    reveal_strlit("next");
    reveal_strlit("last");
    let d = decimal(context_id as nat);
    assert forall|other: PageButton| spec_button_id(context_id, other) == spec_button_id(
        context_id,
        button,
    ) implies other == button by {
        lemma_append_cancel(d, other.spec_suffix(), button.spec_suffix());
        assert(other.spec_suffix()[0] == button.spec_suffix()[0]);
    }
}

/// Every button's id begins with the invocation's id, so the presses on the buttons reach
/// the message that listens for them.
pub proof fn lemma_button_press_is_own(context_id: u64, button: PageButton)
    ensures
        starts_with_text(spec_button_id(context_id, button), decimal(context_id as nat)),
{
    let d = decimal(context_id as nat);
    assert(spec_button_id(context_id, button).subrange(0, d.len() as int) =~= d);
}

/// Going one page on and then one page back returns to the page, wherever there is a next
/// page.
pub proof fn lemma_next_then_prev(current: nat, page_count: nat)
    requires
        current + 1 < page_count,
        page_count <= usize::MAX,
    ensures
        page_after(
            page_after(current, spec_step(current, page_count, Some(PageButton::Next))),
            spec_step(
                page_after(current, spec_step(current, page_count, Some(PageButton::Next))),
                page_count,
                Some(PageButton::Prev),
            ),
        ) == current,
{
}

/// Going one page back and then one page on returns to the page, wherever there is a
/// previous page.
pub proof fn lemma_prev_then_next(current: nat, page_count: nat)
    requires
        0 < current < page_count,
        page_count <= usize::MAX,
    ensures
        page_after(
            page_after(current, spec_step(current, page_count, Some(PageButton::Prev))),
            spec_step(
                page_after(current, spec_step(current, page_count, Some(PageButton::Prev))),
                page_count,
                Some(PageButton::Next),
            ),
        ) == current,
{
}


/// Where each button leads from page `current` of `page_count` pages: the first button to
/// the first page, the last button to the last page, the next button one page on or from
/// the last page to the first, the previous button one page back; the stop button ends
/// the paging and a press on no button changes nothing.
pub proof fn lemma_page_moves(current: nat, page_count: nat)
    requires
        current < page_count <= usize::MAX,
    ensures
        page_after(current, spec_step(current, page_count, Some(PageButton::First))) == 0,
        page_after(current, spec_step(current, page_count, Some(PageButton::Last))) == page_count
            - 1,
        page_after(current, spec_step(current, page_count, Some(PageButton::Next))) == if current
            + 1 < page_count {
            current + 1
        } else {
            0
        },
        current > 0 ==> page_after(current, spec_step(current, page_count, Some(PageButton::Prev)))
            == current - 1,
        spec_step(current, page_count, Some(PageButton::Stop)) == PageStep::Stop,
        spec_step(current, page_count, None) == PageStep::Ignore,
{
}

/// The button ids end in "first", "prev", "stop", "next" and "last", after the
/// invocation's id, and the buttons show ⏮, ◀, ⏹, ▶ and ⏭.
pub proof fn lemma_button_texts(context_id: u64)
    ensures
        spec_button_id(context_id, PageButton::First) == decimal(context_id as nat) + "first"@,
        spec_button_id(context_id, PageButton::Prev) == decimal(context_id as nat) + "prev"@,
        spec_button_id(context_id, PageButton::Stop) == decimal(context_id as nat) + "stop"@,
        spec_button_id(context_id, PageButton::Next) == decimal(context_id as nat) + "next"@,
        spec_button_id(context_id, PageButton::Last) == decimal(context_id as nat) + "last"@,
        button_order() == seq![
            PageButton::First,
            PageButton::Prev,
            PageButton::Stop,
            PageButton::Next,
            PageButton::Last,
        ],
        PageButton::First.spec_emoji() == '⏮',
        PageButton::Prev.spec_emoji() == '◀',
        PageButton::Stop.spec_emoji() == '⏹',
        PageButton::Next.spec_emoji() == '▶',
        PageButton::Last.spec_emoji() == '⏭',
{
}

/// The page shown after `presses` presses on the next button, starting on page `current`
/// of `page_count` pages.
pub open spec fn after_nexts(current: nat, page_count: nat, presses: nat) -> nat
    decreases presses,
{
    if presses == 0 {
        current
    } else {
        let p = after_nexts(current, page_count, (presses - 1) as nat);
        page_after(p, spec_step(p, page_count, Some(PageButton::Next)))
    }
}

/// Up to a full round, the next button moves `presses` pages on, counting on from the
/// first page after the last.
proof fn lemma_after_nexts(current: nat, page_count: nat, presses: nat)
    requires
        0 < page_count <= usize::MAX,
        current < page_count,
        presses <= page_count,
    ensures
        after_nexts(current, page_count, presses) == if current + presses < page_count {
            current + presses
        } else {
            (current + presses - page_count) as nat
        },
    decreases presses,
{
    if presses > 0 {
        lemma_after_nexts(current, page_count, (presses - 1) as nat);
    }
}

/// The next button turns the pages in a cycle: `page_count` presses on it return to the
/// page they started on.
pub proof fn lemma_next_cycle(current: nat, page_count: nat)
    requires
        0 < page_count <= usize::MAX,
        current < page_count,
    ensures
        after_nexts(current, page_count, page_count) == current,
{
    lemma_after_nexts(current, page_count, page_count);
}

} // verus!
