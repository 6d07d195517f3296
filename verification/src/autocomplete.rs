use vstd::prelude::*;

use crate::items::Item;
use crate::text::{contains_str, contains_text};

verus! {

/// How many suggestions an autocompletion offers at most.
pub const SUGGESTION_LIMIT: usize = 25;

/// A suggestion is offered for `name`: it contains what was typed, and not the
/// excluded text where there is one.
pub open spec fn suggests(name: Seq<char>, typed: Seq<char>, excluded: Option<Seq<char>>) -> bool {
    &&& contains_text(name, typed)
    &&& excluded matches Some(e) ==> !contains_text(name, e)
}

/// The names of `names` that are suggested, in their order.
pub open spec fn suggested(names: Seq<Seq<char>>, typed: Seq<char>, excluded: Option<Seq<char>>) -> Seq<
    Seq<char>,
>
    decreases names.len(),
{
    if names.len() == 0 {
        Seq::empty()
    } else {
        let rest = suggested(names.drop_last(), typed, excluded);
        if suggests(names.last(), typed, excluded) {
            rest.push(names.last())
        } else {
            rest
        }
    }
}

/// The first `n` elements of `s`, or all of `s` where it is shorter.
pub open spec fn at_most<A>(s: Seq<A>, n: nat) -> Seq<A> {
    if s.len() <= n {
        s
    } else {
        s.take(n as int)
    }
}

/// The texts of a list of strings.
pub open spec fn texts(v: Seq<String>) -> Seq<Seq<char>> {
    v.map_values(|s: String| s@)
}

/// The first suggestions for `typed` among `names`, at most `SUGGESTION_LIMIT` of them.
fn suggestions(names: &Vec<String>, typed: &str, excluded: Option<&str>) -> (r: Vec<String>)
    ensures
        texts(r@) == at_most(
            suggested(
                texts(names@),
                typed@,
                match excluded {
                    Some(e) => Some(e@),
                    None => None,
                },
            ),
            SUGGESTION_LIMIT as nat,
        ),
{
    let ghost ex = match excluded {
        Some(e) => Some(e@),
        None => None,
    };
    let ghost all = texts(names@);
    let mut r: Vec<String> = Vec::new();
    let mut i: usize = 0;
    while i < names.len()
        invariant
            all == texts(names@),
            ex == match excluded {
                Some(e) => Some(e@),
                None => None,
            },
            i <= names.len(),
            texts(r@) == at_most(suggested(all.take(i as int), typed@, ex), SUGGESTION_LIMIT as nat),
        decreases names.len() - i,
    {
        let name = &names[i];
        let keep = if contains_str(name.as_str(), typed) {
            match excluded {
                Some(e) => !contains_str(name.as_str(), e),
                None => true,
            }
        } else {
            false
        };
        let ghost before = suggested(all.take(i as int), typed@, ex);
        assert(all.take(i + 1).drop_last() =~= all.take(i as int));
        assert(all.take(i + 1).last() == name@);
        if keep && r.len() < SUGGESTION_LIMIT {
            let ghost old_r = r@;
            r.push(name.clone());
            assert(texts(r@) =~= texts(old_r).push(name@));
            assert(texts(r@) =~= at_most(before.push(name@), SUGGESTION_LIMIT as nat));
        } else if keep {
            assert(at_most(before.push(name@), SUGGESTION_LIMIT as nat) =~= at_most(
                before,
                SUGGESTION_LIMIT as nat,
            ));
        }
        i = i + 1;
    }
    assert(all.take(names.len() as int) =~= all);
    r
}

/// The item names offered while a user types `typed`: the Japanese names that contain it,
/// in the order of `items`, at most `SUGGESTION_LIMIT` of them.
pub fn item_name_suggestions(items: &Vec<Item>, typed: &str) -> (r: Vec<String>)
    ensures
        texts(r@) == at_most(
            suggested(items@.map_values(|it: Item| it.ja@), typed@, None),
            SUGGESTION_LIMIT as nat,
        ),
{
    let mut names: Vec<String> = Vec::new();
    let mut i: usize = 0;
    while i < items.len()
        invariant
            i <= items.len(),
            texts(names@) == items@.take(i as int).map_values(|it: Item| it.ja@),
        decreases items.len() - i,
    {
        let ghost old_names = names@;
        names.push(items[i].ja.clone());
        assert(texts(names@) =~= texts(old_names).push(items@[i as int].ja@));
        assert(items@.take(i + 1) =~= items@.take(i as int).push(items@[i as int]));
        i = i + 1;
        assert(texts(names@) =~= items@.take(i as int).map_values(|it: Item| it.ja@));
    }
    assert(items@.take(items.len() as int) =~= items@);
    suggestions(&names, typed, None)
}

/// The data center names offered while a user types `typed`: those that contain it and
/// do not contain "Korea", in the order of `names`, at most `SUGGESTION_LIMIT` of them.
pub fn server_name_suggestions(names: &Vec<String>, typed: &str) -> (r: Vec<String>)
    ensures
        texts(r@) == at_most(
            suggested(texts(names@), typed@, Some("Korea"@)),
            SUGGESTION_LIMIT as nat,
        ),
{
    suggestions(names, typed, Some("Korea"))
}


/// Every suggested name is suggested for what was typed, and is one of the names.
proof fn lemma_suggested_sound(names: Seq<Seq<char>>, typed: Seq<char>, excluded: Option<Seq<char>>)
    ensures
        suggested(names, typed, excluded).len() <= names.len(),
        forall|i: int|
            0 <= i < suggested(names, typed, excluded).len() ==> suggests(
                #[trigger] suggested(names, typed, excluded)[i],
                typed,
                excluded,
            ) && names.contains(suggested(names, typed, excluded)[i]),
    decreases names.len(),
{
    if names.len() > 0 {
        let init = names.drop_last();
        lemma_suggested_sound(init, typed, excluded);
        let rest = suggested(init, typed, excluded);
        assert forall|i: int| 0 <= i < rest.len() implies names.contains(#[trigger] rest[i]) by {
            let j = choose|j: int| 0 <= j < init.len() && init[j] == rest[i];
            assert(names[j] == rest[i]);
        }
        assert(names[names.len() - 1] == names.last());
    }
}

/// An autocompletion offers at most `SUGGESTION_LIMIT` names, each of which contains what
/// was typed, does not contain the excluded text, and is one of the names offered to it.
pub proof fn lemma_suggestions_sound(names: Seq<Seq<char>>, typed: Seq<char>, excluded: Option<Seq<char>>)
    ensures
        at_most(suggested(names, typed, excluded), SUGGESTION_LIMIT as nat).len()
            <= SUGGESTION_LIMIT,
        forall|i: int|
            0 <= i < at_most(suggested(names, typed, excluded), SUGGESTION_LIMIT as nat).len()
                ==> {
                let n = #[trigger] at_most(
                    suggested(names, typed, excluded),
                    SUGGESTION_LIMIT as nat,
                )[i];
                &&& contains_text(n, typed)
                &&& excluded matches Some(e) ==> !contains_text(n, e)
                &&& names.contains(n)
            },
{
    lemma_suggested_sound(names, typed, excluded);
    let all = suggested(names, typed, excluded);
    let r = at_most(all, SUGGESTION_LIMIT as nat);
    assert forall|i: int| 0 <= i < r.len() implies r[i] == #[trigger] all[i] by {}
}


/// The suggestions are exactly the names that contain what was typed and not the
/// excluded text, in their order: none for no names, and one more name adds itself at the
/// end where it is such a name. At most the first 25 of them are offered, in order.
pub proof fn lemma_suggestions_exact(
    names: Seq<Seq<char>>,
    name: Seq<char>,
    typed: Seq<char>,
    excluded: Option<Seq<char>>,
)
    ensures
        suggested(Seq::empty(), typed, excluded) == Seq::<Seq<char>>::empty(),
        suggested(names.push(name), typed, excluded) == if contains_text(name, typed) && match excluded {
            Some(e) => !contains_text(name, e),
            None => true,
        } {
            suggested(names, typed, excluded).push(name)
        } else {
            suggested(names, typed, excluded)
        },
        SUGGESTION_LIMIT == 25,
        at_most(suggested(names, typed, excluded), SUGGESTION_LIMIT as nat).len() == if suggested(
            names,
            typed,
            excluded,
        ).len() < 25 {
            suggested(names, typed, excluded).len()
        } else {
            25
        },
        forall|i: int|
            0 <= i < at_most(suggested(names, typed, excluded), SUGGESTION_LIMIT as nat).len()
                ==> #[trigger] at_most(suggested(names, typed, excluded), SUGGESTION_LIMIT as nat)[i]
                == suggested(names, typed, excluded)[i],
{
    assert(names.push(name).drop_last() =~= names);
}

} // verus!
