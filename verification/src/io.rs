//! Searching and filtering the lines of a file and the names in a directory,
//! once they have been read.

use crate::text::views;
use vstd::prelude::*;

verus! {

/// The items of `items` whose flag in `kept` is set, in order.
pub open spec fn select<A>(items: Seq<A>, kept: Seq<bool>) -> Seq<A>
    decreases items.len(),
{
    if items.len() == 0 || kept.len() != items.len() {
        Seq::empty()
    } else if kept.last() {
        select(items.drop_last(), kept.drop_last()).push(items.last())
    } else {
        select(items.drop_last(), kept.drop_last())
    }
}

/// The names that `filter` accepts, in the order of the listing.
///
/// `filter` is asked once for each name; the result holds exactly the names
/// for which it answered yes.
pub fn list_file_names<F>(names: &Vec<String>, filter: F) -> (accepted: Vec<String>) where
    F: Fn(&String) -> bool,

    requires
        forall|i: int| 0 <= i < names.len() ==> call_requires(filter, (&names[i],)),
    ensures
        exists|kept: Seq<bool>|
            {
                &&& kept.len() == names.len()
                &&& forall|i: int|
                    0 <= i < names.len() ==> call_ensures(filter, (&names[i],), #[trigger] kept[i])
                &&& views(accepted@) == select(views(names@), kept)
            },
{
    let mut accepted: Vec<String> = Vec::new();
    let ghost mut kept: Seq<bool> = Seq::empty();
    let mut i: usize = 0;
    while i < names.len()
        invariant
            i <= names.len(),
            kept.len() == i,
            forall|k: int| 0 <= k < names.len() ==> call_requires(filter, (&names[k],)),
            forall|k: int| 0 <= k < i ==> call_ensures(filter, (&names[k],), #[trigger] kept[k]),
            views(accepted@) == select(views(names@).take(i as int), kept),
        decreases names.len() - i,
    {
        let name = &names[i];
        let yes = filter(name);
        let ghost all = views(names@);
        assert(all.take(i + 1).drop_last() =~= all.take(i as int));
        assert(kept.push(yes).drop_last() =~= kept);
        if yes {
            let ghost before = accepted@;
            accepted.push(name.clone());
            assert(views(accepted@) =~= views(before).push(name@));
        }
        proof {
            kept = kept.push(yes);
        }
        i += 1;
    }
    assert(views(names@).take(names.len() as int) =~= views(names@));
    accepted
}

/// The first line that `accepts` takes, if any.
///
/// `accepts` is asked line by line, in order, until it answers yes.
pub fn find_line<F>(lines: &Vec<String>, accepts: F) -> (found: Option<String>) where
    F: Fn(&String) -> bool,

    requires
        forall|i: int| 0 <= i < lines.len() ==> call_requires(accepts, (&lines[i],)),
    ensures
        match found {
            Some(line) => exists|i: int|
                {
                    &&& 0 <= i < lines.len()
                    &&& line@ == (#[trigger] lines[i])@
                    &&& call_ensures(accepts, (&lines[i],), true)
                    &&& forall|j: int|
                        0 <= j < i ==> call_ensures(accepts, (&#[trigger] lines[j],), false)
                },
            None => forall|i: int|
                0 <= i < lines.len() ==> call_ensures(accepts, (&#[trigger] lines[i],), false),
        },
{
    let mut i: usize = 0;
    while i < lines.len()
        invariant
            i <= lines.len(),
            forall|k: int| 0 <= k < lines.len() ==> call_requires(accepts, (&lines[k],)),
            forall|k: int| 0 <= k < i ==> call_ensures(accepts, (&#[trigger] lines[k],), false),
        decreases lines.len() - i,
    {
        let line = &lines[i];
        if accepts(line) {
            return Some(line.clone());
        }
        i += 1;
    }
    None
}

/// Selecting by the answers of a predicate is filtering by it.
pub proof fn select_is_filter<A>(items: Seq<A>, kept: Seq<bool>, pred: spec_fn(A) -> bool)
    requires
        kept.len() == items.len(),
        forall|i: int| 0 <= i < items.len() ==> kept[i] == pred(#[trigger] items[i]),
    ensures
        select(items, kept) == items.filter(pred),
    decreases items.len(),
{
    reveal(Seq::filter);
    if items.len() > 0 {
        assert(kept.last() == pred(items.last()));
        select_is_filter(items.drop_last(), kept.drop_last(), pred);
    }
}

} // verus!
