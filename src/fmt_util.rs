//! Joining texts with a separator, and formatting each item of a list.
use vstd::prelude::*;

verus! {

/// The views of a list of strings.
pub open spec fn views(items: Seq<String>) -> Seq<Seq<char>> {
    items.map_values(|s: String| s@)
}

/// The items one after another, with `sep` between each two neighbours.
pub open spec fn joined(items: Seq<Seq<char>>, sep: Seq<char>) -> Seq<char>
    decreases items.len(),
{
    if items.len() == 0 {
        Seq::empty()
    } else if items.len() == 1 {
        items[0]
    } else {
        joined(items.drop_last(), sep) + sep + items.last()
    }
}

/// Joins the items with `sep` between each two neighbours.
pub fn join(items: &Vec<String>, sep: &str) -> (r: String)
    ensures
        r@ == joined(views(items@), sep@),
{
    let mut out = String::new();
    let mut i: usize = 0;
    while i < items.len()
        invariant
            i <= items@.len(),
            out@ == joined(views(items@).take(i as int), sep@),
        decreases items@.len() - i,
    {
        if i > 0 {
            out.append(sep);
        }
        out.append(items[i].as_str());
        proof {
            let t = views(items@).take(i + 1);
            assert(t.drop_last() =~= views(items@).take(i as int));
            if i == 0 {
                assert(out@ =~= t[0]);
            }
            assert(out@ =~= joined(t, sep@));
        }
        i = i + 1;
    }
    assert(views(items@).take(i as int) =~= views(items@));
    out
}

/// Applies `f` to each item, keeping the order.
pub fn format<T, F: Fn(&T) -> String>(items: &Vec<T>, f: F) -> (r: Vec<String>)
    requires
        forall|i: int| 0 <= i < items@.len() ==> f.requires((&items@[i],)),
    ensures
        r@.len() == items@.len(),
        forall|i: int| 0 <= i < items@.len() ==> f.ensures((&items@[i],), #[trigger] r@[i]),
{
    let mut out: Vec<String> = Vec::new();
    let mut i: usize = 0;
    while i < items.len()
        invariant
            i <= items@.len(),
            out@.len() == i,
            forall|k: int| 0 <= k < items@.len() ==> f.requires((&items@[k],)),
            forall|k: int| 0 <= k < i ==> f.ensures((&items@[k],), #[trigger] out@[k]),
        decreases items@.len() - i,
    {
        let s = f(&items[i]);
        out.push(s);
        i = i + 1;
    }
    out
}

} // verus!
