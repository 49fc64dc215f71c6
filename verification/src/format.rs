//! Human-friendly formatting of lists of names.

use vstd::prelude::*;
use vstd::string::*;

verus! {

/// The items joined by `", "`.
pub open spec fn comma_join(items: Seq<Seq<char>>) -> Seq<char>
    decreases items.len(),
{
    if items.len() == 0 {
        Seq::empty()
    } else if items.len() == 1 {
        items[0]
    } else {
        comma_join(items.drop_last()) + ", "@ + items.last()
    }
}

/// The human-friendly rendering of a list:
/// `[]` gives `""`, `[a]` gives `a`, `[a, b]` gives `a CONJ b`,
/// and `[a, b, ..., y, z]` gives `a, b, ..., y, CONJ z`.
pub open spec fn friendly_list(items: Seq<Seq<char>>, conjunction: Seq<char>) -> Seq<char> {
    if items.len() == 0 {
        Seq::empty()
    } else if items.len() == 1 {
        items[0]
    } else if items.len() == 2 {
        items[0] + " "@ + conjunction + " "@ + items[1]
    } else {
        comma_join(items.drop_last()) + ", "@ + conjunction + " "@ + items.last()
    }
}

/// The views of a slice of string slices.
pub open spec fn str_views(items: Seq<&str>) -> Seq<Seq<char>> {
    items.map_values(|s: &str| s@)
}

/// Format a list of strings into human-friendly output.
///
/// `[]` gives `""`, `["a"]` gives `"a"`, `["a", "b"]` gives `"a and b"`,
/// and `["a", "b", "c"]` gives `"a, b, and c"` (with `"and"` as conjunction).
pub fn human_friendly_list_formatter(items: &[&str], conjunction: &str) -> (res: String)
    ensures
        res@ == friendly_list(str_views(items@), conjunction@),
{
    let n = items.len();
    let ghost views = str_views(items@);
    if n == 0 {
        return String::new();
    }
    if n == 1 {
        return String::from_str(items[0]);
    }
    if n == 2 {
        let mut s = String::from_str(items[0]);
        s.append(" ");
        s.append(conjunction);
        s.append(" ");
        s.append(items[1]);
        return s;
    }
    let mut s = String::from_str(items[0]);
    let mut i: usize = 1;
    assert(views.take(1).drop_last() =~= Seq::<Seq<char>>::empty());
    while i < n - 1
        invariant
            n == items@.len(),
            views == str_views(items@),
            n >= 3,
            1 <= i <= n - 1,
            s@ == comma_join(views.take(i as int)),
        decreases n - i,
    {
        s.append(", ");
        s.append(items[i]);
        assert(views.take(i + 1).drop_last() =~= views.take(i as int));
        i = i + 1;
    }
    assert(views.take((n - 1) as int) =~= views.drop_last());
    s.append(", ");
    s.append(conjunction);
    s.append(" ");
    s.append(items[n - 1]);
    s
}

/// A comma-joined list starts with its first item.
proof fn lemma_comma_join_starts(items: Seq<Seq<char>>)
    requires
        items.len() > 0,
    ensures
        comma_join(items).len() >= items[0].len(),
        comma_join(items).subrange(0, items[0].len() as int) == items[0],
    decreases items.len(),
{
    if items.len() > 1 {
        lemma_comma_join_starts(items.drop_last());
        let c = comma_join(items.drop_last());
        assert(comma_join(items).subrange(0, items[0].len() as int) =~= c.subrange(0, items[0].len() as int));
    } else {
        assert(comma_join(items).subrange(0, items[0].len() as int) =~= items[0]);
    }
}

/// A list of two or more items reads as the first item, then whatever comes
/// between, then a space, the conjunction, a space and the last item; a list
/// of one item is that item, and an empty list is empty.
pub proof fn lemma_friendly_list_shape(items: Seq<Seq<char>>, conjunction: Seq<char>)
    ensures
        items.len() == 0 ==> friendly_list(items, conjunction) == Seq::<char>::empty(),
        items.len() == 1 ==> friendly_list(items, conjunction) == items[0],
        items.len() >= 2 ==> ({
            let f = friendly_list(items, conjunction);
            let tail = seq![' '] + conjunction + seq![' '] + items.last();
            &&& f.len() >= items[0].len() + tail.len()
            &&& f.subrange(0, items[0].len() as int) == items[0]
            &&& f.subrange(f.len() - tail.len(), f.len() as int) == tail
        }),
{
    reveal_strlit(" ");
    reveal_strlit(", ");
    if items.len() == 2 {
        let f = friendly_list(items, conjunction);
        let tail = seq![' '] + conjunction + seq![' '] + items.last();
        assert(f =~= items[0] + tail);
        assert(f.subrange(0, items[0].len() as int) =~= items[0]);
        assert(f.subrange(f.len() - tail.len(), f.len() as int) =~= tail);
    } else if items.len() > 2 {
        let f = friendly_list(items, conjunction);
        let tail = seq![' '] + conjunction + seq![' '] + items.last();
        let c = comma_join(items.drop_last());
        lemma_comma_join_starts(items.drop_last());
        assert(f =~= c + seq![','] + tail);
        assert(f.subrange(0, items[0].len() as int) =~= c.subrange(0, items[0].len() as int));
        assert(f.subrange(f.len() - tail.len(), f.len() as int) =~= tail);
    }
}

} // verus!
