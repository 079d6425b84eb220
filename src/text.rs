//! Building blocks of generated Rust source text: decimal numerals, lists
//! joined by a separator, and nested generic types.
use vstd::prelude::*;

verus! {

/// The character sequences of a sequence of strings.
pub open spec fn views(v: Seq<String>) -> Seq<Seq<char>> {
    v.map_values(|s: String| s@)
}

/// Pushing a string pushes its characters onto the views.
pub proof fn lemma_views_push(v: Seq<String>, x: String)
    ensures
        views(v.push(x)) == views(v).push(x@),
        views(v).len() == v.len(),
{
    assert(views(v.push(x)) =~= views(v).push(x@));
}

/// The decimal digit `d` (below ten) as text.
pub open spec fn digit_text(d: nat) -> Seq<char> {
    if d == 0 {
        "0"@
    } else if d == 1 {
        "1"@
    } else if d == 2 {
        "2"@
    } else if d == 3 {
        "3"@
    } else if d == 4 {
        "4"@
    } else if d == 5 {
        "5"@
    } else if d == 6 {
        "6"@
    } else if d == 7 {
        "7"@
    } else if d == 8 {
        "8"@
    } else {
        "9"@
    }
}

/// `n` written in decimal, without leading zeros.
pub open spec fn decimal(n: nat) -> Seq<char>
    decreases n,
{
    if n < 10 {
        digit_text(n)
    } else {
        decimal(n / 10) + digit_text(n % 10)
    }
}

/// The items, with `sep` between each two neighbours.
pub open spec fn joined(items: Seq<Seq<char>>, sep: Seq<char>) -> Seq<char>
    decreases items.len(),
{
    if items.len() == 0 {
        Seq::empty()
    } else if items.len() == 1 {
        items[0]
    } else {
        joined(items.drop_last(), sep) + sep + items.last()
    }
}

/// The items as a generic argument or parameter list: empty text for no
/// items, else `<a, b, c>`.
pub open spec fn angled(items: Seq<Seq<char>>) -> Seq<char> {
    if items.len() == 0 {
        Seq::empty()
    } else {
        "<"@ + joined(items, ", "@) + ">"@
    }
}

/// The items nested as a type-level list: `nil` for no items, else
/// `open` followed by the first item, `", "`, the nesting of the other
/// items, and `">"`.
pub open spec fn nest(items: Seq<Seq<char>>, open: Seq<char>, nil: Seq<char>) -> Seq<char>
    decreases items.len(),
{
    if items.len() == 0 {
        nil
    } else {
        open + items[0] + ", "@ + nest(items.drop_first(), open, nil) + ">"@
    }
}

/// The opening parts of [`nest`]: one `open + item + ", "` per item.
pub open spec fn openings(items: Seq<Seq<char>>, open: Seq<char>) -> Seq<char>
    decreases items.len(),
{
    if items.len() == 0 {
        Seq::empty()
    } else {
        openings(items.drop_last(), open) + open + items.last() + ", "@
    }
}

/// `n` closing angle brackets.
pub open spec fn closings(n: nat) -> Seq<char>
    decreases n,
{
    if n == 0 {
        Seq::empty()
    } else {
        closings((n - 1) as nat) + ">"@
    }
}

proof fn lemma_openings_first(items: Seq<Seq<char>>, open: Seq<char>)
    requires
        items.len() > 0,
    ensures
        openings(items, open) == open + items[0] + ", "@ + openings(items.drop_first(), open),
    decreases items.len(),
{
    if items.len() == 1 {
        assert(items.drop_first() =~= Seq::empty());
        assert(items.drop_last() =~= Seq::empty());
        assert(openings(items.drop_last(), open) == Seq::<char>::empty());
        assert(items.last() == items[0]);
        assert(openings(items.drop_first(), open) == Seq::<char>::empty());
        assert(openings(items, open) =~= open + items[0] + ", "@);
    } else {
        lemma_openings_first(items.drop_last(), open);
        assert(items.drop_last().drop_first() =~= items.drop_first().drop_last());
        assert(items.drop_first().last() == items.last());
        assert(openings(items, open) =~= open + items[0] + ", "@ + openings(items.drop_first(), open));
    }
}

proof fn lemma_closings_first(n: nat)
    requires
        n > 0,
    ensures
        closings(n) == closings((n - 1) as nat) + ">"@,
{
}

proof fn lemma_nest_flat(items: Seq<Seq<char>>, open: Seq<char>, nil: Seq<char>)
    ensures
        nest(items, open, nil) == openings(items, open) + nil + closings(items.len()),
    decreases items.len(),
{
    if items.len() == 0 {
        assert(openings(items, open) + nil + closings(0) =~= nil);
    } else {
        lemma_nest_flat(items.drop_first(), open, nil);
        lemma_openings_first(items, open);
        lemma_closings_first(items.len());
        assert(nest(items, open, nil) =~= openings(items, open) + nil + closings(items.len()));
    }
}

fn digit_str(d: u64) -> (r: &'static str)
    requires
        d < 10,
    ensures
        r@ == digit_text(d as nat),
{
    if d == 0 {
        "0"
    } else if d == 1 {
        "1"
    } else if d == 2 {
        "2"
    } else if d == 3 {
        "3"
    } else if d == 4 {
        "4"
    } else if d == 5 {
        "5"
    } else if d == 6 {
        "6"
    } else if d == 7 {
        "7"
    } else if d == 8 {
        "8"
    } else {
        "9"
    }
}

/// Writes `n` in decimal.
pub fn decimal_text(n: u64) -> (r: String)
    ensures
        r@ == decimal(n as nat),
    decreases n,
{
    if n < 10 {
        String::from_str(digit_str(n))
    } else {
        let mut s = decimal_text(n / 10);
        s.append(digit_str(n % 10));
        s
    }
}

/// Joins the items with `sep` between each two neighbours.
pub fn join_text(items: &Vec<String>, sep: &str) -> (r: String)
    ensures
        r@ == joined(views(items@), sep@),
{
    let mut out = String::new();
    let mut i: usize = 0;
    while i < items.len()
        invariant
            i <= items.len(),
            out@ == joined(views(items@.take(i as int)), sep@),
        decreases items.len() - i,
    {
        let ghost before = views(items@.take(i as int));
        let ghost after = views(items@.take(i + 1));
        assert(after.drop_last() =~= before);
        assert(after.last() == items@[i as int]@);
        if i > 0 {
            out.append(sep);
        } else {
            assert(out@ == Seq::<char>::empty());
        }
        out.append(items[i].as_str());
        assert(out@ =~= joined(after, sep@));
        i = i + 1;
    }
    assert(items@.take(items.len() as int) =~= items@);
    out
}

/// Writes the items as a generic list: nothing when there are none, else
/// `<a, b, c>`.
pub fn angled_text(items: &Vec<String>) -> (r: String)
    ensures
        r@ == angled(views(items@)),
{
    if items.len() == 0 {
        String::new()
    } else {
        let mut out = String::from_str("<");
        let inner = join_text(items, ", ");
        out.append(inner.as_str());
        out.append(">");
        out
    }
}

/// Writes the items nested as a type-level list (see [`nest`]).
pub fn nest_text(items: &Vec<String>, open: &str, nil: &str) -> (r: String)
    ensures
        r@ == nest(views(items@), open@, nil@),
{
    let mut out = String::new();
    let mut i: usize = 0;
    while i < items.len()
        invariant
            i <= items.len(),
            out@ == openings(views(items@.take(i as int)), open@),
        decreases items.len() - i,
    {
        let ghost before = views(items@.take(i as int));
        let ghost after = views(items@.take(i + 1));
        assert(after.drop_last() =~= before);
        assert(after.last() == items@[i as int]@);
        out.append(open);
        out.append(items[i].as_str());
        out.append(", ");
        i = i + 1;
    }
    assert(items@.take(items.len() as int) =~= items@);
    out.append(nil);
    let mut j: usize = 0;
    while j < items.len()
        invariant
            j <= items.len(),
            out@ == openings(views(items@), open@) + nil@ + closings(j as nat),
        decreases items.len() - j,
    {
        out.append(">");
        j = j + 1;
    }
    proof {
        lemma_nest_flat(views(items@), open@, nil@);
    }
    out
}

} // verus!
