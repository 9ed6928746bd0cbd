//! Rendering of numbers and lists as text.
use vstd::prelude::*;

verus! {

/// The decimal digit `d`, for `d` below ten.
pub open spec fn digit(d: nat) -> Seq<char> {
    if d == 0 {
        "0"@
    } else if d == 1 {
        "1"@
    } else if d == 2 {
        "2"@
    } else if d == 3 {
        "3"@
    } else if d == 4 {
        "4"@
    } else if d == 5 {
        "5"@
    } else if d == 6 {
        "6"@
    } else if d == 7 {
        "7"@
    } else if d == 8 {
        "8"@
    } else {
        "9"@
    }
}

/// `n` in decimal, without leading zeros.
pub open spec fn decimal(n: nat) -> Seq<char>
    decreases n,
{
    if n < 10 {
        digit(n)
    } else {
        decimal(n / 10) + digit(n % 10)
    }
}

/// The items between square brackets, separated by a comma and a space.
pub open spec fn bracketed(items: Seq<Seq<char>>) -> Seq<char> {
    "["@ + comma_separated(items) + "]"@
}

/// The items one after another, a comma and a space between neighbours.
pub open spec fn comma_separated(items: Seq<Seq<char>>) -> Seq<char>
    decreases items.len(),
{
    if items.len() == 0 {
        Seq::empty()
    } else if items.len() == 1 {
        items[0]
    } else {
        comma_separated(items.drop_last()) + ", "@ + items.last()
    }
}

/// How many line breaks a text holds.
pub open spec fn line_breaks(s: Seq<char>) -> nat
    decreases s.len(),
{
    if s.len() == 0 {
        0
    } else if s.last() == '\n' {
        line_breaks(s.drop_last()) + 1
    } else {
        line_breaks(s.drop_last())
    }
}

/// What each of several strings holds.
pub open spec fn texts(strings: Seq<String>) -> Seq<Seq<char>> {
    strings.map_values(|s: String| s@)
}

/// What the `Debug` formatting of a string gives: the string between double quotes,
/// with the characters escaped that `Debug` escapes.
pub uninterp spec fn debug_quoted(s: Seq<char>) -> Seq<char>;

/// The `Debug` formatting of `str` in the standard library, `format!("{:?}", s)`.
///
/// Trusted: the text depends on the characters of `s` alone, and holds no line break, since
/// `Debug` writes one as a backslash and an `n`. Which other characters are escaped, and how, is
/// not stated.
#[verifier::external_body]
fn quote(s: &str) -> (quoted: String)
    ensures
        quoted@ == debug_quoted(s@),
        !quoted@.contains('\n'),
{
    format!("{:?}", s)
}

/// The line breaks of two texts one after the other are those of both.
pub proof fn lemma_line_breaks_add(s: Seq<char>, t: Seq<char>)
    ensures
        line_breaks(s + t) == line_breaks(s) + line_breaks(t),
    decreases t.len(),
{
    if t.len() == 0 {
        assert(s + t =~= s);
    } else {
        assert((s + t).drop_last() =~= s + t.drop_last());
        lemma_line_breaks_add(s, t.drop_last());
    }
}

/// A text in which no character is a line break has none.
pub proof fn lemma_no_line_break(s: Seq<char>)
    requires
        !s.contains('\n'),
    ensures
        line_breaks(s) == 0,
    decreases s.len(),
{
    if s.len() > 0 {
        assert(s.contains(s[s.len() - 1]));
        assert forall|i: int| 0 <= i < s.len() - 1 implies s.drop_last()[i] != '\n' by {
            assert(s.contains(s[i]));
        }
        lemma_no_line_break(s.drop_last());
    }
}

/// A text that starts with a line break and goes on without one has one.
pub proof fn lemma_leading_line_break(s: Seq<char>)
    requires
        s.len() > 0,
        s[0] == '\n',
        forall|i: int| 1 <= i < s.len() ==> s[i] != '\n',
    ensures
        line_breaks(s) == 1,
    decreases s.len(),
{
    if s.len() == 1 {
        assert(line_breaks(s.drop_last()) == 0);
    } else {
        lemma_leading_line_break(s.drop_last());
    }
}

/// A number in decimal has at least one digit, and no line break.
pub proof fn lemma_decimal_is_one_line(n: nat)
    ensures
        decimal(n).len() > 0,
        !decimal(n).contains('\n'),
    decreases n,
{
    reveal_strlit("0");
    reveal_strlit("1");
    reveal_strlit("2");
    reveal_strlit("3");
    reveal_strlit("4");
    reveal_strlit("5");
    reveal_strlit("6");
    reveal_strlit("7");
    reveal_strlit("8");
    reveal_strlit("9");
    if n >= 10 {
        lemma_decimal_is_one_line(n / 10);
        let high = decimal(n / 10);
        assert forall|i: int| 0 <= i < decimal(n).len() implies decimal(n)[i] != '\n' by {
            if i < high.len() {
                assert(high.contains(high[i]));
            }
        }
    }
}

/// A bracketed list of texts without line breaks has none.
pub proof fn lemma_bracketed_is_one_line(items: Seq<Seq<char>>)
    requires
        forall|k: int| 0 <= k < items.len() ==> !(#[trigger] items[k]).contains('\n'),
    ensures
        line_breaks(bracketed(items)) == 0,
{
    reveal_strlit("[");
    reveal_strlit("]");
    lemma_comma_separated_is_one_line(items);
    lemma_no_line_break("["@);
    lemma_no_line_break("]"@);
    lemma_line_breaks_add("["@, comma_separated(items));
    lemma_line_breaks_add("["@ + comma_separated(items), "]"@);
}

/// Texts without line breaks, separated by commas, have none.
proof fn lemma_comma_separated_is_one_line(items: Seq<Seq<char>>)
    requires
        forall|k: int| 0 <= k < items.len() ==> !(#[trigger] items[k]).contains('\n'),
    ensures
        line_breaks(comma_separated(items)) == 0,
    decreases items.len(),
{
    reveal_strlit(", ");
    if items.len() == 1 {
        lemma_no_line_break(items[0]);
    } else if items.len() > 1 {
        let rest = comma_separated(items.drop_last());
        lemma_comma_separated_is_one_line(items.drop_last());
        lemma_no_line_break(", "@);
        lemma_no_line_break(items.last());
        lemma_line_breaks_add(rest, ", "@);
        lemma_line_breaks_add(rest + ", "@, items.last());
    }
}

/// The decimal digit `d`.
fn digit_str(d: usize) -> (s: &'static str)
    requires
        d < 10,
    ensures
        s@ == digit(d as nat),
{
    if d == 0 {
        "0"
    } else if d == 1 {
        "1"
    } else if d == 2 {
        "2"
    } else if d == 3 {
        "3"
    } else if d == 4 {
        "4"
    } else if d == 5 {
        "5"
    } else if d == 6 {
        "6"
    } else if d == 7 {
        "7"
    } else if d == 8 {
        "8"
    } else {
        "9"
    }
}

/// Writes `n` in decimal.
pub fn to_decimal(n: usize) -> (s: String)
    ensures
        s@ == decimal(n as nat),
    decreases n,
{
    if n < 10 {
        digit_str(n).to_owned()
    } else {
        let mut s = to_decimal(n / 10);
        s.append(digit_str(n % 10));
        s
    }
}

/// Quotes each of `items` as `Debug` does, which leaves no line break.
pub fn quote_all(items: &Vec<String>) -> (quoted: Vec<String>)
    ensures
        quoted.len() == items.len(),
        forall|k: int|
            0 <= k < quoted.len() ==> (#[trigger] quoted[k])@ == debug_quoted(items[k]@),
        forall|k: int| 0 <= k < quoted.len() ==> !(#[trigger] quoted[k])@.contains('\n'),
        texts(quoted@) == texts(items@).map_values(|s: Seq<char>| debug_quoted(s)),
{
    let mut quoted: Vec<String> = Vec::new();
    let mut i: usize = 0;
    while i < items.len()
        invariant
            i <= items.len(),
            quoted.len() == i,
            forall|k: int| 0 <= k < i ==> (#[trigger] quoted[k])@ == debug_quoted(items[k]@),
            forall|k: int| 0 <= k < i ==> !(#[trigger] quoted[k])@.contains('\n'),
        decreases items.len() - i,
    {
        quoted.push(quote(items[i].as_str()));
        i += 1;
    }
    assert(texts(quoted@) =~= texts(items@).map_values(|s: Seq<char>| debug_quoted(s)));
    quoted
}

/// Writes `items` as a bracketed list.
pub fn to_bracketed(items: &Vec<String>) -> (s: String)
    ensures
        s@ == bracketed(texts(items@)),
{
    let mut s = "[".to_owned();
    let mut i: usize = 0;
    while i < items.len()
        invariant
            i <= items.len(),
            s@ == "["@ + comma_separated(texts(items@).take(i as int)),
        decreases items.len() - i,
    {
        let ghost before = texts(items@).take(i as int);
        let ghost after = texts(items@).take(i + 1);
        assert(after.drop_last() =~= before);
        assert(after.last() == items[i as int]@);
        if i > 0 {
            s.append(", ");
        }
        s.append(items[i].as_str());
        assert(s@ =~= "["@ + comma_separated(after));
        i += 1;
    }
    assert(texts(items@).take(items.len() as int) =~= texts(items@));
    s.append("]");
    s
}

} // verus!
