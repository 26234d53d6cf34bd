//! Small helpers on text.

use vstd::prelude::*;

verus! {

/// Whether two texts are the same.
pub(crate) fn same_text(a: &str, b: &str) -> (r: bool)
    ensures
        r == (a@ == b@),
{
    a.to_owned() == b.to_owned()
}

/// The text without the quotes in front.
pub open spec fn trimmed_start(text: Seq<char>) -> Seq<char>
    decreases text.len(),
{
    if text.len() > 0 && text[0] == '"' {
        trimmed_start(text.drop_first())
    } else {
        text
    }
}

/// The text without the quotes behind.
pub open spec fn trimmed_end(text: Seq<char>) -> Seq<char>
    decreases text.len(),
{
    if text.len() > 0 && text.last() == '"' {
        trimmed_end(text.drop_last())
    } else {
        text
    }
}

/// The text without the quotes in front and behind.
pub open spec fn trimmed(text: Seq<char>) -> Seq<char> {
    trimmed_end(trimmed_start(text))
}

/// Takes the quotes in front and behind from a text.
pub(crate) fn trim_quotes(text: &str) -> (r: String)
    ensures
        r@ == trimmed(text@),
{
    let mut from: usize = 0;
    let mut to: usize = text.unicode_len();
    let ghost all = text@;
    assert(all.subrange(0, all.len() as int) =~= all);
    while from < to && text.get_char(from) == '"'
        invariant
            from <= to == all.len(),
            all == text@,
            trimmed_start(all) == trimmed_start(all.subrange(from as int, to as int)),
        decreases to - from,
    {
        assert(all.subrange(from as int, to as int).drop_first() =~= all.subrange(
            from + 1,
            to as int,
        ));
        from = from + 1;
    }
    let ghost start = all.subrange(from as int, to as int);
    while from < to && text.get_char(to - 1) == '"'
        invariant
            from <= to <= all.len(),
            all == text@,
            trimmed_end(start) == trimmed_end(all.subrange(from as int, to as int)),
        decreases to - from,
    {
        assert(all.subrange(from as int, to as int).drop_last() =~= all.subrange(
            from as int,
            to - 1,
        ));
        to = to - 1;
    }
    text.substring_char(from, to).to_owned()
}

/// So many quotes.
pub open spec fn quotes(count: nat) -> Seq<char> {
    Seq::new(count, |i: int| '"')
}

/// Whether `bare` is `text` with nothing but quotes taken from its two ends, and as
/// many as there are.
pub open spec fn is_unquoted(text: Seq<char>, bare: Seq<char>) -> bool {
    &&& exists|m: nat, n: nat| text == #[trigger] quotes(m) + bare + #[trigger] quotes(n)
    &&& bare.len() > 0 ==> bare[0] != '"' && bare[bare.len() - 1] != '"'
}

proof fn lemma_quotes_in_front(text: Seq<char>) -> (m: nat)
    ensures
        text == quotes(m) + trimmed_start(text),
        trimmed_start(text).len() > 0 ==> trimmed_start(text)[0] != '"',
    decreases text.len(),
{
    if text.len() > 0 && '"' == text[0] {
        let m = lemma_quotes_in_front(text.drop_first());
        assert(text =~= seq!['"'] + text.drop_first());
        assert(quotes(m + 1) =~= seq!['"'] + quotes(m));
        assert(text =~= quotes(m + 1) + trimmed_start(text));
        m + 1
    } else {
        assert(text =~= quotes(0) + text);
        0
    }
}

proof fn lemma_quotes_behind(text: Seq<char>) -> (n: nat)
    ensures
        text == trimmed_end(text) + quotes(n),
        trimmed_end(text).len() > 0 ==> trimmed_end(text)[0] == text[0] && trimmed_end(
            text,
        ).last() != '"',
    decreases text.len(),
{
    if text.len() > 0 && '"' == text.last() {
        let n = lemma_quotes_behind(text.drop_last());
        assert(text =~= text.drop_last() + seq!['"']);
        assert(quotes(n + 1) =~= quotes(n) + seq!['"']);
        assert(text =~= trimmed_end(text) + quotes(n + 1));
        n + 1
    } else {
        assert(text =~= text + quotes(0));
        0
    }
}

/// To trim a text takes nothing but quotes from its two ends, and leaves none there. In
/// particular a text without quotes at its ends stays as it is.
pub proof fn law_only_quotes_are_trimmed(text: Seq<char>)
    ensures
        is_unquoted(text, trimmed(text)),
        text.len() > 0 && text[0] != '"' && text[text.len() - 1] != '"' ==> trimmed(text) == text,
{
    let m = lemma_quotes_in_front(text);
    let n = lemma_quotes_behind(trimmed_start(text));
    assert(text =~= quotes(m) + trimmed(text) + quotes(n));
    if text.len() > 0 && text[0] != '"' && text[text.len() - 1] != '"' {
        if m > 0 {
            assert(text[0] == quotes(m)[0]);
        }
        if n > 0 {
            assert(text[text.len() - 1] == quotes(n)[n - 1]);
        }
        assert(quotes(m) + trimmed(text) + quotes(n) =~= trimmed(text));
    }
}

/// Nothing but the trimmed text is the text without the quotes at its ends.
pub proof fn law_unquoted_is_unique(text: Seq<char>, bare: Seq<char>)
    requires
        is_unquoted(text, bare),
    ensures
        bare == trimmed(text),
{
    law_only_quotes_are_trimmed(text);
    lemma_unquoted_unique(text, bare, trimmed(text));
}

proof fn lemma_unquoted_unique(text: Seq<char>, one: Seq<char>, other: Seq<char>)
    requires
        is_unquoted(text, one),
        is_unquoted(text, other),
    ensures
        one == other,
{
    let (m, n) = choose|m: nat, n: nat| text == #[trigger] quotes(m) + one + #[trigger] quotes(n);
    let (k, l) = choose|k: nat, l: nat| text == #[trigger] quotes(k) + other + #[trigger] quotes(l);
    lemma_quotes_around(text, one, m, n);
    lemma_quotes_around(text, other, k, l);
    if one.len() > 0 && other.len() > 0 {
        assert(m == k);
        assert(m + one.len() == k + other.len());
        assert(one =~= text.subrange(m as int, (m + one.len()) as int));
        assert(other =~= text.subrange(m as int, (m + one.len()) as int));
    } else {
        assert(one =~= other);
    }
}

/// Where the quotes around a text stand, and where the first and last character of the
/// text.
proof fn lemma_quotes_around(text: Seq<char>, bare: Seq<char>, m: nat, n: nat)
    requires
        text == quotes(m) + bare + quotes(n),
    ensures
        text.len() == m + bare.len() + n,
        forall|i: int| 0 <= i < m ==> text[i] == '"',
        forall|i: int| m + bare.len() <= i < text.len() ==> text[i] == '"',
        forall|i: int| 0 <= i < bare.len() ==> #[trigger] bare[i] == text[m + i],
        bare.len() > 0 ==> text[m as int] == bare[0] && text[m + bare.len() - 1]
            == bare[bare.len() - 1],
{
    assert forall|i: int| 0 <= i < m implies text[i] == '"' by {
        assert(text[i] == quotes(m)[i]);
    }
    assert forall|i: int| m + bare.len() <= i < text.len() implies text[i] == '"' by {
        assert(text[i] == quotes(n)[i - m - bare.len()]);
    }
}

} // verus!
