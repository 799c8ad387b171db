//! Texts and numbers: what is written is read back.
use crate::text::{
    all_digits, char_is_space, decimal, decimal_text, digit, digits_value, is_digit, is_space,
    join_texts, joined, leading_space, parse_unsigned, pieces, split_text, strip_prefix_text,
    texts, trim_text, trimmed, trimmed_end, unsigned_value,
};
use vstd::prelude::*;

verus! {

// ---------------------------------------------------------------------------
// Numbers
// ---------------------------------------------------------------------------

proof fn lemma_decimal_value(n: nat)
    ensures
        decimal(n).len() > 0,
        all_digits(decimal(n)),
        digits_value(decimal(n)) == n,
    decreases n,
{
    lemma_digit(n % 10);
    if n < 10 {
        let s = decimal(n);
        assert(s =~= seq![digit(n)]);
        assert(s.drop_last() =~= Seq::<char>::empty());
        assert(digits_value(s.drop_last()) == 0);
        assert(s.last() == digit(n));
    } else {
        lemma_decimal_value(n / 10);
        let s = decimal(n);
        assert(s.drop_last() =~= decimal(n / 10));
        assert(s.last() == digit(n % 10));
        assert forall|i: int| 0 <= i < s.len() implies is_digit(#[trigger] s[i]) by {
            if i < s.len() - 1 {
                assert(s[i] == decimal(n / 10)[i]);
            }
        }
    }
}

proof fn lemma_digit(n: nat)
    requires
        n < 10,
    ensures
        is_digit(digit(n)),
        digit(n) as u32 - '0' as u32 == n,
{
}

/// A number that was written in decimal is read as that number, if it is not
/// above the limit, and not at all if it is.
pub proof fn lemma_numbers_are_read_back(
    n: u64,
    written: String,
    text: &str,
    max: u64,
    read: Option<u64>,
)
    requires
        call_ensures(decimal_text, (n,), written),
        text@ == written@,
        call_ensures(parse_unsigned, (text, max), read),
    ensures
        read == if n <= max {
            Some(n)
        } else {
            None
        },
{
    lemma_decimal_value(n as nat);
    assert(is_digit(text@[0]));
    assert(unsigned_value(text@, max as nat) == if n <= max {
        Some(n as nat)
    } else {
        None
    });
}

// ---------------------------------------------------------------------------
// Lists
// ---------------------------------------------------------------------------

proof fn lemma_pieces_joined(s: Seq<char>, sep: char)
    ensures
        pieces(s, sep).len() > 0,
        joined(pieces(s, sep), seq![sep]) == s,
        forall|i: int, j: int|
            0 <= i < pieces(s, sep).len() && 0 <= j < pieces(s, sep)[i].len() ==> #[trigger] pieces(
                s,
                sep,
            )[i][j] != sep,
    decreases s.len(),
{
    if s.len() == 0 {
        assert(pieces(s, sep) =~= seq![Seq::<char>::empty()]);
        assert(joined(pieces(s, sep), seq![sep]) =~= s);
    } else {
        let rest = s.drop_last();
        lemma_pieces_joined(rest, sep);
        let p = pieces(rest, sep);
        let q = pieces(s, sep);
        if s.last() == sep {
            assert(q.drop_last() =~= p);
            assert(joined(q, seq![sep]) =~= rest + seq![sep] + Seq::<char>::empty());
            assert(rest + seq![sep] + Seq::<char>::empty() =~= s);
        } else {
            assert(q.drop_last() =~= p.drop_last());
            assert(q.last() =~= p.last().push(s.last()));
            if p.len() == 1 {
                assert(joined(q, seq![sep]) =~= p[0].push(s.last()));
            } else {
                assert(joined(q, seq![sep]) =~= joined(p, seq![sep]).push(s.last()));
            }
            assert(rest.push(s.last()) =~= s);
        }
        assert forall|i: int, j: int| 0 <= i < q.len() && 0 <= j < q[i].len() implies #[trigger] q[i][j]
            != sep by {
            if s.last() == sep {
                if i < p.len() {
                    assert(q[i] == p[i]);
                    assert(p[i][j] != sep);
                }
            } else if i < q.len() - 1 {
                assert(q[i] == p[i]);
                assert(p[i][j] != sep);
            } else if j < q[i].len() - 1 {
                assert(q[i][j] == p[i][j]);
                assert(p[i][j] != sep);
            }
        }
    }
}

/// Splitting a text at a separator and joining the pieces with it gives back the
/// text, and no piece holds the separator.
pub proof fn lemma_splitting_is_undone_by_joining(
    s: &str,
    sep: char,
    parts: Vec<String>,
    sep_text: &str,
    again: String,
)
    requires
        call_ensures(split_text, (s, sep), parts),
        sep_text@ == seq![sep],
        call_ensures(join_texts, (&parts, sep_text), again),
    ensures
        again@ == s@,
        parts@.len() > 0,
        forall|i: int, j: int|
            0 <= i < parts@.len() && 0 <= j < parts@[i]@.len() ==> #[trigger] parts@[i]@[j] != sep,
{
    lemma_pieces_joined(s@, sep);
    let p = pieces(s@, sep);
    assert(texts(parts@).len() == parts@.len());
    assert forall|i: int, j: int| 0 <= i < parts@.len() && 0 <= j < parts@[i]@.len() implies #[trigger] parts@[i]@[j]
        != sep by {
        assert(texts(parts@)[i] == parts@[i]@);
        assert(p[i][j] != sep);
    }
}

/// A text that begins with another is the other and what is left of it.
pub proof fn lemma_prefixes_are_put_back(s: &str, p: &str, r: Option<String>)
    requires
        call_ensures(strip_prefix_text, (s, p), r),
    ensures
        r matches Some(rest) ==> p@ + rest@ == s@,
        r is None ==> forall|rest: Seq<char>| #[trigger] (p@ + rest) != s@,
{
    if let Some(rest) = r {
        assert(p@ + rest@ =~= s@);
    } else {
        assert forall|rest: Seq<char>| #[trigger] (p@ + rest) != s@ by {
            if p@ + rest == s@ {
                assert(s@.take(p@.len() as int) =~= p@);
            }
        }
    }
}

// ---------------------------------------------------------------------------
// White space
// ---------------------------------------------------------------------------

/// The white space of Unicode, by code point.
pub open spec fn blanks() -> Seq<int> {
    seq![
        0x09, 0x0A, 0x0B, 0x0C, 0x0D, 0x20, 0x85, 0xA0, 0x1680, 0x2000, 0x2001, 0x2002, 0x2003,
        0x2004, 0x2005, 0x2006, 0x2007, 0x2008, 0x2009, 0x200A, 0x2028, 0x2029, 0x202F, 0x205F,
        0x3000,
    ]
}

/// A character is white space exactly if its code point is one of the list.
pub proof fn lemma_white_space_is_that_of_unicode(c: char, r: bool)
    requires
        call_ensures(char_is_space, (c,), r),
    ensures
        r <==> blanks().contains(c as u32 as int),
{
    let u = c as u32 as int;
    let list = blanks();
    if r {
        let k: int = if u <= 0x0D {
            u - 9
        } else if u == 0x20 {
            5
        } else if u == 0x85 {
            6
        } else if u == 0xA0 {
            7
        } else if u == 0x1680 {
            8
        } else if u <= 0x200A {
            9 + (u - 0x2000)
        } else if u == 0x2028 {
            20
        } else if u == 0x2029 {
            21
        } else if u == 0x202F {
            22
        } else if u == 0x205F {
            23
        } else {
            24
        };
        assert(0 <= k < 25);
        assert(list[k] == u);
    } else if list.contains(u) {
        let k = choose|k: int| 0 <= k < list.len() && list[k] == u;
        assert(false);
    }
}

proof fn lemma_leading(s: Seq<char>)
    ensures
        leading_space(s) <= s.len(),
        forall|i: int| 0 <= i < leading_space(s) ==> is_space(#[trigger] s[i]),
        leading_space(s) < s.len() ==> !is_space(s[leading_space(s) as int]),
    decreases s.len(),
{
    if s.len() > 0 && is_space(s[0]) {
        let rest = s.drop_first();
        lemma_leading(rest);
        assert forall|i: int| 0 <= i < leading_space(s) implies is_space(#[trigger] s[i]) by {
            if i > 0 {
                assert(s[i] == rest[i - 1]);
            }
        }
    }
}

proof fn lemma_trailing(s: Seq<char>)
    ensures
        trimmed_end(s).len() <= s.len(),
        trimmed_end(s) == s.take(trimmed_end(s).len() as int),
        forall|i: int| trimmed_end(s).len() <= i < s.len() ==> is_space(#[trigger] s[i]),
        trimmed_end(s).len() > 0 ==> !is_space(trimmed_end(s).last()),
    decreases s.len(),
{
    if s.len() > 0 && is_space(s.last()) {
        let rest = s.drop_last();
        lemma_trailing(rest);
        let n = trimmed_end(s).len() as int;
        assert(s.take(n) =~= rest.take(n));
        assert forall|i: int| n <= i < s.len() implies is_space(#[trigger] s[i]) by {
            if i < rest.len() {
                assert(s[i] == rest[i]);
            }
        }
    } else {
        assert(s.take(s.len() as int) =~= s);
    }
}

/// Trimming takes away white space, from both ends and all of it, and nothing
/// else: the text is what is left with white space around it, and what is left
/// neither begins nor ends with any.
pub proof fn lemma_trimming_takes_away_blanks_alone(s: &str, r: String) -> (f: (int, int))
    requires
        call_ensures(trim_text, (s,), r),
    ensures
        0 <= f.0 <= f.1 <= s@.len(),
        r@ == s@.subrange(f.0, f.1),
        forall|i: int| 0 <= i < f.0 ==> is_space(#[trigger] s@[i]),
        forall|i: int| f.1 <= i < s@.len() ==> is_space(#[trigger] s@[i]),
        r@.len() > 0 ==> !is_space(r@[0]) && !is_space(r@.last()),
{
    let from = leading_space(s@) as int;
    lemma_leading(s@);
    let rest = s@.skip(from);
    lemma_trailing(rest);
    let to = from + trimmed(s@).len();
    assert(r@ =~= s@.subrange(from, to));
    assert forall|i: int| to <= i < s@.len() implies is_space(#[trigger] s@[i]) by {
        assert(s@[i] == rest[i - from]);
    }
    if r@.len() > 0 {
        assert(r@[0] == s@[from]);
    }
    (from, to)
}

} // verus!
