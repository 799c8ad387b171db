//! Version names, such as those of SDK directories, and the latest of them.
use crate::text::{
    all_digits, before, chars_of, digits_value, is_digit, lemma_before_irreflexive,
    lemma_before_total, lemma_before_transitive, pieces, split_text, text_before, texts,
};
use vstd::prelude::*;

verus! {

// ---------------------------------------------------------------------------
// Numbers
// ---------------------------------------------------------------------------

/// Whether a part of a version is a number: at least one decimal digit, and
/// nothing else.
pub open spec fn is_number(s: Seq<char>) -> bool {
    s.len() > 0 && all_digits(s)
}

/// Whether a part of a version is a number.
fn part_is_number(v: &Vec<char>) -> (r: bool)
    ensures
        r == is_number(v@),
{
    let mut i: usize = 0;
    while i < v.len()
        invariant
            i <= v@.len(),
            forall|k: int| 0 <= k < i ==> is_digit(#[trigger] v@[k]),
        decreases v@.len() - i,
    {
        if !('0' <= v[i] && v[i] <= '9') {
            assert(!is_digit(v@[i as int]));
            return false;
        }
        i = i + 1;
    }
    v.len() > 0
}

/// A power of ten.
spec fn ten_to(n: nat) -> nat
    decreases n,
{
    if n == 0 {
        1
    } else {
        10 * ten_to((n - 1) as nat)
    }
}

proof fn lemma_ten_to_grows(m: nat, n: nat)
    requires
        m <= n,
    ensures
        1 <= ten_to(m) <= ten_to(n),
    decreases n,
{
    if m < n {
        lemma_ten_to_grows(m, (n - 1) as nat);
    } else if n > 0 {
        lemma_ten_to_grows((m - 1) as nat, (n - 1) as nat);
    }
}

/// Digits that do not begin with a zero stand for a number of as many digits.
proof fn lemma_value_bounds(s: Seq<char>)
    requires
        all_digits(s),
    ensures
        digits_value(s) < ten_to(s.len()),
        s.len() > 0 && s[0] != '0' ==> ten_to((s.len() - 1) as nat) <= digits_value(s),
    decreases s.len(),
{
    if s.len() > 0 {
        let rest = s.drop_last();
        assert(is_digit(s.last()));
        assert(all_digits(rest)) by {
            assert forall|i: int| 0 <= i < rest.len() implies is_digit(#[trigger] rest[i]) by {
                assert(rest[i] == s[i]);
            }
        }
        lemma_value_bounds(rest);
        if s.len() == 1 {
            assert(digits_value(rest) == 0);
            assert(ten_to(0) == 1);
        } else {
            assert(rest[0] == s[0]);
        }
    }
}

/// A zero in front changes no value.
proof fn lemma_leading_zero(s: Seq<char>)
    requires
        s.len() > 0,
        s[0] == '0',
    ensures
        digits_value(s) == digits_value(s.skip(1)),
    decreases s.len(),
{
    if s.len() > 1 {
        lemma_leading_zero(s.drop_last());
        assert(s.drop_last().skip(1) =~= s.skip(1).drop_last());
        assert(s.skip(1).last() == s.last());
    } else {
        assert(s.drop_last().len() == 0);
        assert(digits_value(s.drop_last()) == 0);
    }
}

/// Of two rows of as many digits, the first difference decides.
proof fn lemma_first_difference(a: Seq<char>, b: Seq<char>, i: int, n: int)
    requires
        0 <= i < n <= a.len(),
        a.len() == b.len(),
        all_digits(a),
        all_digits(b),
        a.take(i) == b.take(i),
        a[i] < b[i],
    ensures
        digits_value(a.take(n)) < digits_value(b.take(n)),
    decreases n,
{
    assert(a.take(n).drop_last() =~= a.take(n - 1));
    assert(b.take(n).drop_last() =~= b.take(n - 1));
    assert(a.take(n).last() == a[n - 1]);
    assert(b.take(n).last() == b[n - 1]);
    assert(is_digit(a[n - 1]) && is_digit(b[n - 1]));
    if n > i + 1 {
        lemma_first_difference(a, b, i, n - 1);
    }
}

/// The digits of a number without the zeros in front.
fn significant(v: &Vec<char>) -> (r: Vec<char>)
    requires
        all_digits(v@),
    ensures
        all_digits(r@),
        digits_value(r@) == digits_value(v@),
        r@.len() > 0 ==> r@[0] != '0',
{
    let mut i: usize = 0;
    assert(v@.skip(0) =~= v@);
    while i < v.len() && v[i] == '0'
        invariant
            i <= v@.len(),
            digits_value(v@.skip(i as int)) == digits_value(v@),
        decreases v@.len() - i,
    {
        proof {
            lemma_leading_zero(v@.skip(i as int));
            assert(v@.skip(i as int).skip(1) =~= v@.skip(i + 1));
        }
        i = i + 1;
    }
    let ghost from = i as int;
    let mut r: Vec<char> = Vec::new();
    assert(r@ =~= v@.subrange(from, from));
    while i < v.len()
        invariant
            0 <= from <= i <= v@.len(),
            r@ == v@.subrange(from, i as int),
        decreases v@.len() - i,
    {
        r.push(v[i]);
        assert(r@ =~= v@.subrange(from, i + 1));
        i = i + 1;
    }
    assert(r@ =~= v@.skip(from));
    r
}

/// Whether a row of digits stands for a smaller number than another one,
/// however long they are.
fn number_before(a: &Vec<char>, b: &Vec<char>) -> (r: bool)
    requires
        all_digits(a@),
        all_digits(b@),
    ensures
        r == (digits_value(a@) < digits_value(b@)),
{
    let x = significant(a);
    let y = significant(b);
    if x.len() != y.len() {
        proof {
            lemma_value_bounds(x@);
            lemma_value_bounds(y@);
            if x@.len() < y@.len() {
                lemma_ten_to_grows(x@.len(), (y@.len() - 1) as nat);
            } else {
                lemma_ten_to_grows(y@.len(), (x@.len() - 1) as nat);
            }
        }
        return x.len() < y.len();
    }
    let mut i: usize = 0;
    while i < x.len()
        invariant
            x@.len() == y@.len(),
            i <= x@.len(),
            all_digits(x@),
            all_digits(y@),
            digits_value(x@) == digits_value(a@),
            digits_value(y@) == digits_value(b@),
            x@.take(i as int) == y@.take(i as int),
        decreases x@.len() - i,
    {
        if x[i] != y[i] {
            proof {
                let n = x@.len() as int;
                assert(x@.take(n) =~= x@);
                assert(y@.take(n) =~= y@);
                if x@[i as int] < y@[i as int] {
                    lemma_first_difference(x@, y@, i as int, n);
                } else {
                    lemma_first_difference(y@, x@, i as int, n);
                }
            }
            return x[i] < y[i];
        }
        assert(x@.take(i + 1) =~= x@.take(i as int).push(x@[i as int]));
        assert(y@.take(i + 1) =~= y@.take(i as int).push(y@[i as int]));
        i = i + 1;
    }
    assert(x@.take(x@.len() as int) =~= x@);
    assert(y@.take(y@.len() as int) =~= y@);
    false
}

// ---------------------------------------------------------------------------
// The order of versions
// ---------------------------------------------------------------------------

/// Whether a part of a version stands before another one: numbers go by their
/// value, other texts by dictionary order, and a number stands before what is
/// none.
pub open spec fn part_before(a: Seq<char>, b: Seq<char>) -> bool {
    if is_number(a) && is_number(b) {
        digits_value(a) < digits_value(b)
    } else if is_number(a) || is_number(b) {
        is_number(a)
    } else {
        before(a, b)
    }
}

/// Whether a row of parts stands before another one: the first parts that
/// differ decide, and where there are none the shorter row comes first.
pub open spec fn parts_before(a: Seq<Seq<char>>, b: Seq<Seq<char>>) -> bool
    decreases a.len(),
{
    if b.len() == 0 {
        false
    } else if a.len() == 0 {
        true
    } else if part_before(a[0], b[0]) {
        true
    } else if part_before(b[0], a[0]) {
        false
    } else {
        parts_before(a.drop_first(), b.drop_first())
    }
}

/// The parts of a version between its dots.
pub open spec fn version_parts(v: Seq<char>) -> Seq<Seq<char>> {
    pieces(v, '.')
}

/// Whether a version is older than another one: its parts between the dots
/// decide. Where they are the same but for zeros in front of numbers,
/// dictionary order does.
pub open spec fn is_older(a: Seq<char>, b: Seq<char>) -> bool {
    if parts_before(version_parts(a), version_parts(b)) {
        true
    } else if parts_before(version_parts(b), version_parts(a)) {
        false
    } else {
        before(a, b)
    }
}

fn compare_parts(a: &str, b: &str) -> (r: bool)
    ensures
        r == part_before(a@, b@),
{
    let x = chars_of(a);
    let y = chars_of(b);
    let x_number = part_is_number(&x);
    let y_number = part_is_number(&y);
    if x_number && y_number {
        number_before(&x, &y)
    } else if x_number || y_number {
        x_number
    } else {
        text_before(a, b)
    }
}

fn compare_rows(a: &Vec<String>, b: &Vec<String>) -> (r: bool)
    ensures
        r == parts_before(texts(a@), texts(b@)),
{
    let ghost x = texts(a@);
    let ghost y = texts(b@);
    let mut i: usize = 0;
    assert(x.skip(0) =~= x);
    assert(y.skip(0) =~= y);
    while i < a.len() && i < b.len()
        invariant
            x == texts(a@),
            y == texts(b@),
            i <= a@.len(),
            i <= b@.len(),
            parts_before(x, y) == parts_before(x.skip(i as int), y.skip(i as int)),
        decreases a@.len() - i,
    {
        assert(x.skip(i as int)[0] == a@[i as int]@);
        assert(y.skip(i as int)[0] == b@[i as int]@);
        assert(x.skip(i as int).drop_first() =~= x.skip(i + 1));
        assert(y.skip(i as int).drop_first() =~= y.skip(i + 1));
        if compare_parts(&a[i], &b[i]) {
            return true;
        }
        if compare_parts(&b[i], &a[i]) {
            return false;
        }
        i = i + 1;
    }
    i < b.len()
}

/// Whether a version is older than another one.
pub fn version_is_older(a: &str, b: &str) -> (r: bool)
    ensures
        r == is_older(a@, b@),
{
    let x = split_text(a, '.');
    let y = split_text(b, '.');
    if compare_rows(&x, &y) {
        true
    } else if compare_rows(&y, &x) {
        false
    } else {
        text_before(a, b)
    }
}

// ---------------------------------------------------------------------------
// What holds of the order
// ---------------------------------------------------------------------------

proof fn lemma_part_order(a: Seq<char>, b: Seq<char>, c: Seq<char>)
    ensures
        !part_before(a, a),
        part_before(a, b) ==> !part_before(b, a),
        !part_before(b, a) && !part_before(c, b) ==> !part_before(c, a),
{
    lemma_before_irreflexive(a);
    lemma_before_total(a, b);
    lemma_before_total(b, c);
    if before(a, b) && before(b, a) {
        lemma_before_transitive(a, b, a);
    }
    if before(c, a) {
        if before(a, b) {
            lemma_before_transitive(c, a, b);
        }
        if before(b, c) {
            lemma_before_transitive(b, c, a);
        }
    }
}

proof fn lemma_rows_order(a: Seq<Seq<char>>, b: Seq<Seq<char>>, c: Seq<Seq<char>>)
    ensures
        !parts_before(a, a),
        parts_before(a, b) ==> !parts_before(b, a),
        !parts_before(b, a) && !parts_before(c, b) ==> !parts_before(c, a),
    decreases a.len() + b.len() + c.len(),
{
    if a.len() > 0 {
        lemma_part_order(a[0], a[0], a[0]);
    }
    if a.len() > 0 && b.len() > 0 && c.len() > 0 {
        lemma_part_order(a[0], b[0], c[0]);
        lemma_part_order(c[0], a[0], b[0]);
        lemma_part_order(b[0], c[0], a[0]);
        lemma_part_order(c[0], b[0], a[0]);
        lemma_rows_order(a.drop_first(), b.drop_first(), c.drop_first());
    } else if a.len() > 0 && b.len() > 0 {
        lemma_part_order(a[0], b[0], a[0]);
        lemma_rows_order(a.drop_first(), b.drop_first(), c);
    } else if a.len() > 0 {
        lemma_rows_order(a.drop_first(), b, c);
    }
}

/// No version is older than itself.
pub proof fn lemma_older_irreflexive(a: Seq<char>)
    ensures
        !is_older(a, a),
{
    let x = version_parts(a);
    lemma_rows_order(x, x, x);
    lemma_before_irreflexive(a);
}

/// What is older than an older version is older.
pub proof fn lemma_older_transitive(a: Seq<char>, b: Seq<char>, c: Seq<char>)
    requires
        is_older(a, b),
        is_older(b, c),
    ensures
        is_older(a, c),
{
    let x = version_parts(a);
    let y = version_parts(b);
    let z = version_parts(c);
    lemma_rows_order(x, y, z);
    lemma_rows_order(y, z, x);
    lemma_rows_order(z, x, y);
    lemma_rows_order(x, z, y);
    lemma_rows_order(z, y, x);
    lemma_rows_order(y, x, z);
    if before(a, b) && before(b, c) {
        lemma_before_transitive(a, b, c);
    }
}

/// Of two different versions one is older than the other.
pub proof fn lemma_older_total(a: Seq<char>, b: Seq<char>)
    ensures
        is_older(a, b) || is_older(b, a) || a == b,
{
    lemma_before_total(a, b);
    lemma_rows_order(version_parts(a), version_parts(b), version_parts(a));
}

/// A version whose parts up to some place are those of another one, and whose
/// next part is a smaller number, is older.
pub proof fn lemma_smaller_number_is_older(a: Seq<char>, b: Seq<char>, k: int)
    requires
        0 <= k < version_parts(a).len(),
        k < version_parts(b).len(),
        version_parts(a).take(k) =~= version_parts(b).take(k),
        is_number(version_parts(a)[k]),
        is_number(version_parts(b)[k]),
        digits_value(version_parts(a)[k]) < digits_value(version_parts(b)[k]),
    ensures
        is_older(a, b),
        !is_older(b, a),
{
    lemma_number_decides(version_parts(a), version_parts(b), k);
    lemma_rows_order(version_parts(a), version_parts(b), version_parts(a));
}

proof fn lemma_number_decides(a: Seq<Seq<char>>, b: Seq<Seq<char>>, k: int)
    requires
        0 <= k < a.len(),
        k < b.len(),
        a.take(k) == b.take(k),
        is_number(a[k]),
        is_number(b[k]),
        digits_value(a[k]) < digits_value(b[k]),
    ensures
        parts_before(a, b),
    decreases k,
{
    if k > 0 {
        assert(a[0] == a.take(k)[0] && b[0] == b.take(k)[0]);
        lemma_part_order(a[0], a[0], a[0]);
        let x = a.drop_first();
        let y = b.drop_first();
        assert(x.take(k - 1) =~= a.take(k).drop_first());
        assert(y.take(k - 1) =~= b.take(k).drop_first());
        lemma_number_decides(x, y, k - 1);
    }
}

// ---------------------------------------------------------------------------
// The latest version
// ---------------------------------------------------------------------------

/// Whether a version is in a list and is older than none in it.
pub open spec fn is_latest(list: Seq<Seq<char>>, v: Seq<char>) -> bool {
    list.contains(v) && forall|i: int| 0 <= i < list.len() ==> !is_older(v, #[trigger] list[i])
}

/// A list has one latest version at most.
pub proof fn lemma_latest_is_unique(list: Seq<Seq<char>>, a: Seq<char>, b: Seq<char>)
    requires
        is_latest(list, a),
        is_latest(list, b),
    ensures
        a == b,
{
    let i = choose|i: int| 0 <= i < list.len() && list[i] == a;
    let j = choose|j: int| 0 <= j < list.len() && list[j] == b;
    assert(!is_older(a, list[j]));
    assert(!is_older(b, list[i]));
    lemma_older_total(a, b);
}

/// The latest version of a list.
pub fn latest(list: &Vec<String>) -> (r: Option<String>)
    ensures
        match r {
            Some(v) => is_latest(texts(list@), v@),
            None => list@.len() == 0,
        },
{
    if list.len() == 0 {
        return None;
    }
    let mut best: usize = 0;
    let mut i: usize = 1;
    proof {
        lemma_older_irreflexive(list@[0]@);
    }
    while i < list.len()
        invariant
            1 <= i <= list@.len(),
            best < i,
            forall|j: int|
                0 <= j < i ==> !is_older(list@[best as int]@, #[trigger] texts(list@)[j]),
        decreases list@.len() - i,
    {
        let ghost old_best = list@[best as int]@;
        if version_is_older(list[best].as_str(), list[i].as_str()) {
            best = i;
        }
        proof {
            assert forall|j: int| 0 <= j < i + 1 implies !is_older(
                list@[best as int]@,
                #[trigger] texts(list@)[j],
            ) by {
                if best == i {
                    if j == i {
                        lemma_older_irreflexive(list@[i as int]@);
                    } else if is_older(list@[best as int]@, texts(list@)[j]) {
                        lemma_older_transitive(old_best, list@[i as int]@, texts(list@)[j]);
                    }
                }
            }
        }
        i = i + 1;
    }
    assert(texts(list@)[best as int] == list@[best as int]@);
    Some(list[best].clone())
}

} // verus!
