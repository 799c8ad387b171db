//! What a reader of the VS_VERSIONINFO structure finds in it.
//!
//! The structure is read as Windows reads it: a node tells how long it is and how
//! long its value is, its key ends with a zero word, its value and its children
//! begin at multiples of four, and the children follow one another.
use crate::bytes::{
    le16, lemma_le16_read, lemma_padded_len, lemma_words_le_len, padded, u16_at, u32_at, utf16,
    utf16_units, wide, wide_bytes, words_le,
};
use crate::package::version_info::{
    build_vs_version_info, fixed_file_info, lemma_node_holds_its_value,
    lemma_node_knows_its_length, lemma_version_info_key, node_head, sealed, string_file_info,
    value_at, var_file_info, version_info, version_node, version_pairs, version_part,
    version_string, version_strings,
};
use crate::queue::job::BuildManifest;
use crate::text::or_text;
use vstd::prelude::*;

verus! {

// ---------------------------------------------------------------------------
// The reader
// ---------------------------------------------------------------------------

/// The text that words in UTF-16 stand for.
pub open spec fn utf16_text(w: Seq<u16>) -> Seq<char>
    decreases w.len(),
{
    if w.len() == 0 {
        Seq::empty()
    } else if w.len() >= 2 && 0xDC00 <= w.last() < 0xE000 {
        utf16_text(w.take(w.len() - 2)).push(
            (0x10000 + (w[w.len() - 2] - 0xD800) * 0x400 + (w.last() - 0xDC00)) as char,
        )
    } else {
        utf16_text(w.drop_last()).push(w.last() as char)
    }
}

/// So many words from a place on.
pub open spec fn words_at(b: Seq<u8>, at: int, n: nat) -> Seq<u16> {
    Seq::new(n, |i: int| u16_at(b, at + 2 * i) as u16)
}

/// Where the first zero word stands from a place on.
pub open spec fn zero_word(b: Seq<u8>, at: int) -> int
    decreases b.len() - at,
{
    if at + 2 > b.len() || u16_at(b, at) == 0 {
        at
    } else {
        zero_word(b, at + 2)
    }
}

/// The next multiple of four.
pub open spec fn up4(n: int) -> int {
    (n + 3) / 4 * 4
}

/// The key of the node at a place.
#[verifier::opaque]
pub open spec fn key_of(b: Seq<u8>, at: int) -> Seq<char> {
    utf16_text(words_at(b, at + 6, ((zero_word(b, at + 6) - (at + 6)) / 2) as nat))
}

/// Where the value of the node at a place begins.
#[verifier::opaque]
pub open spec fn value_of(b: Seq<u8>, at: int) -> int {
    up4(zero_word(b, at + 6) + 2)
}

/// How many bytes the value of the node at a place takes: what is text is counted
/// in words.
#[verifier::opaque]
pub open spec fn value_size(b: Seq<u8>, at: int) -> nat {
    if u16_at(b, at + 4) == 1 {
        2 * u16_at(b, at + 2)
    } else {
        u16_at(b, at + 2)
    }
}

/// Where the children of the node at a place begin.
#[verifier::opaque]
pub open spec fn children_of(b: Seq<u8>, at: int) -> int {
    up4(value_of(b, at) + value_size(b, at))
}

/// Where the node at a place ends.
pub open spec fn end_of(b: Seq<u8>, at: int) -> int {
    at + u16_at(b, at)
}

/// The first node with a key, among those that stand one behind the other from
/// one place to another.
pub open spec fn find(b: Seq<u8>, from: int, to: int, key: Seq<char>) -> Option<int>
    decreases to - from,
{
    if from + 6 > to {
        None
    } else if key_of(b, from) == key {
        Some(from)
    } else if u16_at(b, from) == 0 || up4(end_of(b, from)) > to {
        None
    } else {
        find(b, up4(end_of(b, from)), to, key)
    }
}

/// The child with a key of the node at a place.
pub open spec fn child(b: Seq<u8>, at: Option<int>, key: Seq<char>) -> Option<int> {
    match at {
        Some(at) => find(b, children_of(b, at), end_of(b, at), key),
        None => None,
    }
}

/// The text of the node at a place, without the zero word behind it.
pub open spec fn text_of(b: Seq<u8>, at: Option<int>) -> Option<Seq<char>> {
    match at {
        Some(at) => Some(
            utf16_text(words_at(b, value_of(b, at), (u16_at(b, at + 2) - 1) as nat)),
        ),
        None => None,
    }
}

/// The node that the whole structure is.
pub open spec fn root(b: Seq<u8>) -> Option<int> {
    if key_of(b, 0) == "VS_VERSION_INFO"@ {
        Some(0)
    } else {
        None
    }
}

/// The string that a structure gives for a name, in US English and in Unicode.
pub open spec fn look_up(b: Seq<u8>, name: Seq<char>) -> Option<Seq<char>> {
    let strings = child(b, root(b), "StringFileInfo"@);
    let table = child(b, strings, "040904B0"@);
    text_of(b, child(b, table, name))
}

// ---------------------------------------------------------------------------
// Words
// ---------------------------------------------------------------------------

proof fn lemma_char_range(c: char)
    ensures
        c as u32 <= 0xD7FF || 0xE000 <= c as u32 <= 0x10FFFF,
        c != '\0' ==> c as u32 != 0,
{
}

/// The words of one character are read as they were written.
proof fn lemma_units_read(c: char)
    ensures
        c as u32 <= 0xFFFF ==> utf16_units(c).len() == 1 && utf16_units(c)[0] as char == c && !(
        0xDC00 <= utf16_units(c)[0] < 0xE000),
        c as u32 > 0xFFFF ==> utf16_units(c).len() == 2 && 0xDC00 <= utf16_units(c)[1] < 0xE000 && (
        0x10000 + (utf16_units(c)[0] - 0xD800) * 0x400 + (utf16_units(c)[1] - 0xDC00)) as char == c,
{
    lemma_char_range(c);
    let u = c as u32;
    if u < 0x10000 {
        assert(u as u16 == u);
    } else {
        let hi = (0xD800 + (u - 0x10000) / 0x400) as u16;
        let lo = (0xDC00 + (u - 0x10000) % 0x400) as u16;
        assert(hi == 0xD800 + (u - 0x10000) / 0x400);
        assert(lo == 0xDC00 + (u - 0x10000) % 0x400);
        assert((0x10000 + (hi - 0xD800) * 0x400 + (lo - 0xDC00)) == u);
    }
}

/// Text in UTF-16 is read as it was written.
pub proof fn lemma_utf16_read(s: Seq<char>)
    ensures
        utf16_text(utf16(s)) == s,
    decreases s.len(),
{
    if s.len() > 0 {
        let rest = s.drop_last();
        let c = s.last();
        let w = utf16(s);
        lemma_utf16_read(rest);
        lemma_units_read(c);
        let units = utf16_units(c);
        if c as u32 <= 0xFFFF {
            assert(w.last() == units[0]);
            assert(w.drop_last() =~= utf16(rest));
        } else {
            assert(w.last() == units[1]);
            assert(w[w.len() - 2] == units[0]);
            assert(w.take(w.len() - 2) =~= utf16(rest));
        }
        assert(utf16_text(w) =~= rest.push(c));
        assert(rest.push(c) =~= s);
    }
}

/// Text without a zero has no zero word.
proof fn lemma_utf16_no_zero(s: Seq<char>)
    requires
        forall|i: int| 0 <= i < s.len() ==> #[trigger] s[i] != '\0',
    ensures
        forall|i: int| 0 <= i < utf16(s).len() ==> #[trigger] utf16(s)[i] != 0,
    decreases s.len(),
{
    if s.len() > 0 {
        let rest = s.drop_last();
        let c = s.last();
        assert forall|i: int| 0 <= i < rest.len() implies #[trigger] rest[i] != '\0' by {
            assert(rest[i] == s[i]);
        }
        lemma_utf16_no_zero(rest);
        assert(s[s.len() - 1] != '\0');
        lemma_char_range(c);
        let w = utf16(s);
        assert(w == utf16(rest) + utf16_units(c));
        assert forall|i: int| 0 <= i < w.len() implies #[trigger] w[i] != 0 by {
            if i < utf16(rest).len() {
                assert(w[i] == utf16(rest)[i]);
            } else {
                assert(w[i] == utf16_units(c)[i - utf16(rest).len()]);
            }
        }
    }
}

/// Words are read as they were written.
proof fn lemma_words_read(w: Seq<u16>, i: int)
    requires
        0 <= i < w.len(),
    ensures
        u16_at(words_le(w), 2 * i) == w[i],
    decreases w.len(),
{
    let rest = w.drop_last();
    lemma_words_le_len(w);
    lemma_words_le_len(rest);
    let b = words_le(w);
    if i == w.len() - 1 {
        assert(b.subrange(2 * i, 2 * i + 2) =~= le16(w.last() as nat));
        lemma_le16_read(b, 2 * i, w.last() as nat);
    } else {
        lemma_words_read(rest, i);
        assert(b[2 * i] == words_le(rest)[2 * i]);
        assert(b[2 * i + 1] == words_le(rest)[2 * i + 1]);
    }
}

/// Whether bytes hold others at a place.
#[verifier::opaque]
pub open spec fn holds(b: Seq<u8>, at: int, part: Seq<u8>) -> bool {
    0 <= at && at + part.len() <= b.len() && b.subrange(at, at + part.len()) == part
}

proof fn lemma_holds_len(b: Seq<u8>, at: int, part: Seq<u8>)
    requires
        holds(b, at, part),
    ensures
        0 <= at,
        at + part.len() <= b.len(),
{
    reveal(holds);
}

/// A sequence holds itself, and each of two parts where it stands.
proof fn lemma_holds_parts(a: Seq<u8>, b: Seq<u8>)
    ensures
        holds(a, 0, a),
        holds(a + b, 0, a),
        holds(a + b, a.len() as int, b),
{
    reveal(holds);
    assert(a.subrange(0, a.len() as int) =~= a);
    assert((a + b).subrange(0, a.len() as int) =~= a);
    assert((a + b).subrange(a.len() as int, (a + b).len() as int) =~= b);
}

proof fn lemma_holds_inside(b: Seq<u8>, at: int, part: Seq<u8>, k: int, inner: Seq<u8>)
    requires
        holds(b, at, part),
        holds(part, k, inner),
    ensures
        holds(b, at + k, inner),
{
    reveal(holds);
    assert(b.subrange(at + k, at + k + inner.len()) =~= b.subrange(at, at + part.len()).subrange(
        k,
        k + inner.len(),
    ));
}

proof fn lemma_word_inside(b: Seq<u8>, at: int, part: Seq<u8>, k: int)
    requires
        holds(b, at, part),
        0 <= k,
        k + 2 <= part.len(),
    ensures
        u16_at(b, at + k) == u16_at(part, k),
{
    reveal(holds);
    assert(b.subrange(at, at + part.len())[k] == b[at + k]);
    assert(b.subrange(at, at + part.len())[k + 1] == b[at + k + 1]);
}

/// The words of a text are found where the text stands.
proof fn lemma_text_read(b: Seq<u8>, at: int, s: Seq<char>)
    requires
        holds(b, at, wide_bytes(s)),
    ensures
        utf16_text(words_at(b, at, utf16(s).len())) == s,
        u16_at(b, at + 2 * utf16(s).len()) == 0,
        at + 2 * utf16(s).len() + 2 <= b.len(),
        forall|i: int| 0 <= i < utf16(s).len() ==> #[trigger] u16_at(b, at + 2 * i) == utf16(s)[i],
{
    reveal(holds);
    let w = wide(s);
    lemma_words_le_len(w);
    assert forall|i: int| 0 <= i < w.len() implies #[trigger] u16_at(b, at + 2 * i) == w[i] by {
        lemma_words_read(w, i);
        lemma_word_inside(b, at, wide_bytes(s), 2 * i);
    }
    assert(u16_at(b, at + 2 * utf16(s).len()) == w[utf16(s).len() as int]);
    assert forall|i: int| 0 <= i < utf16(s).len() implies #[trigger] u16_at(b, at + 2 * i) == utf16(
        s,
    )[i] by {
        assert(w[i] == utf16(s)[i]);
    }
    assert(words_at(b, at, utf16(s).len()) =~= utf16(s));
    lemma_utf16_read(s);
}

/// The first zero word is found behind words that are none.
proof fn lemma_zero_word(b: Seq<u8>, at: int, n: nat)
    requires
        0 <= at,
        at + 2 * n + 2 <= b.len(),
        forall|i: int| 0 <= i < n ==> #[trigger] u16_at(b, at + 2 * i) != 0,
        u16_at(b, at + 2 * n) == 0,
    ensures
        zero_word(b, at) == at + 2 * n,
    decreases n,
{
    if n > 0 {
        assert(u16_at(b, at + 2 * 0) != 0);
        assert forall|i: int| 0 <= i < n - 1 implies #[trigger] u16_at(b, at + 2 + 2 * i) != 0 by {
            assert(u16_at(b, at + 2 * (i + 1)) != 0);
        }
        lemma_zero_word(b, at + 2, (n - 1) as nat);
    }
}

// ---------------------------------------------------------------------------
// Nodes
// ---------------------------------------------------------------------------

/// Whether a text can be the key of a node.
pub open spec fn is_key(key: Seq<char>) -> bool {
    forall|i: int| 0 <= i < key.len() ==> #[trigger] key[i] != '\0'
}

/// Where the children of a node begin, from its start.
pub open spec fn children_at(key: Seq<char>, value: Seq<u8>) -> int {
    up4(value_at(key) + value.len())
}

/// Padding keeps what it is put behind.
proof fn lemma_padding(b: Seq<u8>)
    ensures
        b.len() <= padded(b).len(),
        padded(b).len() % 4 == 0,
        padded(b).len() == up4(b.len() as int),
        padded(b).take(b.len() as int) == b,
{
    lemma_padded_len(b);
    assert(padded(b).take(b.len() as int) =~= b);
}

/// Sealing changes the first two bytes alone.
proof fn lemma_sealing(b: Seq<u8>)
    requires
        b.len() >= 2,
    ensures
        sealed(b).len() == b.len(),
        forall|i: int| 2 <= i < b.len() ==> #[trigger] sealed(b)[i] == b[i],
{
}

/// What stands in the layers of a node stands in the node.
proof fn lemma_layers(
    raw: Seq<u8>,
    head: Seq<u8>,
    value: Seq<u8>,
    front: Seq<u8>,
    children: Seq<u8>,
    outer: Seq<u8>,
    node: Seq<u8>,
)
    requires
        raw.len() <= head.len(),
        head.take(raw.len() as int) == raw,
        (head + value).len() <= front.len(),
        front.take((head + value).len() as int) == head + value,
        (front + children).len() <= outer.len(),
        outer.take((front + children).len() as int) == front + children,
        node.len() == outer.len(),
        front.len() >= 2,
        forall|i: int| 2 <= i < outer.len() ==> #[trigger] node[i] == outer[i],
    ensures
        forall|i: int| 2 <= i < raw.len() ==> #[trigger] node[i] == raw[i],
        front.len() + children.len() <= node.len(),
        node.subrange(front.len() as int, front.len() as int + children.len()) == children,
{
    let inner = front + children;
    let first = head + value;
    assert forall|i: int| 2 <= i < raw.len() implies #[trigger] node[i] == raw[i] by {
        assert(outer[i] == outer.take(inner.len() as int)[i]);
        assert(inner[i] == front[i]);
        assert(front[i] == front.take(first.len() as int)[i]);
        assert(first[i] == head[i]);
        assert(head[i] == head.take(raw.len() as int)[i]);
    }
    let at = front.len() as int;
    assert forall|i: int| 0 <= i < children.len() implies node[at + i] == #[trigger] children[i] by {
        assert(outer[at + i] == outer.take(inner.len() as int)[at + i]);
        assert(inner[at + i] == children[i]);
    }
    assert(node.subrange(at, at + children.len()) =~= children);
}

#[verifier::spinoff_prover]
#[verifier::rlimit(40)]
proof fn lemma_node_parts(key: Seq<char>, value: Seq<u8>, children: Seq<u8>, is_text: bool)
    ensures
        holds(version_node(key, value, children, is_text), 6, wide_bytes(key)),
        holds(version_node(key, value, children, is_text), value_at(key), value),
        holds(version_node(key, value, children, is_text), children_at(key, value), children),
        value_at(key) == up4(6int + wide_bytes(key).len()),
        children_at(key, value) % 4 == 0,
        u16_at(version_node(key, value, children, is_text), 4) == (if is_text {
            1nat
        } else {
            0nat
        }),
{
    lemma_node_holds_its_value(key, value, children, is_text);
    let value_len = if is_text {
        value.len() / 2
    } else {
        value.len()
    };
    let kind: nat = if is_text {
        1
    } else {
        0
    };
    let raw = seq![0u8, 0u8] + le16(value_len) + le16(kind) + wide_bytes(key);
    let head = padded(raw);
    let first = head + value;
    let inner = padded(first) + children;
    let node = version_node(key, value, children, is_text);
    assert(node == sealed(padded(inner))) by {
        reveal(version_node);
        assert(head == node_head(key, value_len, is_text));
    }
    lemma_padding(raw);
    lemma_padding(first);
    lemma_padding(inner);
    lemma_sealing(padded(inner));
    lemma_layers(raw, head, value, padded(first), children, padded(inner), node);
    assert(raw.len() == 6 + wide_bytes(key).len());
    assert(raw.subrange(6, raw.len() as int) =~= wide_bytes(key));
    assert(raw[4] == kind && raw[5] == 0);
    assert(node.subrange(6, raw.len() as int) =~= raw.subrange(6, raw.len() as int));
    assert(children_at(key, value) == padded(first).len());
    reveal(holds);
}

/// A node is read as it was written: its key, how long it is, and where its
/// value and its children are.
#[verifier::spinoff_prover]
#[verifier::rlimit(40)]
proof fn lemma_node_read(
    b: Seq<u8>,
    at: int,
    key: Seq<char>,
    value: Seq<u8>,
    children: Seq<u8>,
    is_text: bool,
)
    requires
        holds(b, at, version_node(key, value, children, is_text)),
        at % 4 == 0,
        b.len() < 65536,
        is_key(key),
        is_text ==> value.len() % 2 == 0,
    ensures
        key_of(b, at) == key,
        end_of(b, at) == at + version_node(key, value, children, is_text).len(),
        version_node(key, value, children, is_text).len() % 4 == 0,
        version_node(key, value, children, is_text).len() >= 8,
        value_of(b, at) == at + value_at(key),
        value_of(b, at) % 4 == 0,
        holds(b, value_of(b, at), value),
        value_size(b, at) == value.len(),
        u16_at(b, at + 2) == (if is_text {
            value.len() / 2
        } else {
            value.len()
        }),
        children_of(b, at) == at + children_at(key, value),
        children_of(b, at) % 4 == 0,
        children_of(b, at) + children.len() <= end_of(b, at),
        holds(b, children_of(b, at), children),
{
    let node = version_node(key, value, children, is_text);
    lemma_node_numbers(b, at, key, value, children, is_text);
    lemma_node_parts(key, value, children, is_text);
    lemma_holds_len(b, at, node);
    lemma_holds_len(node, children_at(key, value), children);
    lemma_holds_inside(b, at, node, 6, wide_bytes(key));
    lemma_key_read(b, at, key);
    lemma_up4_shift(at, 6int + wide_bytes(key).len());
    lemma_holds_inside(b, at, node, value_at(key), value);
    reveal(children_of);
    lemma_up4_shift(at, value_at(key) + value.len());
    lemma_holds_inside(b, at, node, children_at(key, value), children);
}

/// The numbers that a node begins with are read as they were written.
#[verifier::spinoff_prover]
#[verifier::rlimit(40)]
proof fn lemma_node_numbers(
    b: Seq<u8>,
    at: int,
    key: Seq<char>,
    value: Seq<u8>,
    children: Seq<u8>,
    is_text: bool,
)
    requires
        holds(b, at, version_node(key, value, children, is_text)),
        b.len() < 65536,
        is_text ==> value.len() % 2 == 0,
    ensures
        end_of(b, at) == at + version_node(key, value, children, is_text).len(),
        version_node(key, value, children, is_text).len() % 4 == 0,
        version_node(key, value, children, is_text).len() >= 8,
        value_size(b, at) == value.len(),
        u16_at(b, at + 2) == (if is_text {
            value.len() / 2
        } else {
            value.len()
        }),
{
    let node = version_node(key, value, children, is_text);
    lemma_node_parts(key, value, children, is_text);
    lemma_node_knows_its_length(key, value, children, is_text);
    lemma_node_holds_its_value(key, value, children, is_text);
    lemma_words_le_len(wide(key));
    lemma_holds_len(b, at, node);
    lemma_word_inside(b, at, node, 0);
    lemma_word_inside(b, at, node, 2);
    lemma_word_inside(b, at, node, 4);
    reveal(value_size);
}

proof fn lemma_up4_shift(at: int, n: int)
    requires
        at % 4 == 0,
    ensures
        up4(at + n) == at + up4(n),
        up4(n) % 4 == 0,
{
}

/// The key of a node is read as it was written, and its value begins behind it.
proof fn lemma_key_read(b: Seq<u8>, at: int, key: Seq<char>)
    requires
        holds(b, at + 6, wide_bytes(key)),
        is_key(key),
    ensures
        key_of(b, at) == key,
        value_of(b, at) == up4(at + 6 + wide_bytes(key).len()),
{
    reveal(key_of);
    reveal(value_of);
    lemma_words_le_len(wide(key));
    lemma_text_read(b, at + 6, key);
    lemma_utf16_no_zero(key);
    let n = utf16(key).len();
    assert forall|i: int| 0 <= i < n implies #[trigger] u16_at(b, at + 6 + 2 * i) != 0 by {
        assert(u16_at(b, at + 6 + 2 * i) == utf16(key)[i]);
    }
    lemma_holds_len(b, at + 6, wide_bytes(key));
    lemma_zero_word(b, at + 6, n);
}

// ---------------------------------------------------------------------------
// Strings
// ---------------------------------------------------------------------------

/// A string entry is a node without children.
proof fn lemma_string_is_a_node(key: Seq<char>, value: Seq<char>)
    ensures
        version_string(key, value) == version_node(key, wide_bytes(value), Seq::empty(), true),
{
    reveal(version_node);
    lemma_words_le_len(wide(value));
    let first = node_head(key, wide(value).len(), true) + wide_bytes(value);
    lemma_padded_len(first);
    assert(padded(first) + Seq::<u8>::empty() =~= padded(first));
    assert(padded(padded(first)) =~= padded(first));
}

/// Where an entry stands among others.
#[verifier::opaque]
pub open spec fn entry_at(pairs: Seq<(Seq<char>, Seq<char>)>, i: int) -> int {
    version_strings(pairs.take(i)).len() as int
}

proof fn lemma_entry_stands(pairs: Seq<(Seq<char>, Seq<char>)>, i: int)
    requires
        0 <= i < pairs.len(),
    ensures
        holds(version_strings(pairs), entry_at(pairs, i), version_string(pairs[i].0, pairs[i].1)),
        entry_at(pairs, i + 1) == entry_at(pairs, i) + version_string(
            pairs[i].0,
            pairs[i].1,
        ).len(),
    decreases pairs.len(),
{
    reveal(entry_at);
    reveal(holds);
    let rest = pairs.drop_last();
    let entry = version_string(pairs[i].0, pairs[i].1);
    assert(pairs.take(i + 1).drop_last() =~= pairs.take(i));
    assert(pairs.take(i + 1).last() == pairs[i]);
    let b = version_strings(pairs);
    if i == pairs.len() - 1 {
        assert(rest =~= pairs.take(i));
        assert(b.subrange(entry_at(pairs, i), entry_at(pairs, i) + entry.len()) =~= entry);
    } else {
        lemma_entry_stands(rest, i);
        assert(rest.take(i) =~= pairs.take(i));
        let at = entry_at(pairs, i);
        assert(b.subrange(at, at + entry.len()) =~= version_strings(rest).subrange(
            at,
            at + entry.len(),
        ));
    }
}

/// A string entry is read as it was written.
#[verifier::spinoff_prover]
#[verifier::rlimit(40)]
proof fn lemma_string_read(b: Seq<u8>, at: int, key: Seq<char>, value: Seq<char>)
    requires
        holds(b, at, version_string(key, value)),
        at % 4 == 0,
        b.len() < 65536,
        is_key(key),
    ensures
        key_of(b, at) == key,
        text_of(b, Some(at)) == Some(value),
        end_of(b, at) == at + version_string(key, value).len(),
        version_string(key, value).len() % 4 == 0,
        version_string(key, value).len() >= 8,
{
    lemma_string_is_a_node(key, value);
    lemma_words_le_len(wide(value));
    lemma_node_read(b, at, key, wide_bytes(value), Seq::empty(), true);
    lemma_text_read(b, value_of(b, at), value);
}

/// One entry among others is read as it was written.
#[verifier::spinoff_prover]
#[verifier::rlimit(40)]
proof fn lemma_entry_read(b: Seq<u8>, base: int, pairs: Seq<(Seq<char>, Seq<char>)>, i: int)
    requires
        holds(b, base, version_strings(pairs)),
        b.len() < 65536,
        0 <= i < pairs.len(),
        is_key(pairs[i].0),
        (base + entry_at(pairs, i)) % 4 == 0,
    ensures
        key_of(b, base + entry_at(pairs, i)) == pairs[i].0,
        text_of(b, Some(base + entry_at(pairs, i))) == Some(pairs[i].1),
        end_of(b, base + entry_at(pairs, i)) == base + entry_at(pairs, i + 1),
        (base + entry_at(pairs, i + 1)) % 4 == 0,
        entry_at(pairs, i + 1) >= entry_at(pairs, i) + 8,
        entry_at(pairs, i + 1) <= version_strings(pairs).len(),
{
    let (key, value) = pairs[i];
    let at = entry_at(pairs, i);
    let entry = version_string(key, value);
    lemma_entry_stands(pairs, i);
    lemma_holds_inside(b, base, version_strings(pairs), at, entry);
    lemma_string_read(b, base + at, key, value);
    lemma_holds_len(version_strings(pairs), at, entry);
}

/// Looking for the key of one entry goes by those before it.
#[verifier::spinoff_prover]
#[verifier::rlimit(40)]
proof fn lemma_entry_found(
    b: Seq<u8>,
    base: int,
    to: int,
    pairs: Seq<(Seq<char>, Seq<char>)>,
    from: int,
    i: int,
)
    requires
        holds(b, base, version_strings(pairs)),
        b.len() < 65536,
        base + version_strings(pairs).len() <= to,
        0 <= from <= i < pairs.len(),
        forall|j: int| 0 <= j < pairs.len() ==> is_key((#[trigger] pairs[j]).0),
        forall|j: int| 0 <= j < i ==> (#[trigger] pairs[j]).0 != pairs[i].0,
        (base + entry_at(pairs, from)) % 4 == 0,
    ensures
        find(b, base + entry_at(pairs, from), to, pairs[i].0) == Some(base + entry_at(pairs, i)),
        text_of(b, Some(base + entry_at(pairs, i))) == Some(pairs[i].1),
    decreases i - from,
{
    assert(is_key(pairs[from].0));
    lemma_entry_read(b, base, pairs, from);
    if from < i {
        let next = base + entry_at(pairs, from + 1);
        assert(pairs[from].0 != pairs[i].0);
        lemma_up4_shift(next, 0);
        assert(up4(next) == next);
        lemma_entry_found(b, base, to, pairs, from + 1, i);
    }
}

/// The i-th string of a table is found under its key.
#[verifier::spinoff_prover]
#[verifier::rlimit(40)]
proof fn lemma_table_read(
    b: Seq<u8>,
    table: int,
    pairs: Seq<(Seq<char>, Seq<char>)>,
    i: int,
)
    requires
        holds(
            b,
            table,
            version_node("040904B0"@, Seq::empty(), version_strings(pairs), true),
        ),
        table % 4 == 0,
        b.len() < 65536,
        is_key("040904B0"@),
        0 <= i < pairs.len(),
        forall|j: int| 0 <= j < pairs.len() ==> is_key((#[trigger] pairs[j]).0),
        forall|j: int| 0 <= j < i ==> (#[trigger] pairs[j]).0 != pairs[i].0,
    ensures
        text_of(b, child(b, Some(table), pairs[i].0)) == Some(pairs[i].1),
{
    reveal(entry_at);
    lemma_node_read(b, table, "040904B0"@, Seq::empty(), version_strings(pairs), true);
    let base = children_of(b, table);
    assert(pairs.take(0) =~= Seq::<(Seq<char>, Seq<char>)>::empty());
    assert(entry_at(pairs, 0) == 0);
    lemma_entry_found(b, base, end_of(b, table), pairs, 0, i);
}

proof fn lemma_keys()
    ensures
        is_key("VS_VERSION_INFO"@),
        is_key("StringFileInfo"@),
        is_key("040904B0"@),
        is_key("VarFileInfo"@),
        is_key("Translation"@),
        "StringFileInfo"@ != "VarFileInfo"@,
{
    reveal_strlit("VS_VERSION_INFO");
    reveal_strlit("StringFileInfo");
    reveal_strlit("040904B0");
    reveal_strlit("VarFileInfo");
    reveal_strlit("Translation");
    assert("StringFileInfo"@.len() == 14);
    assert("VarFileInfo"@.len() == 11);
}

proof fn lemma_string_names(m: BuildManifest)
    ensures
        version_pairs(m).len() == 8,
        forall|j: int| 0 <= j < 8 ==> is_key((#[trigger] version_pairs(m)[j]).0),
        forall|i: int, j: int|
            0 <= i < j < 8 ==> (#[trigger] version_pairs(m)[i]).0 != (
            #[trigger] version_pairs(m)[j]).0,
{
    reveal_strlit("CompanyName");
    reveal_strlit("FileDescription");
    reveal_strlit("FileVersion");
    reveal_strlit("InternalName");
    reveal_strlit("LegalCopyright");
    reveal_strlit("OriginalFilename");
    reveal_strlit("ProductName");
    reveal_strlit("ProductVersion");
    assert("CompanyName"@.len() == 11 && "CompanyName"@[0] == 'C');
    assert("FileDescription"@.len() == 15);
    assert("FileVersion"@.len() == 11 && "FileVersion"@[0] == 'F');
    assert("InternalName"@.len() == 12);
    assert("LegalCopyright"@.len() == 14 && "LegalCopyright"@[0] == 'L');
    assert("OriginalFilename"@.len() == 16);
    assert("ProductName"@.len() == 11 && "ProductName"@[0] == 'P');
    assert("ProductVersion"@.len() == 14 && "ProductVersion"@[0] == 'P');
}

/// The structure, its strings and its table of strings are found.
#[verifier::spinoff_prover]
#[verifier::rlimit(40)]
proof fn lemma_info_read(m: BuildManifest) -> (table: int)
    requires
        version_info(m).len() < 65536,
    ensures
        root(version_info(m)) == Some(0int),
        child(
            version_info(m),
            child(version_info(m), root(version_info(m)), "StringFileInfo"@),
            "040904B0"@,
        ) == Some(table),
        table % 4 == 0,
        holds(
            version_info(m),
            table,
            version_node("040904B0"@, Seq::empty(), version_strings(version_pairs(m)), true),
        ),
{
    let b = version_info(m);
    lemma_keys();
    let ffi = fixed_file_info(
        version_part(m.version@, 0, 1),
        version_part(m.version@, 1, 0),
        version_part(m.version@, 2, 0),
    );
    let both = string_file_info(m) + var_file_info();
    lemma_holds_parts(b, b);
    lemma_holds_parts(string_file_info(m), var_file_info());
    lemma_node_read(b, 0, "VS_VERSION_INFO"@, ffi, both, false);
    let at = children_of(b, 0);
    lemma_holds_inside(b, at, both, 0, string_file_info(m));
    let inner = version_node("040904B0"@, Seq::empty(), version_strings(version_pairs(m)), true);
    lemma_node_read(b, at, "StringFileInfo"@, Seq::empty(), inner, true);
    let table = children_of(b, at);
    lemma_node_read(
        b,
        table,
        "040904B0"@,
        Seq::empty(),
        version_strings(version_pairs(m)),
        true,
    );
    table
}

/// Who reads the structure finds what the manifest says: the company and the
/// copyright, empty where there is none, the description, which is the name of
/// the application where there is none, the version of the file and of the
/// product, and the names that the application goes by.
///
/// The structure tells its lengths in 16 bits, so it has to be that short.
#[verifier::spinoff_prover]
#[verifier::rlimit(40)]
pub proof fn lemma_version_info_says_what_the_manifest_says(m: &BuildManifest, data: Vec<u8>)
    requires
        call_ensures(build_vs_version_info, (m,), data),
        data@.len() < 65536,
    ensures
        look_up(data@, "CompanyName"@) == Some(or_text(m.windows_company_name, ""@)),
        look_up(data@, "LegalCopyright"@) == Some(or_text(m.windows_copyright, ""@)),
        look_up(data@, "FileDescription"@) == Some(
            or_text(m.windows_file_description, m.app_name@),
        ),
        look_up(data@, "FileVersion"@) == Some(m.version@),
        look_up(data@, "ProductVersion"@) == Some(m.version@),
        look_up(data@, "InternalName"@) == Some(m.app_name@),
        look_up(data@, "ProductName"@) == Some(m.app_name@),
        look_up(data@, "OriginalFilename"@) == Some(m.app_name@ + ".exe"@),
{
    let b = version_info(*m);
    let table = lemma_info_read(*m);
    let pairs = version_pairs(*m);
    lemma_keys();
    lemma_string_names(*m);
    assert forall|i: int| 0 <= i < 8 implies look_up(b, (#[trigger] pairs[i]).0) == Some(
        pairs[i].1,
    ) by {
        lemma_table_read(b, table, pairs, i);
    }
    assert(pairs[0] == ("CompanyName"@, or_text(m.windows_company_name, ""@)));
    assert(pairs[1] == ("FileDescription"@, or_text(m.windows_file_description, m.app_name@)));
    assert(pairs[2] == ("FileVersion"@, m.version@));
    assert(pairs[3] == ("InternalName"@, m.app_name@));
    assert(pairs[4] == ("LegalCopyright"@, or_text(m.windows_copyright, ""@)));
    assert(pairs[5] == ("OriginalFilename"@, m.app_name@ + ".exe"@));
    assert(pairs[6] == ("ProductName"@, m.app_name@));
    assert(pairs[7] == ("ProductVersion"@, m.version@));
}

/// The structure says that its strings are in US English (0409) and in Unicode
/// (04B0), as the name of their table does.
#[verifier::spinoff_prover]
#[verifier::rlimit(40)]
pub proof fn lemma_version_info_names_its_language(m: &BuildManifest, data: Vec<u8>) -> (at: int)
    requires
        call_ensures(build_vs_version_info, (m,), data),
        data@.len() < 65536,
    ensures
        child(
            data@,
            child(data@, root(data@), "VarFileInfo"@),
            "Translation"@,
        ) == Some(at),
        value_size(data@, at) == 4,
        u16_at(data@, value_of(data@, at)) == 0x0409,
        u16_at(data@, value_of(data@, at) + 2) == 0x04B0,
{
    let b = version_info(*m);
    let vars = lemma_vars_read(*m);
    lemma_keys();
    let value = seq![0x09u8, 0x04u8, 0xB0u8, 0x04u8];
    let translation = version_node("Translation"@, value, Seq::empty(), false);
    lemma_node_read(b, vars, "VarFileInfo"@, Seq::empty(), translation, true);
    let at = children_of(b, vars);
    lemma_node_read(b, at, "Translation"@, value, Seq::empty(), false);
    lemma_word_inside(b, value_of(b, at), value, 0);
    lemma_word_inside(b, value_of(b, at), value, 2);
    at
}

/// What tells the language is found behind the strings.
proof fn lemma_vars_read(m: BuildManifest) -> (vars: int)
    requires
        version_info(m).len() < 65536,
    ensures
        child(version_info(m), root(version_info(m)), "VarFileInfo"@) == Some(vars),
        vars % 4 == 0,
        holds(version_info(m), vars, var_file_info()),
{
    let ffi = fixed_file_info(
        version_part(m.version@, 0, 1),
        version_part(m.version@, 1, 0),
        version_part(m.version@, 2, 0),
    );
    lemma_second_read(
        version_info(m),
        ffi,
        version_node("040904B0"@, Seq::empty(), version_strings(version_pairs(m)), true),
        version_node("Translation"@, seq![0x09u8, 0x04u8, 0xB0u8, 0x04u8], Seq::empty(), false),
    )
}

/// The second child of the structure is found behind the first.
#[verifier::spinoff_prover]
#[verifier::rlimit(40)]
proof fn lemma_second_read(b: Seq<u8>, value: Seq<u8>, strings: Seq<u8>, language: Seq<u8>) -> (at:
    int)
    requires
        b == version_node(
            "VS_VERSION_INFO"@,
            value,
            version_node("StringFileInfo"@, Seq::empty(), strings, true) + version_node(
                "VarFileInfo"@,
                Seq::empty(),
                language,
                true,
            ),
            false,
        ),
        b.len() < 65536,
    ensures
        child(b, root(b), "VarFileInfo"@) == Some(at),
        at % 4 == 0,
        holds(b, at, version_node("VarFileInfo"@, Seq::empty(), language, true)),
{
    lemma_keys();
    let first = version_node("StringFileInfo"@, Seq::empty(), strings, true);
    let second = version_node("VarFileInfo"@, Seq::empty(), language, true);
    let both = first + second;
    lemma_holds_parts(b, b);
    lemma_holds_parts(first, second);
    lemma_node_read(b, 0, "VS_VERSION_INFO"@, value, both, false);
    let from = children_of(b, 0);
    lemma_holds_inside(b, from, both, 0, first);
    lemma_node_read(b, from, "StringFileInfo"@, Seq::empty(), strings, true);
    let at = from + first.len();
    lemma_holds_inside(b, from, both, first.len() as int, second);
    lemma_node_read(b, at, "VarFileInfo"@, Seq::empty(), language, true);
    lemma_up4_shift(at, 0);
    lemma_found_behind(b, from, at, end_of(b, 0), "VarFileInfo"@);
    at
}

proof fn lemma_found_behind(b: Seq<u8>, from: int, at: int, to: int, key: Seq<char>)
    requires
        key_of(b, from) != key,
        key_of(b, at) == key,
        from < end_of(b, from) <= up4(end_of(b, from)),
        up4(end_of(b, from)) == at,
        at + 6 <= to,
    ensures
        find(b, from, to, key) == Some(at),
{
    reveal_with_fuel(find, 2);
}

/// The fixed part gives the version of the file and that of the product, both
/// the same, for an application for Windows NT.
#[verifier::spinoff_prover]
#[verifier::rlimit(40)]
pub proof fn lemma_fixed_versions_agree(m: &BuildManifest, data: Vec<u8>)
    requires
        call_ensures(build_vs_version_info, (m,), data),
        data@.len() < 65536,
    ensures
        value_of(data@, 0) == 40,
        value_size(data@, 0) == 52,
        u32_at(data@, 48) == u32_at(data@, 56),
        u32_at(data@, 52) == u32_at(data@, 60),
        u32_at(data@, 72) == 0x00040004,
        u32_at(data@, 76) == 1,
{
    reveal(holds);
    let b = version_info(*m);
    lemma_keys();
    let ffi = fixed_file_info(
        version_part(m.version@, 0, 1),
        version_part(m.version@, 1, 0),
        version_part(m.version@, 2, 0),
    );
    let both = string_file_info(*m) + var_file_info();
    lemma_holds_parts(b, b);
    lemma_node_read(b, 0, "VS_VERSION_INFO"@, ffi, both, false);
    lemma_version_info_key();
    lemma_fixed_bytes(
        version_part(m.version@, 0, 1),
        version_part(m.version@, 1, 0),
        version_part(m.version@, 2, 0),
    );
    assert forall|i: int| 0 <= i < 52 implies b[40 + i] == #[trigger] ffi[i] by {
        assert(b.subrange(40, 92)[i] == b[40 + i]);
    }
    assert(b[48] == ffi[8] && b[49] == ffi[9] && b[50] == ffi[10] && b[51] == ffi[11]);
    assert(b[52] == ffi[12] && b[53] == ffi[13] && b[54] == ffi[14] && b[55] == ffi[15]);
    assert(b[56] == ffi[16] && b[57] == ffi[17] && b[58] == ffi[18] && b[59] == ffi[19]);
    assert(b[60] == ffi[20] && b[61] == ffi[21] && b[62] == ffi[22] && b[63] == ffi[23]);
    assert(b[72] == ffi[32] && b[73] == ffi[33] && b[74] == ffi[34] && b[75] == ffi[35]);
    assert(b[76] == ffi[36] && b[77] == ffi[37] && b[78] == ffi[38] && b[79] == ffi[39]);
}

/// The bytes of the fixed part that hold the versions and the kind of program.
proof fn lemma_fixed_bytes(major: nat, minor: nat, patch: nat)
    ensures
        ({
            let ffi = fixed_file_info(major, minor, patch);
            &&& ffi.len() == 52
            &&& ffi[8] == ffi[16] && ffi[9] == ffi[17] && ffi[10] == ffi[18] && ffi[11] == ffi[19]
            &&& ffi[12] == ffi[20] && ffi[13] == ffi[21] && ffi[14] == ffi[22] && ffi[15]
                == ffi[23]
            &&& ffi[32] == 4 && ffi[33] == 0 && ffi[34] == 4 && ffi[35] == 0
            &&& ffi[36] == 1 && ffi[37] == 0 && ffi[38] == 0 && ffi[39] == 0
        }),
{
}

} // verus!
