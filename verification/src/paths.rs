//! The syntax of file paths, on Windows and elsewhere.
use crate::text::{begins_with, chars_of, has_text, starts_with_text, string_from, texts};
use vstd::prelude::*;
use vstd::string::*;

verus! {

/// Whose rules a path is read by.
#[derive(Debug, Clone, Copy, PartialEq, Eq, Structural)]
pub enum PathStyle {
    /// The separator is `/`.
    Posix,
    /// The separators are `\` and `/`, and a path may begin with a drive.
    Windows,
}

/// `std::path::MAIN_SEPARATOR` is `\` on Windows and `/` elsewhere: which of
/// the two depends on the machine.
#[verifier::external_body]
fn main_separator() -> (c: char)
    ensures
        c == '/' || c == '\\',
{
    std::path::MAIN_SEPARATOR
}

impl PathStyle {
    /// The rules of the machine that this runs on: those of its main separator.
    /// Which they are depends on the machine.
    pub fn host() -> (r: PathStyle)
        ensures
            r == PathStyle::Posix || r == PathStyle::Windows,
    {
        PathStyle::of_separator(main_separator())
    }

    /// The rules of a machine with that main separator: the separator of these
    /// rules is that character, where it is one of the two there are.
    pub fn of_separator(c: char) -> (r: PathStyle)
        ensures
            r == if c == '\\' {
                PathStyle::Windows
            } else {
                PathStyle::Posix
            },
            c == '/' || c == '\\' ==> r.separator() == seq![c],
    {
        proof {
            reveal_strlit("/");
            reveal_strlit("\\");
        }
        let r = if c == '\\' {
            PathStyle::Windows
        } else {
            PathStyle::Posix
        };
        assert(c == '/' || c == '\\' ==> r.separator() =~= seq![c]);
        r
    }

    /// Whether a character separates the parts of a path.
    pub open spec fn separates(self, c: char) -> bool {
        c == '/' || (self is Windows && c == '\\')
    }

    /// The separator that is put between two parts.
    pub open spec fn separator(self) -> Seq<char> {
        match self {
            PathStyle::Posix => "/"@,
            PathStyle::Windows => "\\"@,
        }
    }

    fn is_separator(self, c: char) -> (r: bool)
        ensures
            r == self.separates(c),
    {
        c == '/' || (self == PathStyle::Windows && c == '\\')
    }
}

/// Whether a character is an ASCII letter.
pub open spec fn is_ascii_letter(c: char) -> bool {
    'a' <= c <= 'z' || 'A' <= c <= 'Z'
}

/// Whether a path begins with a drive, such as `C:`.
pub open spec fn has_drive(p: Seq<char>, style: PathStyle) -> bool {
    style is Windows && p.len() >= 2 && is_ascii_letter(p[0]) && p[1] == ':'
}

/// The first place from `i` on where a path has a separator; its end where
/// there is none.
pub open spec fn next_separator(p: Seq<char>, style: PathStyle, i: int) -> int
    decreases p.len() - i,
{
    if i >= p.len() || style.separates(p[i]) {
        i
    } else {
        next_separator(p, style, i + 1)
    }
}

/// Whether a path begins with a network share, such as `\\server\share`: two
/// separators, the name of a server, a separator, and the name of a share.
pub open spec fn has_share(p: Seq<char>, style: PathStyle) -> bool {
    let server_end = next_separator(p, style, 2);
    &&& style is Windows
    &&& p.len() > 2
    &&& style.separates(p[0])
    &&& style.separates(p[1])
    &&& 2 < server_end < p.len()
    &&& next_separator(p, style, server_end + 1) > server_end + 1
}

/// Whether a path begins with a drive or a network share.
pub open spec fn has_prefix(p: Seq<char>, style: PathStyle) -> bool {
    has_drive(p, style) || has_share(p, style)
}

/// Where the part of a path behind its drive or its network share begins.
pub open spec fn body_start(p: Seq<char>, style: PathStyle) -> int {
    if has_drive(p, style) {
        2
    } else if has_share(p, style) {
        next_separator(p, style, next_separator(p, style, 2) + 1)
    } else {
        0
    }
}

/// Whether a path names its place from a root on, whatever directory it is
/// read in: it begins with a network share, or a separator stands behind its
/// drive, if it has one.
pub open spec fn is_absolute(p: Seq<char>, style: PathStyle) -> bool {
    has_share(p, style) || (p.len() > body_start(p, style) && style.separates(
        p[body_start(p, style)],
    ))
}

/// Whether one of the parts of a path is `..`, and that part begins at `i`.
pub open spec fn parent_at(p: Seq<char>, style: PathStyle, i: int) -> bool {
    &&& body_start(p, style) <= i
    &&& i + 2 <= p.len()
    &&& p[i] == '.'
    &&& p[i + 1] == '.'
    &&& i == body_start(p, style) || style.separates(p[i - 1])
    &&& i + 2 == p.len() || style.separates(p[i + 2])
}

/// Whether one of the parts of a path is `..`.
pub open spec fn has_parent(p: Seq<char>, style: PathStyle) -> bool {
    exists|i: int| parent_at(p, style, i)
}

/// Whether a path stays below the directory that it is read in: it is not
/// absolute, and never steps up.
pub open spec fn stays_below(p: Seq<char>, style: PathStyle) -> bool {
    !is_absolute(p, style) && !has_parent(p, style)
}

proof fn lemma_next_separator(p: Seq<char>, style: PathStyle, i: int)
    requires
        0 <= i <= p.len(),
    ensures
        i <= next_separator(p, style, i) <= p.len(),
    decreases p.len() - i,
{
    if i < p.len() && !style.separates(p[i]) {
        lemma_next_separator(p, style, i + 1);
    }
}

/// A drive or a network share is a part of the path.
proof fn lemma_body_start(p: Seq<char>, style: PathStyle)
    ensures
        0 <= body_start(p, style) <= p.len(),
        has_share(p, style) ==> body_start(p, style) > 2,
{
    if has_share(p, style) {
        let server_end = next_separator(p, style, 2);
        lemma_next_separator(p, style, 2);
        lemma_next_separator(p, style, server_end + 1);
    }
}

fn find_separator(v: &Vec<char>, style: PathStyle, from: usize) -> (r: usize)
    requires
        from <= v@.len(),
    ensures
        r == next_separator(v@, style, from as int),
        from <= r <= v@.len(),
{
    let mut i: usize = from;
    while i < v.len() && !style.is_separator(v[i])
        invariant
            from <= i <= v@.len(),
            next_separator(v@, style, from as int) == next_separator(v@, style, i as int),
        decreases v@.len() - i,
    {
        i = i + 1;
    }
    i
}

fn drive_len(v: &Vec<char>, style: PathStyle) -> (n: usize)
    ensures
        n == (if has_drive(v@, style) {
            2int
        } else {
            0int
        }),
{
    if style == PathStyle::Windows && v.len() >= 2 && (('a' <= v[0] && v[0] <= 'z') || ('A' <= v[0]
        && v[0] <= 'Z')) && v[1] == ':' {
        2
    } else {
        0
    }
}

fn share_len(v: &Vec<char>, style: PathStyle) -> (n: usize)
    ensures
        n > 0 <==> has_share(v@, style),
        n > 0 ==> n == next_separator(v@, style, next_separator(v@, style, 2) + 1),
{
    if style != PathStyle::Windows || v.len() <= 2 || !style.is_separator(v[0])
        || !style.is_separator(v[1]) {
        return 0;
    }
    let server_end: usize = find_separator(v, style, 2);
    if server_end == 2 || server_end == v.len() {
        return 0;
    }
    let share_end: usize = find_separator(v, style, server_end + 1);
    if share_end == server_end + 1 {
        0
    } else {
        share_end
    }
}

fn prefix_len(v: &Vec<char>, style: PathStyle) -> (n: usize)
    ensures
        n == body_start(v@, style),
        n > 0 <==> has_prefix(v@, style),
        n <= v@.len(),
{
    proof {
        lemma_body_start(v@, style);
    }
    let drive: usize = drive_len(v, style);
    if drive > 0 {
        drive
    } else {
        share_len(v, style)
    }
}

/// Whether a path is absolute.
pub fn path_is_absolute(path: &str, style: PathStyle) -> (r: bool)
    ensures
        r == is_absolute(path@, style),
{
    let v = chars_of(path);
    let start: usize = prefix_len(&v, style);
    share_len(&v, style) > 0 || (v.len() > start && style.is_separator(v[start]))
}

/// Whether one of the parts of a path is `..`.
pub fn path_has_parent(path: &str, style: PathStyle) -> (r: bool)
    ensures
        r == has_parent(path@, style),
{
    let v = chars_of(path);
    let n: usize = v.len();
    let start: usize = prefix_len(&v, style);
    let mut i: usize = start;
    while i < n && n - i >= 2
        invariant
            v@ == path@,
            n == v@.len(),
            start == body_start(v@, style),
            start <= i <= n,
            forall|j: int| start <= j < i ==> !#[trigger] parent_at(v@, style, j),
        decreases n - i,
    {
        if v[i] == '.' && v[i + 1] == '.' && (i == start || style.is_separator(v[i - 1])) && (i + 2
            == n || style.is_separator(v[i + 2])) {
            assert(parent_at(v@, style, i as int));
            return true;
        }
        assert(!parent_at(v@, style, i as int));
        i = i + 1;
    }
    assert forall|j: int| !#[trigger] parent_at(v@, style, j) by {
        if j >= i {
            assert(!(j + 2 <= n));
        }
    }
    false
}

/// Whether a path is nothing but a drive.
pub open spec fn is_bare_drive(p: Seq<char>, style: PathStyle) -> bool {
    has_drive(p, style) && p.len() == 2
}

/// A path read in a directory: one that begins with a drive or a network share
/// stands for itself, another absolute one keeps at most the directory's drive
/// or share, and any other one goes on from the directory. A separator stands
/// between the two, unless nothing, a separator or a bare drive stands before it.
pub open spec fn below(base: Seq<char>, name: Seq<char>, style: PathStyle) -> Seq<char> {
    if has_prefix(name, style) {
        name
    } else if is_absolute(name, style) {
        base.take(body_start(base, style)) + name
    } else if base.len() == 0 || style.separates(base.last()) || is_bare_drive(base, style) {
        base + name
    } else {
        base + style.separator() + name
    }
}

/// Reads a path in a directory.
pub fn join_path(base: &str, name: &str, style: PathStyle) -> (r: String)
    ensures
        r@ == below(base@, name@, style),
{
    let n = chars_of(name);
    if prefix_len(&n, style) > 0 {
        return name.to_owned();
    }
    let b = chars_of(base);
    if path_is_absolute(name, style) {
        let mut r = string_from(&b, 0, prefix_len(&b, style));
        r.append(name);
        return r;
    }
    let mut r: String = base.to_owned();
    let bare_drive = b.len() == 2 && drive_len(&b, style) == 2;
    if !(b.len() == 0 || style.is_separator(b[b.len() - 1]) || bare_drive) {
        if style == PathStyle::Windows {
            r.append("\\");
        } else {
            r.append("/");
        }
    }
    r.append(name);
    r
}

/// Whether a path is a directory or lies in it, where both are written without
/// `.`, `..` and doubled separators.
pub open spec fn lies_in(path: Seq<char>, dir: Seq<char>, style: PathStyle) -> bool {
    path == dir || begins_with(path, dir) && path.len() > dir.len() && (style.separates(
        path[dir.len() as int],
    ) || (dir.len() > 0 && style.separates(dir.last())))
}

/// Whether a path is a directory or lies in it.
pub fn path_lies_in(path: &str, dir: &str, style: PathStyle) -> (r: bool)
    ensures
        r == lies_in(path@, dir@, style),
{
    if !starts_with_text(path, dir) {
        assert(path@ == dir@ ==> path@.take(dir@.len() as int) =~= dir@);
        return false;
    }
    let p = chars_of(path);
    let d = chars_of(dir);
    if p.len() == d.len() {
        assert(path@.take(dir@.len() as int) =~= path@);
        return true;
    }
    style.is_separator(p[d.len()]) || (d.len() > 0 && style.is_separator(d[d.len() - 1]))
}

/// A path that stays below the directory that it is read in, and begins with no
/// drive, lies in that directory.
pub proof fn lemma_below_lies_in(base: Seq<char>, name: Seq<char>, style: PathStyle)
    requires
        base.len() > 0,
        !is_bare_drive(base, style),
        name.len() > 0,
        stays_below(name, style),
        !has_drive(name, style),
    ensures
        lies_in(below(base, name, style), base, style),
{
    reveal_strlit("/");
    reveal_strlit("\\");
    let r = below(base, name, style);
    assert(r.take(base.len() as int) =~= base);
}

/// How many characters the beginning of a path takes that names no part of it:
/// a drive or a network share, and the separator of a root.
pub open spec fn root_len(p: Seq<char>, style: PathStyle) -> int {
    let start = body_start(p, style);
    if p.len() > start && style.separates(p[start]) {
        start + 1
    } else {
        start
    }
}

/// How many of the first `n` characters of a path are left without the
/// separators and the parts `.` that they end with; the first `root` ones stay.
pub open spec fn trimmed_path(p: Seq<char>, style: PathStyle, root: int, n: int) -> int
    decreases n,
{
    if n > root && n > 0 && style.separates(p[n - 1]) {
        trimmed_path(p, style, root, n - 1)
    } else if n > root && n > 1 && p[n - 1] == '.' && style.separates(p[n - 2]) {
        trimmed_path(p, style, root, n - 1)
    } else {
        n
    }
}

/// Where the last part of the first `n` characters of a path begins.
pub open spec fn last_part(p: Seq<char>, style: PathStyle, root: int, n: int) -> int
    decreases n,
{
    if n > root && n > 0 && !style.separates(p[n - 1]) {
        last_part(p, style, root, n - 1)
    } else {
        n
    }
}

/// The path without its last part; a bare drive, a bare network share, a bare
/// root and an empty path have none. A path of one part stands in the empty path.
pub open spec fn parent_path(p: Seq<char>, style: PathStyle) -> Option<Seq<char>> {
    let root = root_len(p, style);
    let end = trimmed_path(p, style, root, p.len() as int);
    if end <= root {
        None
    } else {
        Some(p.take(trimmed_path(p, style, root, last_part(p, style, root, end))))
    }
}

fn trim_path(v: &Vec<char>, style: PathStyle, root: usize, from: usize) -> (r: usize)
    requires
        root <= from <= v@.len(),
    ensures
        r == trimmed_path(v@, style, root as int, from as int),
        root <= r <= from,
{
    let mut n: usize = from;
    while n > root && (style.is_separator(v[n - 1]) || (n > 1 && v[n - 1] == '.'
        && style.is_separator(v[n - 2])))
        invariant
            root <= n <= from <= v@.len(),
            trimmed_path(v@, style, root as int, from as int) == trimmed_path(
                v@,
                style,
                root as int,
                n as int,
            ),
        decreases n,
    {
        n = n - 1;
    }
    n
}

/// The directory that a path stands in.
pub fn path_parent(path: &str, style: PathStyle) -> (r: Option<String>)
    ensures
        crate::text::opt_text(r) == parent_path(path@, style),
{
    let v = chars_of(path);
    let start: usize = prefix_len(&v, style);
    let root: usize = if v.len() > start && style.is_separator(v[start]) {
        start + 1
    } else {
        start
    };
    assert(root == root_len(v@, style));
    let end: usize = trim_path(&v, style, root, v.len());
    if end <= root {
        return None;
    }
    let mut n: usize = end;
    while n > root && !style.is_separator(v[n - 1])
        invariant
            root <= n <= end <= v@.len(),
            last_part(v@, style, root as int, end as int) == last_part(
                v@,
                style,
                root as int,
                n as int,
            ),
        decreases n,
    {
        n = n - 1;
    }
    let to: usize = trim_path(&v, style, root, n);
    let r = string_from(&v, 0, to);
    assert(r@ =~= v@.take(to as int));
    Some(r)
}

/// The first of the candidates that is among the paths that exist.
pub open spec fn first_existing(candidates: Seq<Seq<char>>, existing: Seq<Seq<char>>) -> Option<
    Seq<char>,
>
    decreases candidates.len(),
{
    if candidates.len() == 0 {
        None
    } else if existing.contains(candidates[0]) {
        Some(candidates[0])
    } else {
        first_existing(candidates.drop_first(), existing)
    }
}

/// Picks the first candidate that exists.
pub fn find_existing(candidates: &Vec<String>, existing: &Vec<String>) -> (r: Option<String>)
    ensures
        crate::text::opt_text(r) == first_existing(texts(candidates@), texts(existing@)),
{
    let ghost all = texts(candidates@);
    let mut i: usize = 0;
    assert(all.skip(0) =~= all);
    while i < candidates.len()
        invariant
            i <= candidates@.len(),
            all == texts(candidates@),
            first_existing(all, texts(existing@)) == first_existing(
                all.skip(i as int),
                texts(existing@),
            ),
        decreases candidates@.len() - i,
    {
        assert(all.skip(i as int)[0] == candidates@[i as int]@);
        assert(all.skip(i as int).drop_first() =~= all.skip(i + 1));
        if has_text(existing, candidates[i].as_str()) {
            return Some(candidates[i].clone());
        }
        i = i + 1;
    }
    None
}

/// Where a path holds no backslash and no colon, and does not begin as a network
/// share does, both styles read it alike.
pub proof fn lemma_styles_agree(p: Seq<char>)
    requires
        forall|i: int| 0 <= i < p.len() ==> #[trigger] p[i] != '\\' && p[i] != ':',
        !has_share(p, PathStyle::Windows),
    ensures
        is_absolute(p, PathStyle::Posix) == is_absolute(p, PathStyle::Windows),
        has_parent(p, PathStyle::Posix) == has_parent(p, PathStyle::Windows),
{
    assert forall|i: int| parent_at(p, PathStyle::Posix, i) implies #[trigger] parent_at(
        p,
        PathStyle::Windows,
        i,
    ) by {}
    assert forall|i: int| parent_at(p, PathStyle::Windows, i) implies #[trigger] parent_at(
        p,
        PathStyle::Posix,
        i,
    ) by {}
    if has_parent(p, PathStyle::Posix) {
        let i = choose|i: int| parent_at(p, PathStyle::Posix, i);
        assert(parent_at(p, PathStyle::Windows, i));
    }
    if has_parent(p, PathStyle::Windows) {
        let i = choose|i: int| parent_at(p, PathStyle::Windows, i);
        assert(parent_at(p, PathStyle::Posix, i));
    }
}

} // verus!
