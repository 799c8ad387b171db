//! What holds of paths, and of the tools that are looked for under them.
use crate::paths::{
    below, body_start, has_drive, has_parent, has_prefix, has_share, is_ascii_letter, join_path,
    last_part, parent_at, path_has_parent, path_is_absolute, path_lies_in, path_parent, root_len,
    trimmed_path, PathStyle,
};
use crate::settings::{is_first_of, lemma_first_existing};
use crate::signing::windows::{azure_tool_places, which_azure_sign_tool};
use crate::text::texts;
use vstd::prelude::*;

verus! {

/// Whether a text is the name of a file or a directory in another one: it is not
/// empty, not `.`, and holds neither a separator nor a colon.
pub open spec fn is_name(name: Seq<char>) -> bool {
    &&& name.len() > 0
    &&& name != seq!['.']
    &&& forall|i: int| 0 <= i < name.len() ==> #[trigger] name[i] != '/' && name[i] != '\\' && name[i]
        != ':'
}

/// Whether a directory is written so that nothing has to be taken away at its
/// end: that is no separator, no part `.`, and not a drive alone. Nor does it
/// begin as a network share does.
pub open spec fn is_tidy(dir: Seq<char>) -> bool {
    let n = dir.len();
    &&& n > 0
    &&& dir[n - 1] != '/' && dir[n - 1] != '\\' && dir[n - 1] != ':'
    &&& n > 1 && dir[n - 1] == '.' ==> dir[n - 2] != '/' && dir[n - 2] != '\\'
    &&& n > 1 ==> !((dir[0] == '/' || dir[0] == '\\') && (dir[1] == '/' || dir[1] == '\\'))
}

/// The character that stands between two parts of a path.
pub open spec fn divider(style: PathStyle) -> char {
    match style {
        PathStyle::Posix => '/',
        PathStyle::Windows => '\\',
    }
}

proof fn lemma_last_part(p: Seq<char>, style: PathStyle, root: int, start: int, n: int)
    requires
        0 <= root < start <= n <= p.len(),
        style.separates(p[start - 1]),
        forall|i: int| start <= i < n ==> !style.separates(#[trigger] p[i]),
    ensures
        last_part(p, style, root, n) == start,
    decreases n,
{
    if n > start {
        assert(!style.separates(p[n - 1]));
        lemma_last_part(p, style, root, start, n - 1);
    }
}

/// The path of a name in a directory is the directory, a separator and the name.
/// Its parent is that directory, it lies in that directory, and it is absolute
/// exactly if the directory is.
pub proof fn lemma_names_stand_in_their_directory(
    dir: &str,
    name: &str,
    style: PathStyle,
    path: String,
    p: &str,
    parent: Option<String>,
    inside: bool,
    path_absolute: bool,
    dir_absolute: bool,
)
    requires
        is_tidy(dir@),
        is_name(name@),
        call_ensures(join_path, (dir, name, style), path),
        p@ == path@,
        call_ensures(path_parent, (p, style), parent),
        call_ensures(path_lies_in, (p, dir, style), inside),
        call_ensures(path_is_absolute, (p, style), path_absolute),
        call_ensures(path_is_absolute, (dir, style), dir_absolute),
    ensures
        path@ == dir@ + seq![divider(style)] + name@,
        parent is Some && parent->Some_0@ == dir@,
        inside,
        path_absolute == dir_absolute,
{
    reveal_strlit("/");
    reveal_strlit("\\");
    let d = dir@;
    let n = name@;
    assert(!has_prefix(n, style));
    assert(style.separator() =~= seq![divider(style)]);
    let w = d + seq![divider(style)] + n;
    assert(path@ =~= w);
    let len = d.len() as int;
    assert(w[len] == divider(style));
    assert(w[len - 1] == d[len - 1]);
    assert(w[0] == d[0]);
    if len > 1 {
        assert(w[1] == d[1]);
        assert(w[len - 2] == d[len - 2]);
    }
    assert(has_drive(w, style) == has_drive(d, style));
    assert(!has_share(w, style));
    assert(!has_share(d, style));
    let start = body_start(d, style);
    assert(body_start(w, style) == start);
    assert(len > start);
    assert(w[start] == d[start]);
    let root = root_len(w, style);
    assert(root <= len);
    let end = w.len() as int;
    assert(w[end - 1] == n[n.len() - 1]);
    assert(forall|i: int| len + 1 <= i < end ==> #[trigger] w[i] == n[i - len - 1]);
    if w[end - 1] == '.' && style.separates(w[end - 2]) {
        assert(n.len() == 1);
        assert(n =~= seq!['.']);
    }
    assert(trimmed_path(w, style, root, end) == end);
    lemma_last_part(w, style, root, len + 1, end);
    assert(trimmed_path(w, style, root, len) == len);
    assert(trimmed_path(w, style, root, len + 1) == trimmed_path(w, style, root, len));
    assert(w.take(len) =~= d);
}

/// A path with a drive and a separator behind it, or one that begins with a
/// separator, is absolute; one that begins with neither is not.
pub proof fn lemma_which_paths_are_absolute(path: &str, style: PathStyle, r: bool)
    requires
        call_ensures(path_is_absolute, (path, style), r),
    ensures
        path@.len() > 0 && path@[0] == '/' ==> r,
        path@.len() > 0 && path@[0] == '\\' ==> r == (style is Windows),
        path@.len() > 2 && style is Windows && is_ascii_letter(path@[0]) && path@[1] == ':' ==> r
            == (path@[2] == '/' || path@[2] == '\\'),
        path@.len() == 0 ==> !r,
        path@.len() > 0 && path@[0] != '/' && path@[0] != '\\' && !(style is Windows && path@.len()
            > 1 && path@[1] == ':') ==> !r,
{
}

/// A path steps up where `..` stands alone, first, last or between two
/// separators; without two dots in a row it never does.
pub proof fn lemma_which_paths_step_up(
    before: Seq<char>,
    after: Seq<char>,
    path: &str,
    style: PathStyle,
    r: bool,
)
    requires
        call_ensures(path_has_parent, (path, style), r),
    ensures
        path@ == seq!['.', '.'] ==> r,
        path@ == seq!['.', '.', divider(style)] + after ==> r,
        path@ == before + seq![divider(style), '.', '.'] && is_tidy(before) ==> r,
        path@ == before + seq![divider(style), '.', '.', divider(style)] + after && is_tidy(before)
            ==> r,
        (forall|i: int| #[trigger] two_dots_at(path@, i) ==> false) ==> !r,
{
    let p = path@;
    let n = before.len() as int;
    if p == seq!['.', '.'] {
        assert(parent_at(p, style, 0));
    }
    if p == seq!['.', '.', divider(style)] + after {
        assert(p[0] == '.' && p[1] == '.' && p[2] == divider(style));
        assert(parent_at(p, style, 0));
    }
    if is_tidy(before) && (p == before + seq![divider(style), '.', '.'] || p == before + seq![
        divider(style),
        '.',
        '.',
        divider(style),
    ] + after) {
        assert(p[0] == before[0]);
        if n > 1 {
            assert(p[1] == before[1]);
        }
        assert(p[n] == divider(style) && p[n + 1] == '.' && p[n + 2] == '.');
        assert(!has_share(p, style));
        assert(parent_at(p, style, n + 1));
    }
    if has_parent(p, style) {
        let i = choose|i: int| parent_at(p, style, i);
        assert(two_dots_at(p, i));
    }
}

/// Whether two dots stand at a place.
pub open spec fn two_dots_at(p: Seq<char>, i: int) -> bool {
    i + 1 < p.len() && p[i] == '.' && p[i + 1] == '.'
}

/// AzureSignTool is looked for in the directories of PATH under its own name with
/// `.exe`, then under that in lower case, then without `.exe`; the first place
/// that holds it counts.
pub proof fn lemma_azure_sign_tool_is_looked_for_in_order(
    dirs: &Vec<String>,
    existing: &Vec<String>,
    style: PathStyle,
    r: Option<String>,
)
    requires
        call_ensures(which_azure_sign_tool, (dirs, existing, style), r),
    ensures
        ({
            let n = dirs@.len();
            let places = Seq::new(
                3 * n,
                |i: int|
                    if i < n {
                        below(dirs@[i]@, "AzureSignTool.exe"@, style)
                    } else if i < 2 * n {
                        below(dirs@[i - n]@, "azuresigntool.exe"@, style)
                    } else {
                        below(dirs@[i - 2 * n]@, "AzureSignTool"@, style)
                    },
            );
            match r {
                Some(path) => is_first_of(path@, places, texts(existing@)),
                None => forall|j: int|
                    0 <= j < places.len() ==> !texts(existing@).contains(#[trigger] places[j]),
            }
        }),
{
    let n = dirs@.len();
    let places = Seq::new(
        3 * n,
        |i: int|
            if i < n {
                below(dirs@[i]@, "AzureSignTool.exe"@, style)
            } else if i < 2 * n {
                below(dirs@[i - n]@, "azuresigntool.exe"@, style)
            } else {
                below(dirs@[i - 2 * n]@, "AzureSignTool"@, style)
            },
    );
    assert(azure_tool_places(texts(dirs@), style) =~= places);
    lemma_first_existing(places, texts(existing@));
}

} // verus!
