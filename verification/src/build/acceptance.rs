//! Which manifests are built, and what is said of those that are not.
use crate::build::validate::{
    all_app_name_chars, all_identifier_chars, all_version_chars, app_name_char, app_name_verdict,
    bundle_id_verdict, entry_verdict, identifier_char, relative_path_verdict,
    unicode_alphanumeric, validate_manifest_for, version_char, version_field_verdict,
    version_verdict,
};
use crate::paths::{has_parent, is_absolute, PathStyle};
use crate::queue::job::BuildManifest;
use crate::text::begins_with;
use vstd::prelude::*;
use vstd::utf8::encode_utf8;

verus! {

/// Whether a character is a letter or a digit: in ASCII one of a to z, A to Z and
/// 0 to 9, beyond it what Unicode counts as one.
pub open spec fn is_letter_or_digit(c: char) -> bool {
    ||| 'a' <= c <= 'z'
    ||| 'A' <= c <= 'Z'
    ||| '0' <= c <= '9'
    ||| (c as u32 >= 128 && unicode_alphanumeric(c))
}

/// Whether a text consists of letters, digits and the given characters.
pub open spec fn consists_of(s: Seq<char>, others: Seq<char>) -> bool {
    forall|i: int|
        0 <= i < s.len() ==> is_letter_or_digit(#[trigger] s[i]) || others.contains(s[i])
}

/// Whether a text consists of digits and dots.
pub open spec fn is_dotted(s: Seq<char>) -> bool {
    forall|i: int| 0 <= i < s.len() ==> '0' <= #[trigger] s[i] <= '9' || s[i] == '.'
}

proof fn lemma_allowed_characters()
    ensures
        forall|c: char|
            #[trigger] app_name_char(c) <==> is_letter_or_digit(c) || seq!['-', '_', ' '].contains(c),
        forall|c: char|
            #[trigger] identifier_char(c) <==> is_letter_or_digit(c) || seq!['.', '-', '_'].contains(
                c,
            ),
{
    let a = seq!['-', '_', ' '];
    let b = seq!['.', '-', '_'];
    assert(a[0] == '-' && a[1] == '_' && a[2] == ' ');
    assert(b[0] == '.' && b[1] == '-' && b[2] == '_');
    assert forall|c: char| #[trigger] app_name_char(c) <==> is_letter_or_digit(c) || a.contains(c) by {
        if c == '-' || c == '_' || c == ' ' {
            assert(a.contains(c));
        }
    }
    assert forall|c: char| #[trigger] identifier_char(c) <==> is_letter_or_digit(c) || b.contains(
        c,
    ) by {
        if c == '.' || c == '-' || c == '_' {
            assert(b.contains(c));
        }
    }
}

/// A manifest is accepted exactly if its name, its identifier, its version and
/// its entry are there and, like the fields that may be left out, made of what is
/// allowed in them: the name of letters, digits, hyphens, underscores and spaces,
/// in at most 200 bytes; identifiers of letters, digits, dots, hyphens and
/// underscores; versions of digits and dots; and paths that stay below the
/// project.
pub proof fn lemma_which_manifests_are_accepted(
    m: &BuildManifest,
    style: PathStyle,
    r: Result<(), String>,
)
    requires
        call_ensures(validate_manifest_for, (m, style), r),
    ensures
        r is Ok <==> {
            &&& 0 < m.app_name@.len() && encode_utf8(m.app_name@).len() <= 200
            &&& consists_of(m.app_name@, seq!['-', '_', ' '])
            &&& 0 < m.bundle_id@.len() && consists_of(m.bundle_id@, seq!['.', '-', '_'])
            &&& 0 < m.version@.len() && is_dotted(m.version@)
            &&& 0 < m.entry@.len() && !is_absolute(m.entry@, style) && !has_parent(m.entry@, style)
            &&& m.short_version matches Some(v) ==> is_dotted(v@)
            &&& m.icon matches Some(p) ==> !is_absolute(p@, style) && !has_parent(p@, style)
            &&& m.minimum_os_version matches Some(v) ==> is_dotted(v@)
            &&& m.category matches Some(c) ==> consists_of(c@, seq!['.', '-', '_'])
        },
{
    lemma_allowed_characters();
    lemma_same_rules(m.app_name@);
    lemma_same_rules(m.bundle_id@);
    lemma_same_rules(m.version@);
    if let Some(v) = m.short_version {
        lemma_same_rules(v@);
    }
    if let Some(v) = m.minimum_os_version {
        lemma_same_rules(v@);
    }
    if let Some(c) = m.category {
        lemma_same_rules(c@);
    }
}

proof fn lemma_same_rules(s: Seq<char>)
    ensures
        all_app_name_chars(s) <==> consists_of(s, seq!['-', '_', ' ']),
        all_identifier_chars(s) <==> consists_of(s, seq!['.', '-', '_']),
        all_version_chars(s) <==> is_dotted(s),
{
    lemma_allowed_characters();
    if all_app_name_chars(s) {
        assert(consists_of(s, seq!['-', '_', ' ']));
    }
    if consists_of(s, seq!['-', '_', ' ']) {
        assert forall|i: int| 0 <= i < s.len() implies app_name_char(#[trigger] s[i]) by {}
    }
    if all_identifier_chars(s) {
        assert forall|i: int| 0 <= i < s.len() implies is_letter_or_digit(#[trigger] s[i]) || seq![
            '.',
            '-',
            '_',
        ].contains(s[i]) by {
            assert(identifier_char(s[i]));
        }
    }
    if consists_of(s, seq!['.', '-', '_']) {
        assert forall|i: int| 0 <= i < s.len() implies identifier_char(#[trigger] s[i]) by {}
    }
    if all_version_chars(s) {
        assert forall|i: int| 0 <= i < s.len() implies '0' <= #[trigger] s[i] <= '9' || s[i]
            == '.' by {
            assert(version_char(s[i]));
        }
    }
    if is_dotted(s) {
        assert forall|i: int| 0 <= i < s.len() implies version_char(#[trigger] s[i]) by {}
    }
}

/// Where a manifest is refused, the reason begins with the name of the field that
/// is wrong.
pub proof fn lemma_refusals_name_the_field(
    m: &BuildManifest,
    style: PathStyle,
    r: Result<(), String>,
)
    requires
        call_ensures(validate_manifest_for, (m, style), r),
        r is Err,
    ensures
        ({
            let e = r->Err_0@;
            ||| begins_with(e, "app_name"@)
            ||| begins_with(e, "bundle_id"@)
            ||| begins_with(e, "version"@)
            ||| begins_with(e, "entry"@)
            ||| begins_with(e, "short_version"@)
            ||| begins_with(e, "icon"@)
            ||| begins_with(e, "minimum_os_version"@)
            ||| begins_with(e, "category"@)
        }),
{
    let e = r->Err_0@;
    lemma_field_texts();
    if app_name_verdict(m.app_name@) is Err {
        assert(e.take(8) =~= "app_name"@);
    } else if bundle_id_verdict(m.bundle_id@) is Err {
        assert(e.take(9) =~= "bundle_id"@);
    } else if version_verdict(m.version@) is Err {
        assert(e.take(7) =~= "version"@);
    } else if entry_verdict(m.entry@, style) is Err {
        assert(e.take(5) =~= "entry"@);
    } else if m.short_version is Some && version_field_verdict(
        m.short_version->Some_0@,
        "short_version"@,
    ) is Err {
        assert(e.take(13) =~= "short_version"@);
    } else if m.icon is Some && relative_path_verdict(m.icon->Some_0@, "icon"@, style) is Err {
        assert(e.take(4) =~= "icon"@);
    } else if m.minimum_os_version is Some && version_field_verdict(
        m.minimum_os_version->Some_0@,
        "minimum_os_version"@,
    ) is Err {
        assert(e.take(18) =~= "minimum_os_version"@);
    } else {
        assert(e.take(8) =~= "category"@);
    }
}

proof fn lemma_field_texts()
    ensures
        "app_name"@.len() == 8 && "bundle_id"@.len() == 9 && "version"@.len() == 7
            && "entry"@.len() == 5 && "short_version"@.len() == 13 && "icon"@.len() == 4
            && "minimum_os_version"@.len() == 18 && "category"@.len() == 8,
        "app_name cannot be empty"@.len() > 8 && "app_name cannot be empty"@.take(8)
            == "app_name"@,
        "app_name is too long (max 200 characters)"@.len() > 8
            && "app_name is too long (max 200 characters)"@.take(8) == "app_name"@,
        "app_name contains invalid characters (only alphanumeric, space, hyphen, underscore allowed): "@.len()
            > 8
            && "app_name contains invalid characters (only alphanumeric, space, hyphen, underscore allowed): "@.take(
        8) == "app_name"@,
        "bundle_id cannot be empty"@.len() > 9 && "bundle_id cannot be empty"@.take(9)
            == "bundle_id"@,
        "bundle_id contains invalid characters (only alphanumeric, dot, hyphen, underscore allowed): "@.len()
            > 9
            && "bundle_id contains invalid characters (only alphanumeric, dot, hyphen, underscore allowed): "@.take(
        9) == "bundle_id"@,
        "version cannot be empty"@.len() > 7 && "version cannot be empty"@.take(7) == "version"@,
        "entry cannot be empty"@.len() > 5 && "entry cannot be empty"@.take(5) == "entry"@,
{
    reveal_strlit("app_name");
    reveal_strlit("bundle_id");
    reveal_strlit("version");
    reveal_strlit("entry");
    reveal_strlit("short_version");
    reveal_strlit("icon");
    reveal_strlit("minimum_os_version");
    reveal_strlit("category");
    reveal_strlit("app_name cannot be empty");
    reveal_strlit("app_name is too long (max 200 characters)");
    reveal_strlit(
        "app_name contains invalid characters (only alphanumeric, space, hyphen, underscore allowed): ",
    );
    reveal_strlit("bundle_id cannot be empty");
    reveal_strlit(
        "bundle_id contains invalid characters (only alphanumeric, dot, hyphen, underscore allowed): ",
    );
    reveal_strlit("version cannot be empty");
    reveal_strlit("entry cannot be empty");
    assert("app_name cannot be empty"@.take(8) =~= "app_name"@);
    assert("app_name is too long (max 200 characters)"@.take(8) =~= "app_name"@);
    assert("app_name contains invalid characters (only alphanumeric, space, hyphen, underscore allowed): "@.take(
    8) =~= "app_name"@);
    assert("bundle_id cannot be empty"@.take(9) =~= "bundle_id"@);
    assert("bundle_id contains invalid characters (only alphanumeric, dot, hyphen, underscore allowed): "@.take(
    9) =~= "bundle_id"@);
    assert("version cannot be empty"@.take(7) =~= "version"@);
    assert("entry cannot be empty"@.take(5) =~= "entry"@);
}

} // verus!
