//! Input validation and sanitization for build manifests.
//!
//! All user-controlled fields must be validated before use in file paths,
//! shell commands, or XML interpolation.
use crate::paths::{
    has_parent, is_absolute, path_has_parent, path_is_absolute, stays_below, PathStyle,
};
use crate::queue::job::BuildManifest;
use crate::text::{begins_with, cat2, cat3, chars_of, is_digit, opt_text, verdict};
use vstd::prelude::*;
use vstd::string::*;
use vstd::utf8::encode_utf8;

verus! {

/// Whether Unicode counts a character as a letter or a number: what
/// `char::is_alphanumeric` returns.
pub uninterp spec fn unicode_alphanumeric(c: char) -> bool;

/// Whether a character is a letter or a number. Of the ASCII characters these
/// are the letters and the digits alone.
pub open spec fn alphanumeric(c: char) -> bool {
    if (c as u32) < 128 {
        'a' <= c <= 'z' || 'A' <= c <= 'Z' || '0' <= c <= '9'
    } else {
        unicode_alphanumeric(c)
    }
}

/// `char::is_alphanumeric` answers by the tables of Unicode, which are named
/// and not written out here; of the ASCII characters, it holds of the letters
/// and the digits alone.
#[verifier::external_body]
fn char_is_alphanumeric(c: char) -> (r: bool)
    ensures
        (c as u32) < 128 ==> r == alphanumeric(c),
        (c as u32) >= 128 ==> r == unicode_alphanumeric(c),
{
    c.is_alphanumeric()
}

/// The characters of an application's name.
pub open spec fn app_name_char(c: char) -> bool {
    alphanumeric(c) || c == '-' || c == '_' || c == ' '
}

/// The characters of a dotted identifier.
pub open spec fn identifier_char(c: char) -> bool {
    alphanumeric(c) || c == '.' || c == '-' || c == '_'
}

/// The characters of a version.
pub open spec fn version_char(c: char) -> bool {
    is_digit(c) || c == '.'
}

/// Whether every character of a text is one of an application's name.
pub open spec fn all_app_name_chars(s: Seq<char>) -> bool {
    forall|i: int| 0 <= i < s.len() ==> app_name_char(#[trigger] s[i])
}

/// Whether every character of a text is one of a dotted identifier.
pub open spec fn all_identifier_chars(s: Seq<char>) -> bool {
    forall|i: int| 0 <= i < s.len() ==> identifier_char(#[trigger] s[i])
}

/// Whether every character of a text is one of a version.
pub open spec fn all_version_chars(s: Seq<char>) -> bool {
    forall|i: int| 0 <= i < s.len() ==> version_char(#[trigger] s[i])
}

/// The rule for `app_name`: not empty, at most 200 bytes, and only letters,
/// digits, spaces, hyphens and underscores.
pub open spec fn app_name_verdict(name: Seq<char>) -> Result<(), Seq<char>> {
    if name.len() == 0 {
        Err("app_name cannot be empty"@)
    } else if encode_utf8(name).len() > 200 {
        Err("app_name is too long (max 200 characters)"@)
    } else if !all_app_name_chars(name) {
        Err(
            "app_name contains invalid characters (only alphanumeric, space, hyphen, underscore allowed): "@
                + name,
        )
    } else {
        Ok(())
    }
}

/// The rule for `bundle_id`: not empty, and only letters, digits, dots,
/// hyphens and underscores.
pub open spec fn bundle_id_verdict(id: Seq<char>) -> Result<(), Seq<char>> {
    if id.len() == 0 {
        Err("bundle_id cannot be empty"@)
    } else if !all_identifier_chars(id) {
        Err(
            "bundle_id contains invalid characters (only alphanumeric, dot, hyphen, underscore allowed): "@
                + id,
        )
    } else {
        Ok(())
    }
}

/// The rule for a version field: only digits and dots.
pub open spec fn version_field_verdict(value: Seq<char>, field: Seq<char>) -> Result<
    (),
    Seq<char>,
> {
    if !all_version_chars(value) {
        Err(field + " must contain only digits and dots, got: "@ + value)
    } else {
        Ok(())
    }
}

/// The rule for `version`: not empty, and only digits and dots.
pub open spec fn version_verdict(version: Seq<char>) -> Result<(), Seq<char>> {
    if version.len() == 0 {
        Err("version cannot be empty"@)
    } else {
        version_field_verdict(version, "version"@)
    }
}

/// The rule for a path into the project: relative, and without `..`.
pub open spec fn relative_path_verdict(
    path: Seq<char>,
    field: Seq<char>,
    style: PathStyle,
) -> Result<(), Seq<char>> {
    if is_absolute(path, style) {
        Err(field + " must be a relative path, got: "@ + path)
    } else if has_parent(path, style) {
        Err(field + " contains path traversal (..): "@ + path)
    } else {
        Ok(())
    }
}

/// The rule for `entry`: not empty, and a path into the project.
pub open spec fn entry_verdict(entry: Seq<char>, style: PathStyle) -> Result<(), Seq<char>> {
    if entry.len() == 0 {
        Err("entry cannot be empty"@)
    } else {
        relative_path_verdict(entry, "entry"@, style)
    }
}

/// The rule for a reverse-DNS name: only letters, digits, dots, hyphens and
/// underscores.
pub open spec fn reverse_dns_verdict(value: Seq<char>, field: Seq<char>) -> Result<(), Seq<char>> {
    if !all_identifier_chars(value) {
        Err(field + " contains invalid characters: "@ + value)
    } else {
        Ok(())
    }
}

/// The first failure of two rules.
pub open spec fn first_failure(a: Result<(), Seq<char>>, b: Result<(), Seq<char>>) -> Result<
    (),
    Seq<char>,
> {
    match a {
        Err(e) => Err(e),
        Ok(_) => b,
    }
}

/// The rules for the fields of a manifest that may be left out.
pub open spec fn optional_fields_verdict(m: BuildManifest, style: PathStyle) -> Result<
    (),
    Seq<char>,
> {
    let short_version = match opt_text(m.short_version) {
        Some(v) => version_field_verdict(v, "short_version"@),
        None => Ok(()),
    };
    let icon = match opt_text(m.icon) {
        Some(p) => relative_path_verdict(p, "icon"@, style),
        None => Ok(()),
    };
    let minimum_os_version = match opt_text(m.minimum_os_version) {
        Some(v) => version_field_verdict(v, "minimum_os_version"@),
        None => Ok(()),
    };
    let category = match opt_text(m.category) {
        Some(c) => reverse_dns_verdict(c, "category"@),
        None => Ok(()),
    };
    first_failure(short_version, first_failure(icon, first_failure(minimum_os_version, category)))
}

/// All the rules for a manifest, in the order in which they are tried.
pub open spec fn manifest_verdict(m: BuildManifest, style: PathStyle) -> Result<(), Seq<char>> {
    first_failure(
        app_name_verdict(m.app_name@),
        first_failure(
            bundle_id_verdict(m.bundle_id@),
            first_failure(
                version_verdict(m.version@),
                first_failure(
                    entry_verdict(m.entry@, style),
                    optional_fields_verdict(m, style),
                ),
            ),
        ),
    )
}

/// Validate all user-controlled manifest fields before building, reading the
/// paths by the rules of the machine that this runs on.
pub fn validate_manifest(manifest: &BuildManifest) -> (r: Result<(), String>)
    ensures
        exists|style: PathStyle| verdict(r) == #[trigger] manifest_verdict(*manifest, style),
{
    let style = PathStyle::host();
    let r = validate_manifest_for(manifest, style);
    assert(verdict(r) == manifest_verdict(*manifest, style));
    r
}

/// Validate all user-controlled manifest fields, reading the paths by the
/// given rules.
pub fn validate_manifest_for(manifest: &BuildManifest, style: PathStyle) -> (r: Result<(), String>)
    ensures
        verdict(r) == manifest_verdict(*manifest, style),
{
    validate_app_name(&manifest.app_name)?;
    validate_bundle_id(&manifest.bundle_id)?;
    validate_version(&manifest.version)?;
    validate_entry_for(&manifest.entry, style)?;
    if let Some(sv) = &manifest.short_version {
        validate_version_field(sv, "short_version")?;
    }
    if let Some(icon) = &manifest.icon {
        validate_relative_path_for(icon, "icon", style)?;
    }
    if let Some(v) = &manifest.minimum_os_version {
        validate_version_field(v, "minimum_os_version")?;
    }
    if let Some(cat) = &manifest.category {
        validate_reverse_dns(cat, "category")?;
    }
    Ok(())
}

/// Checks the name of an application.
pub fn validate_app_name(name: &str) -> (r: Result<(), String>)
    ensures
        verdict(r) == app_name_verdict(name@),
{
    if name.is_empty() {
        return Err("app_name cannot be empty".to_owned());
    }
    if name.as_bytes().len() > 200 {
        return Err("app_name is too long (max 200 characters)".to_owned());
    }
    let v = chars_of(name);
    let mut i: usize = 0;
    while i < v.len()
        invariant
            i <= v@.len(),
            v@ == name@,
            name@.len() > 0,
            encode_utf8(name@).len() <= 200,
            forall|j: int| 0 <= j < i ==> app_name_char(#[trigger] v@[j]),
        decreases v@.len() - i,
    {
        let c = v[i];
        if !(char_is_alphanumeric(c) || c == '-' || c == '_' || c == ' ') {
            assert(!app_name_char(v@[i as int]));
            return Err(
                cat2(
                    "app_name contains invalid characters (only alphanumeric, space, hyphen, underscore allowed): ",
                    name,
                ),
            );
        }
        i = i + 1;
    }
    Ok(())
}

fn only_identifier_chars(s: &str) -> (r: bool)
    ensures
        r == all_identifier_chars(s@),
{
    let v = chars_of(s);
    let mut i: usize = 0;
    while i < v.len()
        invariant
            i <= v@.len(),
            v@ == s@,
            forall|j: int| 0 <= j < i ==> identifier_char(#[trigger] v@[j]),
        decreases v@.len() - i,
    {
        let c = v[i];
        if !(char_is_alphanumeric(c) || c == '.' || c == '-' || c == '_') {
            assert(!identifier_char(v@[i as int]));
            return false;
        }
        i = i + 1;
    }
    true
}

/// Checks a bundle identifier.
pub fn validate_bundle_id(id: &str) -> (r: Result<(), String>)
    ensures
        verdict(r) == bundle_id_verdict(id@),
{
    if id.is_empty() {
        return Err("bundle_id cannot be empty".to_owned());
    }
    if !only_identifier_chars(id) {
        return Err(
            cat2(
                "bundle_id contains invalid characters (only alphanumeric, dot, hyphen, underscore allowed): ",
                id,
            ),
        );
    }
    Ok(())
}

/// Checks the version of an application.
pub fn validate_version(version: &str) -> (r: Result<(), String>)
    ensures
        verdict(r) == version_verdict(version@),
{
    if version.is_empty() {
        return Err("version cannot be empty".to_owned());
    }
    validate_version_field(version, "version")
}

/// Checks a field that holds a version.
pub fn validate_version_field(value: &str, field: &str) -> (r: Result<(), String>)
    ensures
        verdict(r) == version_field_verdict(value@, field@),
{
    let v = chars_of(value);
    let mut i: usize = 0;
    while i < v.len()
        invariant
            i <= v@.len(),
            v@ == value@,
            forall|j: int| 0 <= j < i ==> version_char(#[trigger] v@[j]),
        decreases v@.len() - i,
    {
        let c = v[i];
        if !(('0' <= c && c <= '9') || c == '.') {
            assert(!version_char(v@[i as int]));
            return Err(cat3(field, " must contain only digits and dots, got: ", value));
        }
        i = i + 1;
    }
    Ok(())
}

/// Checks the entry file of an application, by the rules of the machine that
/// this runs on.
pub fn validate_entry(entry: &str) -> (r: Result<(), String>)
    ensures
        exists|style: PathStyle| verdict(r) == #[trigger] entry_verdict(entry@, style),
{
    let style = PathStyle::host();
    let r = validate_entry_for(entry, style);
    assert(verdict(r) == entry_verdict(entry@, style));
    r
}

/// Checks the entry file of an application, by the given rules.
pub fn validate_entry_for(entry: &str, style: PathStyle) -> (r: Result<(), String>)
    ensures
        verdict(r) == entry_verdict(entry@, style),
{
    if entry.is_empty() {
        return Err("entry cannot be empty".to_owned());
    }
    validate_relative_path_for(entry, "entry", style)
}

/// Checks a path into the project, by the rules of the machine that this runs
/// on.
pub fn validate_relative_path(path: &str, field: &str) -> (r: Result<(), String>)
    ensures
        exists|style: PathStyle|
            verdict(r) == #[trigger] relative_path_verdict(path@, field@, style),
{
    let style = PathStyle::host();
    let r = validate_relative_path_for(path, field, style);
    assert(verdict(r) == relative_path_verdict(path@, field@, style));
    r
}

/// Checks a path into the project, by the given rules.
pub fn validate_relative_path_for(path: &str, field: &str, style: PathStyle) -> (r: Result<
    (),
    String,
>)
    ensures
        verdict(r) == relative_path_verdict(path@, field@, style),
{
    if path_is_absolute(path, style) {
        return Err(cat3(field, " must be a relative path, got: ", path));
    }
    if path_has_parent(path, style) {
        return Err(cat3(field, " contains path traversal (..): ", path));
    }
    Ok(())
}

/// Checks a reverse-DNS name.
pub fn validate_reverse_dns(value: &str, field: &str) -> (r: Result<(), String>)
    ensures
        verdict(r) == reverse_dns_verdict(value@, field@),
{
    if !only_identifier_chars(value) {
        return Err(cat3(field, " contains invalid characters: ", value));
    }
    Ok(())
}

/// What an XML document writes for a character.
pub open spec fn xml_entity(c: char) -> Seq<char> {
    if c == '&' {
        "&amp;"@
    } else if c == '<' {
        "&lt;"@
    } else if c == '>' {
        "&gt;"@
    } else if c == '"' {
        "&quot;"@
    } else if c == '\'' {
        "&apos;"@
    } else {
        seq![c]
    }
}

/// A text as an XML document writes it.
pub open spec fn xml_escaped(s: Seq<char>) -> Seq<char>
    decreases s.len(),
{
    if s.len() == 0 {
        Seq::empty()
    } else {
        xml_escaped(s.drop_last()) + xml_entity(s.last())
    }
}

/// What an NSIS script writes for a character: a line break is left out.
pub open spec fn nsis_entity(c: char) -> Seq<char> {
    if c == '$' {
        "$$"@
    } else if c == '"' {
        "$\\\""@
    } else if c == '\n' || c == '\r' {
        Seq::empty()
    } else {
        seq![c]
    }
}

/// A text as an NSIS script writes it.
pub open spec fn nsis_escaped(s: Seq<char>) -> Seq<char>
    decreases s.len(),
{
    if s.len() == 0 {
        Seq::empty()
    } else {
        nsis_escaped(s.drop_last()) + nsis_entity(s.last())
    }
}

/// Escape XML special characters for safe interpolation into XML documents.
pub fn escape_xml(s: &str) -> (r: String)
    ensures
        r@ == xml_escaped(s@),
{
    let v = chars_of(s);
    let mut r: String = String::new();
    let mut i: usize = 0;
    while i < v.len()
        invariant
            i <= v@.len(),
            r@ == xml_escaped(v@.take(i as int)),
        decreases v@.len() - i,
    {
        let c = v[i];
        let ghost done = r@;
        if c == '&' {
            r.append("&amp;");
        } else if c == '<' {
            r.append("&lt;");
        } else if c == '>' {
            r.append("&gt;");
        } else if c == '"' {
            r.append("&quot;");
        } else if c == '\'' {
            r.append("&apos;");
        } else {
            r.push(c);
        }
        assert(r@ =~= done + xml_entity(c));
        assert(v@.take(i + 1).drop_last() =~= v@.take(i as int));
        i = i + 1;
    }
    assert(v@.take(v@.len() as int) =~= v@);
    r
}

/// Escape a string for safe interpolation into NSIS scripts.
/// NSIS uses `$\"` for literal double quotes and `$$` for literal `$`.
pub fn escape_nsis(s: &str) -> (r: String)
    ensures
        r@ == nsis_escaped(s@),
{
    let v = chars_of(s);
    let mut r: String = String::new();
    let mut i: usize = 0;
    while i < v.len()
        invariant
            i <= v@.len(),
            r@ == nsis_escaped(v@.take(i as int)),
        decreases v@.len() - i,
    {
        let c = v[i];
        let ghost done = r@;
        if c == '$' {
            r.append("$$");
        } else if c == '"' {
            r.append("$\\\"");
        } else if c == '\n' || c == '\r' {
        } else {
            r.push(c);
        }
        assert(r@ =~= done + nsis_entity(c));
        assert(v@.take(i + 1).drop_last() =~= v@.take(i as int));
        i = i + 1;
    }
    assert(v@.take(v@.len() as int) =~= v@);
    r
}

/// Whether a character would end or begin markup inside an XML document.
pub open spec fn is_markup(c: char) -> bool {
    c == '<' || c == '>' || c == '"' || c == '\''
}

proof fn lemma_xml_entity_is_inert(c: char, i: int)
    requires
        0 <= i < xml_entity(c).len(),
    ensures
        !is_markup(xml_entity(c)[i]),
{
    reveal_strlit("&amp;");
    reveal_strlit("&lt;");
    reveal_strlit("&gt;");
    reveal_strlit("&quot;");
    reveal_strlit("&apos;");
}

/// Escaped text holds no character that could end or begin markup.
pub proof fn lemma_xml_escaped_is_inert(s: Seq<char>)
    ensures
        forall|i: int| 0 <= i < xml_escaped(s).len() ==> !is_markup(#[trigger] xml_escaped(s)[i]),
    decreases s.len(),
{
    if s.len() > 0 {
        let head = xml_escaped(s.drop_last());
        lemma_xml_escaped_is_inert(s.drop_last());
        assert forall|i: int| 0 <= i < xml_escaped(s).len() implies !is_markup(
            #[trigger] xml_escaped(s)[i],
        ) by {
            if i < head.len() {
                assert(xml_escaped(s)[i] == head[i]);
            } else {
                lemma_xml_entity_is_inert(s.last(), i - head.len());
            }
        }
    }
}

/// What a reader of XML makes of escaped text: each of the five entities
/// stands for its character, every other character for itself.
pub open spec fn xml_read(s: Seq<char>) -> Seq<char>
    decreases s.len(),
{
    if s.len() == 0 {
        Seq::empty()
    } else if begins_with(s, "&amp;"@) && "&amp;"@.len() > 0 {
        seq!['&'] + xml_read(s.skip("&amp;"@.len() as int))
    } else if begins_with(s, "&lt;"@) && "&lt;"@.len() > 0 {
        seq!['<'] + xml_read(s.skip("&lt;"@.len() as int))
    } else if begins_with(s, "&gt;"@) && "&gt;"@.len() > 0 {
        seq!['>'] + xml_read(s.skip("&gt;"@.len() as int))
    } else if begins_with(s, "&quot;"@) && "&quot;"@.len() > 0 {
        seq!['"'] + xml_read(s.skip("&quot;"@.len() as int))
    } else if begins_with(s, "&apos;"@) && "&apos;"@.len() > 0 {
        seq!['\''] + xml_read(s.skip("&apos;"@.len() as int))
    } else {
        seq![s[0]] + xml_read(s.skip(1))
    }
}

proof fn lemma_xml_escaped_from_left(s: Seq<char>)
    requires
        s.len() > 0,
    ensures
        xml_escaped(s) == xml_entity(s[0]) + xml_escaped(s.drop_first()),
    decreases s.len(),
{
    if s.len() == 1 {
        assert(s.drop_last() =~= Seq::empty());
        assert(s.drop_first() =~= Seq::empty());
        assert(xml_escaped(s) =~= xml_entity(s[0]) + xml_escaped(s.drop_first()));
    } else {
        lemma_xml_escaped_from_left(s.drop_last());
        assert(s.drop_last().drop_first() =~= s.drop_first().drop_last());
        assert(xml_escaped(s) =~= xml_entity(s[0]) + xml_escaped(s.drop_first()));
    }
}

proof fn lemma_differs_at(s: Seq<char>, p: Seq<char>, i: int)
    requires
        0 <= i < p.len(),
        i < s.len() ==> s[i] != p[i],
    ensures
        !begins_with(s, p),
{
    if p.len() <= s.len() {
        assert(s.take(p.len() as int)[i] == s[i]);
    }
}

proof fn lemma_xml_read_step(c: char, rest: Seq<char>)
    ensures
        xml_read(xml_entity(c) + rest) == seq![c] + xml_read(rest),
{
    reveal_strlit("&amp;");
    reveal_strlit("&lt;");
    reveal_strlit("&gt;");
    reveal_strlit("&quot;");
    reveal_strlit("&apos;");
    let e = xml_entity(c);
    let all = e + rest;
    assert(all.take(e.len() as int) =~= e);
    assert(all.skip(e.len() as int) =~= rest);
    if c == '&' {
    } else if c == '<' {
        lemma_differs_at(all, "&amp;"@, 1);
    } else if c == '>' {
        lemma_differs_at(all, "&amp;"@, 1);
        lemma_differs_at(all, "&lt;"@, 1);
    } else if c == '"' {
        lemma_differs_at(all, "&amp;"@, 1);
        lemma_differs_at(all, "&lt;"@, 1);
        lemma_differs_at(all, "&gt;"@, 1);
    } else if c == '\'' {
        lemma_differs_at(all, "&amp;"@, 2);
        lemma_differs_at(all, "&lt;"@, 1);
        lemma_differs_at(all, "&gt;"@, 1);
        lemma_differs_at(all, "&quot;"@, 1);
    } else {
        lemma_differs_at(all, "&amp;"@, 0);
        lemma_differs_at(all, "&lt;"@, 0);
        lemma_differs_at(all, "&gt;"@, 0);
        lemma_differs_at(all, "&quot;"@, 0);
        lemma_differs_at(all, "&apos;"@, 0);
    }
}

/// Reading escaped text gives back the text that was escaped.
pub proof fn lemma_xml_escape_is_undone(s: Seq<char>)
    ensures
        xml_read(xml_escaped(s)) == s,
    decreases s.len(),
{
    if s.len() > 0 {
        lemma_xml_escaped_from_left(s);
        lemma_xml_escape_is_undone(s.drop_first());
        lemma_xml_read_step(s[0], xml_escaped(s.drop_first()));
        assert(seq![s[0]] + s.drop_first() =~= s);
    } else {
        assert(s =~= Seq::empty());
    }
}

/// Escaped text fits on one line of an NSIS script, and each double quote in
/// it is the end of an escape.
pub proof fn lemma_nsis_escaped_is_inert(s: Seq<char>)
    ensures
        forall|i: int|
            0 <= i < nsis_escaped(s).len() ==> #[trigger] nsis_escaped(s)[i] != '\n'
                && nsis_escaped(s)[i] != '\r',
        forall|i: int|
            0 <= i < nsis_escaped(s).len() && #[trigger] nsis_escaped(s)[i] == '"' ==> i >= 2
                && nsis_escaped(s)[i - 1] == '\\' && nsis_escaped(s)[i - 2] == '$',
    decreases s.len(),
{
    if s.len() > 0 {
        lemma_nsis_escaped_is_inert(s.drop_last());
        reveal_strlit("$$");
        reveal_strlit("$\\\"");
        let head = nsis_escaped(s.drop_last());
        let all = nsis_escaped(s);
        assert forall|i: int| 0 <= i < all.len() && #[trigger] all[i] == '"' implies i >= 2 && all[i
            - 1] == '\\' && all[i - 2] == '$' by {
            if i < head.len() {
                assert(head[i] == '"');
            }
        }
    }
}

/// The text without its line breaks.
pub open spec fn on_one_line(s: Seq<char>) -> Seq<char>
    decreases s.len(),
{
    if s.len() == 0 {
        Seq::empty()
    } else if s[0] == '\n' || s[0] == '\r' {
        on_one_line(s.drop_first())
    } else {
        seq![s[0]] + on_one_line(s.drop_first())
    }
}

/// What NSIS makes of escaped text: `$$` stands for a dollar sign, `$\"` for a
/// double quote, every other character for itself.
pub open spec fn nsis_read(s: Seq<char>) -> Seq<char>
    decreases s.len(),
{
    if s.len() == 0 {
        Seq::empty()
    } else if begins_with(s, "$$"@) && "$$"@.len() > 0 {
        seq!['$'] + nsis_read(s.skip("$$"@.len() as int))
    } else if begins_with(s, "$\\\""@) && "$\\\""@.len() > 0 {
        seq!['"'] + nsis_read(s.skip("$\\\""@.len() as int))
    } else {
        seq![s[0]] + nsis_read(s.skip(1))
    }
}

proof fn lemma_nsis_escaped_from_left(s: Seq<char>)
    requires
        s.len() > 0,
    ensures
        nsis_escaped(s) == nsis_entity(s[0]) + nsis_escaped(s.drop_first()),
    decreases s.len(),
{
    if s.len() == 1 {
        assert(s.drop_last() =~= Seq::empty());
        assert(s.drop_first() =~= Seq::empty());
        assert(nsis_escaped(s) =~= nsis_entity(s[0]) + nsis_escaped(s.drop_first()));
    } else {
        lemma_nsis_escaped_from_left(s.drop_last());
        assert(s.drop_last().drop_first() =~= s.drop_first().drop_last());
        assert(nsis_escaped(s) =~= nsis_entity(s[0]) + nsis_escaped(s.drop_first()));
    }
}

/// Reading escaped text gives back the text that was escaped, on one line.
pub proof fn lemma_nsis_escape_is_undone(s: Seq<char>)
    ensures
        nsis_read(nsis_escaped(s)) == on_one_line(s),
    decreases s.len(),
{
    if s.len() > 0 {
        lemma_nsis_escaped_from_left(s);
        lemma_nsis_escape_is_undone(s.drop_first());
        reveal_strlit("$$");
        reveal_strlit("$\\\"");
        let e = nsis_entity(s[0]);
        let rest = nsis_escaped(s.drop_first());
        let all = nsis_escaped(s);
        if s[0] == '\n' || s[0] == '\r' {
            assert(all =~= rest);
        } else {
            assert(all.take(e.len() as int) =~= e);
            assert(all.skip(e.len() as int) =~= rest);
            assert(all[0] == e[0]);
            assert(all.len() >= 2 ==> all.take(2)[0] == all[0] && all.take(2)[1] == all[1]);
            assert(all.len() >= 3 ==> all.take(3)[0] == all[0] && all.take(3)[1] == all[1]);
        }
    }
}

/// A name without special characters is written as it is, in XML and in NSIS.
pub proof fn lemma_plain_names_are_not_escaped(s: Seq<char>)
    requires
        forall|i: int|
            0 <= i < s.len() ==> app_name_char(#[trigger] s[i]) || identifier_char(s[i]),
    ensures
        xml_escaped(s) == s,
        nsis_escaped(s) == s,
    decreases s.len(),
{
    if s.len() > 0 {
        assert(app_name_char(s.last()) || identifier_char(s.last()));
        assert forall|i: int| 0 <= i < s.drop_last().len() implies app_name_char(
            #[trigger] s.drop_last()[i],
        ) || identifier_char(s.drop_last()[i]) by {
            assert(app_name_char(s[i]) || identifier_char(s[i]));
        }
        lemma_plain_names_are_not_escaped(s.drop_last());
        assert(s.drop_last() + seq![s.last()] =~= s);
    } else {
        assert(s =~= Seq::empty());
    }
}

/// A manifest that passes is safe to use in paths: the name of the
/// application is one plain part of a path under either rules, and the entry
/// and the icon stay below the project.
pub proof fn lemma_accepted_manifest_is_safe(m: BuildManifest, style: PathStyle)
    requires
        manifest_verdict(m, style) is Ok,
    ensures
        0 < m.app_name@.len(),
        encode_utf8(m.app_name@).len() <= 200,
        forall|i: int|
            0 <= i < m.app_name@.len() ==> #[trigger] m.app_name@[i] != '/' && m.app_name@[i]
                != '\\' && m.app_name@[i] != ':' && m.app_name@[i] != '.',
        0 < m.bundle_id@.len() && all_identifier_chars(m.bundle_id@),
        0 < m.version@.len() && all_version_chars(m.version@),
        0 < m.entry@.len() && stays_below(m.entry@, style),
        opt_text(m.icon) matches Some(icon) ==> stays_below(icon, style),
{
    assert forall|i: int| 0 <= i < m.app_name@.len() implies #[trigger] m.app_name@[i] != '/'
        && m.app_name@[i] != '\\' && m.app_name@[i] != ':' && m.app_name@[i] != '.' by {
        assert(app_name_char(m.app_name@[i]));
    }
}

} // verus!
