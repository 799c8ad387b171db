//! What an installer's script does, read line by line.
use crate::build::validate::{lemma_nsis_escaped_is_inert, nsis_escaped};
use crate::package::nsis::{backslashed, generate_nsis_script, is_installed, nsis_script};
use crate::package::script_lines::{
    file_row, head_lines, installed, lemma_script_lines, middle_lines, one_line, removal_row,
    tail_lines,
};
use crate::queue::job::BuildManifest;
use crate::text::{ends_with, or_text, pieces, texts};
use vstd::prelude::*;

verus! {

/// The lines of a script.
pub open spec fn lines_of(script: Seq<char>) -> Seq<Seq<char>> {
    pieces(script, '\n')
}

/// Whether a line begins with a word.
pub open spec fn begins(line: Seq<char>, word: Seq<char>) -> bool {
    line.len() >= word.len() && line.take(word.len() as int) == word
}

/// The line that makes a shortcut.
pub open spec fn makes_shortcut(link: Seq<char>, target: Seq<char>) -> Seq<char> {
    "  CreateShortcut \""@ + link + "\" \""@ + target + "\""@
}

/// The line that removes a file.
pub open spec fn removes(file: Seq<char>) -> Seq<char> {
    "  Delete \""@ + file + "\""@
}

/// Whether the paths that a script is made of fit on a line each.
pub open spec fn fit_on_lines(dir: Seq<char>, output: Seq<char>, files: Seq<Seq<char>>) -> bool {
    &&& one_line(dir)
    &&& one_line(output)
    &&& forall|k: int| 0 <= k < files.len() ==> one_line(#[trigger] files[k])
}

// ---------------------------------------------------------------------------
// Where lines stand
// ---------------------------------------------------------------------------

proof fn lemma_differs(line: Seq<char>, word: Seq<char>, i: int)
    requires
        0 <= i < word.len(),
        i < line.len(),
        line[i] != word[i],
    ensures
        !begins(line, word),
{
    if begins(line, word) {
        assert(line.take(word.len() as int)[i] == line[i]);
    }
}

proof fn lemma_backslashed_fits(s: Seq<char>)
    requires
        one_line(s),
    ensures
        one_line(backslashed(s)),
{
    assert forall|i: int| 0 <= i < s.len() implies #[trigger] backslashed(s)[i] != '\n' by {
        assert(s[i] != '\n');
    }
}

/// The five parts of a script.
proof fn lemma_parts(m: BuildManifest, dir: Seq<char>, output: Seq<char>, files: Seq<Seq<char>>)
    requires
        fit_on_lines(dir, output, files),
    ensures
        ({
            let app = nsis_escaped(m.app_name@);
            let version = nsis_escaped(m.version@);
            let company = nsis_escaped(or_text(m.windows_company_name, ""@));
            lines_of(nsis_script(m, dir, output, files)) == (head_lines(app, backslashed(output))
                + installed(files).map_values(|name: Seq<char>| file_row(backslashed(dir), name))
                + middle_lines(app, version, company) + installed(files).map_values(
                |name: Seq<char>| removal_row(name),
            ) + tail_lines(app)).push(Seq::empty())
        }),
{
    lemma_nsis_escaped_is_inert(m.app_name@);
    lemma_nsis_escaped_is_inert(m.version@);
    lemma_nsis_escaped_is_inert(or_text(m.windows_company_name, ""@));
    lemma_backslashed_fits(dir);
    lemma_backslashed_fits(output);
    lemma_script_lines(
        nsis_escaped(m.app_name@),
        nsis_escaped(m.version@),
        nsis_escaped(or_text(m.windows_company_name, ""@)),
        backslashed(output),
        backslashed(dir),
        files,
    );
}

/// The lines of the parts, by number.
proof fn lemma_lines_by_number(
    m: BuildManifest,
    dir: Seq<char>,
    output: Seq<char>,
    files: Seq<Seq<char>>,
)
    requires
        fit_on_lines(dir, output, files),
    ensures
        ({
            let app = nsis_escaped(m.app_name@);
            let version = nsis_escaped(m.version@);
            let company = nsis_escaped(or_text(m.windows_company_name, ""@));
            let head = head_lines(app, backslashed(output));
            let middle = middle_lines(app, version, company);
            let tail = tail_lines(app);
            let n = installed(files).len() as int;
            let lines = lines_of(nsis_script(m, dir, output, files));
            &&& lines.len() == 49 + 2 * n
            &&& forall|i: int| 0 <= i < 14 ==> lines[i] == #[trigger] head[i]
            &&& forall|i: int|
                0 <= i < n ==> #[trigger] lines[14 + i] == file_row(
                    backslashed(dir),
                    installed(files)[i],
                )
            &&& forall|i: int| 0 <= i < 19 ==> lines[14 + n + i] == #[trigger] middle[i]
            &&& forall|i: int|
                0 <= i < n ==> #[trigger] lines[33 + n + i] == removal_row(installed(files)[i])
            &&& forall|i: int| 0 <= i < 15 ==> lines[33 + 2 * n + i] == #[trigger] tail[i]
            &&& lines.last() == Seq::<char>::empty()
        }),
{
    lemma_parts(m, dir, output, files);
}

/// An installed file is a file of the bundle, and no manifest of an executable.
proof fn lemma_installed_files(files: Seq<Seq<char>>)
    ensures
        forall|i: int|
            0 <= i < installed(files).len() ==> files.contains(#[trigger] installed(files)[i])
                && !ends_with(installed(files)[i], ".exe.manifest"@),
        forall|k: int|
            0 <= k < files.len() && !ends_with(#[trigger] files[k], ".exe.manifest"@)
                ==> installed(files).contains(files[k]),
    decreases files.len(),
{
    reveal(Seq::filter);
    if files.len() > 0 {
        let rest = files.drop_last();
        let name = files.last();
        lemma_installed_files(rest);
        if is_installed(name) {
            assert(installed(files) =~= installed(rest).push(name));
        } else {
            assert(installed(files) =~= installed(rest));
        }
        assert forall|i: int| 0 <= i < installed(files).len() implies files.contains(
            #[trigger] installed(files)[i],
        ) && !ends_with(installed(files)[i], ".exe.manifest"@) by {
            if i < installed(rest).len() {
                assert(installed(files)[i] == installed(rest)[i]);
                assert(rest.contains(installed(rest)[i]));
                let k = choose|k: int| 0 <= k < rest.len() && rest[k] == installed(rest)[i];
                assert(files[k] == installed(rest)[i]);
            } else {
                assert(installed(files)[i] == files[files.len() - 1]);
            }
        }
        assert forall|k: int|
            0 <= k < files.len() && !ends_with(#[trigger] files[k], ".exe.manifest"@) implies installed(
            files,
        ).contains(files[k]) by {
            if k < rest.len() {
                assert(rest[k] == files[k]);
                assert(installed(rest).contains(rest[k]));
                let i = choose|i: int|
                    0 <= i < installed(rest).len() && installed(rest)[i] == rest[k];
                assert(installed(files)[i] == files[k]);
            } else {
                assert(installed(files)[installed(files).len() - 1] == name);
            }
        }
    }
}

// ---------------------------------------------------------------------------
// What lines begin with
// ---------------------------------------------------------------------------

proof fn lemma_words_of_files(dir: Seq<char>, name: Seq<char>)
    ensures
        !begins(file_row(dir, name), "  CreateShortcut "@),
        !begins(removal_row(name), "  CreateShortcut "@),
        !begins(removal_row(name), "  File "@),
{
    reveal_strlit("  CreateShortcut ");
    reveal_strlit("  File ");
    reveal_strlit("  File \"");
    reveal_strlit("  Delete \"$INSTDIR\\");
    lemma_differs(file_row(dir, name), "  CreateShortcut "@, 2);
    lemma_differs(removal_row(name), "  CreateShortcut "@, 2);
    lemma_differs(removal_row(name), "  File "@, 2);
}

proof fn lemma_words_of_head(app: Seq<char>, output: Seq<char>)
    ensures
        head_lines(app, output).len() == 14,
        forall|k: int|
            0 <= k < 14 ==> !begins(#[trigger] head_lines(app, output)[k], "  CreateShortcut "@),
        forall|k: int| 0 <= k < 14 ==> !begins(#[trigger] head_lines(app, output)[k], "  File "@),
{
    reveal_strlit("  CreateShortcut ");
    reveal_strlit("  File ");
    reveal_strlit("!include \"MUI2.nsh\"");
    reveal_strlit("Name \"");
    reveal_strlit("OutFile \"");
    reveal_strlit("InstallDir \"$PROGRAMFILES64\\");
    reveal_strlit("InstallDirRegKey HKLM \"Software\\");
    reveal_strlit("RequestExecutionLevel admin");
    reveal_strlit("!insertmacro MUI_PAGE_DIRECTORY");
    reveal_strlit("!insertmacro MUI_PAGE_INSTFILES");
    reveal_strlit("!insertmacro MUI_LANGUAGE \"English\"");
    reveal_strlit("Section \"Install\"");
    reveal_strlit("  SetOutPath \"$INSTDIR\"");
    let lines = head_lines(app, output);
    lemma_differs(lines[0], "  CreateShortcut "@, 0);
    lemma_differs(lines[0], "  File "@, 0);
    lemma_differs(lines[2], "  CreateShortcut "@, 0);
    lemma_differs(lines[2], "  File "@, 0);
    lemma_differs(lines[3], "  CreateShortcut "@, 0);
    lemma_differs(lines[3], "  File "@, 0);
    lemma_differs(lines[4], "  CreateShortcut "@, 0);
    lemma_differs(lines[4], "  File "@, 0);
    lemma_differs(lines[5], "  CreateShortcut "@, 0);
    lemma_differs(lines[5], "  File "@, 0);
    lemma_differs(lines[6], "  CreateShortcut "@, 0);
    lemma_differs(lines[6], "  File "@, 0);
    lemma_differs(lines[8], "  CreateShortcut "@, 0);
    lemma_differs(lines[8], "  File "@, 0);
    lemma_differs(lines[9], "  CreateShortcut "@, 0);
    lemma_differs(lines[9], "  File "@, 0);
    lemma_differs(lines[10], "  CreateShortcut "@, 0);
    lemma_differs(lines[10], "  File "@, 0);
    lemma_differs(lines[12], "  CreateShortcut "@, 0);
    lemma_differs(lines[12], "  File "@, 0);
    lemma_differs(lines[13], "  CreateShortcut "@, 2);
    lemma_differs(lines[13], "  File "@, 2);
}

proof fn lemma_words_of_middle(app: Seq<char>, version: Seq<char>, company: Seq<char>)
    ensures
        middle_lines(app, version, company).len() == 19,
        forall|k: int|
            0 <= k < 19 && k != 3 && k != 4 ==> !begins(
                #[trigger] middle_lines(app, version, company)[k],
                "  CreateShortcut "@,
            ),
        forall|k: int| 0 <= k < 19 ==> !begins(#[trigger] middle_lines(app, version, company)[k], "  File "@),
{
    reveal_strlit("  CreateShortcut ");
    reveal_strlit("  File ");
    reveal_strlit("  ; Create Start Menu shortcut");
    reveal_strlit("  CreateDirectory \"$SMPROGRAMS\\");
    reveal_strlit("  CreateShortcut \"$SMPROGRAMS\\");
    reveal_strlit("  CreateShortcut \"$DESKTOP\\");
    reveal_strlit("  ; Write uninstaller");
    reveal_strlit("  WriteUninstaller \"$INSTDIR\\Uninstall.exe\"");
    reveal_strlit("  ; Add/Remove Programs registry entries");
    reveal_strlit("  WriteRegStr HKLM \"Software\\Microsoft\\Windows\\CurrentVersion\\Uninstall\\");
    reveal_strlit("  WriteRegDWORD HKLM \"Software\\Microsoft\\Windows\\CurrentVersion\\Uninstall\\");
    reveal_strlit("SectionEnd");
    reveal_strlit("Section \"Uninstall\"");
    let lines = middle_lines(app, version, company);
    lemma_differs(lines[1], "  CreateShortcut "@, 2);
    lemma_differs(lines[1], "  File "@, 2);
    lemma_differs(lines[2], "  CreateShortcut "@, 8);
    lemma_differs(lines[2], "  File "@, 2);
    lemma_differs(lines[3], "  File "@, 2);
    lemma_differs(lines[4], "  File "@, 2);
    lemma_differs(lines[6], "  CreateShortcut "@, 2);
    lemma_differs(lines[6], "  File "@, 2);
    lemma_differs(lines[7], "  CreateShortcut "@, 2);
    lemma_differs(lines[7], "  File "@, 2);
    lemma_differs(lines[9], "  CreateShortcut "@, 2);
    lemma_differs(lines[9], "  File "@, 2);
    lemma_differs(lines[10], "  CreateShortcut "@, 2);
    lemma_differs(lines[10], "  File "@, 2);
    lemma_differs(lines[11], "  CreateShortcut "@, 2);
    lemma_differs(lines[11], "  File "@, 2);
    lemma_differs(lines[12], "  CreateShortcut "@, 2);
    lemma_differs(lines[12], "  File "@, 2);
    lemma_differs(lines[13], "  CreateShortcut "@, 2);
    lemma_differs(lines[13], "  File "@, 2);
    lemma_differs(lines[14], "  CreateShortcut "@, 2);
    lemma_differs(lines[14], "  File "@, 2);
    lemma_differs(lines[15], "  CreateShortcut "@, 2);
    lemma_differs(lines[15], "  File "@, 2);
    lemma_differs(lines[16], "  CreateShortcut "@, 0);
    lemma_differs(lines[16], "  File "@, 0);
    lemma_differs(lines[18], "  CreateShortcut "@, 0);
    lemma_differs(lines[18], "  File "@, 0);
}

proof fn lemma_words_of_tail(app: Seq<char>)
    ensures
        tail_lines(app).len() == 15,
        forall|k: int|
            0 <= k < 15 ==> !begins(#[trigger] tail_lines(app)[k], "  CreateShortcut "@),
        forall|k: int| 0 <= k < 15 ==> !begins(#[trigger] tail_lines(app)[k], "  File "@),
{
    reveal_strlit("  CreateShortcut ");
    reveal_strlit("  File ");
    reveal_strlit("  Delete \"$INSTDIR\\Uninstall.exe\"");
    reveal_strlit("  ; Remove shortcuts");
    reveal_strlit("  Delete \"$SMPROGRAMS\\");
    reveal_strlit("  RMDir \"$SMPROGRAMS\\");
    reveal_strlit("  Delete \"$DESKTOP\\");
    reveal_strlit("  ; Remove install directory");
    reveal_strlit("  RMDir \"$INSTDIR\"");
    reveal_strlit("  ; Remove registry keys");
    reveal_strlit("  DeleteRegKey HKLM \"Software\\Microsoft\\Windows\\CurrentVersion\\Uninstall\\");
    reveal_strlit("  DeleteRegKey HKLM \"Software\\");
    reveal_strlit("SectionEnd");
    let lines = tail_lines(app);
    lemma_differs(lines[1], "  CreateShortcut "@, 2);
    lemma_differs(lines[1], "  File "@, 2);
    lemma_differs(lines[3], "  CreateShortcut "@, 2);
    lemma_differs(lines[3], "  File "@, 2);
    lemma_differs(lines[4], "  CreateShortcut "@, 2);
    lemma_differs(lines[4], "  File "@, 2);
    lemma_differs(lines[5], "  CreateShortcut "@, 2);
    lemma_differs(lines[5], "  File "@, 2);
    lemma_differs(lines[6], "  CreateShortcut "@, 2);
    lemma_differs(lines[6], "  File "@, 2);
    lemma_differs(lines[8], "  CreateShortcut "@, 2);
    lemma_differs(lines[8], "  File "@, 2);
    lemma_differs(lines[9], "  CreateShortcut "@, 2);
    lemma_differs(lines[9], "  File "@, 2);
    lemma_differs(lines[11], "  CreateShortcut "@, 2);
    lemma_differs(lines[11], "  File "@, 2);
    lemma_differs(lines[12], "  CreateShortcut "@, 2);
    lemma_differs(lines[12], "  File "@, 2);
    lemma_differs(lines[13], "  CreateShortcut "@, 2);
    lemma_differs(lines[13], "  File "@, 2);
    lemma_differs(lines[14], "  CreateShortcut "@, 0);
    lemma_differs(lines[14], "  File "@, 0);
}

// ---------------------------------------------------------------------------
// The laws
// ---------------------------------------------------------------------------

/// The two links to an application.
pub open spec fn links(app: Seq<char>) -> (Seq<char>, Seq<char>) {
    ("$SMPROGRAMS\\"@ + app + "\\"@ + app + ".lnk"@, "$DESKTOP\\"@ + app + ".lnk"@)
}

proof fn lemma_shortcut_rows(app: Seq<char>, version: Seq<char>, company: Seq<char>)
    ensures
        middle_lines(app, version, company)[3] == makes_shortcut(
            links(app).0,
            "$INSTDIR\\"@ + app + ".exe"@,
        ),
        middle_lines(app, version, company)[4] == makes_shortcut(
            links(app).1,
            "$INSTDIR\\"@ + app + ".exe"@,
        ),
{
    lemma_shortcut_text();
    let target = "$INSTDIR\\"@ + app + ".exe"@;
    assert(middle_lines(app, version, company)[3] =~= makes_shortcut(links(app).0, target));
    assert(middle_lines(app, version, company)[4] =~= makes_shortcut(links(app).1, target));
}

proof fn lemma_shortcut_text()
    ensures
        "  CreateShortcut \"$SMPROGRAMS\\"@ == "  CreateShortcut \""@ + "$SMPROGRAMS\\"@,
        "  CreateShortcut \"$DESKTOP\\"@ == "  CreateShortcut \""@ + "$DESKTOP\\"@,
        ".lnk\" \"$INSTDIR\\"@ == ".lnk"@ + "\" \""@ + "$INSTDIR\\"@,
        ".exe\""@ == ".exe"@ + "\""@,
{
    reveal_strlit("  CreateShortcut \"$SMPROGRAMS\\");
    reveal_strlit("  CreateShortcut \"$DESKTOP\\");
    reveal_strlit("  CreateShortcut \"");
    reveal_strlit("$SMPROGRAMS\\");
    reveal_strlit("$DESKTOP\\");
    reveal_strlit("$INSTDIR\\");
    reveal_strlit(".lnk\" \"$INSTDIR\\");
    reveal_strlit("\" \"");
    reveal_strlit(".lnk");
    reveal_strlit(".exe\"");
    reveal_strlit(".exe");
    reveal_strlit("\"");
    assert("  CreateShortcut \"$SMPROGRAMS\\"@ =~= "  CreateShortcut \""@ + "$SMPROGRAMS\\"@);
    assert("  CreateShortcut \"$DESKTOP\\"@ =~= "  CreateShortcut \""@ + "$DESKTOP\\"@);
    assert(".lnk\" \"$INSTDIR\\"@ =~= ".lnk"@ + "\" \""@ + "$INSTDIR\\"@);
    assert(".exe\""@ =~= ".exe"@ + "\""@);
}

proof fn lemma_link_rows(app: Seq<char>)
    ensures
        tail_lines(app)[4] == removes(links(app).0),
        tail_lines(app)[6] == removes(links(app).1),
        tail_lines(app)[1] == removes("$INSTDIR\\Uninstall.exe"@),
{
    reveal_strlit("  Delete \"$SMPROGRAMS\\");
    reveal_strlit("  Delete \"$DESKTOP\\");
    reveal_strlit("  Delete \"$INSTDIR\\Uninstall.exe\"");
    reveal_strlit("$INSTDIR\\Uninstall.exe");
    reveal_strlit("  Delete \"");
    reveal_strlit("$SMPROGRAMS\\");
    reveal_strlit("$DESKTOP\\");
    reveal_strlit(".lnk\"");
    reveal_strlit(".lnk");
    reveal_strlit("\"");
    assert("  Delete \"$SMPROGRAMS\\"@ =~= "  Delete \""@ + "$SMPROGRAMS\\"@);
    assert("  Delete \"$DESKTOP\\"@ =~= "  Delete \""@ + "$DESKTOP\\"@);
    assert(".lnk\""@ =~= ".lnk"@ + "\""@);
    assert(tail_lines(app)[4] =~= removes(links(app).0));
    assert(tail_lines(app)[6] =~= removes(links(app).1));
    assert(tail_lines(app)[1] =~= removes("$INSTDIR\\Uninstall.exe"@));
}

/// Only two lines make shortcuts.
proof fn lemma_shortcut_lines(
    m: BuildManifest,
    dir: Seq<char>,
    output: Seq<char>,
    files: Seq<Seq<char>>,
    k: int,
)
    requires
        fit_on_lines(dir, output, files),
        0 <= k < lines_of(nsis_script(m, dir, output, files)).len(),
        begins(lines_of(nsis_script(m, dir, output, files))[k], "  CreateShortcut "@),
    ensures
        k == 17 + installed(files).len() || k == 18 + installed(files).len(),
{
    let app = nsis_escaped(m.app_name@);
    let version = nsis_escaped(m.version@);
    let company = nsis_escaped(or_text(m.windows_company_name, ""@));
    let lines = lines_of(nsis_script(m, dir, output, files));
    let n = installed(files).len() as int;
    lemma_lines_by_number(m, dir, output, files);
    if k < 14 {
        lemma_words_of_head(app, backslashed(output));
        assert(lines[k] == head_lines(app, backslashed(output))[k]);
    } else if k < 14 + n {
        assert(lines[14 + (k - 14)] == lines[k]);
        lemma_words_of_files(backslashed(dir), installed(files)[k - 14]);
    } else if k < 33 + n {
        lemma_words_of_middle(app, version, company);
        assert(lines[k] == middle_lines(app, version, company)[k - (14 + n)]);
    } else if k < 33 + 2 * n {
        assert(lines[33 + n + (k - (33 + n))] == lines[k]);
        lemma_words_of_files(backslashed(dir), installed(files)[k - (33 + n)]);
    } else if k < 48 + 2 * n {
        lemma_words_of_tail(app);
        assert(lines[k] == tail_lines(app)[k - (33 + 2 * n)]);
    } else {
        reveal_strlit("  CreateShortcut ");
        assert(lines[k] == lines.last());
    }
}

/// Every shortcut that a script makes starts the executable of the application,
/// in the directory that the application is installed into, and is removed under
/// the same name when the application is. There is one in the start menu and one
/// on the desktop.
#[verifier::spinoff_prover]
#[verifier::rlimit(40)]
pub proof fn lemma_shortcuts_start_the_application(
    m: &BuildManifest,
    dir: &str,
    output: &str,
    files: &Vec<String>,
    script: String,
) -> (uninstall: int)
    requires
        call_ensures(generate_nsis_script, (m, dir, output, files), script),
        fit_on_lines(dir@, output@, texts(files@)),
    ensures
        ({
            let app = nsis_escaped(m.app_name@);
            let target = "$INSTDIR\\"@ + app + ".exe"@;
            let lines = lines_of(script@);
            let gone = lines.skip(uninstall);
            &&& 0 <= uninstall < lines.len()
            &&& lines[uninstall] == "Section \"Uninstall\""@
            &&& forall|k: int|
                0 <= k < lines.len() && begins(#[trigger] lines[k], "  CreateShortcut "@) ==> k
                    < uninstall && exists|link: Seq<char>|
                    lines[k] == #[trigger] makes_shortcut(link, target) && gone.contains(
                        removes(link),
                    )
            &&& lines.take(uninstall).contains(makes_shortcut(links(app).0, target))
            &&& lines.take(uninstall).contains(makes_shortcut(links(app).1, target))
            &&& lines.take(uninstall).contains(
                "  CreateDirectory \"$SMPROGRAMS\\"@ + app + "\""@,
            )
            &&& gone.contains("  RMDir \"$SMPROGRAMS\\"@ + app + "\""@)
        }),
{
    let names = texts(files@);
    let app = nsis_escaped(m.app_name@);
    let version = nsis_escaped(m.version@);
    let company = nsis_escaped(or_text(m.windows_company_name, ""@));
    let target = "$INSTDIR\\"@ + app + ".exe"@;
    let lines = lines_of(script@);
    let n = installed(names).len() as int;
    let uninstall = 32 + n;
    let gone = lines.skip(uninstall);
    let made = lines.take(uninstall);
    let middle = middle_lines(app, version, company);
    let tail = tail_lines(app);
    lemma_lines_by_number(*m, dir@, output@, names);
    lemma_shortcut_rows(app, version, company);
    lemma_link_rows(app);
    assert(lines[uninstall] == middle[18]);
    assert(made[17 + n] == middle[3]);
    assert(made[18 + n] == middle[4]);
    assert(made[16 + n] == middle[2]);
    assert(lines[33 + 2 * n + 4] == tail[4]);
    assert(lines[33 + 2 * n + 5] == tail[5]);
    assert(lines[33 + 2 * n + 6] == tail[6]);
    assert(gone[1 + n + 4] == tail[4]);
    assert(gone[1 + n + 5] == tail[5]);
    assert(gone[1 + n + 6] == tail[6]);
    assert(gone.contains(removes(links(app).0)));
    assert(gone.contains(removes(links(app).1)));
    assert forall|k: int|
        0 <= k < lines.len() && begins(#[trigger] lines[k], "  CreateShortcut "@) implies k
        < uninstall && exists|link: Seq<char>|
        lines[k] == #[trigger] makes_shortcut(link, target) && gone.contains(removes(link)) by {
        lemma_shortcut_lines(*m, dir@, output@, names, k);
        if k == 17 + n {
            assert(lines[k] == makes_shortcut(links(app).0, target));
        } else {
            assert(lines[k] == makes_shortcut(links(app).1, target));
        }
    }
    uninstall
}

/// A script installs the files of the bundle, each from the directory of the
/// bundle into that of the application, and removes each of them from there when
/// the application is removed. What it installs are files of the bundle. Only the
/// manifests of executables are left out.
#[verifier::spinoff_prover]
#[verifier::rlimit(40)]
pub proof fn lemma_installs_and_removes_the_same_files(
    m: &BuildManifest,
    dir: &str,
    output: &str,
    files: &Vec<String>,
    script: String,
) -> (uninstall: int)
    requires
        call_ensures(generate_nsis_script, (m, dir, output, files), script),
        fit_on_lines(dir@, output@, texts(files@)),
    ensures
        ({
            let names = texts(files@);
            let lines = lines_of(script@);
            let made = lines.take(uninstall);
            let gone = lines.skip(uninstall);
            &&& 14 <= uninstall < lines.len()
            &&& lines[12] == "Section \"Install\""@
            &&& lines[13] == "  SetOutPath \"$INSTDIR\""@
            &&& lines[uninstall] == "Section \"Uninstall\""@
            &&& forall|k: int|
                0 <= k < names.len() && !ends_with(#[trigger] names[k], ".exe.manifest"@)
                    ==> made.contains("  File \""@ + backslashed(dir@) + "\\"@ + names[k] + "\""@)
                    && gone.contains("  Delete \"$INSTDIR\\"@ + names[k] + "\""@)
            &&& forall|i: int|
                0 <= i < lines.len() && begins(#[trigger] lines[i], "  File "@) ==> 14 <= i
                    < uninstall && exists|k: int|
                    0 <= k < names.len() && lines[i] == "  File \""@ + backslashed(dir@) + "\\"@
                        + #[trigger] names[k] + "\""@ && !ends_with(names[k], ".exe.manifest"@)
        }),
{
    let names = texts(files@);
    let app = nsis_escaped(m.app_name@);
    let version = nsis_escaped(m.version@);
    let company = nsis_escaped(or_text(m.windows_company_name, ""@));
    let lines = lines_of(script@);
    let n = installed(names).len() as int;
    let uninstall = 32 + n;
    let made = lines.take(uninstall);
    let gone = lines.skip(uninstall);
    let head = head_lines(app, backslashed(output@));
    let middle = middle_lines(app, version, company);
    let tail = tail_lines(app);
    lemma_lines_by_number(*m, dir@, output@, names);
    lemma_installed_files(names);
    lemma_words_of_head(app, backslashed(output@));
    lemma_words_of_middle(app, version, company);
    lemma_words_of_tail(app);
    assert(lines[12] == head[12]);
    assert(lines[13] == head[13]);
    assert(lines[uninstall] == middle[18]);
    assert forall|k: int|
        0 <= k < names.len() && !ends_with(#[trigger] names[k], ".exe.manifest"@) implies made.contains(
        "  File \""@ + backslashed(dir@) + "\\"@ + names[k] + "\""@,
    ) && gone.contains("  Delete \"$INSTDIR\\"@ + names[k] + "\""@) by {
        assert(installed(names).contains(names[k]));
        let i = choose|i: int| 0 <= i < n && installed(names)[i] == names[k];
        assert(lines[14 + i] == file_row(backslashed(dir@), installed(names)[i]));
        assert(made[14 + i] == file_row(backslashed(dir@), names[k]));
        assert(lines[33 + n + i] == removal_row(installed(names)[i]));
        assert(gone[1 + i] == removal_row(names[k]));
    }
    assert forall|i: int|
        0 <= i < lines.len() && begins(#[trigger] lines[i], "  File "@) implies 14 <= i < uninstall
        && exists|k: int|
        0 <= k < names.len() && lines[i] == "  File \""@ + backslashed(dir@) + "\\"@
            + #[trigger] names[k] + "\""@ && !ends_with(names[k], ".exe.manifest"@) by {
        if i < 14 {
            assert(lines[i] == head[i]);
        } else if i < 14 + n {
            let name = installed(names)[i - 14];
            assert(lines[14 + (i - 14)] == file_row(backslashed(dir@), name));
            assert(names.contains(name));
            let k = choose|k: int| 0 <= k < names.len() && names[k] == name;
            assert(lines[i] == "  File \""@ + backslashed(dir@) + "\\"@ + names[k] + "\""@);
        } else if i < 33 + n {
            assert(lines[i] == middle[i - (14 + n)]);
        } else if i < 33 + 2 * n {
            assert(lines[33 + n + (i - (33 + n))] == lines[i]);
            lemma_words_of_files(backslashed(dir@), installed(names)[i - (33 + n)]);
        } else if i < 48 + 2 * n {
            assert(lines[i] == tail[i - (33 + 2 * n)]);
        } else {
            reveal_strlit("  File ");
            assert(lines[i] == lines.last());
        }
    }
    uninstall
}

/// The registry key that Windows lists an application under.
pub open spec fn listing_key(app: Seq<char>) -> Seq<char> {
    "Software\\Microsoft\\Windows\\CurrentVersion\\Uninstall\\"@ + app
}

/// The line that writes a text under a registry key.
pub open spec fn registers(key: Seq<char>, name: Seq<char>, value: Seq<char>) -> Seq<char> {
    "  WriteRegStr HKLM \""@ + key + "\" \""@ + name + "\" "@ + value
}

/// A text between double quotes.
pub open spec fn quoted(s: Seq<char>) -> Seq<char> {
    "\""@ + s + "\""@
}

proof fn lemma_register_rows(app: Seq<char>, version: Seq<char>, company: Seq<char>)
    ensures
        ({
            let middle = middle_lines(app, version, company);
            let key = listing_key(app);
            &&& middle[10] == registers(key, "DisplayName"@, quoted(app))
            &&& middle[11] == registers(
                key,
                "UninstallString"@,
                "'"@ + quoted("$INSTDIR\\Uninstall.exe"@) + "'"@,
            )
            &&& middle[12] == registers(key, "DisplayVersion"@, quoted(version))
            &&& middle[13] == registers(key, "Publisher"@, quoted(company))
            &&& middle[7] == "  WriteUninstaller "@ + quoted("$INSTDIR\\Uninstall.exe"@)
        }),
{
    lemma_register_text();
    let middle = middle_lines(app, version, company);
    let key = listing_key(app);
    assert(middle[10] =~= registers(key, "DisplayName"@, quoted(app)));
    assert(middle[11] =~= registers(
        key,
        "UninstallString"@,
        "'"@ + quoted("$INSTDIR\\Uninstall.exe"@) + "'"@,
    ));
    assert(middle[12] =~= registers(key, "DisplayVersion"@, quoted(version)));
    assert(middle[13] =~= registers(key, "Publisher"@, quoted(company)));
    assert(middle[7] =~= "  WriteUninstaller "@ + quoted("$INSTDIR\\Uninstall.exe"@));
}

proof fn lemma_register_text()
    ensures
        "  WriteRegStr HKLM \"Software\\Microsoft\\Windows\\CurrentVersion\\Uninstall\\"@
            == "  WriteRegStr HKLM \""@
            + "Software\\Microsoft\\Windows\\CurrentVersion\\Uninstall\\"@,
        "\" \"DisplayName\" \""@ == "\" \""@ + "DisplayName"@ + "\" "@ + "\""@,
        "\" \"DisplayVersion\" \""@ == "\" \""@ + "DisplayVersion"@ + "\" "@ + "\""@,
        "\" \"Publisher\" \""@ == "\" \""@ + "Publisher"@ + "\" "@ + "\""@,
        "\" \"UninstallString\" '\"$INSTDIR\\Uninstall.exe\"'"@ == "\" \""@ + "UninstallString"@
            + "\" "@ + ("'"@ + quoted("$INSTDIR\\Uninstall.exe"@) + "'"@),
        "  WriteUninstaller \"$INSTDIR\\Uninstall.exe\""@ == "  WriteUninstaller "@ + quoted(
            "$INSTDIR\\Uninstall.exe"@,
        ),
{
    reveal_strlit("  WriteRegStr HKLM \"Software\\Microsoft\\Windows\\CurrentVersion\\Uninstall\\");
    reveal_strlit("  WriteRegStr HKLM \"");
    reveal_strlit("Software\\Microsoft\\Windows\\CurrentVersion\\Uninstall\\");
    reveal_strlit("\" \"DisplayName\" \"");
    reveal_strlit("\" \"DisplayVersion\" \"");
    reveal_strlit("\" \"Publisher\" \"");
    reveal_strlit("\" \"UninstallString\" '\"$INSTDIR\\Uninstall.exe\"'");
    reveal_strlit("  WriteUninstaller \"$INSTDIR\\Uninstall.exe\"");
    reveal_strlit("  WriteUninstaller ");
    reveal_strlit("$INSTDIR\\Uninstall.exe");
    reveal_strlit("DisplayName");
    reveal_strlit("DisplayVersion");
    reveal_strlit("Publisher");
    reveal_strlit("UninstallString");
    reveal_strlit("\" \"");
    reveal_strlit("\" ");
    reveal_strlit("\"");
    reveal_strlit("'");
    assert("  WriteRegStr HKLM \"Software\\Microsoft\\Windows\\CurrentVersion\\Uninstall\\"@
        =~= "  WriteRegStr HKLM \""@
        + "Software\\Microsoft\\Windows\\CurrentVersion\\Uninstall\\"@);
    assert("\" \"DisplayName\" \""@ =~= "\" \""@ + "DisplayName"@ + "\" "@ + "\""@);
    assert("\" \"DisplayVersion\" \""@ =~= "\" \""@ + "DisplayVersion"@ + "\" "@ + "\""@);
    assert("\" \"Publisher\" \""@ =~= "\" \""@ + "Publisher"@ + "\" "@ + "\""@);
    assert("\" \"UninstallString\" '\"$INSTDIR\\Uninstall.exe\"'"@ =~= "\" \""@
        + "UninstallString"@ + "\" "@ + ("'"@ + quoted("$INSTDIR\\Uninstall.exe"@) + "'"@));
    assert("  WriteUninstaller \"$INSTDIR\\Uninstall.exe\""@ =~= "  WriteUninstaller "@ + quoted(
        "$INSTDIR\\Uninstall.exe"@,
    ));
}

/// Windows lists an installed application under its name, with its version and
/// its company, and is told to remove it with the program that the script writes
/// for that. When the application is removed, that program and the listing go as
/// well.
#[verifier::spinoff_prover]
#[verifier::rlimit(40)]
pub proof fn lemma_applications_are_listed_and_unlisted(
    m: &BuildManifest,
    dir: &str,
    output: &str,
    files: &Vec<String>,
    script: String,
) -> (uninstall: int)
    requires
        call_ensures(generate_nsis_script, (m, dir, output, files), script),
        fit_on_lines(dir@, output@, texts(files@)),
    ensures
        ({
            let app = nsis_escaped(m.app_name@);
            let key = listing_key(app);
            let remover = quoted("$INSTDIR\\Uninstall.exe"@);
            let lines = lines_of(script@);
            let made = lines.take(uninstall);
            let gone = lines.skip(uninstall);
            &&& 0 <= uninstall < lines.len()
            &&& lines[uninstall] == "Section \"Uninstall\""@
            &&& made.contains(registers(key, "DisplayName"@, quoted(app)))
            &&& made.contains(
                registers(key, "DisplayVersion"@, quoted(nsis_escaped(m.version@))),
            )
            &&& made.contains(
                registers(
                    key,
                    "Publisher"@,
                    quoted(nsis_escaped(or_text(m.windows_company_name, ""@))),
                ),
            )
            &&& made.contains(registers(key, "UninstallString"@, "'"@ + remover + "'"@))
            &&& made.contains("  WriteUninstaller "@ + remover)
            &&& gone.contains(removes("$INSTDIR\\Uninstall.exe"@))
            &&& gone.contains("  DeleteRegKey HKLM \""@ + key + "\""@)
            &&& gone.contains("  DeleteRegKey HKLM \"Software\\"@ + app + "\""@)
            &&& gone.contains("  RMDir \"$INSTDIR\""@)
        }),
{
    let names = texts(files@);
    let app = nsis_escaped(m.app_name@);
    let version = nsis_escaped(m.version@);
    let company = nsis_escaped(or_text(m.windows_company_name, ""@));
    let lines = lines_of(script@);
    let n = installed(names).len() as int;
    let uninstall = 32 + n;
    let made = lines.take(uninstall);
    let gone = lines.skip(uninstall);
    let middle = middle_lines(app, version, company);
    let tail = tail_lines(app);
    lemma_lines_by_number(*m, dir@, output@, names);
    lemma_register_rows(app, version, company);
    lemma_link_rows(app);
    lemma_key_row(app);
    assert(lines[uninstall] == middle[18]);
    assert(made[14 + n + 7] == middle[7]);
    assert(made[14 + n + 10] == middle[10]);
    assert(made[14 + n + 11] == middle[11]);
    assert(made[14 + n + 12] == middle[12]);
    assert(made[14 + n + 13] == middle[13]);
    assert(lines[33 + 2 * n + 1] == tail[1]);
    assert(lines[33 + 2 * n + 9] == tail[9]);
    assert(lines[33 + 2 * n + 12] == tail[12]);
    assert(lines[33 + 2 * n + 13] == tail[13]);
    assert(gone[1 + n + 1] == tail[1]);
    assert(gone[1 + n + 9] == tail[9]);
    assert(gone[1 + n + 12] == tail[12]);
    assert(gone[1 + n + 13] == tail[13]);
    uninstall
}

proof fn lemma_key_row(app: Seq<char>)
    ensures
        tail_lines(app)[12] == "  DeleteRegKey HKLM \""@ + listing_key(app) + "\""@,
{
    reveal_strlit("  DeleteRegKey HKLM \"Software\\Microsoft\\Windows\\CurrentVersion\\Uninstall\\");
    reveal_strlit("  DeleteRegKey HKLM \"");
    reveal_strlit("Software\\Microsoft\\Windows\\CurrentVersion\\Uninstall\\");
    assert("  DeleteRegKey HKLM \"Software\\Microsoft\\Windows\\CurrentVersion\\Uninstall\\"@
        =~= "  DeleteRegKey HKLM \""@
        + "Software\\Microsoft\\Windows\\CurrentVersion\\Uninstall\\"@);
    assert(tail_lines(app)[12] =~= "  DeleteRegKey HKLM \""@ + listing_key(app) + "\""@);
}

/// An installer goes by the name of its application, is written to where it is
/// wanted, and installs into a directory of that name, below that for programs.
pub proof fn lemma_the_installer_is_named_and_placed(
    m: &BuildManifest,
    dir: &str,
    output: &str,
    files: &Vec<String>,
    script: String,
)
    requires
        call_ensures(generate_nsis_script, (m, dir, output, files), script),
        fit_on_lines(dir@, output@, texts(files@)),
    ensures
        ({
            let app = nsis_escaped(m.app_name@);
            let lines = lines_of(script@);
            let top = lines.take(12);
            &&& lines.len() > 14
            &&& top.contains("Name \""@ + app + "\""@)
            &&& top.contains("OutFile \""@ + backslashed(output@) + "\""@)
            &&& top.contains("InstallDir \"$PROGRAMFILES64\\"@ + app + "\""@)
            &&& top.contains("InstallDirRegKey HKLM \"Software\\"@ + app + "\" \"InstallDir\""@)
            &&& top.contains("RequestExecutionLevel admin"@)
            &&& lines[12] == "Section \"Install\""@
        }),
{
    let names = texts(files@);
    let app = nsis_escaped(m.app_name@);
    let lines = lines_of(script@);
    let head = head_lines(app, backslashed(output@));
    lemma_lines_by_number(*m, dir@, output@, names);
    let top = lines.take(12);
    assert(top[2] == head[2]);
    assert(top[3] == head[3]);
    assert(top[4] == head[4]);
    assert(top[5] == head[5]);
    assert(top[6] == head[6]);
    assert(lines[12] == head[12]);
}

} // verus!
