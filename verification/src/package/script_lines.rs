//! An installer's script, line by line.
use crate::package::nsis::{delete_lines, install_lines, is_installed, nsis_script_of};
use crate::text::pieces;
use vstd::prelude::*;

verus! {

// ---------------------------------------------------------------------------
// Lines
// ---------------------------------------------------------------------------

/// Whether a text fits on one line.
pub open spec fn one_line(s: Seq<char>) -> bool {
    forall|i: int| 0 <= i < s.len() ==> #[trigger] s[i] != '\n'
}

/// Whether a text is the given lines, with the beginning of another line behind
/// them.
#[verifier::opaque]
pub open spec fn written(s: Seq<char>, done: Seq<Seq<char>>, cur: Seq<char>) -> bool {
    pieces(s, '\n') == done.push(cur)
}

/// More text on the same line.
proof fn lemma_text(s: Seq<char>, done: Seq<Seq<char>>, cur: Seq<char>, t: Seq<char>)
    requires
        written(s, done, cur),
        one_line(t),
    ensures
        written(s + t, done, cur + t),
    decreases t.len(),
{
    reveal(written);
    if t.len() == 0 {
        assert(s + t =~= s);
        assert(cur + t =~= cur);
    } else {
        let rest = t.drop_last();
        assert forall|i: int| 0 <= i < rest.len() implies #[trigger] rest[i] != '\n' by {
            assert(rest[i] == t[i]);
        }
        lemma_text(s, done, cur, rest);
        assert((s + t).drop_last() =~= s + rest);
        assert((s + t).last() == t[t.len() - 1]);
        let before = done.push(cur + rest);
        assert(before.last() == cur + rest);
        assert(cur + t =~= (cur + rest).push(t.last()));
        assert(pieces(s + t, '\n') =~= before.update(before.len() - 1, (cur + rest).push(t.last())));
        assert(pieces(s + t, '\n') =~= done.push(cur + t));
    }
}

/// Text on a line of its own.
proof fn lemma_begin(s: Seq<char>, done: Seq<Seq<char>>, t: Seq<char>)
    requires
        written(s, done, Seq::empty()),
        one_line(t),
    ensures
        written(s + t, done, t),
{
    lemma_text(s, done, Seq::empty(), t);
    assert(Seq::<char>::empty() + t =~= t);
}

/// The end of a line.
proof fn lemma_break(s: Seq<char>, done: Seq<Seq<char>>, cur: Seq<char>)
    requires
        written(s, done, cur),
    ensures
        written(s + "\n"@, done.push(cur), Seq::empty()),
{
    reveal(written);
    reveal_strlit("\n");
    let t = s + "\n"@;
    assert(t.drop_last() =~= s);
    assert(t.last() == '\n');
}

/// The end of one line and the beginning of the next.
proof fn lemma_turn(
    s: Seq<char>,
    done: Seq<Seq<char>>,
    cur: Seq<char>,
    first: Seq<char>,
    next: Seq<char>,
)
    requires
        written(s, done, cur),
        one_line(first),
        one_line(next),
    ensures
        written(s + (first + "\n"@ + next), done.push(cur + first), next),
{
    lemma_text(s, done, cur, first);
    lemma_break(s + first, done, cur + first);
    lemma_begin(s + first + "\n"@, done.push(cur + first), next);
    assert(s + (first + "\n"@ + next) =~= s + first + "\n"@ + next);
}

/// A line of its own.
proof fn lemma_row(s: Seq<char>, done: Seq<Seq<char>>, row: Seq<char>)
    requires
        written(s, done, Seq::empty()),
        one_line(row),
    ensures
        written(s + row + "\n"@, done.push(row), Seq::empty()),
{
    lemma_begin(s, done, row);
    lemma_break(s + row, done, row);
}

// ---------------------------------------------------------------------------
// The fixed lines
// ---------------------------------------------------------------------------

/// The lines before the files that are installed.
pub open spec fn head_lines(app: Seq<char>, output: Seq<char>) -> Seq<Seq<char>> {
    seq![
        "!include \"MUI2.nsh\""@,
        Seq::<char>::empty(),
        "Name \""@ + app + "\""@,
        "OutFile \""@ + output + "\""@,
        "InstallDir \"$PROGRAMFILES64\\"@ + app + "\""@,
        "InstallDirRegKey HKLM \"Software\\"@ + app + "\" \"InstallDir\""@,
        "RequestExecutionLevel admin"@,
        Seq::<char>::empty(),
        "!insertmacro MUI_PAGE_DIRECTORY"@,
        "!insertmacro MUI_PAGE_INSTFILES"@,
        "!insertmacro MUI_LANGUAGE \"English\""@,
        Seq::<char>::empty(),
        "Section \"Install\""@,
        "  SetOutPath \"$INSTDIR\""@,
    ]
}

/// The lines between the files that are installed and those that are removed.
pub open spec fn middle_lines(app: Seq<char>, version: Seq<char>, company: Seq<char>) -> Seq<Seq<char>> {
    seq![
        Seq::<char>::empty(),
        "  ; Create Start Menu shortcut"@,
        "  CreateDirectory \"$SMPROGRAMS\\"@ + app + "\""@,
        "  CreateShortcut \"$SMPROGRAMS\\"@ + app + "\\"@ + app + ".lnk\" \"$INSTDIR\\"@ + app + ".exe\""@,
        "  CreateShortcut \"$DESKTOP\\"@ + app + ".lnk\" \"$INSTDIR\\"@ + app + ".exe\""@,
        Seq::<char>::empty(),
        "  ; Write uninstaller"@,
        "  WriteUninstaller \"$INSTDIR\\Uninstall.exe\""@,
        Seq::<char>::empty(),
        "  ; Add/Remove Programs registry entries"@,
        "  WriteRegStr HKLM \"Software\\Microsoft\\Windows\\CurrentVersion\\Uninstall\\"@ + app + "\" \"DisplayName\" \""@ + app + "\""@,
        "  WriteRegStr HKLM \"Software\\Microsoft\\Windows\\CurrentVersion\\Uninstall\\"@ + app + "\" \"UninstallString\" '\"$INSTDIR\\Uninstall.exe\"'"@,
        "  WriteRegStr HKLM \"Software\\Microsoft\\Windows\\CurrentVersion\\Uninstall\\"@ + app + "\" \"DisplayVersion\" \""@ + version + "\""@,
        "  WriteRegStr HKLM \"Software\\Microsoft\\Windows\\CurrentVersion\\Uninstall\\"@ + app + "\" \"Publisher\" \""@ + company + "\""@,
        "  WriteRegDWORD HKLM \"Software\\Microsoft\\Windows\\CurrentVersion\\Uninstall\\"@ + app + "\" \"NoModify\" 1"@,
        "  WriteRegDWORD HKLM \"Software\\Microsoft\\Windows\\CurrentVersion\\Uninstall\\"@ + app + "\" \"NoRepair\" 1"@,
        "SectionEnd"@,
        Seq::<char>::empty(),
        "Section \"Uninstall\""@,
    ]
}

/// The lines behind the files that are removed.
pub open spec fn tail_lines(app: Seq<char>) -> Seq<Seq<char>> {
    seq![
        Seq::<char>::empty(),
        "  Delete \"$INSTDIR\\Uninstall.exe\""@,
        Seq::<char>::empty(),
        "  ; Remove shortcuts"@,
        "  Delete \"$SMPROGRAMS\\"@ + app + "\\"@ + app + ".lnk\""@,
        "  RMDir \"$SMPROGRAMS\\"@ + app + "\""@,
        "  Delete \"$DESKTOP\\"@ + app + ".lnk\""@,
        Seq::<char>::empty(),
        "  ; Remove install directory"@,
        "  RMDir \"$INSTDIR\""@,
        Seq::<char>::empty(),
        "  ; Remove registry keys"@,
        "  DeleteRegKey HKLM \"Software\\Microsoft\\Windows\\CurrentVersion\\Uninstall\\"@ + app + "\""@,
        "  DeleteRegKey HKLM \"Software\\"@ + app + "\""@,
        "SectionEnd"@,
    ]
}

// ---------------------------------------------------------------------------
// The pieces of the script that end a line, in the order in which they stand
// ---------------------------------------------------------------------------

proof fn lemma_piece_1(s: Seq<char>, done: Seq<Seq<char>>, cur: Seq<char>)
    requires
        written(s, done, cur),
    ensures
        written(
            s + "!include \"MUI2.nsh\"\n\nName \""@,
            done.push(cur + "!include \"MUI2.nsh\""@).push(Seq::empty()),
            "Name \""@,
        ),
{
    reveal_strlit("!include \"MUI2.nsh\"\n\nName \"");
    reveal_strlit("\n");
    reveal_strlit("!include \"MUI2.nsh\"");
    reveal_strlit("Name \"");
    lemma_text(s, done, cur, "!include \"MUI2.nsh\""@);
    lemma_break(s + "!include \"MUI2.nsh\""@, done, cur + "!include \"MUI2.nsh\""@);
    let s1 = s + "!include \"MUI2.nsh\""@ + "\n"@;
    let d1 = done.push(cur + "!include \"MUI2.nsh\""@);
    lemma_row(s1, d1, Seq::empty());
    let s2 = s1 + Seq::empty() + "\n"@;
    let d2 = d1.push(Seq::empty());
    lemma_begin(s2, d2, "Name \""@);
    assert(s + "!include \"MUI2.nsh\"\n\nName \""@ =~= s2 + "Name \""@);
}

proof fn lemma_piece_2(s: Seq<char>, done: Seq<Seq<char>>, cur: Seq<char>)
    requires
        written(s, done, cur),
    ensures
        written(
            s + "\"\nOutFile \""@,
            done.push(cur + "\""@),
            "OutFile \""@,
        ),
{
    reveal_strlit("\"\nOutFile \"");
    reveal_strlit("\n");
    reveal_strlit("\"");
    reveal_strlit("OutFile \"");
    assert("\"\nOutFile \""@ =~= "\""@ + "\n"@ + "OutFile \""@);
    lemma_turn(s, done, cur, "\""@, "OutFile \""@);
}

proof fn lemma_piece_3(s: Seq<char>, done: Seq<Seq<char>>, cur: Seq<char>)
    requires
        written(s, done, cur),
    ensures
        written(
            s + "\"\nInstallDir \"$PROGRAMFILES64\\"@,
            done.push(cur + "\""@),
            "InstallDir \"$PROGRAMFILES64\\"@,
        ),
{
    reveal_strlit("\"\nInstallDir \"$PROGRAMFILES64\\");
    reveal_strlit("\n");
    reveal_strlit("\"");
    reveal_strlit("InstallDir \"$PROGRAMFILES64\\");
    assert("\"\nInstallDir \"$PROGRAMFILES64\\"@ =~= "\""@ + "\n"@ + "InstallDir \"$PROGRAMFILES64\\"@);
    lemma_turn(s, done, cur, "\""@, "InstallDir \"$PROGRAMFILES64\\"@);
}

proof fn lemma_piece_4(s: Seq<char>, done: Seq<Seq<char>>, cur: Seq<char>)
    requires
        written(s, done, cur),
    ensures
        written(
            s + "\"\nInstallDirRegKey HKLM \"Software\\"@,
            done.push(cur + "\""@),
            "InstallDirRegKey HKLM \"Software\\"@,
        ),
{
    reveal_strlit("\"\nInstallDirRegKey HKLM \"Software\\");
    reveal_strlit("\n");
    reveal_strlit("\"");
    reveal_strlit("InstallDirRegKey HKLM \"Software\\");
    assert("\"\nInstallDirRegKey HKLM \"Software\\"@ =~= "\""@ + "\n"@ + "InstallDirRegKey HKLM \"Software\\"@);
    lemma_turn(s, done, cur, "\""@, "InstallDirRegKey HKLM \"Software\\"@);
}

proof fn lemma_piece_5(s: Seq<char>, done: Seq<Seq<char>>, cur: Seq<char>)
    requires
        written(s, done, cur),
    ensures
        written(
            s + "\" \"InstallDir\"\nRequestExecutionLevel admin\n\n!insertmacro MUI_PAGE_DIRECTORY\n!insertmacro MUI_PAGE_INSTFILES\n!insertmacro MUI_LANGUAGE \"English\"\n\nSection \"Install\"\n  SetOutPath \"$INSTDIR\"\n"@,
            done.push(cur + "\" \"InstallDir\""@).push("RequestExecutionLevel admin"@).push(Seq::empty()).push("!insertmacro MUI_PAGE_DIRECTORY"@).push("!insertmacro MUI_PAGE_INSTFILES"@).push("!insertmacro MUI_LANGUAGE \"English\""@).push(Seq::empty()).push("Section \"Install\""@).push("  SetOutPath \"$INSTDIR\""@),
            Seq::empty(),
        ),
{
    reveal_strlit("\" \"InstallDir\"\nRequestExecutionLevel admin\n\n!insertmacro MUI_PAGE_DIRECTORY\n!insertmacro MUI_PAGE_INSTFILES\n!insertmacro MUI_LANGUAGE \"English\"\n\nSection \"Install\"\n  SetOutPath \"$INSTDIR\"\n");
    reveal_strlit("\n");
    reveal_strlit("  SetOutPath \"$INSTDIR\"");
    reveal_strlit("!insertmacro MUI_LANGUAGE \"English\"");
    reveal_strlit("!insertmacro MUI_PAGE_DIRECTORY");
    reveal_strlit("!insertmacro MUI_PAGE_INSTFILES");
    reveal_strlit("\" \"InstallDir\"");
    reveal_strlit("RequestExecutionLevel admin");
    reveal_strlit("Section \"Install\"");
    lemma_text(s, done, cur, "\" \"InstallDir\""@);
    lemma_break(s + "\" \"InstallDir\""@, done, cur + "\" \"InstallDir\""@);
    let s1 = s + "\" \"InstallDir\""@ + "\n"@;
    let d1 = done.push(cur + "\" \"InstallDir\""@);
    lemma_row(s1, d1, "RequestExecutionLevel admin"@);
    let s2 = s1 + "RequestExecutionLevel admin"@ + "\n"@;
    let d2 = d1.push("RequestExecutionLevel admin"@);
    lemma_row(s2, d2, Seq::empty());
    let s3 = s2 + Seq::empty() + "\n"@;
    let d3 = d2.push(Seq::empty());
    lemma_row(s3, d3, "!insertmacro MUI_PAGE_DIRECTORY"@);
    let s4 = s3 + "!insertmacro MUI_PAGE_DIRECTORY"@ + "\n"@;
    let d4 = d3.push("!insertmacro MUI_PAGE_DIRECTORY"@);
    lemma_row(s4, d4, "!insertmacro MUI_PAGE_INSTFILES"@);
    let s5 = s4 + "!insertmacro MUI_PAGE_INSTFILES"@ + "\n"@;
    let d5 = d4.push("!insertmacro MUI_PAGE_INSTFILES"@);
    lemma_row(s5, d5, "!insertmacro MUI_LANGUAGE \"English\""@);
    let s6 = s5 + "!insertmacro MUI_LANGUAGE \"English\""@ + "\n"@;
    let d6 = d5.push("!insertmacro MUI_LANGUAGE \"English\""@);
    lemma_row(s6, d6, Seq::empty());
    let s7 = s6 + Seq::empty() + "\n"@;
    let d7 = d6.push(Seq::empty());
    lemma_row(s7, d7, "Section \"Install\""@);
    let s8 = s7 + "Section \"Install\""@ + "\n"@;
    let d8 = d7.push("Section \"Install\""@);
    lemma_row(s8, d8, "  SetOutPath \"$INSTDIR\""@);
    let s9 = s8 + "  SetOutPath \"$INSTDIR\""@ + "\n"@;
    let d9 = d8.push("  SetOutPath \"$INSTDIR\""@);
    assert(s + "\" \"InstallDir\"\nRequestExecutionLevel admin\n\n!insertmacro MUI_PAGE_DIRECTORY\n!insertmacro MUI_PAGE_INSTFILES\n!insertmacro MUI_LANGUAGE \"English\"\n\nSection \"Install\"\n  SetOutPath \"$INSTDIR\"\n"@ =~= s9);
}

proof fn lemma_piece_6(s: Seq<char>, done: Seq<Seq<char>>, cur: Seq<char>)
    requires
        written(s, done, cur),
    ensures
        written(
            s + "\n  ; Create Start Menu shortcut\n  CreateDirectory \"$SMPROGRAMS\\"@,
            done.push(cur).push("  ; Create Start Menu shortcut"@),
            "  CreateDirectory \"$SMPROGRAMS\\"@,
        ),
{
    reveal_strlit("\n  ; Create Start Menu shortcut\n  CreateDirectory \"$SMPROGRAMS\\");
    reveal_strlit("\n");
    reveal_strlit("  ; Create Start Menu shortcut");
    reveal_strlit("  CreateDirectory \"$SMPROGRAMS\\");
    lemma_break(s, done, cur);
    let s1 = s + "\n"@;
    let d1 = done.push(cur);
    lemma_row(s1, d1, "  ; Create Start Menu shortcut"@);
    let s2 = s1 + "  ; Create Start Menu shortcut"@ + "\n"@;
    let d2 = d1.push("  ; Create Start Menu shortcut"@);
    lemma_begin(s2, d2, "  CreateDirectory \"$SMPROGRAMS\\"@);
    assert(s + "\n  ; Create Start Menu shortcut\n  CreateDirectory \"$SMPROGRAMS\\"@ =~= s2 + "  CreateDirectory \"$SMPROGRAMS\\"@);
}

proof fn lemma_piece_7(s: Seq<char>, done: Seq<Seq<char>>, cur: Seq<char>)
    requires
        written(s, done, cur),
    ensures
        written(
            s + "\"\n  CreateShortcut \"$SMPROGRAMS\\"@,
            done.push(cur + "\""@),
            "  CreateShortcut \"$SMPROGRAMS\\"@,
        ),
{
    reveal_strlit("\"\n  CreateShortcut \"$SMPROGRAMS\\");
    reveal_strlit("\n");
    reveal_strlit("  CreateShortcut \"$SMPROGRAMS\\");
    reveal_strlit("\"");
    assert("\"\n  CreateShortcut \"$SMPROGRAMS\\"@ =~= "\""@ + "\n"@ + "  CreateShortcut \"$SMPROGRAMS\\"@);
    lemma_turn(s, done, cur, "\""@, "  CreateShortcut \"$SMPROGRAMS\\"@);
}

proof fn lemma_piece_8(s: Seq<char>, done: Seq<Seq<char>>, cur: Seq<char>)
    requires
        written(s, done, cur),
    ensures
        written(
            s + ".exe\"\n  CreateShortcut \"$DESKTOP\\"@,
            done.push(cur + ".exe\""@),
            "  CreateShortcut \"$DESKTOP\\"@,
        ),
{
    reveal_strlit(".exe\"\n  CreateShortcut \"$DESKTOP\\");
    reveal_strlit("\n");
    reveal_strlit("  CreateShortcut \"$DESKTOP\\");
    reveal_strlit(".exe\"");
    assert(".exe\"\n  CreateShortcut \"$DESKTOP\\"@ =~= ".exe\""@ + "\n"@ + "  CreateShortcut \"$DESKTOP\\"@);
    lemma_turn(s, done, cur, ".exe\""@, "  CreateShortcut \"$DESKTOP\\"@);
}

proof fn lemma_piece_9(s: Seq<char>, done: Seq<Seq<char>>, cur: Seq<char>)
    requires
        written(s, done, cur),
    ensures
        written(
            s + ".exe\"\n\n  ; Write uninstaller\n  WriteUninstaller \"$INSTDIR\\Uninstall.exe\"\n\n  ; Add/Remove Programs registry entries\n  WriteRegStr HKLM \"Software\\Microsoft\\Windows\\CurrentVersion\\Uninstall\\"@,
            done.push(cur + ".exe\""@).push(Seq::empty()).push("  ; Write uninstaller"@).push("  WriteUninstaller \"$INSTDIR\\Uninstall.exe\""@).push(Seq::empty()).push("  ; Add/Remove Programs registry entries"@),
            "  WriteRegStr HKLM \"Software\\Microsoft\\Windows\\CurrentVersion\\Uninstall\\"@,
        ),
{
    reveal_strlit(".exe\"\n\n  ; Write uninstaller\n  WriteUninstaller \"$INSTDIR\\Uninstall.exe\"\n\n  ; Add/Remove Programs registry entries\n  WriteRegStr HKLM \"Software\\Microsoft\\Windows\\CurrentVersion\\Uninstall\\");
    reveal_strlit("\n");
    reveal_strlit("  ; Add/Remove Programs registry entries");
    reveal_strlit("  ; Write uninstaller");
    reveal_strlit("  WriteRegStr HKLM \"Software\\Microsoft\\Windows\\CurrentVersion\\Uninstall\\");
    reveal_strlit("  WriteUninstaller \"$INSTDIR\\Uninstall.exe\"");
    reveal_strlit(".exe\"");
    lemma_text(s, done, cur, ".exe\""@);
    lemma_break(s + ".exe\""@, done, cur + ".exe\""@);
    let s1 = s + ".exe\""@ + "\n"@;
    let d1 = done.push(cur + ".exe\""@);
    lemma_row(s1, d1, Seq::empty());
    let s2 = s1 + Seq::empty() + "\n"@;
    let d2 = d1.push(Seq::empty());
    lemma_row(s2, d2, "  ; Write uninstaller"@);
    let s3 = s2 + "  ; Write uninstaller"@ + "\n"@;
    let d3 = d2.push("  ; Write uninstaller"@);
    lemma_row(s3, d3, "  WriteUninstaller \"$INSTDIR\\Uninstall.exe\""@);
    let s4 = s3 + "  WriteUninstaller \"$INSTDIR\\Uninstall.exe\""@ + "\n"@;
    let d4 = d3.push("  WriteUninstaller \"$INSTDIR\\Uninstall.exe\""@);
    lemma_row(s4, d4, Seq::empty());
    let s5 = s4 + Seq::empty() + "\n"@;
    let d5 = d4.push(Seq::empty());
    lemma_row(s5, d5, "  ; Add/Remove Programs registry entries"@);
    let s6 = s5 + "  ; Add/Remove Programs registry entries"@ + "\n"@;
    let d6 = d5.push("  ; Add/Remove Programs registry entries"@);
    lemma_begin(s6, d6, "  WriteRegStr HKLM \"Software\\Microsoft\\Windows\\CurrentVersion\\Uninstall\\"@);
    assert(s + ".exe\"\n\n  ; Write uninstaller\n  WriteUninstaller \"$INSTDIR\\Uninstall.exe\"\n\n  ; Add/Remove Programs registry entries\n  WriteRegStr HKLM \"Software\\Microsoft\\Windows\\CurrentVersion\\Uninstall\\"@ =~= s6 + "  WriteRegStr HKLM \"Software\\Microsoft\\Windows\\CurrentVersion\\Uninstall\\"@);
}

proof fn lemma_piece_10(s: Seq<char>, done: Seq<Seq<char>>, cur: Seq<char>)
    requires
        written(s, done, cur),
    ensures
        written(
            s + "\"\n  WriteRegStr HKLM \"Software\\Microsoft\\Windows\\CurrentVersion\\Uninstall\\"@,
            done.push(cur + "\""@),
            "  WriteRegStr HKLM \"Software\\Microsoft\\Windows\\CurrentVersion\\Uninstall\\"@,
        ),
{
    reveal_strlit("\"\n  WriteRegStr HKLM \"Software\\Microsoft\\Windows\\CurrentVersion\\Uninstall\\");
    reveal_strlit("\n");
    reveal_strlit("  WriteRegStr HKLM \"Software\\Microsoft\\Windows\\CurrentVersion\\Uninstall\\");
    reveal_strlit("\"");
    assert("\"\n  WriteRegStr HKLM \"Software\\Microsoft\\Windows\\CurrentVersion\\Uninstall\\"@ =~= "\""@ + "\n"@ + "  WriteRegStr HKLM \"Software\\Microsoft\\Windows\\CurrentVersion\\Uninstall\\"@);
    lemma_turn(s, done, cur, "\""@, "  WriteRegStr HKLM \"Software\\Microsoft\\Windows\\CurrentVersion\\Uninstall\\"@);
}

proof fn lemma_piece_11(s: Seq<char>, done: Seq<Seq<char>>, cur: Seq<char>)
    requires
        written(s, done, cur),
    ensures
        written(
            s + "\" \"UninstallString\" '\"$INSTDIR\\Uninstall.exe\"'\n  WriteRegStr HKLM \"Software\\Microsoft\\Windows\\CurrentVersion\\Uninstall\\"@,
            done.push(cur + "\" \"UninstallString\" '\"$INSTDIR\\Uninstall.exe\"'"@),
            "  WriteRegStr HKLM \"Software\\Microsoft\\Windows\\CurrentVersion\\Uninstall\\"@,
        ),
{
    reveal_strlit("\" \"UninstallString\" '\"$INSTDIR\\Uninstall.exe\"'\n  WriteRegStr HKLM \"Software\\Microsoft\\Windows\\CurrentVersion\\Uninstall\\");
    reveal_strlit("\n");
    reveal_strlit("  WriteRegStr HKLM \"Software\\Microsoft\\Windows\\CurrentVersion\\Uninstall\\");
    reveal_strlit("\" \"UninstallString\" '\"$INSTDIR\\Uninstall.exe\"'");
    assert("\" \"UninstallString\" '\"$INSTDIR\\Uninstall.exe\"'\n  WriteRegStr HKLM \"Software\\Microsoft\\Windows\\CurrentVersion\\Uninstall\\"@ =~= "\" \"UninstallString\" '\"$INSTDIR\\Uninstall.exe\"'"@ + "\n"@ + "  WriteRegStr HKLM \"Software\\Microsoft\\Windows\\CurrentVersion\\Uninstall\\"@);
    lemma_turn(s, done, cur, "\" \"UninstallString\" '\"$INSTDIR\\Uninstall.exe\"'"@, "  WriteRegStr HKLM \"Software\\Microsoft\\Windows\\CurrentVersion\\Uninstall\\"@);
}

proof fn lemma_piece_12(s: Seq<char>, done: Seq<Seq<char>>, cur: Seq<char>)
    requires
        written(s, done, cur),
    ensures
        written(
            s + "\"\n  WriteRegDWORD HKLM \"Software\\Microsoft\\Windows\\CurrentVersion\\Uninstall\\"@,
            done.push(cur + "\""@),
            "  WriteRegDWORD HKLM \"Software\\Microsoft\\Windows\\CurrentVersion\\Uninstall\\"@,
        ),
{
    reveal_strlit("\"\n  WriteRegDWORD HKLM \"Software\\Microsoft\\Windows\\CurrentVersion\\Uninstall\\");
    reveal_strlit("\n");
    reveal_strlit("  WriteRegDWORD HKLM \"Software\\Microsoft\\Windows\\CurrentVersion\\Uninstall\\");
    reveal_strlit("\"");
    assert("\"\n  WriteRegDWORD HKLM \"Software\\Microsoft\\Windows\\CurrentVersion\\Uninstall\\"@ =~= "\""@ + "\n"@ + "  WriteRegDWORD HKLM \"Software\\Microsoft\\Windows\\CurrentVersion\\Uninstall\\"@);
    lemma_turn(s, done, cur, "\""@, "  WriteRegDWORD HKLM \"Software\\Microsoft\\Windows\\CurrentVersion\\Uninstall\\"@);
}

proof fn lemma_piece_13(s: Seq<char>, done: Seq<Seq<char>>, cur: Seq<char>)
    requires
        written(s, done, cur),
    ensures
        written(
            s + "\" \"NoModify\" 1\n  WriteRegDWORD HKLM \"Software\\Microsoft\\Windows\\CurrentVersion\\Uninstall\\"@,
            done.push(cur + "\" \"NoModify\" 1"@),
            "  WriteRegDWORD HKLM \"Software\\Microsoft\\Windows\\CurrentVersion\\Uninstall\\"@,
        ),
{
    reveal_strlit("\" \"NoModify\" 1\n  WriteRegDWORD HKLM \"Software\\Microsoft\\Windows\\CurrentVersion\\Uninstall\\");
    reveal_strlit("\n");
    reveal_strlit("  WriteRegDWORD HKLM \"Software\\Microsoft\\Windows\\CurrentVersion\\Uninstall\\");
    reveal_strlit("\" \"NoModify\" 1");
    assert("\" \"NoModify\" 1\n  WriteRegDWORD HKLM \"Software\\Microsoft\\Windows\\CurrentVersion\\Uninstall\\"@ =~= "\" \"NoModify\" 1"@ + "\n"@ + "  WriteRegDWORD HKLM \"Software\\Microsoft\\Windows\\CurrentVersion\\Uninstall\\"@);
    lemma_turn(s, done, cur, "\" \"NoModify\" 1"@, "  WriteRegDWORD HKLM \"Software\\Microsoft\\Windows\\CurrentVersion\\Uninstall\\"@);
}

proof fn lemma_piece_14(s: Seq<char>, done: Seq<Seq<char>>, cur: Seq<char>)
    requires
        written(s, done, cur),
    ensures
        written(
            s + "\" \"NoRepair\" 1\nSectionEnd\n\nSection \"Uninstall\"\n"@,
            done.push(cur + "\" \"NoRepair\" 1"@).push("SectionEnd"@).push(Seq::empty()).push("Section \"Uninstall\""@),
            Seq::empty(),
        ),
{
    reveal_strlit("\" \"NoRepair\" 1\nSectionEnd\n\nSection \"Uninstall\"\n");
    reveal_strlit("\n");
    reveal_strlit("\" \"NoRepair\" 1");
    reveal_strlit("Section \"Uninstall\"");
    reveal_strlit("SectionEnd");
    lemma_text(s, done, cur, "\" \"NoRepair\" 1"@);
    lemma_break(s + "\" \"NoRepair\" 1"@, done, cur + "\" \"NoRepair\" 1"@);
    let s1 = s + "\" \"NoRepair\" 1"@ + "\n"@;
    let d1 = done.push(cur + "\" \"NoRepair\" 1"@);
    lemma_row(s1, d1, "SectionEnd"@);
    let s2 = s1 + "SectionEnd"@ + "\n"@;
    let d2 = d1.push("SectionEnd"@);
    lemma_row(s2, d2, Seq::empty());
    let s3 = s2 + Seq::empty() + "\n"@;
    let d3 = d2.push(Seq::empty());
    lemma_row(s3, d3, "Section \"Uninstall\""@);
    let s4 = s3 + "Section \"Uninstall\""@ + "\n"@;
    let d4 = d3.push("Section \"Uninstall\""@);
    assert(s + "\" \"NoRepair\" 1\nSectionEnd\n\nSection \"Uninstall\"\n"@ =~= s4);
}

proof fn lemma_piece_15(s: Seq<char>, done: Seq<Seq<char>>, cur: Seq<char>)
    requires
        written(s, done, cur),
    ensures
        written(
            s + "\n  Delete \"$INSTDIR\\Uninstall.exe\"\n\n  ; Remove shortcuts\n  Delete \"$SMPROGRAMS\\"@,
            done.push(cur).push("  Delete \"$INSTDIR\\Uninstall.exe\""@).push(Seq::empty()).push("  ; Remove shortcuts"@),
            "  Delete \"$SMPROGRAMS\\"@,
        ),
{
    reveal_strlit("\n  Delete \"$INSTDIR\\Uninstall.exe\"\n\n  ; Remove shortcuts\n  Delete \"$SMPROGRAMS\\");
    reveal_strlit("\n");
    reveal_strlit("  ; Remove shortcuts");
    reveal_strlit("  Delete \"$INSTDIR\\Uninstall.exe\"");
    reveal_strlit("  Delete \"$SMPROGRAMS\\");
    lemma_break(s, done, cur);
    let s1 = s + "\n"@;
    let d1 = done.push(cur);
    lemma_row(s1, d1, "  Delete \"$INSTDIR\\Uninstall.exe\""@);
    let s2 = s1 + "  Delete \"$INSTDIR\\Uninstall.exe\""@ + "\n"@;
    let d2 = d1.push("  Delete \"$INSTDIR\\Uninstall.exe\""@);
    lemma_row(s2, d2, Seq::empty());
    let s3 = s2 + Seq::empty() + "\n"@;
    let d3 = d2.push(Seq::empty());
    lemma_row(s3, d3, "  ; Remove shortcuts"@);
    let s4 = s3 + "  ; Remove shortcuts"@ + "\n"@;
    let d4 = d3.push("  ; Remove shortcuts"@);
    lemma_begin(s4, d4, "  Delete \"$SMPROGRAMS\\"@);
    assert(s + "\n  Delete \"$INSTDIR\\Uninstall.exe\"\n\n  ; Remove shortcuts\n  Delete \"$SMPROGRAMS\\"@ =~= s4 + "  Delete \"$SMPROGRAMS\\"@);
}

proof fn lemma_piece_16(s: Seq<char>, done: Seq<Seq<char>>, cur: Seq<char>)
    requires
        written(s, done, cur),
    ensures
        written(
            s + ".lnk\"\n  RMDir \"$SMPROGRAMS\\"@,
            done.push(cur + ".lnk\""@),
            "  RMDir \"$SMPROGRAMS\\"@,
        ),
{
    reveal_strlit(".lnk\"\n  RMDir \"$SMPROGRAMS\\");
    reveal_strlit("\n");
    reveal_strlit("  RMDir \"$SMPROGRAMS\\");
    reveal_strlit(".lnk\"");
    assert(".lnk\"\n  RMDir \"$SMPROGRAMS\\"@ =~= ".lnk\""@ + "\n"@ + "  RMDir \"$SMPROGRAMS\\"@);
    lemma_turn(s, done, cur, ".lnk\""@, "  RMDir \"$SMPROGRAMS\\"@);
}

proof fn lemma_piece_17(s: Seq<char>, done: Seq<Seq<char>>, cur: Seq<char>)
    requires
        written(s, done, cur),
    ensures
        written(
            s + "\"\n  Delete \"$DESKTOP\\"@,
            done.push(cur + "\""@),
            "  Delete \"$DESKTOP\\"@,
        ),
{
    reveal_strlit("\"\n  Delete \"$DESKTOP\\");
    reveal_strlit("\n");
    reveal_strlit("  Delete \"$DESKTOP\\");
    reveal_strlit("\"");
    assert("\"\n  Delete \"$DESKTOP\\"@ =~= "\""@ + "\n"@ + "  Delete \"$DESKTOP\\"@);
    lemma_turn(s, done, cur, "\""@, "  Delete \"$DESKTOP\\"@);
}

proof fn lemma_piece_18(s: Seq<char>, done: Seq<Seq<char>>, cur: Seq<char>)
    requires
        written(s, done, cur),
    ensures
        written(
            s + ".lnk\"\n\n  ; Remove install directory\n  RMDir \"$INSTDIR\"\n\n  ; Remove registry keys\n  DeleteRegKey HKLM \"Software\\Microsoft\\Windows\\CurrentVersion\\Uninstall\\"@,
            done.push(cur + ".lnk\""@).push(Seq::empty()).push("  ; Remove install directory"@).push("  RMDir \"$INSTDIR\""@).push(Seq::empty()).push("  ; Remove registry keys"@),
            "  DeleteRegKey HKLM \"Software\\Microsoft\\Windows\\CurrentVersion\\Uninstall\\"@,
        ),
{
    reveal_strlit(".lnk\"\n\n  ; Remove install directory\n  RMDir \"$INSTDIR\"\n\n  ; Remove registry keys\n  DeleteRegKey HKLM \"Software\\Microsoft\\Windows\\CurrentVersion\\Uninstall\\");
    reveal_strlit("\n");
    reveal_strlit("  ; Remove install directory");
    reveal_strlit("  ; Remove registry keys");
    reveal_strlit("  DeleteRegKey HKLM \"Software\\Microsoft\\Windows\\CurrentVersion\\Uninstall\\");
    reveal_strlit("  RMDir \"$INSTDIR\"");
    reveal_strlit(".lnk\"");
    lemma_text(s, done, cur, ".lnk\""@);
    lemma_break(s + ".lnk\""@, done, cur + ".lnk\""@);
    let s1 = s + ".lnk\""@ + "\n"@;
    let d1 = done.push(cur + ".lnk\""@);
    lemma_row(s1, d1, Seq::empty());
    let s2 = s1 + Seq::empty() + "\n"@;
    let d2 = d1.push(Seq::empty());
    lemma_row(s2, d2, "  ; Remove install directory"@);
    let s3 = s2 + "  ; Remove install directory"@ + "\n"@;
    let d3 = d2.push("  ; Remove install directory"@);
    lemma_row(s3, d3, "  RMDir \"$INSTDIR\""@);
    let s4 = s3 + "  RMDir \"$INSTDIR\""@ + "\n"@;
    let d4 = d3.push("  RMDir \"$INSTDIR\""@);
    lemma_row(s4, d4, Seq::empty());
    let s5 = s4 + Seq::empty() + "\n"@;
    let d5 = d4.push(Seq::empty());
    lemma_row(s5, d5, "  ; Remove registry keys"@);
    let s6 = s5 + "  ; Remove registry keys"@ + "\n"@;
    let d6 = d5.push("  ; Remove registry keys"@);
    lemma_begin(s6, d6, "  DeleteRegKey HKLM \"Software\\Microsoft\\Windows\\CurrentVersion\\Uninstall\\"@);
    assert(s + ".lnk\"\n\n  ; Remove install directory\n  RMDir \"$INSTDIR\"\n\n  ; Remove registry keys\n  DeleteRegKey HKLM \"Software\\Microsoft\\Windows\\CurrentVersion\\Uninstall\\"@ =~= s6 + "  DeleteRegKey HKLM \"Software\\Microsoft\\Windows\\CurrentVersion\\Uninstall\\"@);
}

proof fn lemma_piece_19(s: Seq<char>, done: Seq<Seq<char>>, cur: Seq<char>)
    requires
        written(s, done, cur),
    ensures
        written(
            s + "\"\n  DeleteRegKey HKLM \"Software\\"@,
            done.push(cur + "\""@),
            "  DeleteRegKey HKLM \"Software\\"@,
        ),
{
    reveal_strlit("\"\n  DeleteRegKey HKLM \"Software\\");
    reveal_strlit("\n");
    reveal_strlit("  DeleteRegKey HKLM \"Software\\");
    reveal_strlit("\"");
    assert("\"\n  DeleteRegKey HKLM \"Software\\"@ =~= "\""@ + "\n"@ + "  DeleteRegKey HKLM \"Software\\"@);
    lemma_turn(s, done, cur, "\""@, "  DeleteRegKey HKLM \"Software\\"@);
}

proof fn lemma_piece_20(s: Seq<char>, done: Seq<Seq<char>>, cur: Seq<char>)
    requires
        written(s, done, cur),
    ensures
        written(
            s + "\"\nSectionEnd\n"@,
            done.push(cur + "\""@).push("SectionEnd"@),
            Seq::empty(),
        ),
{
    reveal_strlit("\"\nSectionEnd\n");
    reveal_strlit("\n");
    reveal_strlit("\"");
    reveal_strlit("SectionEnd");
    lemma_text(s, done, cur, "\""@);
    lemma_break(s + "\""@, done, cur + "\""@);
    let s1 = s + "\""@ + "\n"@;
    let d1 = done.push(cur + "\""@);
    lemma_row(s1, d1, "SectionEnd"@);
    let s2 = s1 + "SectionEnd"@ + "\n"@;
    let d2 = d1.push("SectionEnd"@);
    assert(s + "\"\nSectionEnd\n"@ =~= s2);
}

/// The pieces that stand within a line.
proof fn lemma_plain_pieces()
    ensures
        one_line("\" \"DisplayName\" \""@),
        one_line("\" \"DisplayVersion\" \""@),
        one_line("\" \"Publisher\" \""@),
        one_line(".lnk\" \"$INSTDIR\\"@),
        one_line("\\"@),
{
    reveal_strlit("\" \"DisplayName\" \"");
    reveal_strlit("\" \"DisplayVersion\" \"");
    reveal_strlit("\" \"Publisher\" \"");
    reveal_strlit(".lnk\" \"$INSTDIR\\");
    reveal_strlit("\\");
}

/// The lines before the files that are installed.
proof fn lemma_head_written(s: Seq<char>, done: Seq<Seq<char>>, app: Seq<char>, output: Seq<char>)
    requires
        written(s, done, Seq::empty()),
        one_line(app),
        one_line(output),
    ensures
        written(
            s + "!include \"MUI2.nsh\"\n\nName \""@ + app + "\"\nOutFile \""@ + output + "\"\nInstallDir \"$PROGRAMFILES64\\"@ + app + "\"\nInstallDirRegKey HKLM \"Software\\"@ + app + "\" \"InstallDir\"\nRequestExecutionLevel admin\n\n!insertmacro MUI_PAGE_DIRECTORY\n!insertmacro MUI_PAGE_INSTFILES\n!insertmacro MUI_LANGUAGE \"English\"\n\nSection \"Install\"\n  SetOutPath \"$INSTDIR\"\n"@,
            done + head_lines(app, output),
            Seq::empty(),
        ),
{
    lemma_plain_pieces();
    lemma_piece_1(s, done, Seq::<char>::empty());
    let d1 = done.push(Seq::<char>::empty() + "!include \"MUI2.nsh\""@).push(Seq::<char>::empty());
    let s1 = s + "!include \"MUI2.nsh\"\n\nName \""@;
    let c1 = "Name \""@;
    lemma_text(s1, d1, c1, app);
    let s2 = s1 + app;
    let c2 = c1 + app;
    lemma_piece_2(s2, d1, c2);
    let d3 = d1.push(c2 + "\""@);
    let s3 = s2 + "\"\nOutFile \""@;
    let c3 = "OutFile \""@;
    lemma_text(s3, d3, c3, output);
    let s4 = s3 + output;
    let c4 = c3 + output;
    lemma_piece_3(s4, d3, c4);
    let d5 = d3.push(c4 + "\""@);
    let s5 = s4 + "\"\nInstallDir \"$PROGRAMFILES64\\"@;
    let c5 = "InstallDir \"$PROGRAMFILES64\\"@;
    lemma_text(s5, d5, c5, app);
    let s6 = s5 + app;
    let c6 = c5 + app;
    lemma_piece_4(s6, d5, c6);
    let d7 = d5.push(c6 + "\""@);
    let s7 = s6 + "\"\nInstallDirRegKey HKLM \"Software\\"@;
    let c7 = "InstallDirRegKey HKLM \"Software\\"@;
    lemma_text(s7, d7, c7, app);
    let s8 = s7 + app;
    let c8 = c7 + app;
    lemma_piece_5(s8, d7, c8);
    let d9 = d7.push(c8 + "\" \"InstallDir\""@).push("RequestExecutionLevel admin"@).push(Seq::<char>::empty()).push("!insertmacro MUI_PAGE_DIRECTORY"@).push("!insertmacro MUI_PAGE_INSTFILES"@).push("!insertmacro MUI_LANGUAGE \"English\""@).push(Seq::<char>::empty()).push("Section \"Install\""@).push("  SetOutPath \"$INSTDIR\""@);
    let s9 = s8 + "\" \"InstallDir\"\nRequestExecutionLevel admin\n\n!insertmacro MUI_PAGE_DIRECTORY\n!insertmacro MUI_PAGE_INSTFILES\n!insertmacro MUI_LANGUAGE \"English\"\n\nSection \"Install\"\n  SetOutPath \"$INSTDIR\"\n"@;
    let c9 = Seq::<char>::empty();
    assert(d9 =~= done + head_lines(app, output));
}

/// The lines between the files that are installed and those that are removed.
proof fn lemma_middle_written(s: Seq<char>, done: Seq<Seq<char>>, app: Seq<char>, version: Seq<char>, company: Seq<char>)
    requires
        written(s, done, Seq::empty()),
        one_line(app),
        one_line(version),
        one_line(company),
    ensures
        written(
            s + "\n  ; Create Start Menu shortcut\n  CreateDirectory \"$SMPROGRAMS\\"@ + app + "\"\n  CreateShortcut \"$SMPROGRAMS\\"@ + app + "\\"@ + app + ".lnk\" \"$INSTDIR\\"@ + app + ".exe\"\n  CreateShortcut \"$DESKTOP\\"@ + app + ".lnk\" \"$INSTDIR\\"@ + app + ".exe\"\n\n  ; Write uninstaller\n  WriteUninstaller \"$INSTDIR\\Uninstall.exe\"\n\n  ; Add/Remove Programs registry entries\n  WriteRegStr HKLM \"Software\\Microsoft\\Windows\\CurrentVersion\\Uninstall\\"@ + app + "\" \"DisplayName\" \""@ + app + "\"\n  WriteRegStr HKLM \"Software\\Microsoft\\Windows\\CurrentVersion\\Uninstall\\"@ + app + "\" \"UninstallString\" '\"$INSTDIR\\Uninstall.exe\"'\n  WriteRegStr HKLM \"Software\\Microsoft\\Windows\\CurrentVersion\\Uninstall\\"@ + app + "\" \"DisplayVersion\" \""@ + version + "\"\n  WriteRegStr HKLM \"Software\\Microsoft\\Windows\\CurrentVersion\\Uninstall\\"@ + app + "\" \"Publisher\" \""@ + company + "\"\n  WriteRegDWORD HKLM \"Software\\Microsoft\\Windows\\CurrentVersion\\Uninstall\\"@ + app + "\" \"NoModify\" 1\n  WriteRegDWORD HKLM \"Software\\Microsoft\\Windows\\CurrentVersion\\Uninstall\\"@ + app + "\" \"NoRepair\" 1\nSectionEnd\n\nSection \"Uninstall\"\n"@,
            done + middle_lines(app, version, company),
            Seq::empty(),
        ),
{
    lemma_plain_pieces();
    lemma_piece_6(s, done, Seq::<char>::empty());
    let d1 = done.push(Seq::<char>::empty()).push("  ; Create Start Menu shortcut"@);
    let s1 = s + "\n  ; Create Start Menu shortcut\n  CreateDirectory \"$SMPROGRAMS\\"@;
    let c1 = "  CreateDirectory \"$SMPROGRAMS\\"@;
    lemma_text(s1, d1, c1, app);
    let s2 = s1 + app;
    let c2 = c1 + app;
    lemma_piece_7(s2, d1, c2);
    let d3 = d1.push(c2 + "\""@);
    let s3 = s2 + "\"\n  CreateShortcut \"$SMPROGRAMS\\"@;
    let c3 = "  CreateShortcut \"$SMPROGRAMS\\"@;
    lemma_text(s3, d3, c3, app);
    let s4 = s3 + app;
    let c4 = c3 + app;
    lemma_text(s4, d3, c4, "\\"@);
    let s5 = s4 + "\\"@;
    let c5 = c4 + "\\"@;
    lemma_text(s5, d3, c5, app);
    let s6 = s5 + app;
    let c6 = c5 + app;
    lemma_text(s6, d3, c6, ".lnk\" \"$INSTDIR\\"@);
    let s7 = s6 + ".lnk\" \"$INSTDIR\\"@;
    let c7 = c6 + ".lnk\" \"$INSTDIR\\"@;
    lemma_text(s7, d3, c7, app);
    let s8 = s7 + app;
    let c8 = c7 + app;
    lemma_piece_8(s8, d3, c8);
    let d9 = d3.push(c8 + ".exe\""@);
    let s9 = s8 + ".exe\"\n  CreateShortcut \"$DESKTOP\\"@;
    let c9 = "  CreateShortcut \"$DESKTOP\\"@;
    lemma_text(s9, d9, c9, app);
    let s10 = s9 + app;
    let c10 = c9 + app;
    lemma_text(s10, d9, c10, ".lnk\" \"$INSTDIR\\"@);
    let s11 = s10 + ".lnk\" \"$INSTDIR\\"@;
    let c11 = c10 + ".lnk\" \"$INSTDIR\\"@;
    lemma_text(s11, d9, c11, app);
    let s12 = s11 + app;
    let c12 = c11 + app;
    lemma_piece_9(s12, d9, c12);
    let d13 = d9.push(c12 + ".exe\""@).push(Seq::<char>::empty()).push("  ; Write uninstaller"@).push("  WriteUninstaller \"$INSTDIR\\Uninstall.exe\""@).push(Seq::<char>::empty()).push("  ; Add/Remove Programs registry entries"@);
    let s13 = s12 + ".exe\"\n\n  ; Write uninstaller\n  WriteUninstaller \"$INSTDIR\\Uninstall.exe\"\n\n  ; Add/Remove Programs registry entries\n  WriteRegStr HKLM \"Software\\Microsoft\\Windows\\CurrentVersion\\Uninstall\\"@;
    let c13 = "  WriteRegStr HKLM \"Software\\Microsoft\\Windows\\CurrentVersion\\Uninstall\\"@;
    lemma_text(s13, d13, c13, app);
    let s14 = s13 + app;
    let c14 = c13 + app;
    lemma_text(s14, d13, c14, "\" \"DisplayName\" \""@);
    let s15 = s14 + "\" \"DisplayName\" \""@;
    let c15 = c14 + "\" \"DisplayName\" \""@;
    lemma_text(s15, d13, c15, app);
    let s16 = s15 + app;
    let c16 = c15 + app;
    lemma_piece_10(s16, d13, c16);
    let d17 = d13.push(c16 + "\""@);
    let s17 = s16 + "\"\n  WriteRegStr HKLM \"Software\\Microsoft\\Windows\\CurrentVersion\\Uninstall\\"@;
    let c17 = "  WriteRegStr HKLM \"Software\\Microsoft\\Windows\\CurrentVersion\\Uninstall\\"@;
    lemma_text(s17, d17, c17, app);
    let s18 = s17 + app;
    let c18 = c17 + app;
    lemma_piece_11(s18, d17, c18);
    let d19 = d17.push(c18 + "\" \"UninstallString\" '\"$INSTDIR\\Uninstall.exe\"'"@);
    let s19 = s18 + "\" \"UninstallString\" '\"$INSTDIR\\Uninstall.exe\"'\n  WriteRegStr HKLM \"Software\\Microsoft\\Windows\\CurrentVersion\\Uninstall\\"@;
    let c19 = "  WriteRegStr HKLM \"Software\\Microsoft\\Windows\\CurrentVersion\\Uninstall\\"@;
    lemma_text(s19, d19, c19, app);
    let s20 = s19 + app;
    let c20 = c19 + app;
    lemma_text(s20, d19, c20, "\" \"DisplayVersion\" \""@);
    let s21 = s20 + "\" \"DisplayVersion\" \""@;
    let c21 = c20 + "\" \"DisplayVersion\" \""@;
    lemma_text(s21, d19, c21, version);
    let s22 = s21 + version;
    let c22 = c21 + version;
    lemma_piece_10(s22, d19, c22);
    let d23 = d19.push(c22 + "\""@);
    let s23 = s22 + "\"\n  WriteRegStr HKLM \"Software\\Microsoft\\Windows\\CurrentVersion\\Uninstall\\"@;
    let c23 = "  WriteRegStr HKLM \"Software\\Microsoft\\Windows\\CurrentVersion\\Uninstall\\"@;
    lemma_text(s23, d23, c23, app);
    let s24 = s23 + app;
    let c24 = c23 + app;
    lemma_text(s24, d23, c24, "\" \"Publisher\" \""@);
    let s25 = s24 + "\" \"Publisher\" \""@;
    let c25 = c24 + "\" \"Publisher\" \""@;
    lemma_text(s25, d23, c25, company);
    let s26 = s25 + company;
    let c26 = c25 + company;
    lemma_piece_12(s26, d23, c26);
    let d27 = d23.push(c26 + "\""@);
    let s27 = s26 + "\"\n  WriteRegDWORD HKLM \"Software\\Microsoft\\Windows\\CurrentVersion\\Uninstall\\"@;
    let c27 = "  WriteRegDWORD HKLM \"Software\\Microsoft\\Windows\\CurrentVersion\\Uninstall\\"@;
    lemma_text(s27, d27, c27, app);
    let s28 = s27 + app;
    let c28 = c27 + app;
    lemma_piece_13(s28, d27, c28);
    let d29 = d27.push(c28 + "\" \"NoModify\" 1"@);
    let s29 = s28 + "\" \"NoModify\" 1\n  WriteRegDWORD HKLM \"Software\\Microsoft\\Windows\\CurrentVersion\\Uninstall\\"@;
    let c29 = "  WriteRegDWORD HKLM \"Software\\Microsoft\\Windows\\CurrentVersion\\Uninstall\\"@;
    lemma_text(s29, d29, c29, app);
    let s30 = s29 + app;
    let c30 = c29 + app;
    lemma_piece_14(s30, d29, c30);
    let d31 = d29.push(c30 + "\" \"NoRepair\" 1"@).push("SectionEnd"@).push(Seq::<char>::empty()).push("Section \"Uninstall\""@);
    let s31 = s30 + "\" \"NoRepair\" 1\nSectionEnd\n\nSection \"Uninstall\"\n"@;
    let c31 = Seq::<char>::empty();
    assert(d31 =~= done + middle_lines(app, version, company));
}

/// The lines behind the files that are removed.
proof fn lemma_tail_written(s: Seq<char>, done: Seq<Seq<char>>, app: Seq<char>)
    requires
        written(s, done, Seq::empty()),
        one_line(app),
    ensures
        written(
            s + "\n  Delete \"$INSTDIR\\Uninstall.exe\"\n\n  ; Remove shortcuts\n  Delete \"$SMPROGRAMS\\"@ + app + "\\"@ + app + ".lnk\"\n  RMDir \"$SMPROGRAMS\\"@ + app + "\"\n  Delete \"$DESKTOP\\"@ + app + ".lnk\"\n\n  ; Remove install directory\n  RMDir \"$INSTDIR\"\n\n  ; Remove registry keys\n  DeleteRegKey HKLM \"Software\\Microsoft\\Windows\\CurrentVersion\\Uninstall\\"@ + app + "\"\n  DeleteRegKey HKLM \"Software\\"@ + app + "\"\nSectionEnd\n"@,
            done + tail_lines(app),
            Seq::empty(),
        ),
{
    lemma_plain_pieces();
    lemma_piece_15(s, done, Seq::<char>::empty());
    let d1 = done.push(Seq::<char>::empty()).push("  Delete \"$INSTDIR\\Uninstall.exe\""@).push(Seq::<char>::empty()).push("  ; Remove shortcuts"@);
    let s1 = s + "\n  Delete \"$INSTDIR\\Uninstall.exe\"\n\n  ; Remove shortcuts\n  Delete \"$SMPROGRAMS\\"@;
    let c1 = "  Delete \"$SMPROGRAMS\\"@;
    lemma_text(s1, d1, c1, app);
    let s2 = s1 + app;
    let c2 = c1 + app;
    lemma_text(s2, d1, c2, "\\"@);
    let s3 = s2 + "\\"@;
    let c3 = c2 + "\\"@;
    lemma_text(s3, d1, c3, app);
    let s4 = s3 + app;
    let c4 = c3 + app;
    lemma_piece_16(s4, d1, c4);
    let d5 = d1.push(c4 + ".lnk\""@);
    let s5 = s4 + ".lnk\"\n  RMDir \"$SMPROGRAMS\\"@;
    let c5 = "  RMDir \"$SMPROGRAMS\\"@;
    lemma_text(s5, d5, c5, app);
    let s6 = s5 + app;
    let c6 = c5 + app;
    lemma_piece_17(s6, d5, c6);
    let d7 = d5.push(c6 + "\""@);
    let s7 = s6 + "\"\n  Delete \"$DESKTOP\\"@;
    let c7 = "  Delete \"$DESKTOP\\"@;
    lemma_text(s7, d7, c7, app);
    let s8 = s7 + app;
    let c8 = c7 + app;
    lemma_piece_18(s8, d7, c8);
    let d9 = d7.push(c8 + ".lnk\""@).push(Seq::<char>::empty()).push("  ; Remove install directory"@).push("  RMDir \"$INSTDIR\""@).push(Seq::<char>::empty()).push("  ; Remove registry keys"@);
    let s9 = s8 + ".lnk\"\n\n  ; Remove install directory\n  RMDir \"$INSTDIR\"\n\n  ; Remove registry keys\n  DeleteRegKey HKLM \"Software\\Microsoft\\Windows\\CurrentVersion\\Uninstall\\"@;
    let c9 = "  DeleteRegKey HKLM \"Software\\Microsoft\\Windows\\CurrentVersion\\Uninstall\\"@;
    lemma_text(s9, d9, c9, app);
    let s10 = s9 + app;
    let c10 = c9 + app;
    lemma_piece_19(s10, d9, c10);
    let d11 = d9.push(c10 + "\""@);
    let s11 = s10 + "\"\n  DeleteRegKey HKLM \"Software\\"@;
    let c11 = "  DeleteRegKey HKLM \"Software\\"@;
    lemma_text(s11, d11, c11, app);
    let s12 = s11 + app;
    let c12 = c11 + app;
    lemma_piece_20(s12, d11, c12);
    let d13 = d11.push(c12 + "\""@).push("SectionEnd"@);
    let s13 = s12 + "\"\nSectionEnd\n"@;
    let c13 = Seq::<char>::empty();
    assert(d13 =~= done + tail_lines(app));
}

// ---------------------------------------------------------------------------
// The files
// ---------------------------------------------------------------------------

/// The line that installs a file.
pub open spec fn file_row(dir: Seq<char>, name: Seq<char>) -> Seq<char> {
    "  File \""@ + dir + "\\"@ + name + "\""@
}

/// The line that removes a file of the application.
pub open spec fn removal_row(name: Seq<char>) -> Seq<char> {
    "  Delete \"$INSTDIR\\"@ + name + "\""@
}

/// The files of a bundle that are installed.
pub open spec fn installed(files: Seq<Seq<char>>) -> Seq<Seq<char>> {
    files.filter(|name: Seq<char>| is_installed(name))
}

proof fn lemma_file_row_written(s: Seq<char>, done: Seq<Seq<char>>, dir: Seq<char>, name: Seq<char>)
    requires
        written(s, done, Seq::empty()),
        one_line(dir),
        one_line(name),
    ensures
        written(
            s + ("  File \""@ + dir + "\\"@ + name + "\"\n"@),
            done.push(file_row(dir, name)),
            Seq::empty(),
        ),
{
    reveal_strlit("  File \"");
    reveal_strlit("\\");
    reveal_strlit("\"");
    reveal_strlit("\"\n");
    reveal_strlit("\n");
    let row = file_row(dir, name);
    assert forall|i: int| 0 <= i < row.len() implies #[trigger] row[i] != '\n' by {
        let a = "  File \""@ + dir;
        let b = a + "\\"@;
        let c = b + name;
        if i < "  File \""@.len() {
        } else if i < a.len() {
            assert(row[i] == dir[i - "  File \""@.len()]);
        } else if i < b.len() {
        } else if i < c.len() {
            assert(row[i] == name[i - b.len()]);
        }
    }
    lemma_row(s, done, row);
    assert("\"\n"@ =~= "\""@ + "\n"@);
    assert(s + ("  File \""@ + dir + "\\"@ + name + "\"\n"@) =~= s + row + "\n"@);
}

proof fn lemma_removal_row_written(s: Seq<char>, done: Seq<Seq<char>>, name: Seq<char>)
    requires
        written(s, done, Seq::empty()),
        one_line(name),
    ensures
        written(
            s + ("  Delete \"$INSTDIR\\"@ + name + "\"\n"@),
            done.push(removal_row(name)),
            Seq::empty(),
        ),
{
    reveal_strlit("  Delete \"$INSTDIR\\");
    reveal_strlit("\"");
    reveal_strlit("\"\n");
    reveal_strlit("\n");
    let row = removal_row(name);
    assert forall|i: int| 0 <= i < row.len() implies #[trigger] row[i] != '\n' by {
        let a = "  Delete \"$INSTDIR\\"@;
        let b = a + name;
        if i < a.len() {
        } else if i < b.len() {
            assert(row[i] == name[i - a.len()]);
        }
    }
    lemma_row(s, done, row);
    assert("\"\n"@ =~= "\""@ + "\n"@);
    assert(s + ("  Delete \"$INSTDIR\\"@ + name + "\"\n"@) =~= s + row + "\n"@);
}

/// The lines that install files.
proof fn lemma_files_written(
    s: Seq<char>,
    done: Seq<Seq<char>>,
    dir: Seq<char>,
    files: Seq<Seq<char>>,
)
    requires
        written(s, done, Seq::empty()),
        one_line(dir),
        forall|k: int| 0 <= k < files.len() ==> one_line(#[trigger] files[k]),
    ensures
        written(
            s + install_lines(dir, files),
            done + installed(files).map_values(|name: Seq<char>| file_row(dir, name)),
            Seq::empty(),
        ),
    decreases files.len(),
{
    let row = |name: Seq<char>| file_row(dir, name);
    reveal(Seq::filter);
    if files.len() == 0 {
        assert(s + install_lines(dir, files) =~= s);
        assert(done + installed(files).map_values(row) =~= done);
    } else {
        let rest = files.drop_last();
        let name = files.last();
        assert forall|k: int| 0 <= k < rest.len() implies one_line(#[trigger] rest[k]) by {
            assert(rest[k] == files[k]);
        }
        lemma_files_written(s, done, dir, rest);
        assert(one_line(files[files.len() - 1]));
        let before = done + installed(rest).map_values(row);
        let text = s + install_lines(dir, rest);
        if is_installed(name) {
            lemma_file_row_written(text, before, dir, name);
            let line = "  File \""@ + dir + "\\"@ + name + "\"\n"@;
            assert(s + install_lines(dir, files) =~= text + line);
            assert(installed(files) =~= installed(rest).push(name));
            assert(before.push(file_row(dir, name)) =~= done + installed(files).map_values(row));
        } else {
            assert(installed(files) =~= installed(rest));
        }
    }
}

/// The lines that remove files.
proof fn lemma_removals_written(s: Seq<char>, done: Seq<Seq<char>>, files: Seq<Seq<char>>)
    requires
        written(s, done, Seq::empty()),
        forall|k: int| 0 <= k < files.len() ==> one_line(#[trigger] files[k]),
    ensures
        written(
            s + delete_lines(files),
            done + installed(files).map_values(|name: Seq<char>| removal_row(name)),
            Seq::empty(),
        ),
    decreases files.len(),
{
    let row = |name: Seq<char>| removal_row(name);
    reveal(Seq::filter);
    if files.len() == 0 {
        assert(s + delete_lines(files) =~= s);
        assert(done + installed(files).map_values(row) =~= done);
    } else {
        let rest = files.drop_last();
        let name = files.last();
        assert forall|k: int| 0 <= k < rest.len() implies one_line(#[trigger] rest[k]) by {
            assert(rest[k] == files[k]);
        }
        lemma_removals_written(s, done, rest);
        assert(one_line(files[files.len() - 1]));
        let before = done + installed(rest).map_values(row);
        let text = s + delete_lines(rest);
        if is_installed(name) {
            lemma_removal_row_written(text, before, name);
            let line = "  Delete \"$INSTDIR\\"@ + name + "\"\n"@;
            assert(s + delete_lines(files) =~= text + line);
            assert(installed(files) =~= installed(rest).push(name));
            assert(before.push(removal_row(name)) =~= done + installed(files).map_values(row));
        } else {
            assert(installed(files) =~= installed(rest));
        }
    }
}

// ---------------------------------------------------------------------------
// The whole script
// ---------------------------------------------------------------------------

/// The script, line by line.
pub proof fn lemma_script_lines(
    app: Seq<char>,
    version: Seq<char>,
    company: Seq<char>,
    output: Seq<char>,
    dir: Seq<char>,
    files: Seq<Seq<char>>,
)
    requires
        one_line(app),
        one_line(version),
        one_line(company),
        one_line(output),
        one_line(dir),
        forall|k: int| 0 <= k < files.len() ==> one_line(#[trigger] files[k]),
    ensures
        pieces(
            nsis_script_of(
                app,
                version,
                company,
                output,
                install_lines(dir, files),
                delete_lines(files),
            ),
            '\n',
        ) == (head_lines(app, output) + installed(files).map_values(
            |name: Seq<char>| file_row(dir, name),
        ) + middle_lines(app, version, company) + installed(files).map_values(
            |name: Seq<char>| removal_row(name),
        ) + tail_lines(app)).push(Seq::empty()),
{
    let none = Seq::<Seq<char>>::empty();
    let nothing = Seq::<char>::empty();
    assert(written(nothing, none, nothing)) by {
        reveal(written);
        assert(pieces(nothing, '\n') =~= none.push(nothing));
    }
    let d1 = head_lines(app, output);
    lemma_head_written(nothing, none, app, output);
    let s1 = nothing + "!include \"MUI2.nsh\"\n\nName \""@ + app + "\"\nOutFile \""@ + output + "\"\nInstallDir \"$PROGRAMFILES64\\"@ + app + "\"\nInstallDirRegKey HKLM \"Software\\"@ + app + "\" \"InstallDir\"\nRequestExecutionLevel admin\n\n!insertmacro MUI_PAGE_DIRECTORY\n!insertmacro MUI_PAGE_INSTFILES\n!insertmacro MUI_LANGUAGE \"English\"\n\nSection \"Install\"\n  SetOutPath \"$INSTDIR\"\n"@;
    assert(none + d1 =~= d1);
    lemma_files_written(s1, d1, dir, files);
    let s2 = s1 + install_lines(dir, files);
    let d2 = d1 + installed(files).map_values(|name: Seq<char>| file_row(dir, name));
    lemma_middle_written(s2, d2, app, version, company);
    let s3 = s2 + "\n  ; Create Start Menu shortcut\n  CreateDirectory \"$SMPROGRAMS\\"@ + app + "\"\n  CreateShortcut \"$SMPROGRAMS\\"@ + app + "\\"@ + app + ".lnk\" \"$INSTDIR\\"@ + app + ".exe\"\n  CreateShortcut \"$DESKTOP\\"@ + app + ".lnk\" \"$INSTDIR\\"@ + app + ".exe\"\n\n  ; Write uninstaller\n  WriteUninstaller \"$INSTDIR\\Uninstall.exe\"\n\n  ; Add/Remove Programs registry entries\n  WriteRegStr HKLM \"Software\\Microsoft\\Windows\\CurrentVersion\\Uninstall\\"@ + app + "\" \"DisplayName\" \""@ + app + "\"\n  WriteRegStr HKLM \"Software\\Microsoft\\Windows\\CurrentVersion\\Uninstall\\"@ + app + "\" \"UninstallString\" '\"$INSTDIR\\Uninstall.exe\"'\n  WriteRegStr HKLM \"Software\\Microsoft\\Windows\\CurrentVersion\\Uninstall\\"@ + app + "\" \"DisplayVersion\" \""@ + version + "\"\n  WriteRegStr HKLM \"Software\\Microsoft\\Windows\\CurrentVersion\\Uninstall\\"@ + app + "\" \"Publisher\" \""@ + company + "\"\n  WriteRegDWORD HKLM \"Software\\Microsoft\\Windows\\CurrentVersion\\Uninstall\\"@ + app + "\" \"NoModify\" 1\n  WriteRegDWORD HKLM \"Software\\Microsoft\\Windows\\CurrentVersion\\Uninstall\\"@ + app + "\" \"NoRepair\" 1\nSectionEnd\n\nSection \"Uninstall\"\n"@;
    let d3 = d2 + middle_lines(app, version, company);
    lemma_removals_written(s3, d3, files);
    let s4 = s3 + delete_lines(files);
    let d4 = d3 + installed(files).map_values(|name: Seq<char>| removal_row(name));
    lemma_tail_written(s4, d4, app);
    reveal(written);
}

} // verus!
