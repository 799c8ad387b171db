//! The NSIS script of an installer.
use crate::build::validate::{escape_nsis, nsis_escaped};
use crate::queue::job::BuildManifest;
use crate::text::{chars_of, ends_with, ends_with_text, or_text, text_or, texts};
use vstd::prelude::*;
use vstd::string::*;

verus! {

/// A path with a backslash in place of each slash.
pub open spec fn backslashed(s: Seq<char>) -> Seq<char> {
    s.map_values(|c: char| if c == '/' { '\\' } else { c })
}

/// Whether a file of the bundle is installed: the manifest file is not, since
/// the executable holds it.
pub open spec fn is_installed(name: Seq<char>) -> bool {
    !ends_with(name, ".exe.manifest"@)
}

/// The line that installs a file.
pub open spec fn install_line(dir: Seq<char>, name: Seq<char>) -> Seq<char> {
    "  File \""@ + dir + "\\"@ + name + "\"\n"@
}

/// The line that removes a file.
pub open spec fn delete_line(name: Seq<char>) -> Seq<char> {
    r#"  Delete "$INSTDIR\"#@ + name + "\"\n"@
}

/// The lines that install the files of a bundle.
pub open spec fn install_lines(dir: Seq<char>, files: Seq<Seq<char>>) -> Seq<char>
    decreases files.len(),
{
    if files.len() == 0 {
        Seq::empty()
    } else if is_installed(files.last()) {
        install_lines(dir, files.drop_last()) + install_line(dir, files.last())
    } else {
        install_lines(dir, files.drop_last())
    }
}

/// The lines that remove the files of a bundle.
pub open spec fn delete_lines(files: Seq<Seq<char>>) -> Seq<char>
    decreases files.len(),
{
    if files.len() == 0 {
        Seq::empty()
    } else if is_installed(files.last()) {
        delete_lines(files.drop_last()) + delete_line(files.last())
    } else {
        delete_lines(files.drop_last())
    }
}

/// The script for texts that stand between quotes, and for the lines that
/// install and remove the files.
pub open spec fn nsis_script_of(
    app_name: Seq<char>,
    version: Seq<char>,
    company: Seq<char>,
    output: Seq<char>,
    install_files: Seq<char>,
    uninstall_files: Seq<char>,
) -> Seq<char> {
    r#"!include "MUI2.nsh"

Name ""#@ + app_name + r#""
OutFile ""#@ + output + r#""
InstallDir "$PROGRAMFILES64\"#@ + app_name + r#""
InstallDirRegKey HKLM "Software\"#@ + app_name + r#"" "InstallDir"
RequestExecutionLevel admin

!insertmacro MUI_PAGE_DIRECTORY
!insertmacro MUI_PAGE_INSTFILES
!insertmacro MUI_LANGUAGE "English"

Section "Install"
  SetOutPath "$INSTDIR"
"#@ + install_files + r#"
  ; Create Start Menu shortcut
  CreateDirectory "$SMPROGRAMS\"#@ + app_name + r#""
  CreateShortcut "$SMPROGRAMS\"#@ + app_name + r#"\"#@ + app_name + r#".lnk" "$INSTDIR\"#@ + app_name + r#".exe"
  CreateShortcut "$DESKTOP\"#@ + app_name + r#".lnk" "$INSTDIR\"#@ + app_name + r#".exe"

  ; Write uninstaller
  WriteUninstaller "$INSTDIR\Uninstall.exe"

  ; Add/Remove Programs registry entries
  WriteRegStr HKLM "Software\Microsoft\Windows\CurrentVersion\Uninstall\"#@ + app_name + r#"" "DisplayName" ""#@ + app_name + r#""
  WriteRegStr HKLM "Software\Microsoft\Windows\CurrentVersion\Uninstall\"#@ + app_name + r#"" "UninstallString" '"$INSTDIR\Uninstall.exe"'
  WriteRegStr HKLM "Software\Microsoft\Windows\CurrentVersion\Uninstall\"#@ + app_name + r#"" "DisplayVersion" ""#@ + version + r#""
  WriteRegStr HKLM "Software\Microsoft\Windows\CurrentVersion\Uninstall\"#@ + app_name + r#"" "Publisher" ""#@ + company + r#""
  WriteRegDWORD HKLM "Software\Microsoft\Windows\CurrentVersion\Uninstall\"#@ + app_name + r#"" "NoModify" 1
  WriteRegDWORD HKLM "Software\Microsoft\Windows\CurrentVersion\Uninstall\"#@ + app_name + r#"" "NoRepair" 1
SectionEnd

Section "Uninstall"
"#@ + uninstall_files + r#"
  Delete "$INSTDIR\Uninstall.exe"

  ; Remove shortcuts
  Delete "$SMPROGRAMS\"#@ + app_name + r#"\"#@ + app_name + r#".lnk"
  RMDir "$SMPROGRAMS\"#@ + app_name + r#""
  Delete "$DESKTOP\"#@ + app_name + r#".lnk"

  ; Remove install directory
  RMDir "$INSTDIR"

  ; Remove registry keys
  DeleteRegKey HKLM "Software\Microsoft\Windows\CurrentVersion\Uninstall\"#@ + app_name + r#""
  DeleteRegKey HKLM "Software\"#@ + app_name + r#""
SectionEnd
"#@
}

/// The script that installs the files of a bundle.
pub open spec fn nsis_script(
    m: BuildManifest,
    bundle_dir: Seq<char>,
    output: Seq<char>,
    files: Seq<Seq<char>>,
) -> Seq<char> {
    nsis_script_of(
        nsis_escaped(m.app_name@),
        nsis_escaped(m.version@),
        nsis_escaped(or_text(m.windows_company_name, ""@)),
        backslashed(output),
        install_lines(backslashed(bundle_dir), files),
        delete_lines(files),
    )
}

/// Replaces each slash by a backslash.
pub fn to_backslashes(path: &str) -> (s: String)
    ensures
        s@ == backslashed(path@),
{
    let v = chars_of(path);
    let mut s: String = String::new();
    let mut i: usize = 0;
    while i < v.len()
        invariant
            i <= v@.len(),
            v@ == path@,
            s@ =~= backslashed(path@).take(i as int),
        decreases v@.len() - i,
    {
        if v[i] == '/' {
            s.push('\\');
        } else {
            s.push(v[i]);
        }
        i = i + 1;
    }
    assert(s@ =~= backslashed(path@));
    s
}

/// The NSIS script of an installer for the files of a bundle.
pub fn generate_nsis_script(
    manifest: &BuildManifest,
    bundle_dir: &str,
    output_path: &str,
    files: &Vec<String>,
) -> (s: String)
    ensures
        s@ == nsis_script(*manifest, bundle_dir@, output_path@, texts(files@)),
{
    let app_name = escape_nsis(&manifest.app_name);
    let version = escape_nsis(&manifest.version);
    let company = escape_nsis(text_or(&manifest.windows_company_name, ""));
    let dir = to_backslashes(bundle_dir);
    let output = to_backslashes(output_path);
    let ghost names = texts(files@);
    let mut install_files: String = String::new();
    let mut uninstall_files: String = String::new();
    let mut i: usize = 0;
    assert(install_files@ =~= install_lines(dir@, names.take(0)));
    assert(uninstall_files@ =~= delete_lines(names.take(0)));
    while i < files.len()
        invariant
            i <= files@.len(),
            names == texts(files@),
            install_files@ == install_lines(dir@, names.take(i as int)),
            uninstall_files@ == delete_lines(names.take(i as int)),
        decreases files@.len() - i,
    {
        let name = files[i].as_str();
        assert(names.take(i + 1).drop_last() =~= names.take(i as int));
        assert(names.take(i + 1).last() == name@);
        if !ends_with_text(name, ".exe.manifest") {
            let ghost installed = install_files@;
            let ghost deleted = uninstall_files@;
            install_files.append("  File \"");
            install_files.append(&dir);
            install_files.append("\\");
            install_files.append(name);
            install_files.append("\"\n");
            uninstall_files.append(r#"  Delete "$INSTDIR\"#);
            uninstall_files.append(name);
            uninstall_files.append("\"\n");
            assert(install_files@ =~= installed + install_line(dir@, name@));
            assert(uninstall_files@ =~= deleted + delete_line(name@));
        }
        i = i + 1;
    }
    assert(names.take(names.len() as int) =~= names);
    let mut s = r#"!include "MUI2.nsh"

Name ""#.to_owned();
    s.append(&app_name);
    s.append(r#""
OutFile ""#);
    s.append(&output);
    s.append(r#""
InstallDir "$PROGRAMFILES64\"#);
    s.append(&app_name);
    s.append(r#""
InstallDirRegKey HKLM "Software\"#);
    s.append(&app_name);
    s.append(r#"" "InstallDir"
RequestExecutionLevel admin

!insertmacro MUI_PAGE_DIRECTORY
!insertmacro MUI_PAGE_INSTFILES
!insertmacro MUI_LANGUAGE "English"

Section "Install"
  SetOutPath "$INSTDIR"
"#);
    s.append(&install_files);
    s.append(r#"
  ; Create Start Menu shortcut
  CreateDirectory "$SMPROGRAMS\"#);
    s.append(&app_name);
    s.append(r#""
  CreateShortcut "$SMPROGRAMS\"#);
    s.append(&app_name);
    s.append(r#"\"#);
    s.append(&app_name);
    s.append(r#".lnk" "$INSTDIR\"#);
    s.append(&app_name);
    s.append(r#".exe"
  CreateShortcut "$DESKTOP\"#);
    s.append(&app_name);
    s.append(r#".lnk" "$INSTDIR\"#);
    s.append(&app_name);
    s.append(r#".exe"

  ; Write uninstaller
  WriteUninstaller "$INSTDIR\Uninstall.exe"

  ; Add/Remove Programs registry entries
  WriteRegStr HKLM "Software\Microsoft\Windows\CurrentVersion\Uninstall\"#);
    s.append(&app_name);
    s.append(r#"" "DisplayName" ""#);
    s.append(&app_name);
    s.append(r#""
  WriteRegStr HKLM "Software\Microsoft\Windows\CurrentVersion\Uninstall\"#);
    s.append(&app_name);
    s.append(r#"" "UninstallString" '"$INSTDIR\Uninstall.exe"'
  WriteRegStr HKLM "Software\Microsoft\Windows\CurrentVersion\Uninstall\"#);
    s.append(&app_name);
    s.append(r#"" "DisplayVersion" ""#);
    s.append(&version);
    s.append(r#""
  WriteRegStr HKLM "Software\Microsoft\Windows\CurrentVersion\Uninstall\"#);
    s.append(&app_name);
    s.append(r#"" "Publisher" ""#);
    s.append(&company);
    s.append(r#""
  WriteRegDWORD HKLM "Software\Microsoft\Windows\CurrentVersion\Uninstall\"#);
    s.append(&app_name);
    s.append(r#"" "NoModify" 1
  WriteRegDWORD HKLM "Software\Microsoft\Windows\CurrentVersion\Uninstall\"#);
    s.append(&app_name);
    s.append(r#"" "NoRepair" 1
SectionEnd

Section "Uninstall"
"#);
    s.append(&uninstall_files);
    s.append(r#"
  Delete "$INSTDIR\Uninstall.exe"

  ; Remove shortcuts
  Delete "$SMPROGRAMS\"#);
    s.append(&app_name);
    s.append(r#"\"#);
    s.append(&app_name);
    s.append(r#".lnk"
  RMDir "$SMPROGRAMS\"#);
    s.append(&app_name);
    s.append(r#""
  Delete "$DESKTOP\"#);
    s.append(&app_name);
    s.append(r#".lnk"

  ; Remove install directory
  RMDir "$INSTDIR"

  ; Remove registry keys
  DeleteRegKey HKLM "Software\Microsoft\Windows\CurrentVersion\Uninstall\"#);
    s.append(&app_name);
    s.append(r#""
  DeleteRegKey HKLM "Software\"#);
    s.append(&app_name);
    s.append(r#""
SectionEnd
"#);
    s
}

/// Whether `part` stands somewhere in `s`.
pub open spec fn has_part(s: Seq<char>, part: Seq<char>) -> bool {
    exists|i: int| part_at(s, part, i)
}

/// Whether `part` stands in `s` from `i` on.
pub open spec fn part_at(s: Seq<char>, part: Seq<char>, i: int) -> bool {
    0 <= i && i + part.len() <= s.len() && s.subrange(i, i + part.len()) == part
}

/// A part of a text is a part of any text around it.
proof fn lemma_part_of_longer(before: Seq<char>, s: Seq<char>, after: Seq<char>, part: Seq<char>)
    requires
        has_part(s, part),
    ensures
        has_part(before + s + after, part),
{
    let i = choose|i: int| part_at(s, part, i);
    let j = before.len() + i;
    assert((before + s + after).subrange(j, j + part.len()) =~= s.subrange(i, i + part.len()));
    assert(part_at(before + s + after, part, j));
}

/// Every file that the script installs it also removes: of each installed file
/// of the bundle, the lines for installing and for removing it stand among the
/// lines of the script.
pub proof fn lemma_installed_files_are_removed(dir: Seq<char>, files: Seq<Seq<char>>, k: int)
    requires
        0 <= k < files.len(),
        is_installed(files[k]),
    ensures
        has_part(install_lines(dir, files), install_line(dir, files[k])),
        has_part(delete_lines(files), delete_line(files[k])),
    decreases files.len(),
{
    let rest = files.drop_last();
    let a = install_lines(dir, rest);
    let b = delete_lines(rest);
    if k == files.len() - 1 {
        let line = install_line(dir, files[k]);
        assert((a + line).subrange(a.len() as int, a.len() as int + line.len()) =~= line);
        assert(part_at(a + line, line, a.len() as int));
        let gone = delete_line(files[k]);
        assert((b + gone).subrange(b.len() as int, b.len() as int + gone.len()) =~= gone);
        assert(part_at(b + gone, gone, b.len() as int));
    } else {
        lemma_installed_files_are_removed(dir, rest, k);
        if is_installed(files.last()) {
            let line = install_line(dir, files.last());
            lemma_part_of_longer(Seq::empty(), a, line, install_line(dir, files[k]));
            assert(Seq::<char>::empty() + a + line =~= a + line);
            let gone = delete_line(files.last());
            lemma_part_of_longer(Seq::empty(), b, gone, delete_line(files[k]));
            assert(Seq::<char>::empty() + b + gone =~= b + gone);
        }
    }
}

} // verus!
