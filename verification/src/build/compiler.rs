//! Running the Perry compiler on a project.
use crate::paths::{below, join_path, lies_in, path_lies_in, PathStyle};
use crate::process::{append_output, code_text, is_success, shown_code, with_output, ToolCommand};
use crate::queue::job::BuildManifest;
use crate::text::{cat2, chars_of, push_text, signed_decimal, texts, verdict};
use vstd::prelude::*;
use vstd::string::*;

verus! {

/// The arguments of the compiler.
pub open spec fn compile_args(
    entry: Seq<char>,
    output: Seq<char>,
    target: Option<Seq<char>>,
) -> Seq<Seq<char>> {
    let args = seq!["compile"@, entry, "-o"@, output];
    match target {
        Some(t) => args + seq!["--target"@, t],
        None => args,
    }
}

/// What a path is after links and relative parts are resolved, or why it could
/// not be resolved.
pub open spec fn canonical(r: Result<String, String>) -> Result<Seq<char>, Seq<char>> {
    match r {
        Ok(p) => Ok(p@),
        Err(e) => Err(e@),
    }
}

/// What is wrong with compiling an entry file, if anything is: the project or
/// the entry cannot be resolved, or the entry lies outside the project.
pub open spec fn compile_refusal(
    entry: Seq<char>,
    project: Result<Seq<char>, Seq<char>>,
    resolved_entry: Result<Seq<char>, Seq<char>>,
    style: PathStyle,
) -> Option<Seq<char>> {
    match project {
        Err(e) => Some("Failed to canonicalize project dir: "@ + e),
        Ok(dir) => match resolved_entry {
            Err(e) => Some("Entry file not found or inaccessible: "@ + e),
            Ok(path) => if lies_in(path, dir, style) {
                None
            } else {
                Some("Entry path escapes project directory: "@ + entry)
            },
        },
    }
}

/// The path of the entry file.
pub fn entry_path(manifest: &BuildManifest, project_dir: &str, style: PathStyle) -> (r: String)
    ensures
        r@ == below(project_dir@, manifest.entry@, style),
{
    join_path(project_dir, &manifest.entry, style)
}

/// The command that compiles a project. `canonical_project` and
/// `canonical_entry` are the project's directory and the entry file with links
/// and relative parts resolved.
pub fn compile(
    manifest: &BuildManifest,
    perry_binary: &str,
    project_dir: &str,
    output_path: &str,
    target: Option<&str>,
    canonical_project: &Result<String, String>,
    canonical_entry: &Result<String, String>,
    style: PathStyle,
) -> (r: Result<ToolCommand, String>)
    ensures
        match (
            r,
            compile_refusal(
                manifest.entry@,
                canonical(*canonical_project),
                canonical(*canonical_entry),
                style,
            ),
        ) {
            (Err(e), Some(message)) => e@ == message,
            (Ok(command), None) => {
                &&& command@.program == perry_binary@
                &&& command@.args == compile_args(
                    below(project_dir@, manifest.entry@, style),
                    output_path@,
                    match target {
                        Some(t) => Some(t@),
                        None => None,
                    },
                )
                &&& command@.env.len() == 0
            },
            _ => false,
        },
{
    let dir = match canonical_project {
        Ok(p) => p,
        Err(e) => return Err(cat2("Failed to canonicalize project dir: ", e)),
    };
    let path = match canonical_entry {
        Ok(p) => p,
        Err(e) => return Err(cat2("Entry file not found or inaccessible: ", e)),
    };
    if !path_lies_in(path, dir, style) {
        return Err(cat2("Entry path escapes project directory: ", &manifest.entry));
    }
    let entry = entry_path(manifest, project_dir, style);
    let mut args: Vec<String> = Vec::new();
    push_text(&mut args, "compile");
    push_text(&mut args, &entry);
    push_text(&mut args, "-o");
    push_text(&mut args, output_path);
    match target {
        Some(t) => {
            push_text(&mut args, "--target");
            push_text(&mut args, t);
        },
        None => {},
    }
    assert(texts(args@) =~= compile_args(
        entry@,
        output_path@,
        match target {
            Some(t) => Some(t@),
            None => None,
        },
    ));
    Ok(ToolCommand { program: perry_binary.to_owned(), args, env: Vec::new() })
}

/// How running the compiler went.
pub enum CompilerEnd {
    /// It could not be started.
    NotStarted(String),
    /// Its end could not be waited for.
    WaitFailed(String),
    /// It ended. Without a code a signal ended it.
    Exited(Option<i32>),
}

/// What comes of running the compiler: where the build was cancelled that alone
/// counts, and a success without an output file is none.
pub open spec fn compile_verdict(
    end: CompilerEnd,
    cancelled: bool,
    stderr: Seq<Seq<char>>,
    stdout: Seq<Seq<char>>,
    output_exists: bool,
) -> Result<(), Seq<char>> {
    match end {
        CompilerEnd::NotStarted(e) => Err("Failed to spawn perry: "@ + e@),
        CompilerEnd::WaitFailed(e) => Err("Failed to wait for perry: "@ + e@),
        CompilerEnd::Exited(code) => if cancelled {
            Err("Build cancelled"@)
        } else if code != Some(0i32) {
            Err(
                with_output(
                    "perry compile exited with code "@ + signed_decimal(shown_code(code)),
                    stderr,
                    stdout,
                ),
            )
        } else if !output_exists {
            Err("Compiler produced no output binary"@)
        } else {
            Ok(())
        },
    }
}

/// What comes of running the compiler.
pub fn compile_outcome(
    end: &CompilerEnd,
    cancelled: bool,
    stderr: &Vec<String>,
    stdout: &Vec<String>,
    output_exists: bool,
) -> (r: Result<(), String>)
    ensures
        verdict(r) == compile_verdict(
            *end,
            cancelled,
            texts(stderr@),
            texts(stdout@),
            output_exists,
        ),
{
    match end {
        CompilerEnd::NotStarted(e) => Err(cat2("Failed to spawn perry: ", e)),
        CompilerEnd::WaitFailed(e) => Err(cat2("Failed to wait for perry: ", e)),
        CompilerEnd::Exited(code) => {
            if cancelled {
                Err("Build cancelled".to_owned())
            } else if !is_success(*code) {
                let message = cat2("perry compile exited with code ", &code_text(*code));
                Err(append_output(&message, stderr, stdout))
            } else if !output_exists {
                Err("Compiler produced no output binary".to_owned())
            } else {
                Ok(())
            }
        },
    }
}

/// What comes of compiling in a container: once the container has ended well,
/// the output has to be there.
pub fn isolated_outcome(ran: Result<(), String>, output_exists: bool) -> (r: Result<(), String>)
    ensures
        verdict(r) == match verdict(ran) {
            Ok(_) => if output_exists {
                Ok(())
            } else {
                Err("Compiler produced no output binary"@)
            },
            Err(e) => Err(e),
        },
{
    match ran {
        Ok(()) => if output_exists {
            Ok(())
        } else {
            Err("Compiler produced no output binary".to_owned())
        },
        Err(e) => Err(e),
    }
}

// ---------------------------------------------------------------------------
// Command lines
// ---------------------------------------------------------------------------

/// Whether a character means nothing to the shell of a container.
pub open spec fn is_plain(c: char) -> bool {
    'a' <= c <= 'z' || 'A' <= c <= 'Z' || '0' <= c <= '9' || c == '.' || c == '_' || c == '-' || c
        == '/' || c == '\\' || c == ':'
}

/// Whether an argument stands in a command line as it is.
pub open spec fn is_plain_word(arg: Seq<char>) -> bool {
    arg.len() > 0 && forall|i: int| 0 <= i < arg.len() ==> is_plain(#[trigger] arg[i])
}

/// Whether only backslashes stand between a place in an argument and the next
/// quotation mark that is written there.
pub open spec fn meets_mark(arg: Seq<char>, i: int) -> bool
    decreases arg.len() - i,
{
    i >= arg.len() || arg[i] == '"' || arg[i] == '%' || (arg[i] == '\\' && meets_mark(arg, i + 1))
}

/// A character of an argument between quotation marks. A quotation mark and a
/// percent sign are written outside the marks, each behind a caret, so that the
/// shell takes them as they are; the program needs a backslash before the
/// quotation mark too. Backslashes before a mark are doubled.
pub open spec fn quoted_char(arg: Seq<char>, i: int) -> Seq<char> {
    if arg[i] == '"' {
        seq!['"', '\\', '^', '"', '"']
    } else if arg[i] == '%' {
        seq!['"', '^', '%', '"']
    } else if arg[i] == '\\' && meets_mark(arg, i + 1) {
        seq!['\\', '\\']
    } else {
        seq![arg[i]]
    }
}

/// The first `n` characters of an argument between quotation marks.
pub open spec fn quoted_body(arg: Seq<char>, n: int) -> Seq<char>
    decreases n,
{
    if n <= 0 {
        Seq::empty()
    } else {
        quoted_body(arg, n - 1) + quoted_char(arg, n - 1)
    }
}

/// An argument as it stands in a command line: between quotation marks, unless
/// it is made of letters, digits and `._-/\:` alone.
pub open spec fn quoted(arg: Seq<char>) -> Seq<char> {
    if is_plain_word(arg) {
        arg
    } else {
        seq!['"'] + quoted_body(arg, arg.len() as int) + seq!['"']
    }
}

/// Arguments behind a program, with a space before each.
pub open spec fn quoted_args(args: Seq<Seq<char>>) -> Seq<char>
    decreases args.len(),
{
    if args.len() == 0 {
        Seq::empty()
    } else {
        quoted_args(args.drop_last()) + " "@ + quoted(args.last())
    }
}

fn plain_word(v: &Vec<char>) -> (r: bool)
    ensures
        r == is_plain_word(v@),
{
    let mut i: usize = 0;
    while i < v.len()
        invariant
            i <= v@.len(),
            forall|j: int| 0 <= j < i ==> is_plain(#[trigger] v@[j]),
        decreases v@.len() - i,
    {
        let c = v[i];
        let plain = ('a' <= c && c <= 'z') || ('A' <= c && c <= 'Z') || ('0' <= c && c <= '9') || c
            == '.' || c == '_' || c == '-' || c == '/' || c == '\\' || c == ':';
        if !plain {
            assert(!is_plain(v@[i as int]));
            return false;
        }
        i = i + 1;
    }
    v.len() > 0
}

fn reaches_mark(v: &Vec<char>, from: usize) -> (r: bool)
    requires
        from <= v@.len(),
    ensures
        r == meets_mark(v@, from as int),
{
    let mut i: usize = from;
    while i < v.len() && v[i] == '\\'
        invariant
            from <= i <= v@.len(),
            meets_mark(v@, from as int) == meets_mark(v@, i as int),
        decreases v@.len() - i,
    {
        i = i + 1;
    }
    i == v.len() || v[i] == '"' || v[i] == '%'
}

fn quote(arg: &str) -> (s: String)
    ensures
        s@ == quoted(arg@),
{
    let v = chars_of(arg);
    if plain_word(&v) {
        return arg.to_owned();
    }
    let mut s = String::new();
    s.push('"');
    let mut i: usize = 0;
    assert(s@ =~= seq!['"'] + quoted_body(v@, 0));
    while i < v.len()
        invariant
            i <= v@.len(),
            s@ == seq!['"'] + quoted_body(v@, i as int),
        decreases v@.len() - i,
    {
        let c = v[i];
        if c == '"' {
            s.push('"');
            s.push('\\');
            s.push('^');
            s.push('"');
            s.push('"');
        } else if c == '%' {
            s.push('"');
            s.push('^');
            s.push('%');
            s.push('"');
        } else if c == '\\' && reaches_mark(&v, i + 1) {
            s.push('\\');
            s.push('\\');
        } else {
            s.push(c);
        }
        assert(s@ =~= seq!['"'] + quoted_body(v@, i + 1));
        i = i + 1;
    }
    s.push('"');
    assert(s@ =~= quoted(arg@));
    s
}

/// A command as one line, for the shell of a container.
pub fn command_line(command: &ToolCommand) -> (s: String)
    ensures
        s@ == quoted(command@.program) + quoted_args(command@.args),
{
    let mut s = quote(&command.program);
    let ghost head = s@;
    let ghost args = texts(command.args@);
    let mut i: usize = 0;
    assert(head + quoted_args(args.take(0)) =~= head);
    while i < command.args.len()
        invariant
            i <= command.args@.len(),
            args == texts(command.args@),
            s@ == head + quoted_args(args.take(i as int)),
        decreases command.args@.len() - i,
    {
        let q = quote(&command.args[i]);
        s.append(" ");
        s.append(&q);
        assert(args.take(i + 1).drop_last() =~= args.take(i as int));
        assert(s@ =~= head + quoted_args(args.take(i + 1)));
        i = i + 1;
    }
    assert(args.take(args.len() as int) =~= args);
    s
}

/// What the shell of a container makes of the next character of a command line.
pub struct Shell {
    /// It stands between quotation marks.
    pub quoted: bool,
    /// It stands behind a caret that takes its meaning away.
    pub escaped: bool,
}

/// What the shell makes of the character behind another one: a quotation mark
/// opens or closes, and outside of marks a caret takes the meaning of the next
/// character away.
pub open spec fn shell_next(shell: Shell, c: char) -> Shell {
    if shell.escaped {
        Shell { escaped: false, ..shell }
    } else if c == '"' {
        Shell { quoted: !shell.quoted, escaped: false }
    } else if c == '^' && !shell.quoted {
        Shell { escaped: true, ..shell }
    } else {
        shell
    }
}

/// What the shell makes of the character behind a text.
pub open spec fn shell_after(shell: Shell, s: Seq<char>) -> Shell
    decreases s.len(),
{
    if s.len() == 0 {
        shell
    } else {
        shell_next(shell_after(shell, s.drop_last()), s.last())
    }
}

/// Whether a character splits a command line, or redirects a part of it.
pub open spec fn is_operator(c: char) -> bool {
    c == '&' || c == '|' || c == '<' || c == '>' || c == '(' || c == ')' || c == ' '
}

/// Whether every operator in a text has lost its meaning.
pub open spec fn is_shielded(shell: Shell, s: Seq<char>) -> bool
    decreases s.len(),
{
    s.len() > 0 ==> {
        let before = shell_after(shell, s.drop_last());
        &&& is_shielded(shell, s.drop_last())
        &&& is_operator(s.last()) ==> before.quoted || before.escaped
    }
}

proof fn lemma_shell_concat(shell: Shell, a: Seq<char>, b: Seq<char>)
    ensures
        shell_after(shell, a + b) == shell_after(shell_after(shell, a), b),
        is_shielded(shell, a) && is_shielded(shell_after(shell, a), b) ==> is_shielded(
            shell,
            a + b,
        ),
    decreases b.len(),
{
    if b.len() == 0 {
        assert(a + b =~= a);
    } else {
        assert((a + b).drop_last() =~= a + b.drop_last());
        lemma_shell_concat(shell, a, b.drop_last());
    }
}

proof fn lemma_quoted_char(arg: Seq<char>, i: int)
    requires
        0 <= i < arg.len(),
    ensures
        shell_after(Shell { quoted: true, escaped: false }, quoted_char(arg, i)) == (Shell {
            quoted: true,
            escaped: false,
        }),
        is_shielded(Shell { quoted: true, escaped: false }, quoted_char(arg, i)),
{
    reveal_with_fuel(shell_after, 6);
    reveal_with_fuel(is_shielded, 6);
    let q = quoted_char(arg, i);
    assert(q.drop_last() =~= q.take(q.len() - 1));
    if q.len() > 1 {
        assert(q.drop_last().drop_last() =~= q.take(q.len() - 2));
    }
    if q.len() > 2 {
        assert(q.drop_last().drop_last().drop_last() =~= q.take(q.len() - 3));
        assert(q.drop_last().drop_last().drop_last().drop_last() =~= q.take(q.len() - 4));
    }
    if q.len() > 4 {
        assert(q.drop_last().drop_last().drop_last().drop_last().drop_last() =~= q.take(0));
    }
}

proof fn lemma_quoted_body(arg: Seq<char>, n: int)
    requires
        0 <= n <= arg.len(),
    ensures
        shell_after(Shell { quoted: true, escaped: false }, quoted_body(arg, n)) == (Shell {
            quoted: true,
            escaped: false,
        }),
        is_shielded(Shell { quoted: true, escaped: false }, quoted_body(arg, n)),
    decreases n,
{
    if n > 0 {
        lemma_quoted_body(arg, n - 1);
        lemma_quoted_char(arg, n - 1);
        lemma_shell_concat(
            Shell { quoted: true, escaped: false },
            quoted_body(arg, n - 1),
            quoted_char(arg, n - 1),
        );
    }
}

proof fn lemma_plain_word(s: Seq<char>)
    requires
        forall|i: int| 0 <= i < s.len() ==> is_plain(#[trigger] s[i]),
    ensures
        shell_after(Shell { quoted: false, escaped: false }, s) == (Shell {
            quoted: false,
            escaped: false,
        }),
        is_shielded(Shell { quoted: false, escaped: false }, s),
    decreases s.len(),
{
    if s.len() > 0 {
        assert(is_plain(s.last()));
        lemma_plain_word(s.drop_last());
    }
}

/// Whatever an argument holds, the shell of a container takes it as one word: no
/// operator in it keeps its meaning, and what follows it is read as if it were
/// not there.
pub proof fn lemma_quoted_is_one_word(arg: Seq<char>)
    ensures
        is_shielded(Shell { quoted: false, escaped: false }, quoted(arg)),
        shell_after(Shell { quoted: false, escaped: false }, quoted(arg)) == (Shell {
            quoted: false,
            escaped: false,
        }),
{
    let outside = Shell { quoted: false, escaped: false };
    if is_plain_word(arg) {
        lemma_plain_word(arg);
    } else {
        let mark = seq!['"'];
        let body = quoted_body(arg, arg.len() as int);
        assert(mark.drop_last() =~= Seq::<char>::empty());
        reveal_with_fuel(shell_after, 2);
        reveal_with_fuel(is_shielded, 2);
        lemma_quoted_body(arg, arg.len() as int);
        lemma_shell_concat(outside, mark, body);
        lemma_shell_concat(outside, mark + body, mark);
    }
}

/// Nothing outside the project is ever compiled: where a command is given, the
/// entry file lies in the project.
pub proof fn lemma_compiled_entry_is_inside(
    entry: Seq<char>,
    project: Result<Seq<char>, Seq<char>>,
    resolved_entry: Result<Seq<char>, Seq<char>>,
    style: PathStyle,
)
    requires
        compile_refusal(entry, project, resolved_entry, style) is None,
    ensures
        project is Ok,
        resolved_entry is Ok,
        lies_in(resolved_entry->Ok_0, project->Ok_0, style),
{
}

} // verus!
