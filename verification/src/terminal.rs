//! Values and rules of the terminal commands.
use vstd::prelude::*;
use crate::text::{
    chars_of, contains_sub, has_sub, lowercase_of, pieces_view, split_chars, split_seq, string_of,
    to_lowercase, trim_chars, trim_seq,
};

verus! {

/// The shell that a terminal runs where none is configured.
pub const DEFAULT_SHELL: &'static str = "/bin/zsh";

/// The terminal type announced to the shell where none is set.
pub const DEFAULT_TERM: &'static str = "xterm-256color";

/// The colour capability announced to the shell where none is set.
pub const DEFAULT_COLORTERM: &'static str = "truecolor";

/// The locale of the shell where none is set.
pub const DEFAULT_LOCALE: &'static str = "en_US.UTF-8";

/// The request to open a terminal.
pub struct CreateTerminalPayload {
    pub cols: u16,
    pub rows: u16,
    pub cwd: Option<String>,
}

/// The answer to a request to open a terminal.
pub struct CreateTerminalResponse {
    pub session_id: String,
}

/// The last piece of a list of pieces that is not empty.
pub open spec fn last_nonempty(pieces: Seq<Seq<char>>) -> Option<Seq<char>>
    decreases pieces.len(),
{
    if pieces.len() == 0 {
        None
    } else if pieces.last().len() > 0 {
        Some(pieces.last())
    } else {
        last_nonempty(pieces.drop_last())
    }
}

/// The name of the shell at a slash-separated path: its last non-empty
/// component, and the path itself where it has none or where that
/// component is `..`.
pub open spec fn shell_name(shell_path: Seq<char>) -> Seq<char> {
    match last_nonempty(split_seq(shell_path, seq!['/'])) {
        Some(name) => if name == seq!['.', '.'] {
            shell_path
        } else {
            name
        },
        None => shell_path,
    }
}

/// Whether a shell of this lower-cased name takes the login flag.
pub open spec fn name_accepts_login_flag(name: Seq<char>) -> bool {
    has_sub(name, "zsh"@) || has_sub(name, "bash"@) || has_sub(name, "sh"@) || has_sub(
        name,
        "fish"@,
    ) || has_sub(name, "ksh"@)
}

/// Whether a shell of this lower-cased name takes the login flag.
pub fn lowercase_name_accepts_login_flag(name: &str) -> (r: bool)
    ensures
        r == name_accepts_login_flag(name@),
{
    let chars = chars_of(name);
    contains_sub(&chars, &chars_of("zsh")) || contains_sub(&chars, &chars_of("bash"))
        || contains_sub(&chars, &chars_of("sh")) || contains_sub(&chars, &chars_of("fish"))
        || contains_sub(&chars, &chars_of("ksh"))
}

/// The name of the shell at `shell_path`.
pub fn shell_name_of(shell_path: &str) -> (r: String)
    ensures
        r@ == shell_name(shell_path@),
{
    let chars = chars_of(shell_path);
    let mut slash: Vec<char> = Vec::new();
    slash.push('/');
    assert(slash@ =~= seq!['/']);
    let pieces = split_chars(&chars, &slash);
    let ghost all = pieces_view(pieces@);
    let mut i: usize = pieces.len();
    assert(all.take(i as int) =~= all);
    while i > 0
        invariant
            i <= pieces.len(),
            all == pieces_view(pieces@),
            all == split_seq(shell_path@, seq!['/']),
            chars@ == shell_path@,
            last_nonempty(all) == last_nonempty(all.take(i as int)),
        decreases i,
    {
        let piece = &pieces[i - 1];
        assert(all.take(i as int).last() == piece@);
        assert(all.take(i as int).drop_last() =~= all.take(i - 1));
        if piece.len() > 0 {
            if piece.len() == 2 && piece[0] == '.' && piece[1] == '.' {
                assert(piece@ =~= seq!['.', '.']);
                return string_of(&chars);
            }
            assert(piece@ != seq!['.', '.']) by {
                if piece@.len() == 2 {
                    assert(seq!['.', '.'][0] == '.');
                    assert(seq!['.', '.'][1] == '.');
                }
            }
            return string_of(piece);
        }
        i -= 1;
    }
    assert(all.take(0) =~= Seq::<Seq<char>>::empty());
    string_of(&chars)
}

/// Whether the shell at `shell_path` is started as a login shell: its
/// lower-cased name holds `zsh`, `bash`, `sh`, `fish` or `ksh`.
pub fn shell_accepts_login_flag(shell_path: &str) -> (r: bool)
    ensures
        r == name_accepts_login_flag(lowercase_of(shell_name(shell_path@))),
{
    let name = shell_name_of(shell_path);
    let lowered = to_lowercase(name.as_str());
    lowercase_name_accepts_login_flag(lowered.as_str())
}


/// The name under which the terminal announces itself to the shell.
pub const TERM_PROGRAM_NAME: &'static str = "OpenChamber";

/// A variable of the environment of a shell.
pub struct EnvVar {
    pub name: String,
    pub value: String,
}

/// The names and values of a list of variables.
pub open spec fn env_view(vars: Seq<EnvVar>) -> Seq<(Seq<char>, Seq<char>)> {
    Seq::new(vars.len(), |i: int| (vars[i].name@, vars[i].value@))
}

/// The given value, or the fallback where there is none.
pub open spec fn value_or(value: Option<String>, fallback: Seq<char>) -> Seq<char> {
    match value {
        Some(v) => v@,
        None => fallback,
    }
}

/// The given value, or the fallback where there is none.
fn or_default(value: Option<String>, fallback: &str) -> (r: String)
    ensures
        r@ == value_or(value, fallback@),
{
    match value {
        Some(v) => v,
        None => string_of(&chars_of(fallback)),
    }
}

/// The variables that a terminal sets for its shell: the terminal type,
/// colour capability and locale of the surrounding environment, with
/// defaults where it has none, the name and version of the program, and the
/// shell itself.
pub fn apply_terminal_environment(
    term: Option<String>,
    colorterm: Option<String>,
    lc_all: Option<String>,
    lang: Option<String>,
    program_version: &str,
    shell_path: &str,
) -> (r: Vec<EnvVar>)
    ensures
        env_view(r@) == seq![
            ("TERM"@, value_or(term, "xterm-256color"@)),
            ("COLORTERM"@, value_or(colorterm, "truecolor"@)),
            ("LC_ALL"@, value_or(lc_all, "en_US.UTF-8"@)),
            ("LANG"@, value_or(lang, "en_US.UTF-8"@)),
            ("TERM_PROGRAM"@, "OpenChamber"@),
            ("TERM_PROGRAM_VERSION"@, program_version@),
            ("OPENCHAMBER_DESKTOP"@, "1"@),
            ("SHELL"@, shell_path@),
        ],
{
    let mut vars: Vec<EnvVar> = Vec::new();
    vars.push(EnvVar { name: string_of(&chars_of("TERM")), value: or_default(term, "xterm-256color") });
    vars.push(
        EnvVar { name: string_of(&chars_of("COLORTERM")), value: or_default(colorterm, "truecolor") },
    );
    vars.push(EnvVar { name: string_of(&chars_of("LC_ALL")), value: or_default(lc_all, "en_US.UTF-8") });
    vars.push(EnvVar { name: string_of(&chars_of("LANG")), value: or_default(lang, "en_US.UTF-8") });
    vars.push(
        EnvVar {
            name: string_of(&chars_of("TERM_PROGRAM")),
            value: string_of(&chars_of("OpenChamber")),
        },
    );
    vars.push(
        EnvVar {
            name: string_of(&chars_of("TERM_PROGRAM_VERSION")),
            value: string_of(&chars_of(program_version)),
        },
    );
    vars.push(
        EnvVar { name: string_of(&chars_of("OPENCHAMBER_DESKTOP")), value: string_of(&chars_of("1")) },
    );
    vars.push(EnvVar { name: string_of(&chars_of("SHELL")), value: string_of(&chars_of(shell_path)) });
    assert(env_view(vars@) =~= seq![
        ("TERM"@, value_or(term, "xterm-256color"@)),
        ("COLORTERM"@, value_or(colorterm, "truecolor"@)),
        ("LC_ALL"@, value_or(lc_all, "en_US.UTF-8"@)),
        ("LANG"@, value_or(lang, "en_US.UTF-8"@)),
        ("TERM_PROGRAM"@, "OpenChamber"@),
        ("TERM_PROGRAM_VERSION"@, program_version@),
        ("OPENCHAMBER_DESKTOP"@, "1"@),
        ("SHELL"@, shell_path@),
    ]);
    vars
}

/// The shell that a terminal runs: the configured one, or the default
/// where none is configured or the configured one is blank.
pub fn resolve_shell(configured: Option<String>) -> (r: String)
    ensures
        r@ == match configured {
            Some(shell) => if trim_seq(shell@).len() > 0 {
                shell@
            } else {
                "/bin/zsh"@
            },
            None => "/bin/zsh"@,
        },
{
    match configured {
        Some(shell) => {
            if trim_chars(&chars_of(shell.as_str())).len() > 0 {
                shell
            } else {
                string_of(&chars_of("/bin/zsh"))
            }
        },
        None => string_of(&chars_of("/bin/zsh")),
    }
}

} // verus!
