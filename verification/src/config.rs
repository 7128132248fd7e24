//! The configuration of agents and commands: where it is stored, how
//! comments are taken out of the structured file, and prompt file
//! references.
use vstd::prelude::*;
use crate::events::{option_text};
use vstd::string::*;
use crate::patterns::{captures_view, group_of, group_text, regex_captures, regex_groups};
use crate::text::{
    append_chars, chars_of, slice_chars, starts_with, string_of, trim_chars, trim_seq,
};

verus! {

/// What one of the two stores holds of an entity.
#[derive(Debug)]
pub struct SourceInfo {
    pub exists: bool,
    pub path: Option<String>,
    pub fields: Vec<String>,
}

/// What the markdown store and the structured store hold of an entity.
#[derive(Debug)]
pub struct ConfigSources {
    pub md: SourceInfo,
    pub json: SourceInfo,
}

/// Whether the entity is built in: neither store defines it.
pub fn is_built_in(sources: &ConfigSources) -> (r: bool)
    ensures
        r == (!sources.md.exists && !sources.json.exists),
{
    !sources.md.exists && !sources.json.exists
}

/// The path `rel` taken from the directory `base`: `rel` itself where it
/// is absolute or `base` is empty, else the two with one slash between.
pub open spec fn join_path_seq(base: Seq<char>, rel: Seq<char>) -> Seq<char> {
    if (rel.len() > 0 && rel[0] == '/') || base.len() == 0 {
        rel
    } else if base.last() == '/' {
        base + rel
    } else {
        base + seq!['/'] + rel
    }
}

/// Joins a slash-separated path to a directory.
pub fn join_path(base: &str, rel: &str) -> (r: String)
    ensures
        r@ == join_path_seq(base@, rel@),
{
    let left = chars_of(base);
    let right = chars_of(rel);
    if (right.len() > 0 && right[0] == '/') || left.len() == 0 {
        return string_of(&right);
    }
    let mut out: Vec<char> = Vec::new();
    append_chars(&mut out, &left);
    if left[left.len() - 1] != '/' {
        out.push('/');
    }
    append_chars(&mut out, &right);
    proof {
        if left@.last() == '/' {
            assert(out@ =~= left@ + right@);
        } else {
            assert(out@ =~= left@ + seq!['/'] + right@);
        }
    }
    string_of(&out)
}

/// The configuration directory below the home directory `home`.
pub fn get_config_dir(home: &str) -> (r: String)
    ensures
        r@ == join_path_seq(join_path_seq(home@, ".config"@), "opencode"@),
{
    let dir = join_path(home, ".config");
    join_path(dir.as_str(), "opencode")
}

/// The directory of the agents' markdown files.
pub fn get_agent_dir(home: &str) -> (r: String)
    ensures
        r@ == join_path_seq(join_path_seq(join_path_seq(home@, ".config"@), "opencode"@), "agent"@),
{
    let dir = get_config_dir(home);
    join_path(dir.as_str(), "agent")
}

/// The directory of the commands' markdown files.
pub fn get_command_dir(home: &str) -> (r: String)
    ensures
        r@ == join_path_seq(
            join_path_seq(join_path_seq(home@, ".config"@), "opencode"@),
            "command"@,
        ),
{
    let dir = get_config_dir(home);
    join_path(dir.as_str(), "command")
}

/// The structured configuration file.
pub fn get_config_file(home: &str) -> (r: String)
    ensures
        r@ == join_path_seq(
            join_path_seq(join_path_seq(home@, ".config"@), "opencode"@),
            "opencode.json"@,
        ),
{
    let dir = get_config_dir(home);
    join_path(dir.as_str(), "opencode.json")
}

/// Where a scan for comments stands.
#[derive(Clone, Copy, Debug, PartialEq, Eq, Structural)]
pub enum ScanMode {
    /// Outside strings and comments.
    Code,
    /// Inside a string.
    Text,
    /// Inside a string, right after a backslash.
    Escape,
    /// Inside a `//` comment.
    LineComment,
    /// Inside a `/* */` comment.
    BlockComment,
    /// Inside a `/* */` comment, right after a `*`.
    BlockCommentStar,
}

/// What is left of `s` from position `i` on, scanned in `mode`, once the
/// comments are taken out. A `//` comment runs to the end of its line, whose
/// line feed stays; a `/* */` comment runs to its first `*/`; neither begins
/// inside a string, where a backslash also guards the character after it.
pub open spec fn strip_from(s: Seq<char>, i: int, mode: ScanMode) -> Seq<char>
    decreases s.len() - i,
{
    if i < 0 || i >= s.len() {
        Seq::empty()
    } else {
        let c = s[i];
        match mode {
            ScanMode::Escape => seq![c] + strip_from(s, i + 1, ScanMode::Text),
            ScanMode::Text => if c == '\\' {
                seq![c] + strip_from(s, i + 1, ScanMode::Escape)
            } else if c == '"' {
                seq![c] + strip_from(s, i + 1, ScanMode::Code)
            } else {
                seq![c] + strip_from(s, i + 1, ScanMode::Text)
            },
            ScanMode::Code => if c == '"' {
                seq![c] + strip_from(s, i + 1, ScanMode::Text)
            } else if c == '/' && i + 1 < s.len() && s[i + 1] == '/' {
                strip_from(s, i + 2, ScanMode::LineComment)
            } else if c == '/' && i + 1 < s.len() && s[i + 1] == '*' {
                strip_from(s, i + 2, ScanMode::BlockComment)
            } else {
                seq![c] + strip_from(s, i + 1, ScanMode::Code)
            },
            ScanMode::LineComment => if c == '\n' {
                seq![c] + strip_from(s, i + 1, ScanMode::Code)
            } else {
                strip_from(s, i + 1, ScanMode::LineComment)
            },
            ScanMode::BlockComment => if c == '*' {
                strip_from(s, i + 1, ScanMode::BlockCommentStar)
            } else {
                strip_from(s, i + 1, ScanMode::BlockComment)
            },
            ScanMode::BlockCommentStar => if c == '/' {
                strip_from(s, i + 1, ScanMode::Code)
            } else if c == '*' {
                strip_from(s, i + 1, ScanMode::BlockCommentStar)
            } else {
                strip_from(s, i + 1, ScanMode::BlockComment)
            },
        }
    }
}

/// `content` without its comments.
pub open spec fn strip_json_comments_seq(content: Seq<char>) -> Seq<char> {
    strip_from(content, 0, ScanMode::Code)
}

/// Takes the comments out of the text of a structured configuration file.
pub fn strip_json_comments(content: &str) -> (r: String)
    ensures
        r@ == strip_json_comments_seq(content@),
{
    let s = chars_of(content);
    let mut out: Vec<char> = Vec::new();
    let mut mode = ScanMode::Code;
    let mut i: usize = 0;
    assert(out@ + strip_from(s@, 0, mode) =~= strip_from(s@, 0, ScanMode::Code));
    while i < s.len()
        invariant
            i <= s.len(),
            out@ + strip_from(s@, i as int, mode) == strip_from(s@, 0, ScanMode::Code),
        decreases s.len() - i,
    {
        let c = s[i];
        let ghost before = out@;
        let ghost rest = strip_from(s@, i as int, mode);
        let mut step: usize = 1;
        match mode {
            ScanMode::Escape => {
                out.push(c);
                mode = ScanMode::Text;
            },
            ScanMode::Text => {
                out.push(c);
                if c == '\\' {
                    mode = ScanMode::Escape;
                } else if c == '"' {
                    mode = ScanMode::Code;
                }
            },
            ScanMode::Code => {
                if c == '"' {
                    out.push(c);
                    mode = ScanMode::Text;
                } else if c == '/' && i + 1 < s.len() && s[i + 1] == '/' {
                    mode = ScanMode::LineComment;
                    step = 2;
                } else if c == '/' && i + 1 < s.len() && s[i + 1] == '*' {
                    mode = ScanMode::BlockComment;
                    step = 2;
                } else {
                    out.push(c);
                }
            },
            ScanMode::LineComment => {
                if c == '\n' {
                    out.push(c);
                    mode = ScanMode::Code;
                }
            },
            ScanMode::BlockComment => {
                if c == '*' {
                    mode = ScanMode::BlockCommentStar;
                }
            },
            ScanMode::BlockCommentStar => {
                if c == '/' {
                    mode = ScanMode::Code;
                } else if c != '*' {
                    mode = ScanMode::BlockComment;
                }
            },
        }
        i += step;
        proof {
            if out@.len() > before.len() {
                assert(out@ =~= before + seq![c]);
                assert(rest =~= seq![c] + strip_from(s@, i as int, mode));
                assert(out@ + strip_from(s@, i as int, mode) =~= before + rest);
            } else {
                assert(out@ == before);
                assert(rest == strip_from(s@, i as int, mode));
            }
        }
    }
    assert(out@ + strip_from(s@, s.len() as int, mode) =~= out@);
    string_of(&out)
}

/// The pattern of a prompt file reference: `{file:<path>}`, in any case.
pub open spec fn prompt_file_pattern() -> Seq<char> {
    r"(?i)^\{file:(.+)\}$"@
}

/// Matches a value, white space at its ends aside, against the pattern of
/// a prompt file reference.
pub fn match_prompt_reference(value: &str) -> (r: Option<Vec<Option<String>>>)
    ensures
        captures_view(r) == regex_groups(prompt_file_pattern(), trim_seq(value@)),
{
    let trimmed = string_of(&trim_chars(&chars_of(value)));
    regex_captures(r"(?i)^\{file:(.+)\}$", trimmed.as_str())
}

/// Whether a value is a prompt file reference such as
/// `{file:./prompts/agent.txt}`.
pub fn is_prompt_file_reference(value: &str) -> (r: bool)
    ensures
        r == regex_groups(prompt_file_pattern(), trim_seq(value@)) is Some,
{
    match_prompt_reference(value).is_some()
}

/// The file that a matched reference names, seen from the configuration
/// directory: none where the path in it is blank; a path that begins with
/// `./` or is relative lies below the configuration directory; an absolute
/// path stands for itself.
pub open spec fn prompt_path_of(groups: Option<Seq<Option<Seq<char>>>>, config_dir: Seq<char>)
    -> Option<Seq<char>> {
    match group_text(groups, 1) {
        Some(raw) => {
            let target = trim_seq(raw);
            if target.len() == 0 {
                None
            } else if "./"@.is_prefix_of(target) {
                Some(join_path_seq(config_dir, target.skip("./"@.len() as int)))
            } else {
                Some(join_path_seq(config_dir, target))
            }
        },
        None => None,
    }
}

/// The file that a matched reference names.
pub fn prompt_path_from_captures(captures: &Option<Vec<Option<String>>>, config_dir: &str) -> (r:
    Option<String>)
    ensures
        r is Some <==> prompt_path_of(captures_view(*captures), config_dir@) is Some,
        r matches Some(p) ==> Some(p@) == prompt_path_of(captures_view(*captures), config_dir@),
{
    match group_of(captures, 1) {
        None => None,
        Some(raw) => {
            let target = trim_chars(&chars_of(raw.as_str()));
            if target.len() == 0 {
                return None;
            }
            let marker = chars_of("./");
            let rel = if starts_with(&target, &marker) {
                let rest = slice_chars(&target, marker.len(), target.len());
                assert(rest@ =~= target@.skip(marker@.len() as int));
                rest
            } else {
                target
            };
            Some(join_path(config_dir, string_of(&rel).as_str()))
        },
    }
}

/// Resolves a prompt file reference to the path of the file, seen from
/// the configuration directory `config_dir`.
pub fn resolve_prompt_file_path(reference: &str, config_dir: &str) -> (r: Option<String>)
    ensures
        r is Some <==> prompt_path_of(
            regex_groups(prompt_file_pattern(), trim_seq(reference@)),
            config_dir@,
        ) is Some,
        r matches Some(p) ==> Some(p@) == prompt_path_of(
            regex_groups(prompt_file_pattern(), trim_seq(reference@)),
            config_dir@,
        ),
{
    let captures = match_prompt_reference(reference);
    prompt_path_from_captures(&captures, config_dir)
}


/// The pattern of a markdown file with frontmatter: a block between two
/// `---` lines at the start, and the body after it.
pub open spec fn frontmatter_pattern() -> Seq<char> {
    r"(?s)^---\r?\n(.*?)\r?\n---\r?\n(.*)$"@
}

/// The two parts of a markdown file.
pub struct MarkdownParts {
    /// The frontmatter between the `---` lines, if the file has one.
    pub frontmatter: Option<String>,
    /// The body, without the white space at its ends.
    pub body: String,
}

/// The frontmatter that a match attempt on a markdown file found.
pub open spec fn frontmatter_of(groups: Option<Seq<Option<Seq<char>>>>) -> Option<Seq<char>> {
    match groups {
        Some(g) => Some(
            match group_text(groups, 1) {
                Some(yaml) => yaml,
                None => Seq::empty(),
            },
        ),
        None => None,
    }
}

/// The body that a match attempt on a markdown file found: what follows
/// the frontmatter, or the whole file where it has none, without the white
/// space at its ends.
pub open spec fn body_of(groups: Option<Seq<Option<Seq<char>>>>, content: Seq<char>) -> Seq<
    char,
> {
    match groups {
        Some(g) => trim_seq(
            match group_text(groups, 2) {
                Some(body) => body,
                None => Seq::empty(),
            },
        ),
        None => trim_seq(content),
    }
}

/// Parts a markdown file by what the match attempt on it gave.
pub fn parts_from_captures(captures: &Option<Vec<Option<String>>>, content: &str) -> (r:
    MarkdownParts)
    ensures
        option_text(r.frontmatter) == frontmatter_of(captures_view(*captures)),
        r.body@ == body_of(captures_view(*captures), content@),
{
    match captures {
        Some(_) => {
            let yaml = match group_of(captures, 1) {
                Some(text) => text.clone(),
                None => String::new(),
            };
            let body = match group_of(captures, 2) {
                Some(text) => string_of(&trim_chars(&chars_of(text.as_str()))),
                None => String::new(),
            };
            proof {
                assert(trim_seq(Seq::<char>::empty()) =~= Seq::<char>::empty());
            }
            MarkdownParts { frontmatter: Some(yaml), body }
        },
        None => MarkdownParts {
            frontmatter: None,
            body: string_of(&trim_chars(&chars_of(content))),
        },
    }
}

/// Parts the text of a markdown file into frontmatter and body.
pub fn parse_md_file(content: &str) -> (r: MarkdownParts)
    ensures
        option_text(r.frontmatter) == frontmatter_of(
            regex_groups(frontmatter_pattern(), content@),
        ),
        r.body@ == body_of(regex_groups(frontmatter_pattern(), content@), content@),
{
    let captures = regex_captures(r"(?s)^---\r?\n(.*?)\r?\n---\r?\n(.*)$", content);
    parts_from_captures(&captures, content)
}

/// The text of a markdown file with the frontmatter `yaml`, which ends
/// its last line, and the body `body`.
pub fn write_md_file(yaml: &str, body: &str) -> (r: String)
    ensures
        r@ == "---\n"@ + yaml@ + "---\n\n"@ + body@,
{
    let mut out = chars_of("---\n");
    append_chars(&mut out, &chars_of(yaml));
    append_chars(&mut out, &chars_of("---\n\n"));
    append_chars(&mut out, &chars_of(body));
    string_of(&out)
}

} // verus!
