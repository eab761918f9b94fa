use vstd::prelude::*;

use crate::strings::{chars_of, string_from_chars};
use crate::text_preview::{limit_preview, limit_preview_text, PREVIEW_TEXT_MAX_CHARS, PREVIEW_TEXT_MAX_LINES};

verus! {

/// File names listed in the hover preview of a file item.
pub const PREVIEW_FILE_MAX_ITEMS: usize = 8;
/// Bytes of a Markdown file read for its preview.
pub const MARKDOWN_PREVIEW_MAX_BYTES: u64 = 32768;

// ---------------------------------------------------------------------------
// Decimal numbers.
// ---------------------------------------------------------------------------

pub open spec fn digit_char(d: nat) -> char
    recommends
        d < 10,
{
    ((48 + d) as u8) as char
}

/// The decimal digits of `n`, most significant first, without leading zeros.
pub open spec fn decimal(n: nat) -> Seq<char>
    decreases n,
{
    if n < 10 {
        seq![digit_char(n)]
    } else {
        decimal(n / 10).push(digit_char(n % 10))
    }
}

/// Appends the decimal digits of `n` to `out`.
pub fn push_decimal(out: &mut Vec<char>, n: usize)
    ensures
        final(out)@ == old(out)@ + decimal(n as nat),
    decreases n,
{
    if n >= 10 {
        push_decimal(out, n / 10);
    }
    let d = (n % 10) as u8;
    out.push((48u8 + d) as char);
    assert(out@ =~= old(out)@ + decimal(n as nat));
}

// ---------------------------------------------------------------------------
// The preview of a list of files.
// ---------------------------------------------------------------------------

/// `names` joined by `\n`, as `[String]::join("\n")` does.
pub open spec fn join_names(names: Seq<Seq<char>>) -> Seq<char>
    decreases names.len(),
{
    if names.len() == 0 {
        seq![]
    } else if names.len() == 1 {
        names[0]
    } else {
        join_names(names.drop_last()) + seq!['\n'] + names.last()
    }
}

/// The characters `\n......`.
pub open spec fn more_marker() -> Seq<char> {
    seq!['\n', '.', '.', '.', '.', '.', '.']
}

/// The file preview: the listed names one per line and, when `total` files
/// are more than `max_items`, a last line `......<label> <total>`.
pub open spec fn file_preview_text(names: Seq<Seq<char>>, total: nat, max_items: nat, label: Seq<char>) -> Seq<char> {
    if total > max_items {
        join_names(names) + more_marker() + label + seq![' '] + decimal(total)
    } else {
        join_names(names)
    }
}

pub open spec fn strings_view(v: Seq<String>) -> Seq<Seq<char>> {
    v.map_values(|s: String| s@)
}

/// The file preview text for the already-shortened display `names` of a
/// list of `total` files, of which at most `max_items` are listed; `label`
/// is the word for "total" in the user's language.
pub fn join_file_preview(names: &[String], total: usize, max_items: usize, label: &str) -> (text: String)
    ensures
        text@ == file_preview_text(strings_view(names@), total as nat, max_items as nat, label@),
{
    let ghost nv = strings_view(names@);
    let mut out: Vec<char> = Vec::new();
    let mut i: usize = 0;
    while i < names.len()
        invariant
            i <= names.len(),
            nv == strings_view(names@),
            out@ == join_names(nv.take(i as int)),
        decreases names.len() - i,
    {
        let name = chars_of(names[i].as_str());
        let ghost before = out@;
        if i > 0 {
            out.push('\n');
        }
        let mut j: usize = 0;
        while j < name.len()
            invariant
                j <= name.len(),
                out@ == (if i > 0 { before.push('\n') } else { before }) + name@.take(j as int),
            decreases name.len() - j,
        {
            out.push(name[j]);
            j += 1;
            assert(out@ =~= (if i > 0 { before.push('\n') } else { before }) + name@.take(j as int));
        }
        assert(name@.take(name.len() as int) =~= name@);
        assert(nv.take(i + 1).drop_last() =~= nv.take(i as int));
        assert(nv.take(i + 1).last() == name@);
        if i == 0 {
            assert(before.len() == 0);
            assert(out@ =~= name@);
        } else {
            assert(out@ =~= before + seq!['\n'] + name@);
        }
        i += 1;
    }
    assert(nv.take(names.len() as int) =~= nv);
    if total > max_items {
        let ghost before = out@;
        out.push('\n');
        out.push('.');
        out.push('.');
        out.push('.');
        out.push('.');
        out.push('.');
        out.push('.');
        assert(out@ =~= before + more_marker());
        let label_chars = chars_of(label);
        let mut j: usize = 0;
        let ghost mid = out@;
        while j < label_chars.len()
            invariant
                j <= label_chars.len(),
                out@ == mid + label_chars@.take(j as int),
            decreases label_chars.len() - j,
        {
            out.push(label_chars[j]);
            j += 1;
            assert(out@ =~= mid + label_chars@.take(j as int));
        }
        assert(label_chars@.take(label_chars.len() as int) =~= label_chars@);
        out.push(' ');
        push_decimal(&mut out, total);
        assert(out@ =~= file_preview_text(nv, total as nat, max_items as nat, label@));
    }
    string_from_chars(&out)
}

// ---------------------------------------------------------------------------
// Paths whose final component every platform reads alike.
// ---------------------------------------------------------------------------

/// The characters of `p` after its last `/`.
pub open spec fn last_component(p: Seq<char>) -> Seq<char>
    decreases p.len(),
{
    if p.len() == 0 {
        seq![]
    } else if p.last() == '/' {
        seq![]
    } else {
        last_component(p.drop_last()).push(p.last())
    }
}

/// The character `U+005C`, the Windows path separator.
pub open spec fn backslash() -> char {
    92u32 as char
}

/// A path whose final component Unix and Windows read alike: no `:` and
/// no two leading separators (so no Windows drive, UNC, device or verbatim
/// prefix), and a last component after the last `/` that holds no
/// backslash (so it is also the part after the last Windows separator) and
/// is neither empty nor `.` nor `..`. Backslashes before the last `/` are
/// allowed: Unix keeps them inside earlier components, Windows splits there,
/// and either way the final component, as `Path::file_name` gives it, is that
/// last component.
pub open spec fn plain_path(p: Seq<char>) -> bool {
    &&& !p.contains(':')
    &&& !(p.len() >= 2 && is_path_sep(p[0]) && is_path_sep(p[1]))
    &&& !last_component(p).contains(backslash())
    &&& last_component(p).len() > 0
    &&& last_component(p) != seq!['.']
    &&& last_component(p) != seq!['.', '.']
}

/// The extension of a file name as `Path::extension` documents it: the part
/// after the final `.`, and none where there is no `.` or where the only `.`
/// starts the name.
pub open spec fn dot_extension(name: Seq<char>) -> Option<Seq<char>>
    decreases name.len(),
{
    if name.len() == 0 {
        None
    } else if name.last() == '.' {
        if name.len() == 1 {
            None
        } else {
            Some(seq![])
        }
    } else {
        match dot_extension(name.drop_last()) {
            Some(e) => Some(e.push(name.last())),
            None => None,
        }
    }
}

/// A path without backslashes that ends in a `..` component. (After a
/// Windows `\\?\` prefix, which needs backslashes, `/` is no separator.)
pub open spec fn ends_in_parent(p: Seq<char>) -> bool {
    &&& !p.contains(backslash())
    &&& (p == seq!['.', '.'] || (p.len() >= 3 && p.subrange(p.len() - 3, p.len() as int) == seq!['/', '.', '.']))
}

/// Whether `n` is the name under which `p` is listed, as far as the path
/// rules of every platform agree: the last component of a plain path, and
/// the whole path for one that ends in `..`.
pub open spec fn listed_name_fits(p: Seq<char>, n: Seq<char>) -> bool {
    &&& plain_path(p) ==> n == last_component(p)
    &&& ends_in_parent(p) ==> n == p
}

/// A path separator on Unix or Windows.
pub open spec fn is_path_sep(c: char) -> bool {
    c == '/' || c == backslash()
}

/// The characters of `p` after its last `.`, if it has one.
pub open spec fn after_last_dot(p: Seq<char>) -> Option<Seq<char>>
    decreases p.len(),
{
    if p.len() == 0 {
        None
    } else if p.last() == '.' {
        Some(seq![])
    } else {
        match after_last_dot(p.drop_last()) {
            Some(e) => Some(e.push(p.last())),
            None => None,
        }
    }
}

/// The extension of `p` where Unix and Windows agree on it: `p` does not
/// start with two separators (no Windows UNC, device or verbatim prefix),
/// the part after its last `.` holds no separator and no `:` (so it lies in
/// the final component on both), and the character before that `.` is none
/// of `/`, backslash, `:` and `.` (so the final component neither starts
/// with that `.` nor is `..` on either). Then the extension is that part.
pub open spec fn agreed_extension(p: Seq<char>) -> Option<Seq<char>> {
    match after_last_dot(p) {
        Some(s) => {
            let k = p.len() - s.len() - 1;
            if k >= 1 && !is_path_sep(p[k - 1]) && p[k - 1] != ':' && p[k - 1] != '.'
                && !s.contains('/') && !s.contains(backslash()) && !s.contains(':')
                && !(p.len() >= 2 && is_path_sep(p[0]) && is_path_sep(p[1])) {
                Some(s)
            } else {
                None
            }
        },
        None => None,
    }
}

/// `Path::new(path).file_name()` as a `String`: the final component of the
/// path, if it has one. Which component is final depends on the platform's
/// path rules; stated are the documented cases that read alike on every
/// platform: a plain path (see `plain_path`) has its component after the last
/// `/` as file name, and a path without backslashes that ends in `..` has
/// none.
#[verifier::external_body]
fn path_file_name(path: &str) -> (name: Option<String>)
    ensures
        plain_path(path@) ==> (name is Some && name.unwrap()@ == last_component(path@)),
        ends_in_parent(path@) ==> (name is None),
{
    let name = std::path::Path::new(path).file_name()?;
    Some(name.to_str()?.to_string())
}

/// The last component of `q + name`, where `q` ends with `/` and `name`
/// holds no `/`, is `name`.
proof fn lemma_last_component_after_slash(q: Seq<char>, name: Seq<char>)
    requires
        q.len() > 0,
        q.last() == '/',
        !name.contains('/'),
    ensures
        last_component(q + name) == name,
    decreases name.len(),
{
    if name.len() == 0 {
        assert(q + name =~= q);
    } else {
        let shorter = name.drop_last();
        assert(!shorter.contains('/')) by {
            if shorter.contains('/') {
                let i = choose|i: int| 0 <= i < shorter.len() && shorter[i] == '/';
                assert(name[i] == '/');
            }
        }
        lemma_last_component_after_slash(q, shorter);
        assert((q + name).drop_last() =~= q + shorter);
        assert(name[name.len() - 1] != '/');
        assert(shorter.push(name.last()) =~= name);
    }
}

/// A file is listed by its own name, the part after the last `/`, whatever
/// backslashes the directory part holds: for `dir/name` with an ordinary
/// name (not empty, not `.` or `..`, no separator, no `:`) and a directory
/// part without `:` and without two leading separators, the only name that
/// fits is `name`.
pub proof fn law_listed_name_is_final_component(dir: Seq<char>, name: Seq<char>, listed: Seq<char>)
    requires
        name.len() > 0,
        !name.contains('/'),
        !name.contains(backslash()),
        !name.contains(':'),
        name != seq!['.'],
        name != seq!['.', '.'],
        !dir.contains(':'),
        !(dir.len() >= 1 && is_path_sep(dir[0]) && (dir.len() == 1 || is_path_sep(dir[1]))),
        listed_name_fits(dir + seq!['/'] + name, listed),
    ensures
        listed == name,
{
    let q = dir + seq!['/'];
    let p = q + name;
    assert(dir + seq!['/'] + name == p);
    lemma_last_component_after_slash(q, name);
    assert(!p.contains(':')) by {
        if p.contains(':') {
            let i = choose|i: int| 0 <= i < p.len() && p[i] == ':';
            if i < dir.len() {
                assert(dir[i] == ':');
            } else if i > dir.len() {
                assert(name[i - dir.len() - 1] == ':');
            }
        }
    }
    assert(!(p.len() >= 2 && is_path_sep(p[0]) && is_path_sep(p[1]))) by {
        if dir.len() == 0 {
            assert(p[1] == name[0]);
            assert(name.contains(name[0]));
        } else if dir.len() == 1 {
            assert(p[0] == dir[0]);
        } else {
            assert(p[0] == dir[0] && p[1] == dir[1]);
        }
    }
    assert(plain_path(p));
}

/// The name under which a path is listed: its final component `file_name`,
/// or the whole path where it has none.
pub fn display_name_or_path(file_name: Option<String>, path: &str) -> (name: String)
    ensures
        name@ == (match file_name {
            Some(n) => n@,
            None => path@,
        }),
{
    match file_name {
        Some(name) => name,
        None => string_from_chars(&chars_of(path)),
    }
}

/// The name under which `path` is listed in a file preview.
pub fn file_display_name(path: &str) -> (name: String)
    ensures
        listed_name_fits(path@, name@),
{
    display_name_or_path(path_file_name(path), path)
}

/// The hover preview of a list of files: the names of the first
/// `max_items` files one per line, then `......<label> <count>` when there
/// are more.
pub fn limit_file_preview(paths: &[String], max_items: usize, label: &str) -> (text: String)
    ensures
        exists|names: Seq<Seq<char>>|
            names.len() == vstd::math::min(paths@.len() as int, max_items as int)
            && (forall|i: int| 0 <= i < names.len() ==> #[trigger] listed_name_fits(paths@[i]@, names[i]))
            && text@ == #[trigger] file_preview_text(names, paths@.len() as nat, max_items as nat, label@),
{
    let mut names: Vec<String> = Vec::new();
    let mut i: usize = 0;
    while i < paths.len() && i < max_items
        invariant
            i <= paths.len(),
            i <= max_items,
            names.len() == i,
            forall|k: int| 0 <= k < i ==> #[trigger] listed_name_fits(paths@[k]@, names@[k]@),
        decreases paths.len() - i,
    {
        names.push(file_display_name(paths[i].as_str()));
        i += 1;
    }
    assert(forall|k: int| 0 <= k < strings_view(names@).len() ==> #[trigger] strings_view(names@)[k] == names@[k]@);
    let text = join_file_preview(names.as_slice(), paths.len(), max_items, label);
    assert(strings_view(names@).len() == vstd::math::min(paths@.len() as int, max_items as int));
    text
}

// ---------------------------------------------------------------------------
// Markdown files.
// ---------------------------------------------------------------------------

pub open spec fn ascii_lower(c: char) -> char {
    if 'A' <= c && c <= 'Z' {
        ((c as u32) + 32) as char
    } else {
        c
    }
}

pub open spec fn ascii_lower_seq(s: Seq<char>) -> Seq<char> {
    s.map_values(|c: char| ascii_lower(c))
}

/// Whether an extension names a Markdown file, ASCII letters compared
/// without regard to case.
pub open spec fn is_markdown_ext(ext: Seq<char>) -> bool {
    ascii_lower_seq(ext) == seq!['m', 'd'] || ascii_lower_seq(ext) == seq!['m', 'a', 'r', 'k', 'd', 'o', 'w', 'n']
}

fn lower_char(c: char) -> (l: char)
    ensures
        l == ascii_lower(c),
{
    if 'A' <= c && c <= 'Z' {
        ((c as u8) + 32) as char
    } else {
        c
    }
}

/// Whether `ext` is `md` or `markdown`, in any mix of ASCII case.
pub fn is_markdown_extension(ext: &str) -> (yes: bool)
    ensures
        yes == is_markdown_ext(ext@),
{
    let chars = chars_of(ext);
    let mut lower: Vec<char> = Vec::new();
    let mut i: usize = 0;
    while i < chars.len()
        invariant
            i <= chars.len(),
            lower@ == ascii_lower_seq(chars@.take(i as int)),
        decreases chars.len() - i,
    {
        lower.push(lower_char(chars[i]));
        i += 1;
        assert(lower@ =~= ascii_lower_seq(chars@.take(i as int)));
    }
    assert(chars@.take(chars.len() as int) =~= chars@);
    let md = lower.len() == 2 && lower[0] == 'm' && lower[1] == 'd';
    let markdown = lower.len() == 8 && lower[0] == 'm' && lower[1] == 'a' && lower[2] == 'r'
        && lower[3] == 'k' && lower[4] == 'd' && lower[5] == 'o' && lower[6] == 'w' && lower[7] == 'n';
    assert(md <==> lower@ =~= seq!['m', 'd']);
    assert(markdown <==> lower@ =~= seq!['m', 'a', 'r', 'k', 'd', 'o', 'w', 'n']);
    md || markdown
}

/// `Path::new(path).extension()` as a `String`: the part of the final
/// component after its last `.`. Which component is final depends on the
/// platform's path rules; stated are that the extension holds no `.`, and the
/// cases where every platform agrees: for a plain path (see `plain_path`)
/// the documented extension of its component after the last `/`, and
/// `agreed_extension` wherever that is defined.
#[verifier::external_body]
fn path_extension(path: &str) -> (ext: Option<String>)
    ensures
        ext matches Some(e) ==> !e@.contains('.'),
        agreed_extension(path@) is Some ==> (ext is Some && ext.unwrap()@ == agreed_extension(path@).unwrap()),
        plain_path(path@) ==> match dot_extension(last_component(path@)) {
            Some(e) => ext is Some && ext.unwrap()@ == e,
            None => ext is None,
        },
{
    let ext = std::path::Path::new(path).extension()?;
    Some(ext.to_str()?.to_string())
}

/// Whether a file item gets a Markdown preview: it holds exactly one path,
/// and that path has a Markdown extension.
pub fn is_markdown_preview_candidate(paths: &[String]) -> (yes: bool)
    ensures
        yes ==> paths@.len() == 1,
        paths@.len() == 1 && plain_path(paths@[0]@) ==> (yes <==> (
            dot_extension(last_component(paths@[0]@)) matches Some(e) && is_markdown_ext(e))),
        paths@.len() == 1 && agreed_extension(paths@[0]@) is Some ==> (yes <==> is_markdown_ext(
            agreed_extension(paths@[0]@).unwrap())),
{
    if paths.len() != 1 {
        return false;
    }
    match path_extension(paths[0].as_str()) {
        Some(ext) => is_markdown_extension(ext.as_str()),
        None => false,
    }
}

/// The Markdown preview of a file's text (as far as it was read): the text
/// preview, or nothing when that is empty.
pub fn markdown_preview_from_text(text: &str) -> (preview: Option<String>)
    ensures
        preview matches Some(p) ==> p@ == limit_preview(text@, PREVIEW_TEXT_MAX_LINES as int, PREVIEW_TEXT_MAX_CHARS as int) && p@.len() > 0,
        preview is None <==> limit_preview(text@, PREVIEW_TEXT_MAX_LINES as int, PREVIEW_TEXT_MAX_CHARS as int).len() == 0,
{
    let preview = limit_preview_text(text, PREVIEW_TEXT_MAX_LINES, PREVIEW_TEXT_MAX_CHARS);
    if preview.as_str().is_empty() {
        None
    } else {
        Some(preview)
    }
}

} // verus!
