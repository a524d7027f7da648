//! Single-file viewing and editing support: the heuristics that decide
//! whether a remote file is viewable text (extension allow-list, MIME
//! sniffing, a size ceiling), the parsing of the remote introspection
//! command's output, and the step machines that read one file's content
//! and save it back. Lengths and offsets here are counted in characters.

use vstd::prelude::*;
use vstd::string::*;
use crate::command::{spec_denied, CommandResult};
use crate::errors::TransferError;
use crate::shell::RemoteCmd;
use crate::text::{
    chars_eq_str,
    contains_sub,
    dec_digits,
    from_chars,
    is_substring_of,
    lower,
    lower_chars,
    to_chars,
    trim_chars,
    trimmed,
    u64_string,
};

verus! {

/// What a read of one remote file yields.
pub struct FileContent {
    pub content: String,
    pub is_editable: bool,
    pub file_type: String,
    pub is_symlink: bool,
    pub symlink_target: Option<String>,
    pub file_size: Option<u64>,
}

/// The suffix after the last occurrence of `c`, or the whole text when
/// `c` is absent.
pub open spec fn after_last(s: Seq<char>, c: char) -> Seq<char>
    decreases s.len(),
{
    if s.len() == 0 {
        s
    } else if s.last() == c {
        Seq::empty()
    } else {
        after_last(s.drop_last(), c).push(s.last())
    }
}

/// `after_last` is the suffix from just past the last occurrence.
proof fn lemma_after_last_at(s: Seq<char>, c: char, j: int)
    requires
        0 <= j <= s.len(),
        forall|k: int| j <= k < s.len() ==> s[k] != c,
        j == 0 || s[j - 1] == c,
    ensures
        after_last(s, c) == s.subrange(j, s.len() as int),
    decreases s.len(),
{
    if j == s.len() {
        if s.len() == 0 {
            assert(s.subrange(0, 0) =~= s);
        } else {
            assert(s.last() == c);
            assert(s.subrange(j, s.len() as int) =~= Seq::<char>::empty());
        }
    } else {
        assert(s.last() != c);
        let t = s.drop_last();
        assert forall|k: int| j <= k < t.len() implies t[k] != c by {
            assert(t[k] == s[k]);
        }
        if j > 0 {
            assert(t[j - 1] == s[j - 1]);
        }
        lemma_after_last_at(t, c, j);
        assert(t.subrange(j, t.len() as int).push(s.last()) =~= s.subrange(j, s.len() as int));
    }
}

/// The suffix of `v` after its last occurrence of `c`.
pub fn suffix_after_last(v: &Vec<char>, c: char) -> (r: Vec<char>)
    ensures
        r@ == after_last(v@, c),
{
    let n = v.len();
    let mut j: usize = n;
    while j > 0 && v[j - 1] != c
        invariant
            j <= n,
            n == v@.len(),
            forall|k: int| j <= k < n ==> v@[k] != c,
        decreases j,
    {
        j -= 1;
    }
    proof {
        lemma_after_last_at(v@, c, j as int);
    }
    let mut r: Vec<char> = Vec::new();
    let mut i: usize = j;
    while i < n
        invariant
            j <= i <= n,
            n == v@.len(),
            r@ == v@.subrange(j as int, i as int),
        decreases n - i,
    {
        r.push(v[i]);
        assert(v@.subrange(j as int, i + 1 as int) =~= v@.subrange(j as int, i as int).push(
            v@[i as int],
        ));
        i += 1;
    }
    r
}

/// The extensions (and extensionless names) accepted as text.
pub open spec fn spec_is_text_ext(e: Seq<char>) -> bool {
    ||| e == "txt"@
    ||| e == "md"@
    ||| e == "js"@
    ||| e == "ts"@
    ||| e == "html"@
    ||| e == "css"@
    ||| e == "scss"@
    ||| e == "json"@
    ||| e == "xml"@
    ||| e == "yaml"@
    ||| e == "yml"@
    ||| e == "toml"@
    ||| e == "ini"@
    ||| e == "cfg"@
    ||| e == "conf"@
    ||| e == "log"@
    ||| e == "sh"@
    ||| e == "py"@
    ||| e == "rs"@
    ||| e == "go"@
    ||| e == "php"@
    ||| e == "cpp"@
    ||| e == "c"@
    ||| e == "h"@
    ||| e == "hpp"@
    ||| e == "java"@
    ||| e == "kt"@
    ||| e == "swift"@
    ||| e == "rb"@
    ||| e == "pl"@
    ||| e == "lua"@
    ||| e == "sql"@
    ||| e == "vue"@
    ||| e == "jsx"@
    ||| e == "tsx"@
    ||| e == "less"@
    ||| e == "styl"@
    ||| e == "mod"@
    ||| e == "env"@
    ||| e == "dockerfile"@
    ||| e == "makefile"@
    ||| e == "gitignore"@
    ||| e == "gitconfig"@
    ||| e == "editorconfig"@
    ||| e == "prettierrc"@
    ||| e == "eslintrc"@
    ||| e == "babelrc"@
    ||| e == "npmrc"@
    ||| e == "yarnrc"@
    ||| e == "nvmrc"@
    ||| e == "bashrc"@
    ||| e == "zshrc"@
    ||| e == "vimrc"@
    ||| e == "tmux"@
    ||| e == "profile"@
    ||| e == "bashprofile"@
    ||| e == "zshprofile"@
    ||| e == "fish"@
    ||| e == "tcsh"@
    ||| e == "csh"@
    ||| e == "ksh"@
    ||| e == "bat"@
    ||| e == "cmd"@
    ||| e == "ps1"@
    ||| e == "psm1"@
    ||| e == "psd1"@
    ||| e == "ps1xml"@
    ||| e == "pssc"@
    ||| e == "psrc"@
    ||| e == "psc1"@
    ||| e == "r"@
    ||| e == "tex"@
    ||| e == "bib"@
    ||| e == "cls"@
    ||| e == "sty"@
    ||| e == "dtx"@
    ||| e == "ins"@
    ||| e == "ltx"@
    ||| e == "rtx"@
    ||| e == "ctx"@
    ||| e == "lco"@
    ||| e == "def"@
    ||| e == "fd"@
    ||| e == "bbx"@
    ||| e == "cbx"@
    ||| e == "lbx"@
    ||| e == "bibtex"@
    ||| e == "context"@
    ||| e == "readme"@
    ||| e == "license"@
    ||| e == "changelog"@
    ||| e == "authors"@
    ||| e == "contributors"@
    ||| e == "copying"@
    ||| e == "install"@
    ||| e == "news"@
    ||| e == "todo"@
    ||| e == "version"@
    ||| e == "history"@
    ||| e == "notice"@
    ||| e == "acknowledgments"@
}

/// Whether a file name is accepted as text: the lower-cased segment after
/// its last dot (the whole name when it has none) is on the allow-list.
pub open spec fn spec_is_text_file(filename: Seq<char>) -> bool {
    spec_is_text_ext(lower(after_last(filename, '.')))
}

fn text_ext_listed(e: &Vec<char>) -> (r: bool)
    ensures
        r == spec_is_text_ext(e@),
{
    chars_eq_str(e, "txt") || chars_eq_str(e, "md") || chars_eq_str(e, "js") || chars_eq_str(
        e,
        "ts",
    ) || chars_eq_str(e, "html") || chars_eq_str(e, "css") || chars_eq_str(e, "scss")
        || chars_eq_str(e, "json") || chars_eq_str(e, "xml") || chars_eq_str(e, "yaml")
        || chars_eq_str(e, "yml") || chars_eq_str(e, "toml") || chars_eq_str(e, "ini")
        || chars_eq_str(e, "cfg") || chars_eq_str(e, "conf") || chars_eq_str(e, "log")
        || chars_eq_str(e, "sh") || chars_eq_str(e, "py") || chars_eq_str(e, "rs")
        || chars_eq_str(e, "go") || chars_eq_str(e, "php") || chars_eq_str(e, "cpp")
        || chars_eq_str(e, "c") || chars_eq_str(e, "h") || chars_eq_str(e, "hpp")
        || chars_eq_str(e, "java") || chars_eq_str(e, "kt") || chars_eq_str(e, "swift")
        || chars_eq_str(e, "rb") || chars_eq_str(e, "pl") || chars_eq_str(e, "lua")
        || chars_eq_str(e, "sql") || chars_eq_str(e, "vue") || chars_eq_str(e, "jsx")
        || chars_eq_str(e, "tsx") || chars_eq_str(e, "less") || chars_eq_str(e, "styl")
        || chars_eq_str(e, "mod") || chars_eq_str(e, "env") || chars_eq_str(e, "dockerfile")
        || chars_eq_str(e, "makefile") || chars_eq_str(e, "gitignore") || chars_eq_str(
        e,
        "gitconfig",
    ) || chars_eq_str(e, "editorconfig") || chars_eq_str(e, "prettierrc") || chars_eq_str(
        e,
        "eslintrc",
    ) || chars_eq_str(e, "babelrc") || chars_eq_str(e, "npmrc") || chars_eq_str(e, "yarnrc")
        || chars_eq_str(e, "nvmrc") || chars_eq_str(e, "bashrc") || chars_eq_str(e, "zshrc")
        || chars_eq_str(e, "vimrc") || chars_eq_str(e, "tmux") || chars_eq_str(e, "profile")
        || chars_eq_str(e, "bashprofile") || chars_eq_str(e, "zshprofile") || chars_eq_str(
        e,
        "fish",
    ) || chars_eq_str(e, "tcsh") || chars_eq_str(e, "csh") || chars_eq_str(e, "ksh")
        || chars_eq_str(e, "bat") || chars_eq_str(e, "cmd") || chars_eq_str(e, "ps1")
        || chars_eq_str(e, "psm1") || chars_eq_str(e, "psd1") || chars_eq_str(e, "ps1xml")
        || chars_eq_str(e, "pssc") || chars_eq_str(e, "psrc") || chars_eq_str(e, "psc1")
        || chars_eq_str(e, "r") || chars_eq_str(e, "tex") || chars_eq_str(e, "bib")
        || chars_eq_str(e, "cls") || chars_eq_str(e, "sty") || chars_eq_str(e, "dtx")
        || chars_eq_str(e, "ins") || chars_eq_str(e, "ltx") || chars_eq_str(e, "rtx")
        || chars_eq_str(e, "ctx") || chars_eq_str(e, "lco") || chars_eq_str(e, "def")
        || chars_eq_str(e, "fd") || chars_eq_str(e, "bbx") || chars_eq_str(e, "cbx")
        || chars_eq_str(e, "lbx") || chars_eq_str(e, "bibtex") || chars_eq_str(e, "context")
        || chars_eq_str(e, "readme") || chars_eq_str(e, "license") || chars_eq_str(
        e,
        "changelog",
    ) || chars_eq_str(e, "authors") || chars_eq_str(e, "contributors") || chars_eq_str(
        e,
        "copying",
    ) || chars_eq_str(e, "install") || chars_eq_str(e, "news") || chars_eq_str(e, "todo")
        || chars_eq_str(e, "version") || chars_eq_str(e, "history") || chars_eq_str(e, "notice")
        || chars_eq_str(e, "acknowledgments")
}

/// Whether a file name is accepted as text by its extension alone.
pub fn is_text_file(filename: &str) -> (r: bool)
    ensures
        r == spec_is_text_file(filename@),
{
    let chars = to_chars(filename);
    let ext = suffix_after_last(&chars, '.');
    let ext_lower = lower_chars(&ext);
    text_ext_listed(&ext_lower)
}

/// The file-type label of a name: the lower-cased segment after its last
/// dot, or the whole lower-cased name when it has none.
pub fn get_file_type(filename: &str) -> (r: String)
    ensures
        r@ == lower(after_last(filename@, '.')),
{
    let chars = to_chars(filename);
    let ext = suffix_after_last(&chars, '.');
    let ext_lower = lower_chars(&ext);
    from_chars(&ext_lower)
}

/// A printable character of text content: ASCII graphic or ASCII
/// whitespace.
pub open spec fn is_printable(c: char) -> bool {
    (33 <= c as u32 <= 126) || c == ' ' || c == '\t' || c == '\n' || c == '\r' || c as u32 == 12
}

/// How many characters of `s` are not printable.
pub open spec fn non_printable_count(s: Seq<char>) -> int
    decreases s.len(),
{
    if s.len() == 0 {
        0
    } else {
        non_printable_count(s.drop_last()) + (if is_printable(s.last()) {
            0int
        } else {
            1int
        })
    }
}

/// Whether content under a path is likely editable text: an allow-listed
/// name, or content whose non-printable characters stay under a ceiling
/// (fewer than 50 in the first 1000 characters of long content, fewer
/// than a tenth of short content).
pub open spec fn spec_likely_text(path: Seq<char>, content: Seq<char>) -> bool {
    if spec_is_text_file(after_last(path, '/')) {
        true
    } else if content.len() > 1000 {
        non_printable_count(content.subrange(0, 1000)) < 50
    } else {
        non_printable_count(content) < content.len() / 10
    }
}

fn count_non_printable(v: &Vec<char>, upto: usize) -> (r: usize)
    requires
        upto <= v@.len(),
    ensures
        r == non_printable_count(v@.subrange(0, upto as int)),
{
    let mut count: usize = 0;
    let mut i: usize = 0;
    proof {
        assert(v@.subrange(0, 0) =~= Seq::<char>::empty());
    }
    while i < upto
        invariant
            i <= upto <= v@.len(),
            count <= i,
            count == non_printable_count(v@.subrange(0, i as int)),
        decreases upto - i,
    {
        proof {
            assert(v@.subrange(0, i + 1 as int).drop_last() =~= v@.subrange(0, i as int));
            assert(v@.subrange(0, i + 1 as int).last() == v@[i as int]);
        }
        let c = v[i];
        let u = c as u32;
        let printable = (33 <= u && u <= 126) || c == ' ' || c == '\t' || c == '\n' || c == '\r'
            || u == 12;
        if !printable {
            count += 1;
        }
        i += 1;
    }
    count
}

/// Whether the content under this path is likely editable text.
pub fn is_likely_text_file(file_path: &str, content: &str) -> (r: bool)
    ensures
        r == spec_likely_text(file_path@, content@),
{
    let path_chars = to_chars(file_path);
    let filename = suffix_after_last(&path_chars, '/');
    let filename_str = from_chars(&filename);
    if is_text_file(filename_str.as_str()) {
        return true;
    }
    let content_chars = to_chars(content);
    let n = content_chars.len();
    if n > 1000 {
        let count = count_non_printable(&content_chars, 1000);
        count < 50
    } else {
        let count = count_non_printable(&content_chars, n);
        proof {
            assert(content_chars@.subrange(0, n as int) =~= content_chars@);
        }
        count < n / 10
    }
}

/// Whether a file name is accepted for editing; the check never fails.
pub fn check_file_permissions(file_path: String) -> (r: Result<bool, String>)
    ensures
        r matches Ok(b) && b == spec_is_text_file(after_last(file_path@, '/')),
{
    let chars = to_chars(file_path.as_str());
    let filename = suffix_after_last(&chars, '/');
    let filename_str = from_chars(&filename);
    Ok(is_text_file(filename_str.as_str()))
}

/// Whether a sniffed MIME type is treated as binary: anything that is not
/// `text/` and mentions neither `json` nor `xml`, on the trimmed,
/// lower-cased type.
pub open spec fn spec_binary_mime(mime_output: Seq<char>) -> bool {
    let t = lower(trimmed(mime_output));
    !(t.len() >= 5 && t.subrange(0, 5) == "text/"@) && !is_substring_of("json"@, t)
        && !is_substring_of("xml"@, t)
}

/// Classifies a MIME sniff's output as binary or text.
pub fn is_binary_mime(mime_output: &str) -> (r: bool)
    ensures
        r == spec_binary_mime(mime_output@),
{
    let chars = to_chars(mime_output);
    let t = trim_chars(&chars);
    let tl = lower_chars(&t);
    let prefix = to_chars("text/");
    proof {
        reveal_strlit("text/");
    }
    let mut starts = tl.len() >= 5;
    if starts {
        let mut i: usize = 0;
        while i < 5
            invariant
                i <= 5,
                tl@.len() >= 5,
                prefix@ == "text/"@,
                prefix@.len() == 5,
                starts ==> forall|j: int| 0 <= j < i ==> tl@[j] == prefix@[j],
                !starts ==> exists|j: int| 0 <= j < 5 && #[trigger] tl@[j] != prefix@[j],
            decreases 5 - i,
        {
            if tl[i] != prefix[i] {
                starts = false;
                i = 5;
            } else {
                i += 1;
            }
        }
        proof {
            if starts {
                assert(tl@.subrange(0, 5) =~= "text/"@);
            } else {
                let j = choose|j: int| 0 <= j < 5 && #[trigger] tl@[j] != prefix@[j];
                assert(tl@.subrange(0, 5)[j] == tl@[j]);
                assert(tl@.subrange(0, 5) != "text/"@);
            }
        }
    }
    if starts {
        return false;
    }
    let json = to_chars("json");
    let xml = to_chars("xml");
    !contains_sub(&tl, &json) && !contains_sub(&tl, &xml)
}

/// Splitting on a separator character; unlike line splitting, a trailing
/// separator yields a final empty part and empty input yields one empty
/// part.
pub open spec fn split_acc(s: Seq<char>, sep: char, cur: Seq<char>) -> Seq<Seq<char>>
    decreases s.len(),
{
    if s.len() == 0 {
        seq![cur]
    } else if s[0] == sep {
        seq![cur] + split_acc(s.drop_first(), sep, seq![])
    } else {
        split_acc(s.drop_first(), sep, cur.push(s[0]))
    }
}

/// The parts of `s` split on `sep`.
pub open spec fn spec_split(s: Seq<char>, sep: char) -> Seq<Seq<char>> {
    split_acc(s, sep, seq![])
}

/// Splits a character vector on a separator character.
pub fn split_on(v: &Vec<char>, sep: char) -> (r: Vec<Vec<char>>)
    ensures
        r@.map_values(|l: Vec<char>| l@) == spec_split(v@, sep),
{
    let n = v.len();
    let mut r: Vec<Vec<char>> = Vec::new();
    let mut cur: Vec<char> = Vec::new();
    let mut i: usize = 0;
    proof {
        assert(v@.subrange(0, n as int) =~= v@);
        assert(r@.map_values(|l: Vec<char>| l@) =~= Seq::<Seq<char>>::empty());
        assert(Seq::<Seq<char>>::empty() + split_acc(v@, sep, seq![]) =~= split_acc(
            v@,
            sep,
            seq![],
        ));
    }
    while i < n
        invariant
            i <= n,
            n == v@.len(),
            spec_split(v@, sep) == r@.map_values(|l: Vec<char>| l@) + split_acc(
                v@.subrange(i as int, n as int),
                sep,
                cur@,
            ),
        decreases n - i,
    {
        let ghost rem = v@.subrange(i as int, n as int);
        proof {
            assert(rem[0] == v@[i as int]);
            assert(rem.drop_first() =~= v@.subrange(i + 1 as int, n as int));
        }
        let c = v[i];
        if c == sep {
            let done = cur;
            cur = Vec::new();
            r.push(done);
            proof {
                assert(r@.map_values(|l: Vec<char>| l@) =~= r@.drop_last().map_values(
                    |l: Vec<char>| l@,
                ).push(done@));
            }
        } else {
            cur.push(c);
        }
        i += 1;
    }
    proof {
        assert(v@.subrange(n as int, n as int) =~= Seq::<char>::empty());
    }
    let done = cur;
    r.push(done);
    proof {
        assert(r@.map_values(|l: Vec<char>| l@) =~= r@.drop_last().map_values(
            |l: Vec<char>| l@,
        ).push(done@));
    }
    r
}

/// A decimal digit.
pub open spec fn is_dec_digit(c: char) -> bool {
    48 <= c as u32 <= 57
}

/// The value of one decimal digit.
pub open spec fn dec_digit_val(c: char) -> int {
    c as u32 - 48
}

/// Whether every character is a decimal digit.
pub open spec fn all_dec_digits(s: Seq<char>) -> bool {
    forall|i: int| 0 <= i < s.len() ==> is_dec_digit(#[trigger] s[i])
}

/// The numeric value of a decimal digit string.
pub open spec fn dec_val(s: Seq<char>) -> int
    decreases s.len(),
{
    if s.len() == 0 {
        0
    } else {
        dec_val(s.drop_last()) * 10 + dec_digit_val(s[s.len() - 1])
    }
}

/// The number a digit string parses to, when non-empty, all digits, and
/// in range.
pub open spec fn spec_parse_u64(s: Seq<char>) -> Option<int> {
    if s.len() > 0 && all_dec_digits(s) && dec_val(s) <= u64::MAX {
        Some(dec_val(s))
    } else {
        None
    }
}

proof fn lemma_dec_nonneg(s: Seq<char>)
    requires
        all_dec_digits(s),
    ensures
        dec_val(s) >= 0,
    decreases s.len(),
{
    if s.len() > 0 {
        assert(all_dec_digits(s.drop_last())) by {
            assert(forall|i: int| 0 <= i < s.len() - 1 ==> s.drop_last()[i] == s[i]);
        }
        lemma_dec_nonneg(s.drop_last());
    }
}

proof fn lemma_dec_prefix(s: Seq<char>, k: int)
    requires
        all_dec_digits(s),
        0 <= k <= s.len(),
    ensures
        0 <= dec_val(s.subrange(0, k)) <= dec_val(s),
    decreases s.len() - k,
{
    assert(all_dec_digits(s.subrange(0, k))) by {
        assert(forall|i: int| 0 <= i < k ==> s.subrange(0, k)[i] == s[i]);
    }
    lemma_dec_nonneg(s.subrange(0, k));
    if k == s.len() {
        assert(s.subrange(0, k) =~= s);
    } else {
        assert(s.subrange(0, k + 1).drop_last() =~= s.subrange(0, k));
        assert(s.subrange(0, k + 1)[k] == s[k]);
        assert(dec_val(s.subrange(0, k + 1)) == dec_val(s.subrange(0, k)) * 10 + dec_digit_val(
            s[k],
        ));
        lemma_dec_prefix(s, k + 1);
    }
}

/// Parses a digit vector as an unsigned number.
pub fn parse_u64(v: &Vec<char>) -> (r: Option<u64>)
    ensures
        match r {
            Some(x) => spec_parse_u64(v@) == Some(x as int),
            None => spec_parse_u64(v@) is None,
        },
{
    let n = v.len();
    if n == 0 {
        return None;
    }
    let mut acc: u64 = 0;
    let mut k: usize = 0;
    proof {
        assert(v@.subrange(0, 0) =~= Seq::<char>::empty());
    }
    while k < n
        invariant
            k <= n,
            n == v@.len(),
            forall|i: int| 0 <= i < k ==> is_dec_digit(#[trigger] v@[i]),
            acc as int == dec_val(v@.subrange(0, k as int)),
        decreases n - k,
    {
        let c = v[k];
        let u = c as u32;
        if u < 48 || u > 57 {
            return None;
        }
        proof {
            assert(v@.subrange(0, k + 1 as int).drop_last() =~= v@.subrange(0, k as int));
            assert(v@.subrange(0, k + 1 as int)[k as int] == v@[k as int]);
        }
        let d = (u - 48) as u64;
        if acc > (0xFFFF_FFFF_FFFF_FFFF - d) / 10 {
            proof {
                assert(dec_val(v@.subrange(0, k + 1 as int)) > u64::MAX);
                if all_dec_digits(v@) {
                    lemma_dec_prefix(v@, k + 1);
                }
            }
            return None;
        }
        acc = acc * 10 + d;
        k += 1;
    }
    proof {
        assert(v@.subrange(0, n as int) =~= v@);
    }
    Some(acc)
}

/// What the remote introspection command reports of one file.
pub struct FileInfo {
    /// Whether the command's output parsed at all.
    pub known: bool,
    pub is_symlink: bool,
    pub file_size: Option<u64>,
}

/// Whether an introspection output parses: its trimmed text is not the
/// fallback word and splits into exactly two parts on `|`.
pub open spec fn spec_info_known(stdout: Seq<char>) -> bool {
    let t = trimmed(stdout);
    t != "error"@ && spec_split(t, '|').len() == 2
}

/// Whether a parsed introspection output marks a symbolic link.
pub open spec fn spec_info_symlink(stdout: Seq<char>) -> bool {
    spec_info_known(stdout) && is_substring_of(
        "symbolic link"@,
        spec_split(trimmed(stdout), '|')[0],
    )
}

/// The size a parsed introspection output carries, if its second part is
/// a number.
pub open spec fn spec_info_size(stdout: Seq<char>) -> Option<int> {
    if spec_info_known(stdout) {
        spec_parse_u64(spec_split(trimmed(stdout), '|')[1])
    } else {
        None
    }
}

/// An optional size against its mathematical value.
pub open spec fn size_matches(o: Option<u64>, s: Option<int>) -> bool {
    match o {
        Some(a) => s == Some(a as int),
        None => s is None,
    }
}

/// Parses the introspection command's output: the file kind and byte
/// size, separated by `|`, with a fixed fallback word for failure.
pub fn parse_file_info(stdout: &str) -> (r: FileInfo)
    ensures
        r.known == spec_info_known(stdout@),
        r.is_symlink == spec_info_symlink(stdout@),
        size_matches(r.file_size, spec_info_size(stdout@)),
{
    let chars = to_chars(stdout);
    let t = trim_chars(&chars);
    if chars_eq_str(&t, "error") {
        return FileInfo { known: false, is_symlink: false, file_size: None };
    }
    let parts = split_on(&t, '|');
    if parts.len() != 2 {
        return FileInfo { known: false, is_symlink: false, file_size: None };
    }
    proof {
        assert(parts@.map_values(|l: Vec<char>| l@)[0] == parts@[0]@);
        assert(parts@.map_values(|l: Vec<char>| l@)[1] == parts@[1]@);
    }
    let needle = to_chars("symbolic link");
    let is_symlink = contains_sub(&parts[0], &needle);
    let file_size = parse_u64(&parts[1]);
    FileInfo { known: true, is_symlink, file_size }
}

/// Where one file read stands.
pub enum ReadPhase {
    /// Awaiting the file's kind and size.
    AwaitInfo,
    /// Awaiting the symbolic link's target.
    AwaitLink,
    /// Awaiting the MIME sniff.
    AwaitMime,
    /// Awaiting the human-readable description of a binary file.
    AwaitDescribe,
    /// Awaiting the text content itself.
    AwaitContent,
    /// The read produced its `FileContent`.
    Done,
    /// The read failed; no further step is taken.
    Failed,
}

/// What the caller reports back to a read or save.
pub enum EditorEvent {
    /// The requested command finished with this result.
    Command(CommandResult),
    /// The command channel could not be opened or read.
    Failure(String),
}

/// What the caller must do next during a read.
pub enum ReadAction {
    /// Run this command on the session.
    Run(RemoteCmd),
    /// The read is done.
    Finished(FileContent),
    /// The read failed with this error.
    Fail(TransferError),
}

/// The step machine that reads one remote file for display: symbolic
/// links and oversized or binary files yield a description instead of
/// editable content.
pub struct ReadFile {
    pub path: String,
    /// The name after the last `/` of the path.
    pub filename: String,
    /// The lower-cased extension label of the name.
    pub file_type: String,
    pub file_size: Option<u64>,
    pub phase: ReadPhase,
}

impl ReadFile {
    /// Starts a read: the first action queries the file's kind and size.
    pub fn new(path: String) -> (r: (ReadFile, ReadAction))
        ensures
            r.0.phase is AwaitInfo,
            r.0.path@ == path@,
            r.0.filename@ == after_last(path@, '/'),
            r.0.file_type@ == lower(after_last(after_last(path@, '/'), '.')),
            r.0.file_size is None,
            r.1 matches ReadAction::Run(c) && (c matches RemoteCmd::StatInfo { path: p } && p@
                == path@),
    {
        let chars = to_chars(path.as_str());
        let fname = suffix_after_last(&chars, '/');
        let filename = from_chars(&fname);
        let file_type = get_file_type(filename.as_str());
        let cmd = RemoteCmd::StatInfo { path: path.clone() };
        let m = ReadFile {
            path,
            filename,
            file_type,
            file_size: None,
            phase: ReadPhase::AwaitInfo,
        };
        (m, ReadAction::Run(cmd))
    }

    /// Feeds the read one event and yields the next action.
    pub fn step(&mut self, e: EditorEvent) -> (r: ReadAction)
        requires
            !(old(self).phase is Done),
            !(old(self).phase is Failed),
        ensures
            final(self).path == old(self).path,
            final(self).filename == old(self).filename,
            final(self).file_type == old(self).file_type,
            !(old(self).phase is AwaitInfo) ==> final(self).file_size == old(self).file_size,
            // the file's kind and size decide the route
            old(self).phase is AwaitInfo ==> (e matches EditorEvent::Command(res) ==> (
            size_matches(final(self).file_size, spec_info_size(res.stdout@)) && (
            if spec_info_symlink(res.stdout@) {
                final(self).phase is AwaitLink && (r matches ReadAction::Run(c) && (c matches
                    RemoteCmd::ReadLink { path: p } && p@ == old(self).path@))
            } else if spec_info_size(res.stdout@) matches Some(sz) && sz > 10_000_000 {
                final(self).phase is Done && (r matches ReadAction::Finished(fc) && (
                spec_info_size(res.stdout@) matches Some(sz2) && fc.content@
                    == "File too large to view\nSize: "@ + dec_digits(sz2 as nat)
                    + " bytes\nPath: "@ + old(self).path@ && fc.is_editable == false
                    && fc.file_type == old(self).file_type && fc.is_symlink == false
                    && fc.symlink_target is None))
            } else if spec_is_text_file(old(self).filename@) {
                final(self).phase is AwaitContent && (r matches ReadAction::Run(c) && (c matches
                    RemoteCmd::ReadFile { path: p } && p@ == old(self).path@))
            } else {
                final(self).phase is AwaitMime && (r matches ReadAction::Run(c) && (c matches
                    RemoteCmd::MimeType { path: p } && p@ == old(self).path@))
            }))),
            old(self).phase is AwaitInfo ==> (e matches EditorEvent::Failure(m) ==> (final(self).phase is Failed && (r matches ReadAction::Fail(err) && (err matches
                TransferError::ChannelError { detail } && detail@ == m@)))),
            // a symbolic link is described, never edited; resolving its
            // target is best-effort
            old(self).phase is AwaitLink ==> (e matches EditorEvent::Command(res) ==> (final(self).phase is Done && (r matches ReadAction::Finished(fc) && (fc.content@
                == "Symbolic link\nPath: "@ + old(self).path@ + "\nPoints to: "@ + trimmed(
                res.stdout@,
            ) && fc.is_editable == false && fc.file_type == old(self).file_type && fc.is_symlink
                == true && (fc.symlink_target matches Some(t) && t@ == trimmed(res.stdout@))
                && fc.file_size == old(self).file_size)))),
            old(self).phase is AwaitLink ==> (e is Failure ==> (final(self).phase is Done && (r
                matches ReadAction::Finished(fc) && (fc.content@ == "Symbolic link\nPath: "@
                + old(self).path@ + "\nPoints to: unknown"@ && fc.is_editable == false
                && fc.is_symlink == true && fc.symlink_target is None && fc.file_size == old(self).file_size)))),
            // the MIME sniff decides binary against text; a failed sniff
            // counts as binary
            old(self).phase is AwaitMime ==> (e matches EditorEvent::Command(res) ==> (
            if spec_binary_mime(res.stdout@) {
                final(self).phase is AwaitDescribe && (r matches ReadAction::Run(c) && (c matches
                    RemoteCmd::Describe { path: p } && p@ == old(self).path@))
            } else {
                final(self).phase is AwaitContent && (r matches ReadAction::Run(c) && (c matches
                    RemoteCmd::ReadFile { path: p } && p@ == old(self).path@))
            })),
            old(self).phase is AwaitMime ==> (e is Failure ==> (final(self).phase is AwaitDescribe
                && (r matches ReadAction::Run(c) && (c matches RemoteCmd::Describe { path: p }
                && p@ == old(self).path@)))),
            // a binary file is described, never edited
            old(self).phase is AwaitDescribe ==> (e matches EditorEvent::Command(res) ==> (final(self).phase is Done && (r matches ReadAction::Finished(fc) && (fc.content@
                == "Binary file\nType: "@ + old(self).file_type@ + "\nPath: "@ + old(self).path@
                + "\nInfo: "@ + trimmed(res.stdout@) && fc.is_editable == false && fc.file_type
                == old(self).file_type && fc.is_symlink == false && fc.symlink_target is None
                && fc.file_size == old(self).file_size)))),
            old(self).phase is AwaitDescribe ==> (e matches EditorEvent::Failure(m) ==> (final(self).phase is Failed && (r matches ReadAction::Fail(err) && (err matches
                TransferError::ChannelError { detail } && detail@ == m@)))),
            // text content is returned as-is, editable
            old(self).phase is AwaitContent ==> (e matches EditorEvent::Command(res) ==> (
            res.exit_code == 0 ==> (final(self).phase is Done && (r matches ReadAction::Finished(
                fc,
            ) && (fc.content@ == res.stdout@ && fc.is_editable == true && fc.file_type == old(self).file_type && fc.is_symlink == false && fc.symlink_target is None && fc.file_size
                == old(self).file_size))))),
            old(self).phase is AwaitContent ==> (e matches EditorEvent::Command(res) ==> (
            res.exit_code != 0 ==> (final(self).phase is Failed && (r matches ReadAction::Fail(
                err,
            ) && (err matches TransferError::CommandFailed { exit_code, stderr } && exit_code
                == res.exit_code && stderr@ == res.stderr@))))),
            old(self).phase is AwaitContent ==> (e matches EditorEvent::Failure(m) ==> (final(self).phase is Failed && (r matches ReadAction::Fail(err) && (err matches
                TransferError::ChannelError { detail } && detail@ == m@)))),
            (r is Finished) <==> final(self).phase is Done,
            (r is Fail) <==> final(self).phase is Failed,
    {
        match self.phase {
            ReadPhase::AwaitInfo => {
                match e {
                    EditorEvent::Command(res) => {
                        let info = parse_file_info(res.stdout.as_str());
                        self.file_size = info.file_size;
                        if info.is_symlink {
                            self.phase = ReadPhase::AwaitLink;
                            ReadAction::Run(RemoteCmd::ReadLink { path: self.path.clone() })
                        } else {
                            let mut too_large = false;
                            let mut size_val: u64 = 0;
                            match info.file_size {
                                Some(sz) => {
                                    if sz > 10_000_000 {
                                        too_large = true;
                                        size_val = sz;
                                    }
                                },
                                None => {},
                            }
                            if too_large {
                                self.phase = ReadPhase::Done;
                                let content = String::from_str("File too large to view\nSize: ")
                                    .concat(u64_string(size_val).as_str()).concat(
                                    " bytes\nPath: ",
                                ).concat(self.path.as_str());
                                ReadAction::Finished(
                                    FileContent {
                                        content,
                                        is_editable: false,
                                        file_type: self.file_type.clone(),
                                        is_symlink: false,
                                        symlink_target: None,
                                        file_size: self.file_size,
                                    },
                                )
                            } else if is_text_file(self.filename.as_str()) {
                                self.phase = ReadPhase::AwaitContent;
                                ReadAction::Run(RemoteCmd::ReadFile { path: self.path.clone() })
                            } else {
                                self.phase = ReadPhase::AwaitMime;
                                ReadAction::Run(RemoteCmd::MimeType { path: self.path.clone() })
                            }
                        }
                    },
                    EditorEvent::Failure(m) => {
                        self.phase = ReadPhase::Failed;
                        ReadAction::Fail(TransferError::ChannelError { detail: m })
                    },
                }
            },
            ReadPhase::AwaitLink => {
                match e {
                    EditorEvent::Command(res) => {
                        let out = to_chars(res.stdout.as_str());
                        let target_chars = trim_chars(&out);
                        let target = from_chars(&target_chars);
                        self.phase = ReadPhase::Done;
                        let content = String::from_str("Symbolic link\nPath: ").concat(
                            self.path.as_str(),
                        ).concat("\nPoints to: ").concat(target.as_str());
                        ReadAction::Finished(
                            FileContent {
                                content,
                                is_editable: false,
                                file_type: self.file_type.clone(),
                                is_symlink: true,
                                symlink_target: Some(target),
                                file_size: self.file_size,
                            },
                        )
                    },
                    EditorEvent::Failure(_) => {
                        self.phase = ReadPhase::Done;
                        let content = String::from_str("Symbolic link\nPath: ").concat(
                            self.path.as_str(),
                        ).concat("\nPoints to: unknown");
                        ReadAction::Finished(
                            FileContent {
                                content,
                                is_editable: false,
                                file_type: self.file_type.clone(),
                                is_symlink: true,
                                symlink_target: None,
                                file_size: self.file_size,
                            },
                        )
                    },
                }
            },
            ReadPhase::AwaitMime => {
                match e {
                    EditorEvent::Command(res) => {
                        if is_binary_mime(res.stdout.as_str()) {
                            self.phase = ReadPhase::AwaitDescribe;
                            ReadAction::Run(RemoteCmd::Describe { path: self.path.clone() })
                        } else {
                            self.phase = ReadPhase::AwaitContent;
                            ReadAction::Run(RemoteCmd::ReadFile { path: self.path.clone() })
                        }
                    },
                    EditorEvent::Failure(_) => {
                        self.phase = ReadPhase::AwaitDescribe;
                        ReadAction::Run(RemoteCmd::Describe { path: self.path.clone() })
                    },
                }
            },
            ReadPhase::AwaitDescribe => {
                match e {
                    EditorEvent::Command(res) => {
                        let out = to_chars(res.stdout.as_str());
                        let info_chars = trim_chars(&out);
                        let info = from_chars(&info_chars);
                        self.phase = ReadPhase::Done;
                        let content = String::from_str("Binary file\nType: ").concat(
                            self.file_type.as_str(),
                        ).concat("\nPath: ").concat(self.path.as_str()).concat("\nInfo: ").concat(
                            info.as_str(),
                        );
                        ReadAction::Finished(
                            FileContent {
                                content,
                                is_editable: false,
                                file_type: self.file_type.clone(),
                                is_symlink: false,
                                symlink_target: None,
                                file_size: self.file_size,
                            },
                        )
                    },
                    EditorEvent::Failure(m) => {
                        self.phase = ReadPhase::Failed;
                        ReadAction::Fail(TransferError::ChannelError { detail: m })
                    },
                }
            },
            ReadPhase::AwaitContent => {
                match e {
                    EditorEvent::Command(res) => {
                        if res.exit_code == 0 {
                            self.phase = ReadPhase::Done;
                            ReadAction::Finished(
                                FileContent {
                                    content: res.stdout,
                                    is_editable: true,
                                    file_type: self.file_type.clone(),
                                    is_symlink: false,
                                    symlink_target: None,
                                    file_size: self.file_size,
                                },
                            )
                        } else {
                            self.phase = ReadPhase::Failed;
                            ReadAction::Fail(
                                TransferError::CommandFailed {
                                    exit_code: res.exit_code,
                                    stderr: res.stderr,
                                },
                            )
                        }
                    },
                    EditorEvent::Failure(m) => {
                        self.phase = ReadPhase::Failed;
                        ReadAction::Fail(TransferError::ChannelError { detail: m })
                    },
                }
            },
            ReadPhase::Done | ReadPhase::Failed => vstd::pervasive::unreached(),
        }
    }
}

/// Where one file save stands.
pub enum SavePhase {
    /// Awaiting the plain write through the staging file.
    AwaitStore,
    /// Awaiting the elevated write after a permission-denied store.
    AwaitTee,
    /// The save succeeded.
    Done,
    /// The save failed; no further step is taken.
    Failed,
}

/// What the caller must do next during a save.
pub enum SaveAction {
    /// Run this command on the session.
    Run(RemoteCmd),
    /// The save succeeded, with this message.
    Saved(String),
    /// The save failed with this error.
    Fail(TransferError),
}

/// The editor's staging path, derived from a token unique to the
/// in-flight request.
pub fn editor_staging_path(token: &str) -> (r: String)
    ensures
        r@ == "/tmp/ssh_editor_"@ + token@,
{
    String::from_str("/tmp/ssh_editor_").concat(token)
}

/// The step machine that saves edited text back to one remote file,
/// through a staging file and, on a permission-denied failure, through
/// elevated `tee`.
pub struct SaveFile {
    pub path: String,
    pub content: String,
    pub staging: String,
    pub phase: SavePhase,
}

impl SaveFile {
    /// Starts a save, unless the content is not editable text; the first
    /// action writes through the staging file.
    pub fn new(path: String, content: String, staging: String) -> (r: Result<
        (SaveFile, SaveAction),
        String,
    >)
        ensures
            match r {
                Ok(pair) => spec_likely_text(path@, content@) && pair.0.phase is AwaitStore
                    && pair.0.path@ == path@ && pair.0.content@ == content@ && pair.0.staging@
                    == staging@ && (pair.1 matches SaveAction::Run(c) && (c matches
                    RemoteCmd::StoreText { staging: st, dest, content: ct } && st@ == staging@
                    && dest@ == path@ && ct@ == content@)),
                Err(m) => !spec_likely_text(path@, content@) && m@
                    == "This file type cannot be edited"@,
            },
    {
        if !is_likely_text_file(path.as_str(), content.as_str()) {
            return Err(String::from_str("This file type cannot be edited"));
        }
        let cmd = RemoteCmd::StoreText {
            staging: staging.clone(),
            dest: path.clone(),
            content: content.clone(),
        };
        let m = SaveFile { path, content, staging, phase: SavePhase::AwaitStore };
        Ok((m, SaveAction::Run(cmd)))
    }

    /// Feeds the save one event and yields the next action.
    pub fn step(&mut self, e: EditorEvent) -> (r: SaveAction)
        requires
            !(old(self).phase is Done),
            !(old(self).phase is Failed),
        ensures
            final(self).path == old(self).path,
            final(self).content == old(self).content,
            final(self).staging == old(self).staging,
            // the plain store is accepted, escalated on a denied marker,
            // or reported unchanged
            old(self).phase is AwaitStore ==> (e matches EditorEvent::Command(res) ==> (
            if res.exit_code == 0 {
                final(self).phase is Done && (r matches SaveAction::Saved(m) && m@
                    == "File saved successfully"@)
            } else if spec_denied(res.stderr@) {
                final(self).phase is AwaitTee && (r matches SaveAction::Run(c) && (c matches
                    RemoteCmd::TeeText { dest, content: ct } && dest@ == old(self).path@ && ct@
                    == old(self).content@))
            } else {
                final(self).phase is Failed && (r matches SaveAction::Fail(err) && (err matches
                    TransferError::CommandFailed { exit_code, stderr } && exit_code
                    == res.exit_code && stderr@ == res.stderr@))
            })),
            // the elevated write settles the save either way
            old(self).phase is AwaitTee ==> (e matches EditorEvent::Command(res) ==> (
            if res.exit_code == 0 {
                final(self).phase is Done && (r matches SaveAction::Saved(m) && m@
                    == "File saved with administrator rights"@)
            } else {
                final(self).phase is Failed && (r matches SaveAction::Fail(err) && (err matches
                    TransferError::ElevationFailed { stderr } && stderr@ == res.stderr@))
            })),
            e matches EditorEvent::Failure(m) ==> (final(self).phase is Failed && (r matches
                SaveAction::Fail(err) && (err matches TransferError::ChannelError { detail }
                && detail@ == m@))),
            (r is Saved) <==> final(self).phase is Done,
            (r is Fail) <==> final(self).phase is Failed,
    {
        match e {
            EditorEvent::Failure(m) => {
                self.phase = SavePhase::Failed;
                SaveAction::Fail(TransferError::ChannelError { detail: m })
            },
            EditorEvent::Command(res) => {
                match self.phase {
                    SavePhase::AwaitStore => {
                        match crate::command::judge_plain(&res) {
                            crate::command::MutationOutcome::Done => {
                                self.phase = SavePhase::Done;
                                SaveAction::Saved(String::from_str("File saved successfully"))
                            },
                            crate::command::MutationOutcome::Escalate => {
                                self.phase = SavePhase::AwaitTee;
                                SaveAction::Run(
                                    RemoteCmd::TeeText {
                                        dest: self.path.clone(),
                                        content: self.content.clone(),
                                    },
                                )
                            },
                            crate::command::MutationOutcome::Fail(err) => {
                                self.phase = SavePhase::Failed;
                                SaveAction::Fail(err)
                            },
                        }
                    },
                    SavePhase::AwaitTee => {
                        if res.exit_code == 0 {
                            self.phase = SavePhase::Done;
                            SaveAction::Saved(
                                String::from_str("File saved with administrator rights"),
                            )
                        } else {
                            self.phase = SavePhase::Failed;
                            SaveAction::Fail(
                                TransferError::ElevationFailed { stderr: res.stderr },
                            )
                        }
                    },
                    SavePhase::Done | SavePhase::Failed => vstd::pervasive::unreached(),
                }
            },
        }
    }
}

} // verus!
