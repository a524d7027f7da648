//! Parsing of long-format directory listings. The first line (the
//! aggregate total) is skipped, as is any line with fewer than nine
//! whitespace-separated fields; the entry name is rejoined from the ninth
//! field onward, which preserves names with embedded spaces; `.` and `..`
//! are discarded; a leading `d` on the permission field marks a directory.

use vstd::prelude::*;
use vstd::string::*;
use crate::errors::TransferError;
use crate::command::CommandResult;
use crate::text::{from_chars, to_chars};

verus! {

/// One child of a listed directory.
#[derive(Debug)]
pub struct FileEntry {
    pub name: String,
    pub is_folder: bool,
    pub path: String,
}

/// The mathematical content of a `FileEntry`.
pub ghost struct EntryView {
    pub name: Seq<char>,
    pub is_folder: bool,
    pub path: Seq<char>,
}

impl View for FileEntry {
    type V = EntryView;

    open spec fn view(&self) -> EntryView {
        EntryView { name: self.name@, is_folder: self.is_folder, path: self.path@ }
    }
}

/// The field separators of a listing line.
pub open spec fn is_ws_char(c: char) -> bool {
    c == ' ' || c == '\t' || c == '\r'
}

/// Splitting into lines, scanned left to right with the current line as
/// accumulator: `\n` closes a line, and a non-empty remainder closes the
/// last one.
pub open spec fn lines_acc(s: Seq<char>, cur: Seq<char>) -> Seq<Seq<char>>
    decreases s.len(),
{
    if s.len() == 0 {
        if cur.len() == 0 {
            seq![]
        } else {
            seq![cur]
        }
    } else if s[0] == '\n' {
        seq![cur] + lines_acc(s.drop_first(), seq![])
    } else {
        lines_acc(s.drop_first(), cur.push(s[0]))
    }
}

/// The lines of a command's output.
pub open spec fn spec_lines(s: Seq<char>) -> Seq<Seq<char>> {
    lines_acc(s, seq![])
}

/// Splitting one line into whitespace-separated fields, scanned left to
/// right with the current field as accumulator.
pub open spec fn fields_acc(s: Seq<char>, cur: Seq<char>) -> Seq<Seq<char>>
    decreases s.len(),
{
    if s.len() == 0 {
        if cur.len() == 0 {
            seq![]
        } else {
            seq![cur]
        }
    } else if is_ws_char(s[0]) {
        if cur.len() == 0 {
            fields_acc(s.drop_first(), cur)
        } else {
            seq![cur] + fields_acc(s.drop_first(), seq![])
        }
    } else {
        fields_acc(s.drop_first(), cur.push(s[0]))
    }
}

/// The whitespace-separated fields of one line.
pub open spec fn spec_fields(s: Seq<char>) -> Seq<Seq<char>> {
    fields_acc(s, seq![])
}

/// Joining fields back together with single spaces.
pub open spec fn join_sp(fs: Seq<Seq<char>>) -> Seq<char>
    decreases fs.len(),
{
    if fs.len() == 0 {
        seq![]
    } else if fs.len() == 1 {
        fs[0]
    } else {
        fs[0] + seq![' '] + join_sp(fs.drop_first())
    }
}

/// A child path under a base directory: joined with `/` unless the base
/// already ends in one.
pub open spec fn spec_join_path(base: Seq<char>, name: Seq<char>) -> Seq<char> {
    if base.len() > 0 && base[base.len() - 1] == '/' {
        base + name
    } else {
        base + seq!['/'] + name
    }
}

/// The entry one listing line yields, if any: at least nine fields, a name
/// rejoined from the ninth field onward that is neither `.` nor `..`, and
/// the directory flag read off the first character of the permission
/// field.
pub open spec fn spec_entry(line: Seq<char>, base: Seq<char>) -> Option<EntryView> {
    let fs = spec_fields(line);
    if fs.len() >= 9 {
        let name = join_sp(fs.subrange(8, fs.len() as int));
        if name == seq!['.'] || name == seq!['.', '.'] {
            None
        } else {
            Some(
                EntryView {
                    name: name,
                    is_folder: fs[0].len() > 0 && fs[0][0] == 'd',
                    path: spec_join_path(base, name),
                },
            )
        }
    } else {
        None
    }
}

/// The entries a sequence of listing lines yields, in listing order.
pub open spec fn entries_of(ls: Seq<Seq<char>>, base: Seq<char>) -> Seq<EntryView>
    decreases ls.len(),
{
    if ls.len() == 0 {
        seq![]
    } else {
        (match spec_entry(ls[0], base) {
            Some(e) => seq![e],
            None => seq![],
        }) + entries_of(ls.drop_first(), base)
    }
}

/// The entries of a whole listing output: every line after the first,
/// in order.
pub open spec fn spec_listing(out: Seq<char>, base: Seq<char>) -> Seq<EntryView> {
    let ls = spec_lines(out);
    if ls.len() <= 1 {
        seq![]
    } else {
        entries_of(ls.subrange(1, ls.len() as int), base)
    }
}

/// Appending one line at the end appends its entry, if any.
proof fn lemma_entries_snoc(ls: Seq<Seq<char>>, l: Seq<char>, base: Seq<char>)
    ensures
        entries_of(ls.push(l), base) == entries_of(ls, base) + (match spec_entry(l, base) {
            Some(e) => seq![e],
            None => seq![],
        }),
    decreases ls.len(),
{
    if ls.len() == 0 {
        assert(ls.push(l).drop_first() =~= ls);
        assert(entries_of(ls.push(l), base) =~= entries_of(ls, base) + (match spec_entry(
            l,
            base,
        ) {
            Some(e) => seq![e],
            None => seq![],
        }));
    } else {
        assert(ls.push(l).drop_first() =~= ls.drop_first().push(l));
        lemma_entries_snoc(ls.drop_first(), l, base);
        assert(entries_of(ls.push(l), base) =~= entries_of(ls, base) + (match spec_entry(
            l,
            base,
        ) {
            Some(e) => seq![e],
            None => seq![],
        }));
    }
}

/// Joining one more field appends a space and the field.
proof fn lemma_join_snoc(fs: Seq<Seq<char>>, x: Seq<char>)
    requires
        fs.len() >= 1,
    ensures
        join_sp(fs.push(x)) == join_sp(fs) + seq![' '] + x,
    decreases fs.len(),
{
    if fs.len() == 1 {
        assert(fs.push(x).drop_first() =~= seq![x]);
        assert(join_sp(seq![x]) == x);
        assert(join_sp(fs.push(x)) == fs.push(x)[0] + seq![' '] + join_sp(fs.push(x).drop_first()));
        assert(join_sp(fs.push(x)) =~= join_sp(fs) + seq![' '] + x);
    } else {
        assert(fs.push(x).drop_first() =~= fs.drop_first().push(x));
        lemma_join_snoc(fs.drop_first(), x);
        assert(join_sp(fs.push(x)) =~= join_sp(fs) + seq![' '] + x);
    }
}

/// Splits a character vector into its lines.
pub fn split_lines(v: &Vec<char>) -> (r: Vec<Vec<char>>)
    ensures
        r@.map_values(|l: Vec<char>| l@) == spec_lines(v@),
{
    let n = v.len();
    let mut r: Vec<Vec<char>> = Vec::new();
    let mut cur: Vec<char> = Vec::new();
    let mut i: usize = 0;
    proof {
        assert(v@.subrange(0, n as int) =~= v@);
        assert(r@.map_values(|l: Vec<char>| l@) =~= Seq::<Seq<char>>::empty());
        assert(Seq::<Seq<char>>::empty() + lines_acc(v@, seq![]) =~= lines_acc(v@, seq![]));
        assert(Seq::<Seq<char>>::empty() + fields_acc(v@, seq![]) =~= fields_acc(v@, seq![]));
    }
    while i < n
        invariant
            i <= n,
            n == v@.len(),
            spec_lines(v@) == r@.map_values(|l: Vec<char>| l@) + lines_acc(
                v@.subrange(i as int, n as int),
                cur@,
            ),
        decreases n - i,
    {
        let ghost rem = v@.subrange(i as int, n as int);
        proof {
            assert(rem[0] == v@[i as int]);
            assert(rem.drop_first() =~= v@.subrange(i + 1 as int, n as int));
        }
        let c = v[i];
        if c == '\n' {
            let done = cur;
            cur = Vec::new();
            r.push(done);
            proof {
                assert(r@.map_values(|l: Vec<char>| l@) =~= r@.drop_last().map_values(
                    |l: Vec<char>| l@,
                ).push(done@));
            }
        } else {
            cur.push(c);
        }
        i += 1;
    }
    proof {
        assert(v@.subrange(n as int, n as int) =~= Seq::<char>::empty());
    }
    if cur.len() > 0 {
        let done = cur;
        r.push(done);
        proof {
            assert(r@.map_values(|l: Vec<char>| l@) =~= r@.drop_last().map_values(
                |l: Vec<char>| l@,
            ).push(done@));
        }
    }
    r
}

/// Splits one line into its whitespace-separated fields.
pub fn split_fields(v: &Vec<char>) -> (r: Vec<Vec<char>>)
    ensures
        r@.map_values(|l: Vec<char>| l@) == spec_fields(v@),
{
    let n = v.len();
    let mut r: Vec<Vec<char>> = Vec::new();
    let mut cur: Vec<char> = Vec::new();
    let mut i: usize = 0;
    proof {
        assert(v@.subrange(0, n as int) =~= v@);
        assert(r@.map_values(|l: Vec<char>| l@) =~= Seq::<Seq<char>>::empty());
        assert(Seq::<Seq<char>>::empty() + lines_acc(v@, seq![]) =~= lines_acc(v@, seq![]));
        assert(Seq::<Seq<char>>::empty() + fields_acc(v@, seq![]) =~= fields_acc(v@, seq![]));
    }
    while i < n
        invariant
            i <= n,
            n == v@.len(),
            spec_fields(v@) == r@.map_values(|l: Vec<char>| l@) + fields_acc(
                v@.subrange(i as int, n as int),
                cur@,
            ),
        decreases n - i,
    {
        let ghost rem = v@.subrange(i as int, n as int);
        proof {
            assert(rem[0] == v@[i as int]);
            assert(rem.drop_first() =~= v@.subrange(i + 1 as int, n as int));
        }
        let c = v[i];
        if c == ' ' || c == '\t' || c == '\r' {
            if cur.len() > 0 {
                let done = cur;
                cur = Vec::new();
                r.push(done);
                proof {
                    assert(r@.map_values(|l: Vec<char>| l@) =~= r@.drop_last().map_values(
                        |l: Vec<char>| l@,
                    ).push(done@));
                }
            }
        } else {
            cur.push(c);
        }
        i += 1;
    }
    proof {
        assert(v@.subrange(n as int, n as int) =~= Seq::<char>::empty());
    }
    if cur.len() > 0 {
        let done = cur;
        r.push(done);
        proof {
            assert(r@.map_values(|l: Vec<char>| l@) =~= r@.drop_last().map_values(
                |l: Vec<char>| l@,
            ).push(done@));
        }
    }
    r
}

/// Rejoins the fields from `start` onward with single spaces.
pub fn join_fields(fs: &Vec<Vec<char>>, start: usize) -> (r: Vec<char>)
    requires
        start < fs@.len(),
    ensures
        r@ == join_sp(fs@.map_values(|l: Vec<char>| l@).subrange(start as int, fs@.len() as int)),
{
    let ghost fv = fs@.map_values(|l: Vec<char>| l@);
    let n = fs.len();
    let mut r: Vec<char> = Vec::new();
    let first = &fs[start];
    let mut j: usize = 0;
    let fl = first.len();
    while j < fl
        invariant
            j <= fl,
            fl == first@.len(),
            first@ == fv[start as int],
            r@ == fv[start as int].subrange(0, j as int),
        decreases fl - j,
    {
        r.push(first[j]);
        assert(fv[start as int].subrange(0, j + 1 as int) =~= fv[start as int].subrange(
            0,
            j as int,
        ).push(fv[start as int][j as int]));
        j += 1;
    }
    proof {
        assert(fv[start as int].subrange(0, fv[start as int].len() as int) =~= fv[start as int]);
        assert(fv.subrange(start as int, start + 1 as int) =~= seq![fv[start as int]]);
    }
    let mut k: usize = start + 1;
    while k < n
        invariant
            start + 1 <= k <= n,
            n == fs@.len(),
            fv == fs@.map_values(|l: Vec<char>| l@),
            r@ == join_sp(fv.subrange(start as int, k as int)),
        decreases n - k,
    {
        r.push(' ');
        let fk = &fs[k];
        let fkl = fk.len();
        let ghost mid = r@;
        let mut m: usize = 0;
        while m < fkl
            invariant
                m <= fkl,
                fkl == fk@.len(),
                fk@ == fv[k as int],
                r@ == mid + fv[k as int].subrange(0, m as int),
            decreases fkl - m,
        {
            r.push(fk[m]);
            assert(fv[k as int].subrange(0, m + 1 as int) =~= fv[k as int].subrange(0, m as int)
                .push(fv[k as int][m as int]));
            assert(r@ =~= mid + fv[k as int].subrange(0, m + 1 as int));
            m += 1;
        }
        proof {
            assert(fv[k as int].subrange(0, fv[k as int].len() as int) =~= fv[k as int]);
            assert(fv.subrange(start as int, k + 1 as int) =~= fv.subrange(start as int, k as int)
                .push(fv[k as int]));
            lemma_join_snoc(fv.subrange(start as int, k as int), fv[k as int]);
            assert(r@ =~= join_sp(fv.subrange(start as int, k + 1 as int)));
        }
        k += 1;
    }
    r
}

/// Joins a child name onto a base path.
pub fn join_path(base: &str, name: &str) -> (r: String)
    ensures
        r@ == spec_join_path(base@, name@),
{
    let b = to_chars(base);
    let mut v: Vec<char> = Vec::new();
    let mut bb = b;
    v.append(&mut bb);
    if v.len() == 0 || *v.last().unwrap() != '/' {
        v.push('/');
    }
    let mut nn = to_chars(name);
    v.append(&mut nn);
    assert(v@ =~= spec_join_path(base@, name@));
    from_chars(&v)
}

/// Parses a whole listing output into its entries, in listing order.
pub fn parse_listing(output: &str, base: &str) -> (r: Vec<FileEntry>)
    ensures
        r@.map_values(|e: FileEntry| e@) == spec_listing(output@, base@),
{
    let chars = to_chars(output);
    let lines = split_lines(&chars);
    let ghost lv = lines@.map_values(|l: Vec<char>| l@);
    let mut r: Vec<FileEntry> = Vec::new();
    let n = lines.len();
    if n <= 1 {
        return r;
    }
    let mut i: usize = 1;
    while i < n
        invariant
            1 <= i <= n,
            n == lines@.len(),
            lv == lines@.map_values(|l: Vec<char>| l@),
            lv == spec_lines(output@),
            r@.map_values(|e: FileEntry| e@) == entries_of(lv.subrange(1, i as int), base@),
        decreases n - i,
    {
        let line = &lines[i];
        let fields = split_fields(line);
        let ghost fv = fields@.map_values(|l: Vec<char>| l@);
        let mut produced: Option<FileEntry> = None;
        if fields.len() >= 9 {
            let name_chars = join_fields(&fields, 8);
            proof {
                assert(fv.subrange(8, fv.len() as int) == fields@.map_values(
                    |l: Vec<char>| l@,
                ).subrange(8, fields@.len() as int));
            }
            let is_dot = name_chars.len() == 1 && name_chars[0] == '.';
            let is_dotdot = name_chars.len() == 2 && name_chars[0] == '.' && name_chars[1] == '.';
            proof {
                if is_dot {
                    assert(name_chars@ =~= seq!['.']);
                }
                if is_dotdot {
                    assert(name_chars@ =~= seq!['.', '.']);
                }
                if name_chars@ == seq!['.'] {
                    assert(name_chars@.len() == 1 && name_chars@[0] == '.');
                }
                if name_chars@ == seq!['.', '.'] {
                    assert(name_chars@.len() == 2 && name_chars@[0] == '.' && name_chars@[1]
                        == '.');
                }
            }
            if !is_dot && !is_dotdot {
                let perms = &fields[0];
                let is_folder = perms.len() > 0 && perms[0] == 'd';
                let name = from_chars(&name_chars);
                let path = join_path(base, name.as_str());
                produced = Some(FileEntry { name, is_folder, path });
            }
        }
        match produced {
            Some(e) => {
                proof {
                    assert(spec_entry(lv[i as int], base@) matches Some(se) && se == e@);
                }
                r.push(e);
                proof {
                    assert(r@.map_values(|x: FileEntry| x@) =~= r@.drop_last().map_values(
                        |x: FileEntry| x@,
                    ).push(e@));
                }
            },
            None => {
                proof {
                    assert(spec_entry(lv[i as int], base@) is None);
                }
            },
        }
        proof {
            assert(lv.subrange(1, i + 1 as int) =~= lv.subrange(1, i as int).push(lv[i as int]));
            lemma_entries_snoc(lv.subrange(1, i as int), lv[i as int], base@);
        }
        i += 1;
    }
    proof {
        assert(lv.subrange(1, n as int) =~= lv.subrange(1, lv.len() as int));
    }
    r
}

/// Interprets a listing command's result: a non-zero exit is a listing
/// failure; otherwise the parsed entries of its stdout.
pub fn parse_directory_listing(result: &CommandResult, base: &str) -> (r: Result<
    Vec<FileEntry>,
    TransferError,
>)
    ensures
        match r {
            Ok(entries) => result.exit_code == 0 && entries@.map_values(|e: FileEntry| e@)
                == spec_listing(result.stdout@, base@),
            Err(e) => result.exit_code != 0 && (e matches TransferError::ListFailed { exit_code }
                && exit_code == result.exit_code),
        },
{
    if result.exit_code != 0 {
        Err(TransferError::ListFailed { exit_code: result.exit_code })
    } else {
        Ok(parse_listing(result.stdout.as_str(), base))
    }
}

/// The listing law: no parsed entry is named `.` or `..`, every entry
/// comes from one listing line, and its directory flag holds exactly when
/// that line's permission field starts with `d`.
pub proof fn lemma_listing_entries(out: Seq<char>, base: Seq<char>)
    ensures
        forall|k: int|
            0 <= k < spec_listing(out, base).len() ==> (#[trigger] spec_listing(out, base)[k]).name
                != seq!['.'] && spec_listing(out, base)[k].name != seq!['.', '.'],
        forall|k: int|
            0 <= k < spec_listing(out, base).len() ==> exists|j: int|
                1 <= j < spec_lines(out).len() && spec_entry(#[trigger] spec_lines(out)[j], base)
                    == Some(#[trigger] spec_listing(out, base)[k]),
        forall|l: Seq<char>|
            (#[trigger] spec_entry(l, base)) matches Some(e) ==> e.name != seq!['.'] && e.name
                != seq!['.', '.'] && spec_fields(l).len() >= 9 && (e.is_folder <==> (
            spec_fields(l)[0].len() > 0 && spec_fields(l)[0][0] == 'd')),
{
    let ls = spec_lines(out);
    if ls.len() > 1 {
        lemma_entries_sourced(ls.subrange(1, ls.len() as int), base);
        assert forall|k: int| 0 <= k < spec_listing(out, base).len() implies exists|j: int|
            1 <= j < spec_lines(out).len() && spec_entry(#[trigger] spec_lines(out)[j], base)
                == Some(#[trigger] spec_listing(out, base)[k]) by {
            let sub = ls.subrange(1, ls.len() as int);
            let e = spec_listing(out, base)[k];
            let j0 = choose|j0: int|
                0 <= j0 < sub.len() && spec_entry(#[trigger] sub[j0], base) == Some(e);
            assert(sub[j0] == ls[j0 + 1]);
            assert(spec_entry(ls[j0 + 1], base) == Some(e));
        }
    }
}

/// Every entry of a line block is the entry of one of its lines.
proof fn lemma_entries_sourced(ls: Seq<Seq<char>>, base: Seq<char>)
    ensures
        forall|k: int|
            0 <= k < entries_of(ls, base).len() ==> exists|j: int|
                0 <= j < ls.len() && spec_entry(#[trigger] ls[j], base) == Some(
                    #[trigger] entries_of(ls, base)[k],
                ),
    decreases ls.len(),
{
    if ls.len() == 0 {
    } else {
        lemma_entries_sourced(ls.drop_first(), base);
        assert forall|k: int| 0 <= k < entries_of(ls, base).len() implies exists|j: int|
            0 <= j < ls.len() && spec_entry(#[trigger] ls[j], base) == Some(
                #[trigger] entries_of(ls, base)[k],
            ) by {
            let head = (match spec_entry(ls[0], base) {
                Some(e) => seq![e],
                None => seq![],
            });
            if k < head.len() {
                assert(spec_entry(ls[0], base) == Some(entries_of(ls, base)[k]));
            } else {
                let rest = entries_of(ls.drop_first(), base);
                assert(entries_of(ls, base)[k] == rest[k - head.len()]);
                let j0 = choose|j0: int|
                    0 <= j0 < ls.drop_first().len() && spec_entry(
                        #[trigger] ls.drop_first()[j0],
                        base,
                    ) == Some(rest[k - head.len()]);
                assert(ls.drop_first()[j0] == ls[j0 + 1]);
            }
        }
    }
}

} // verus!
