//! Illustrator batch scripting: where Illustrator is installed, and the
//! ExtendScript source that fills one template with a job's values.
//!
//! Probing the file system is the caller's part: it reports which of the
//! candidate paths name an existing file, and this module decides.

use vstd::prelude::*;
use crate::text::{chars_of, join_all, lemma_assoc, owned, views};

verus! {

// ── Locating Illustrator ─────────────────────────────────────────────────────

/// The install locations probed, newest release first.
pub open spec fn search_paths() -> Seq<Seq<char>> {
    seq![
        "C:\\Program Files\\Adobe\\Adobe Illustrator 2025\\Support Files\\Contents\\Windows\\Illustrator.exe"@,
        "C:\\Program Files\\Adobe\\Adobe Illustrator 2024\\Support Files\\Contents\\Windows\\Illustrator.exe"@,
        "C:\\Program Files\\Adobe\\Adobe Illustrator 2023\\Support Files\\Contents\\Windows\\Illustrator.exe"@,
        "C:\\Program Files\\Adobe\\Adobe Illustrator 2022\\Support Files\\Contents\\Windows\\Illustrator.exe"@,
        "C:\\Program Files\\Adobe\\Adobe Illustrator 2021\\Support Files\\Contents\\Windows\\Illustrator.exe"@,
        "C:\\Program Files\\Adobe\\Adobe Illustrator CC 2020\\Support Files\\Contents\\Windows\\Illustrator.exe"@,
    ]
}

/// The install locations probed, newest release first.
pub fn illustrator_search_paths() -> (r: Vec<String>)
    ensures
        views(r@) == search_paths(),
{
    let mut v: Vec<String> = Vec::new();
    v.push(owned("C:\\Program Files\\Adobe\\Adobe Illustrator 2025\\Support Files\\Contents\\Windows\\Illustrator.exe"));
    v.push(owned("C:\\Program Files\\Adobe\\Adobe Illustrator 2024\\Support Files\\Contents\\Windows\\Illustrator.exe"));
    v.push(owned("C:\\Program Files\\Adobe\\Adobe Illustrator 2023\\Support Files\\Contents\\Windows\\Illustrator.exe"));
    v.push(owned("C:\\Program Files\\Adobe\\Adobe Illustrator 2022\\Support Files\\Contents\\Windows\\Illustrator.exe"));
    v.push(owned("C:\\Program Files\\Adobe\\Adobe Illustrator 2021\\Support Files\\Contents\\Windows\\Illustrator.exe"));
    v.push(owned("C:\\Program Files\\Adobe\\Adobe Illustrator CC 2020\\Support Files\\Contents\\Windows\\Illustrator.exe"));
    assert(views(v@) =~= search_paths());
    v
}

/// The first position at or after `from` among the probed locations whose
/// probe found a file.
pub open spec fn first_found(found: Seq<bool>, from: nat) -> Option<nat>
    decreases found.len() - from,
{
    if from >= found.len() || from >= search_paths().len() {
        None
    } else if found[from as int] {
        Some(from)
    } else {
        first_found(found, from + 1)
    }
}

/// Where Illustrator is: the saved path when it names a file, else the first
/// probed install location found, else nowhere.
pub open spec fn illustrator_location(saved: Seq<char>, saved_is_file: bool, found: Seq<bool>) -> Option<
    Seq<char>,
> {
    if saved.len() > 0 && saved_is_file {
        Some(saved)
    } else {
        match first_found(found, 0) {
            Some(i) => Some(search_paths()[i as int]),
            None => None,
        }
    }
}

pub open spec fn opt_view(o: Option<String>) -> Option<Seq<char>> {
    match o {
        Some(s) => Some(s@),
        None => None,
    }
}

/// Picks the Illustrator executable.  `saved` is the path from the settings,
/// `saved_is_file` whether it names an existing file, and `found[i]` whether
/// the `i`-th search path does.
pub fn find_illustrator(saved: &str, saved_is_file: bool, found: &Vec<bool>) -> (r: Option<String>)
    ensures
        opt_view(r) == illustrator_location(saved@, saved_is_file, found@),
{
    if !saved.is_empty() && saved_is_file {
        return Some(owned(saved));
    }
    let paths = illustrator_search_paths();
    let mut i: usize = 0;
    while i < found.len() && i < paths.len()
        invariant
            !(saved@.len() > 0 && saved_is_file),
            views(paths@) == search_paths(),
            i <= found.len(),
            i <= paths.len(),
            first_found(found@, 0) == first_found(found@, i as nat),
        decreases found.len() - i,
    {
        if found[i] {
            assert(views(paths@)[i as int] == paths@[i as int]@);
            return Some(paths[i].clone());
        }
        i = i + 1;
    }
    None
}

// ── Escaping ─────────────────────────────────────────────────────────────────

/// `s` with every `c` replaced by `rep`.
pub open spec fn replace_char(s: Seq<char>, c: char, rep: Seq<char>) -> Seq<char>
    decreases s.len(),
{
    if s.len() == 0 {
        Seq::empty()
    } else {
        replace_char(s.drop_last(), c, rep) + if s.last() == c {
            rep
        } else {
            seq![s.last()]
        }
    }
}

fn replace_char_text(s: &str, c: char, rep: &str) -> (r: String)
    ensures
        r@ == replace_char(s@, c, rep@),
{
    let mut out = String::new();
    for x in it: s.chars()
        invariant
            it.seq() == s@,
            out@ == replace_char(s@.take(it.index() as int), c, rep@),
    {
        assert(s@.take(it.index() + 1).drop_last() == s@.take(it.index() as int));
        if x == c {
            out.push_str(rep);
        } else {
            out.push(x);
            assert(out@ =~= replace_char(s@.take(it.index() + 1), c, rep@));
        }
    }
    assert(s@.take(s@.len() as int) == s@);
    out
}

/// A file path for a script string: forward slashes, quotes escaped.
pub fn jsx_escape_path(p: &str) -> (r: String)
    ensures
        r@ == replace_char(replace_char(p@, '\\', "/"@), '"', "\\\""@),
{
    let a = replace_char_text(p, '\\', "/");
    replace_char_text(a.as_str(), '"', "\\\"")
}

/// A value for a script string: backslashes doubled, then quotes escaped.
pub fn jsx_escape_value(s: &str) -> (r: String)
    ensures
        r@ == replace_char(replace_char(s@, '\\', "\\\\"@), '"', "\\\""@),
{
    let a = replace_char_text(s, '\\', "\\\\");
    replace_char_text(a.as_str(), '"', "\\\"")
}

// ── Script rendering ─────────────────────────────────────────────────────────

/// `rep` before, between and after the characters of `s`: what replacing the
/// empty pattern gives.
pub open spec fn interleave(s: Seq<char>, rep: Seq<char>) -> Seq<char>
    decreases s.len(),
{
    if s.len() == 0 {
        rep
    } else {
        interleave(s.drop_last(), rep) + seq![s.last()] + rep
    }
}

/// `s` with every occurrence of `pat` replaced by `rep`, matching left to
/// right without overlap; an empty pattern matches before, between and after
/// the characters.
pub open spec fn replace_all(s: Seq<char>, pat: Seq<char>, rep: Seq<char>) -> Seq<char>
    decreases s.len(),
{
    if pat.len() == 0 {
        interleave(s, rep)
    } else if s.len() < pat.len() {
        s
    } else if s.take(pat.len() as int) == pat {
        rep + replace_all(s.skip(pat.len() as int), pat, rep)
    } else {
        seq![s[0]] + replace_all(s.skip(1), pat, rep)
    }
}

proof fn lemma_replace_no_match(s: Seq<char>, pat: Seq<char>, rep: Seq<char>)
    requires
        s.len() > 0,
        pat.len() > 0,
        !(s.len() >= pat.len() && s.take(pat.len() as int) == pat),
    ensures
        replace_all(s, pat, rep) == seq![s[0]] + replace_all(s.skip(1), pat, rep),
{
    if s.len() < pat.len() {
        assert(seq![s[0]] + s.skip(1) =~= s);
    }
}

fn matches_at(chars: &Vec<char>, i: usize, pat: &Vec<char>) -> (r: bool)
    requires
        i <= chars.len(),
    ensures
        r == (chars@.len() - i >= pat@.len() && chars@.skip(i as int).take(pat@.len() as int) == pat@),
{
    if chars.len() - i < pat.len() {
        return false;
    }
    let mut j: usize = 0;
    while j < pat.len()
        invariant
            i + pat.len() <= chars.len(),
            j <= pat.len(),
            forall|k: int| 0 <= k < j ==> chars@[i + k] == pat@[k],
        decreases pat.len() - j,
    {
        if chars[i + j] != pat[j] {
            assert(chars@.skip(i as int).take(pat@.len() as int)[j as int] != pat@[j as int]);
            return false;
        }
        j = j + 1;
    }
    assert(chars@.skip(i as int).take(pat@.len() as int) =~= pat@);
    true
}

fn interleave_text(s: &str, rep: &str) -> (r: String)
    ensures
        r@ == interleave(s@, rep@),
{
    let mut out = owned(rep);
    for c in it: s.chars()
        invariant
            it.seq() == s@,
            out@ == interleave(s@.take(it.index() as int), rep@),
    {
        assert(s@.take(it.index() + 1).drop_last() == s@.take(it.index() as int));
        out.push(c);
        out.push_str(rep);
        assert(out@ =~= interleave(s@.take(it.index() + 1), rep@));
    }
    assert(s@.take(s@.len() as int) == s@);
    out
}

/// `s` with every occurrence of `pat` replaced by `rep`.
pub fn replace_text(s: &str, pat: &str, rep: &str) -> (r: String)
    ensures
        r@ == replace_all(s@, pat@, rep@),
{
    if pat.is_empty() {
        return interleave_text(s, rep);
    }
    let chars = chars_of(s);
    let p = chars_of(pat);
    let n = chars.len();
    let mut out = String::new();
    assert(s@.skip(0) =~= s@);
    assert(out@ + replace_all(s@, pat@, rep@) =~= replace_all(s@, pat@, rep@));
    let mut i: usize = 0;
    while i < n
        invariant
            chars@ == s@,
            p@ == pat@,
            n == chars.len(),
            p@.len() > 0,
            i <= n,
            out@ + replace_all(s@.skip(i as int), pat@, rep@) == replace_all(s@, pat@, rep@),
        decreases n - i,
    {
        let ghost rest = s@.skip(i as int);
        let ghost before = out@;
        if matches_at(&chars, i, &p) {
            assert(rest.skip(p@.len() as int) =~= s@.skip(i + p@.len()));
            out.push_str(rep);
            proof {
                lemma_assoc(before, rep@, replace_all(s@.skip(i + p@.len()), pat@, rep@));
            }
            i = i + p.len();
        } else {
            proof {
                lemma_replace_no_match(rest, pat@, rep@);
            }
            assert(rest.skip(1) =~= s@.skip(i + 1));
            assert(rest[0] == chars@[i as int]);
            out.push(chars[i]);
            proof {
                lemma_assoc(before, seq![chars@[i as int]], replace_all(s@.skip(i + 1), pat@, rep@));
            }
            assert(before.push(chars@[i as int]) =~= before + seq![chars@[i as int]]);
            i = i + 1;
        }
    }
    assert(s@.skip(n as int) =~= Seq::<char>::empty());
    assert(out@ + Seq::<char>::empty() =~= out@);
    out
}

/// One entry of the replacements object: `        "KEY": "value"`, the
/// value escaped for a script string.
pub open spec fn entry_line(key: Seq<char>, value: Seq<char>) -> Seq<char> {
    "        \""@ + key + "\": \""@ + replace_char(replace_char(value, '\\', "\\\\"@), '"', "\\\""@)
        + "\""@
}

pub open spec fn entry_lines(entries: Seq<(Seq<char>, Seq<char>)>) -> Seq<Seq<char>> {
    entries.map_values(|e: (Seq<char>, Seq<char>)| entry_line(e.0, e.1))
}

pub open spec fn entry_views(v: Seq<(String, String)>) -> Seq<(Seq<char>, Seq<char>)> {
    v.map_values(|e: (String, String)| (e.0@, e.1@))
}

/// The script for one template: the replacements object, the template path
/// and the output path put in place of their tokens.
pub open spec fn rendered_script(
    runner: Seq<char>,
    entries: Seq<(Seq<char>, Seq<char>)>,
    template_ai_path: Seq<char>,
    out_pdf_path: Seq<char>,
) -> Seq<char> {
    let dict = "{\n"@ + crate::text::join_seq(entry_lines(entries), ",\n"@) + "\n    }"@;
    let a = replace_all(runner, "<<REPLACEMENTS_DICT>>"@, dict);
    let b = replace_all(a, "<<TEMPLATE_PATH>>"@, replace_char(replace_char(template_ai_path, '\\', "/"@), '"', "\\\""@));
    replace_all(b, "<<OUTPUT_PDF>>"@, replace_char(replace_char(out_pdf_path, '\\', "/"@), '"', "\\\""@))
}

/// Fills the runner script `runner` with the placeholder values `entries`
/// (in the order given) and the two paths.
pub fn render_jsx(
    runner: &str,
    entries: &Vec<(String, String)>,
    template_ai_path: &str,
    out_pdf_path: &str,
) -> (r: String)
    ensures
        r@ == rendered_script(runner@, entry_views(entries@), template_ai_path@, out_pdf_path@),
{
    let mut lines: Vec<String> = Vec::new();
    let mut i: usize = 0;
    while i < entries.len()
        invariant
            i <= entries.len(),
            views(lines@) == entry_lines(entry_views(entries@)).take(i as int),
        decreases entries.len() - i,
    {
        let mut line = owned("        \"");
        line.push_str(entries[i].0.as_str());
        line.push_str("\": \"");
        let v = jsx_escape_value(entries[i].1.as_str());
        line.push_str(v.as_str());
        line.push_str("\"");
        proof {
            crate::text::lemma_views_push(lines@, line);
        }
        lines.push(line);
        assert(views(lines@) =~= entry_lines(entry_views(entries@)).take(i + 1));
        i = i + 1;
    }
    assert(entry_lines(entry_views(entries@)).take(entries.len() as int) =~= entry_lines(entry_views(entries@)));
    let joined = join_all(&lines, ",\n");
    let mut dict = owned("{\n");
    dict.push_str(joined.as_str());
    dict.push_str("\n    }");
    let a = replace_text(runner, "<<REPLACEMENTS_DICT>>", dict.as_str());
    let tp = jsx_escape_path(template_ai_path);
    let b = replace_text(a.as_str(), "<<TEMPLATE_PATH>>", tp.as_str());
    let op = jsx_escape_path(out_pdf_path);
    replace_text(b.as_str(), "<<OUTPUT_PDF>>", op.as_str())
}

} // verus!
