//! Extraction of structured error records from a LaTeX compiler log.
//!
//! A record begins on any line whose first character is `!`. While a record
//! is open, following lines are appended verbatim (each preceded by a newline
//! separator) until a line that, after trimming, is empty or begins with the
//! literal `l.` — LaTeX's line-number continuation marker — which closes the
//! record without being included. A record still open at end of input is
//! closed and kept. Closed records are trimmed of trailing whitespace.

use vstd::prelude::*;

use crate::text::{
    is_space, is_space_char, trim_end_spec, trim_start_spec, trim_spec, trim_end_len,
    lemma_trim_end_at, lemma_trim_start_at, to_chars, chars_to_string,
};

verus! {

/// Length of the first line of `s`: the number of characters before the
/// first newline, or all of `s` when it has none.
pub open spec fn line_len(s: Seq<char>) -> nat
    decreases s.len(),
{
    if s.len() == 0 {
        0
    } else if s.first() == '\n' {
        0
    } else {
        1 + line_len(s.drop_first())
    }
}

/// A line with one carriage return before the line break removed, as
/// `str::lines` strips it.
pub open spec fn strip_cr(l: Seq<char>) -> Seq<char> {
    if l.len() > 0 && l.last() == '\r' {
        l.drop_last()
    } else {
        l
    }
}

/// The lines of `s`, split as `str::lines` splits them: at each newline,
/// with a carriage return directly before a newline stripped, and with no
/// empty line after a final newline.
pub open spec fn spec_lines(s: Seq<char>) -> Seq<Seq<char>>
    decreases s.len(),
{
    if s.len() == 0 {
        Seq::empty()
    } else {
        let n = line_len(s) as int;
        if n >= s.len() {
            seq![s]
        } else {
            seq![strip_cr(s.subrange(0, n))] + spec_lines(s.subrange(n + 1, s.len() as int))
        }
    }
}

/// `line_len` counts no newline and stops at one.
pub proof fn lemma_line_len(s: Seq<char>)
    ensures
        line_len(s) <= s.len(),
        forall|i: int| 0 <= i < line_len(s) ==> s[i] != '\n',
        line_len(s) < s.len() ==> s[line_len(s) as int] == '\n',
    decreases s.len(),
{
    if s.len() == 0 {
    } else if s.first() == '\n' {
    } else {
        lemma_line_len(s.drop_first());
        assert forall|i: int| 0 <= i < line_len(s) implies s[i] != '\n' by {
            if i > 0 {
                assert(s.drop_first()[i - 1] != '\n');
            }
        }
        if line_len(s) < s.len() {
            assert(s.drop_first()[line_len(s) - 1] == '\n');
        }
    }
}

/// A position with no newline before it, and a newline (or the end) at it,
/// is the first line's length.
pub proof fn lemma_line_len_is(s: Seq<char>, m: int)
    requires
        0 <= m <= s.len(),
        forall|i: int| 0 <= i < m ==> s[i] != '\n',
        m < s.len() ==> s[m] == '\n',
    ensures
        line_len(s) == m,
{
    lemma_line_len(s);
    if line_len(s) < m {
        assert(s[line_len(s) as int] == '\n');
        assert(false);
    }
    if m < line_len(s) {
        assert(s[m] != '\n');
        assert(false);
    }
}

/// A line on which a new error record begins.
pub open spec fn record_opens(line: Seq<char>) -> bool {
    line.len() > 0 && line[0] == '!'
}

/// A line that closes an open record without joining it: empty after
/// trimming, or beginning (after trimming) with the literal `l.`.
pub open spec fn closes_record(line: Seq<char>) -> bool {
    let t = trim_spec(line);
    t.len() == 0 || (t.len() >= 2 && t[0] == 'l' && t[1] == '.')
}

/// The record state machine, run over the remaining lines with the open
/// record carried along.
pub open spec fn extract_from(lines: Seq<Seq<char>>, open_rec: Option<Seq<char>>) -> Seq<Seq<char>>
    decreases lines.len(),
{
    if lines.len() == 0 {
        match open_rec {
            Option::None => Seq::empty(),
            Option::Some(r) => seq![trim_end_spec(r)],
        }
    } else {
        let line = lines.first();
        let rest = lines.drop_first();
        if record_opens(line) {
            match open_rec {
                Option::None => extract_from(rest, Option::Some(line)),
                Option::Some(r) => seq![trim_end_spec(r)] + extract_from(rest, Option::Some(line)),
            }
        } else {
            match open_rec {
                Option::None => extract_from(rest, Option::None),
                Option::Some(r) => if closes_record(line) {
                    seq![trim_end_spec(r)] + extract_from(rest, Option::None)
                } else {
                    extract_from(rest, Option::Some(r + seq!['\n'] + line))
                },
            }
        }
    }
}

/// The error records of a full log: the state machine run over its lines
/// with no record open.
pub open spec fn spec_extract_errors(log: Seq<char>) -> Seq<Seq<char>> {
    extract_from(spec_lines(log), Option::None)
}

proof fn lemma_extract_no_opener(lines: Seq<Seq<char>>)
    requires
        forall|j: int| 0 <= j < lines.len() ==> !record_opens(#[trigger] lines[j]),
    ensures
        extract_from(lines, Option::None) == Seq::<Seq<char>>::empty(),
    decreases lines.len(),
{
    if lines.len() > 0 {
        assert(!record_opens(lines[0]));
        assert forall|j: int| 0 <= j < lines.drop_first().len() implies !record_opens(
            #[trigger] lines.drop_first()[j],
        ) by {
            assert(lines.drop_first()[j] == lines[j + 1]);
        }
        lemma_extract_no_opener(lines.drop_first());
    }
}

/// A log in which no line begins with `!` yields no error records.
pub proof fn lemma_no_opener_no_records(log: Seq<char>)
    requires
        forall|j: int| 0 <= j < spec_lines(log).len() ==> !record_opens(
            #[trigger] spec_lines(log)[j],
        ),
    ensures
        spec_extract_errors(log) == Seq::<Seq<char>>::empty(),
{
    lemma_extract_no_opener(spec_lines(log));
}

/// Trimming trailing whitespace keeps a head character that is not itself
/// whitespace.
proof fn lemma_trim_end_keeps_head(r: Seq<char>)
    requires
        r.len() > 0,
        !is_space_char(r[0]),
    ensures
        trim_end_spec(r).len() > 0,
        trim_end_spec(r)[0] == r[0],
    decreases r.len(),
{
    if is_space_char(r.last()) {
        assert(r.len() > 1);
        assert(r.drop_last()[0] == r[0]);
        lemma_trim_end_keeps_head(r.drop_last());
    }
}

proof fn lemma_extract_records_marked(lines: Seq<Seq<char>>, open_rec: Option<Seq<char>>)
    requires
        open_rec matches Some(r) ==> record_opens(r),
    ensures
        forall|j: int| 0 <= j < extract_from(lines, open_rec).len() ==> (#[trigger] extract_from(
            lines,
            open_rec,
        )[j]).len() > 0 && extract_from(lines, open_rec)[j][0] == '!',
    decreases lines.len(),
{
    let res = extract_from(lines, open_rec);
    if lines.len() == 0 {
        if let Option::Some(r) = open_rec {
            assert(!is_space_char('!'));
            lemma_trim_end_keeps_head(r);
            assert(res[0] == trim_end_spec(r));
        }
    } else {
        let line = lines.first();
        let rest = lines.drop_first();
        if let Option::Some(r) = open_rec {
            assert(!is_space_char('!'));
            lemma_trim_end_keeps_head(r);
            if record_opens(line) {
                lemma_extract_records_marked(rest, Option::Some(line));
                assert(res == seq![trim_end_spec(r)] + extract_from(rest, Option::Some(line)));
                assert forall|j: int| 0 <= j < res.len() implies (#[trigger] res[j]).len() > 0
                    && res[j][0] == '!' by {
                    if j > 0 {
                        assert(res[j] == extract_from(rest, Option::Some(line))[j - 1]);
                    }
                }
            } else if closes_record(line) {
                lemma_extract_records_marked(rest, Option::None);
                assert(res == seq![trim_end_spec(r)] + extract_from(rest, Option::None));
                assert forall|j: int| 0 <= j < res.len() implies (#[trigger] res[j]).len() > 0
                    && res[j][0] == '!' by {
                    if j > 0 {
                        assert(res[j] == extract_from(rest, Option::None)[j - 1]);
                    }
                }
            } else {
                assert((r + seq!['\n'] + line)[0] == '!');
                lemma_extract_records_marked(rest, Option::Some(r + seq!['\n'] + line));
                assert(res == extract_from(rest, Option::Some(r + seq!['\n'] + line)));
            }
        } else {
            if record_opens(line) {
                lemma_extract_records_marked(rest, Option::Some(line));
                assert(res == extract_from(rest, Option::Some(line)));
            } else {
                lemma_extract_records_marked(rest, Option::None);
                assert(res == extract_from(rest, Option::None));
            }
        }
    }
}

/// Every extracted error record is non-empty and begins with `!`.
pub proof fn lemma_records_begin_with_marker(log: Seq<char>)
    ensures
        forall|j: int| 0 <= j < spec_extract_errors(log).len() ==> (
        #[trigger] spec_extract_errors(log)[j]).len() > 0 && spec_extract_errors(log)[j][0] == '!',
{
    lemma_extract_records_marked(spec_lines(log), Option::None);
}

/// The subranges of `v` named by a sequence of index ranges.
pub open spec fn ranges_views(v: Seq<char>, rs: Seq<(usize, usize)>) -> Seq<Seq<char>> {
    Seq::new(rs.len(), |j: int| v.subrange(rs[j].0 as int, rs[j].1 as int))
}

/// Splits `v` into its lines, returned as index ranges into `v` that match
/// `spec_lines(v@)` element for element.
fn split_lines(v: &Vec<char>) -> (lines: Vec<(usize, usize)>)
    ensures
        ranges_views(v@, lines@) == spec_lines(v@),
        forall|j: int| 0 <= j < lines@.len()
            ==> (#[trigger] lines@[j]).0 <= lines@[j].1 && lines@[j].1 <= v@.len(),
{
    let len = v.len();
    let mut lines: Vec<(usize, usize)> = Vec::new();
    let mut k: usize = 0;
    proof {
        assert(v@.subrange(0, len as int) =~= v@);
        assert(ranges_views(v@, lines@) + spec_lines(v@) =~= spec_lines(v@));
    }
    while k < len
        invariant
            k <= len,
            len == v@.len(),
            forall|j: int| 0 <= j < lines@.len()
                ==> (#[trigger] lines@[j]).0 <= lines@[j].1 && lines@[j].1 <= v@.len(),
            ranges_views(v@, lines@) + spec_lines(v@.subrange(k as int, len as int))
                == spec_lines(v@),
        decreases len - k,
    {
        let ghost s = v@.subrange(k as int, len as int);
        let mut j: usize = k;
        while j < len && v[j] != '\n'
            invariant
                k <= j <= len,
                len == v@.len(),
                forall|i: int| k <= i < j ==> v@[i] != '\n',
            decreases len - j,
        {
            j = j + 1;
        }
        proof {
            assert forall|i: int| 0 <= i < j - k implies s[i] != '\n' by {
                assert(s[i] == v@[k + i]);
            }
            if j < len {
                assert(s[j - k] == v@[j as int]);
            }
            lemma_line_len_is(s, j - k);
        }
        if j == len {
            // final line, no newline: kept raw
            proof {
                assert(spec_lines(s) == seq![s]);
            }
            lines.push((k, len));
            proof {
                assert(v@.subrange(k as int, len as int) == s);
                assert(spec_lines(v@.subrange(len as int, len as int)) =~= Seq::<Seq<char>>::empty());
                assert(ranges_views(v@, lines@) =~= ranges_views(v@, lines@.drop_last()) + seq![s]);
            }
            k = len;
        } else {
            let end: usize = if j > k && v[j - 1] == '\r' {
                j - 1
            } else {
                j
            };
            proof {
                let n = line_len(s) as int;
                assert(n == j - k);
                assert(s.subrange(0, n) =~= v@.subrange(k as int, j as int));
                assert(strip_cr(v@.subrange(k as int, j as int)) =~= v@.subrange(
                    k as int,
                    end as int,
                ));
                assert(s.subrange(n + 1, s.len() as int) =~= v@.subrange(j + 1, len as int));
                assert(spec_lines(s) == seq![v@.subrange(k as int, end as int)] + spec_lines(
                    v@.subrange(j + 1, len as int),
                ));
            }
            lines.push((k, end));
            proof {
                assert(ranges_views(v@, lines@) =~= ranges_views(v@, lines@.drop_last()) + seq![
                    v@.subrange(k as int, end as int),
                ]);
            }
            k = j + 1;
        }
    }
    proof {
        assert(spec_lines(v@.subrange(k as int, len as int)) =~= Seq::<Seq<char>>::empty());
    }
    lines
}

/// Decides `closes_record` for the line held at `v[a..b]`.
fn line_closes(v: &Vec<char>, a: usize, b: usize) -> (r: bool)
    requires
        a <= b,
        b <= v@.len(),
    ensures
        r == closes_record(v@.subrange(a as int, b as int)),
{
    let ghost line = v@.subrange(a as int, b as int);
    let mut p: usize = a;
    while p < b && is_space(v[p])
        invariant
            a <= p <= b,
            b <= v@.len(),
            forall|i: int| a <= i < p ==> is_space_char(v@[i]),
        decreases b - p,
    {
        p = p + 1;
    }
    proof {
        assert forall|i: int| 0 <= i < p - a implies is_space_char(line[i]) by {
            assert(line[i] == v@[a + i]);
        }
        if p < b {
            assert(line[p - a] == v@[p as int]);
        }
        lemma_trim_start_at(line, p - a);
    }
    if p == b {
        proof {
            assert(trim_start_spec(line) =~= Seq::<char>::empty());
            assert(trim_spec(line).len() == 0);
        }
        return true;
    }
    let mut q: usize = b;
    while q > p && is_space(v[q - 1])
        invariant
            p <= q <= b,
            b <= v@.len(),
            forall|i: int| q <= i < b ==> is_space_char(v@[i]),
        decreases q,
    {
        q = q - 1;
    }
    proof {
        if q == p {
            assert(is_space_char(v@[p as int]));
            assert(false);
        }
        let t1 = trim_start_spec(line);
        assert(t1 =~= v@.subrange(p as int, b as int));
        assert forall|i: int| q - p <= i < t1.len() implies is_space_char(t1[i]) by {
            assert(t1[i] == v@[p + i]);
        }
        assert(t1[q - 1 - p] == v@[q - 1]);
        lemma_trim_end_at(t1, q - 1 - p);
        assert(trim_spec(line) =~= v@.subrange(p as int, q as int));
    }
    if q - p >= 2 {
        proof {
            assert(trim_spec(line)[0] == v@[p as int]);
            assert(trim_spec(line)[1] == v@[p + 1]);
        }
        v[p] == 'l' && v[p + 1] == '.'
    } else {
        proof {
            assert(trim_spec(line).len() == q - p);
        }
        false
    }
}

/// Appends the characters held at `v[a..b]` to `rec`.
fn push_range(rec: &mut Vec<char>, v: &Vec<char>, a: usize, b: usize)
    requires
        a <= b,
        b <= v@.len(),
    ensures
        final(rec)@ == old(rec)@ + v@.subrange(a as int, b as int),
{
    let mut k: usize = a;
    proof {
        assert(rec@ =~= old(rec)@ + v@.subrange(a as int, a as int));
    }
    while k < b
        invariant
            a <= k <= b,
            b <= v@.len(),
            rec@ == old(rec)@ + v@.subrange(a as int, k as int),
        decreases b - k,
    {
        rec.push(v[k]);
        k = k + 1;
        assert(rec@ =~= old(rec)@ + v@.subrange(a as int, k as int));
    }
}

/// Closes the record held in `rec`: trims its trailing whitespace and
/// appends it to `out`.
fn close_record(out: &mut Vec<String>, rec: &mut Vec<char>)
    ensures
        final(rec)@ == trim_end_spec(old(rec)@),
        final(out)@.len() == old(out)@.len() + 1,
        final(out).deep_view() == old(out).deep_view() + seq![trim_end_spec(old(rec)@)],
{
    let m = trim_end_len(rec);
    rec.truncate(m);
    let ghost pre = out.deep_view();
    let srec = chars_to_string(rec);
    out.push(srec);
    proof {
        assert(out.deep_view() =~= pre + seq![trim_end_spec(old(rec)@)]);
    }
}

/// The open record carried by the scan, as the spec-level state machine
/// sees it.
pub open spec fn open_view(has_rec: bool, rec: Seq<char>) -> Option<Seq<char>> {
    if has_rec {
        Option::Some(rec)
    } else {
        Option::None
    }
}

/// Extracts the error records of a compiler log, in the order their `!`
/// lines occur. The result is a function of the log text alone.
pub fn extract_errors(log: &str) -> (r: Vec<String>)
    ensures
        r.deep_view() == spec_extract_errors(log@),
{
    let v = to_chars(log);
    let lines = split_lines(&v);
    let ghost ls = spec_lines(log@);
    let mut r: Vec<String> = Vec::new();
    let mut rec: Vec<char> = Vec::new();
    let mut has_rec: bool = false;
    let mut i: usize = 0;
    let nlines = lines.len();
    proof {
        assert(ls.subrange(0, ls.len() as int) =~= ls);
        assert(r.deep_view() =~= Seq::<Seq<char>>::empty());
        assert(r.deep_view() + extract_from(ls, open_view(has_rec, rec@)) =~= spec_extract_errors(
            log@,
        ));
    }
    while i < nlines
        invariant
            v@ == log@,
            ls == spec_lines(log@),
            ranges_views(v@, lines@) == ls,
            forall|j: int| 0 <= j < lines@.len()
                ==> (#[trigger] lines@[j]).0 <= lines@[j].1 && lines@[j].1 <= v@.len(),
            i <= nlines,
            nlines == lines@.len(),
            lines@.len() == ls.len(),
            r.deep_view() + extract_from(ls.subrange(i as int, ls.len() as int), open_view(has_rec, rec@))
                == spec_extract_errors(log@),
        decreases nlines - i,
    {
        let p = lines[i];
        let a = p.0;
        let b = p.1;
        let ghost line = ls[i as int];
        let ghost tail = ls.subrange(i as int, ls.len() as int);
        proof {
            assert(ranges_views(v@, lines@)[i as int] == v@.subrange(a as int, b as int));
            assert(line == v@.subrange(a as int, b as int));
            assert(tail.len() > 0);
            assert(tail.first() == line);
            assert(tail.drop_first() =~= ls.subrange(i + 1, ls.len() as int));
        }
        let opens = b > a && v[a] == '!';
        proof {
            if b > a {
                assert(line[0] == v@[a as int]);
            }
            assert(opens == record_opens(line));
        }
        if opens {
            let ghost pre = r.deep_view();
            let ghost old_rec = rec@;
            if has_rec {
                close_record(&mut r, &mut rec);
            }
            rec.clear();
            push_range(&mut rec, &v, a, b);
            has_rec = true;
            proof {
                assert(rec@ =~= line);
                assert(extract_from(tail, open_view(true, old_rec)) == seq![trim_end_spec(old_rec)]
                    + extract_from(tail.drop_first(), Option::Some(line)));
                assert(extract_from(tail, open_view(false, old_rec)) == extract_from(
                    tail.drop_first(),
                    Option::Some(line),
                ));
            }
        } else if has_rec {
            let closes = line_closes(&v, a, b);
            let ghost old_rec = rec@;
            if closes {
                close_record(&mut r, &mut rec);
                rec.clear();
                has_rec = false;
                proof {
                    assert(extract_from(tail, Option::Some(old_rec)) == seq![trim_end_spec(
                        old_rec,
                    )] + extract_from(tail.drop_first(), Option::None));
                }
            } else {
                rec.push('\n');
                push_range(&mut rec, &v, a, b);
                proof {
                    assert(rec@ =~= old_rec + seq!['\n'] + line);
                    assert(extract_from(tail, Option::Some(old_rec)) == extract_from(
                        tail.drop_first(),
                        Option::Some(old_rec + seq!['\n'] + line),
                    ));
                }
            }
        } else {
            proof {
                assert(extract_from(tail, open_view(false, rec@)) == extract_from(
                    tail.drop_first(),
                    Option::None,
                ));
            }
        }
        i = i + 1;
    }
    proof {
        assert(ls.subrange(ls.len() as int, ls.len() as int) =~= Seq::<Seq<char>>::empty());
    }
    if has_rec {
        let ghost last_rec = rec@;
        close_record(&mut r, &mut rec);
        proof {
            assert(extract_from(Seq::<Seq<char>>::empty(), open_view(true, last_rec)) == seq![
                trim_end_spec(last_rec),
            ]);
        }
    }
    r
}

} // verus!
