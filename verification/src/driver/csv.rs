//! Record files: comma-separated rows behind one header line, with no quoting.
//! Cells therefore hold no commas; a free-text note gets semicolons instead.

use crate::text::same;
use std::borrow::ToOwned;
use vstd::prelude::*;
use vstd::string::{StrSliceExecFns, StringExecFns};

verus! {

/// Place of the first comma at or behind `i`, or the length.
pub open spec fn comma(s: Seq<char>, i: int) -> int
    decreases s.len() - i,
{
    if i >= s.len() || s[i] == ',' {
        i
    } else {
        comma(s, i + 1)
    }
}

/// The comma that ends a cell lies within the row.
pub proof fn lemma_comma(s: Seq<char>, i: int)
    requires
        0 <= i <= s.len(),
    ensures
        i <= comma(s, i) <= s.len(),
        comma(s, i) < s.len() ==> s[comma(s, i)] == ',',
        forall|k: int| i <= k < comma(s, i) ==> #[trigger] s[k] != ',',
    decreases s.len() - i,
{
    if i < s.len() && s[i] != ',' {
        lemma_comma(s, i + 1);
    }
}

/// The cells of a row.
pub open spec fn cells(s: Seq<char>) -> Seq<Seq<char>>
    decreases s.len(),
{
    proof {
        lemma_comma(s, 0);
    }
    let k = comma(s, 0);
    if k < s.len() && k >= 0 {
        seq![s.take(k)] + cells(s.skip(k + 1))
    } else {
        seq![s]
    }
}

pub open spec fn texts(v: Seq<String>) -> Seq<Seq<char>> {
    v.map_values(|t: String| t@)
}

proof fn lemma_comma_skip(s: Seq<char>, lo: int, i: int)
    requires
        0 <= lo,
        0 <= i,
        lo + i <= s.len(),
    ensures
        comma(s.skip(lo), i) == comma(s, lo + i) - lo,
    decreases s.len() - lo - i,
{
    if lo + i < s.len() {
        assert(s.skip(lo)[i] == s[lo + i]);
        if s[lo + i] != ',' {
            lemma_comma_skip(s, lo, i + 1);
        }
    }
}

/// Cut a row at its commas.
pub fn split(line: &str) -> (r: Vec<String>)
    ensures
        texts(r@) == cells(line@),
{
    let n: usize = line.unicode_len();
    let mut out: Vec<String> = Vec::new();
    let mut start: usize = 0;
    let mut i: usize = 0;
    assert(line@.skip(0) =~= line@);
    assert(texts(out@) + cells(line@) =~= cells(line@));
    while i < n
        invariant
            n == line@.len(),
            start <= i <= n,
            comma(line@, start as int) == comma(line@, i as int),
            texts(out@) + cells(line@.skip(start as int)) == cells(line@),
        decreases n - i,
    {
        if line.get_char(i) == ',' {
            let ghost before = texts(out@);
            let ghost rest = line@.skip(start as int);
            let cell: String = line.substring_char(start, i).to_owned();
            proof {
                lemma_comma_skip(line@, start as int, 0);
                assert(comma(rest, 0) == i - start);
                assert(rest.take(i - start) =~= cell@);
                assert(rest.skip(i - start + 1) =~= line@.skip(i + 1));
                assert(cells(rest) == seq![rest.take(i - start)] + cells(rest.skip(i - start + 1)));
            }
            out.push(cell);
            assert(texts(out@) =~= before.push(cell@));
            assert(before + (seq![cell@] + cells(line@.skip(i + 1))) =~= texts(out@) + cells(
                line@.skip(i + 1),
            ));
            start = i + 1;
        }
        i = i + 1;
    }
    let ghost before = texts(out@);
    let ghost rest = line@.skip(start as int);
    let cell: String = line.substring_char(start, n).to_owned();
    proof {
        lemma_comma_skip(line@, start as int, 0);
        assert(comma(rest, 0) == rest.len());
        assert(cell@ =~= rest);
        assert(cells(rest) == seq![rest]);
    }
    out.push(cell);
    assert(texts(out@) =~= before + seq![rest]);
    out
}

/// A row with too few cells: its line number, counted from 1, and how many it
/// has.
#[derive(Copy, Clone, Debug, PartialEq, Eq, Structural)]
pub struct ShortRow {
    pub line: usize,
    pub got: usize,
}

/// The rows of a file: the header and empty lines left out, the first row with
/// fewer than `cols` cells refused.
pub open spec fn table(lines: Seq<Seq<char>>, cols: int) -> Result<Seq<Seq<Seq<char>>>, ShortRow>
    decreases lines.len(),
{
    if lines.len() == 0 {
        Ok(seq![])
    } else {
        match table(lines.drop_last(), cols) {
            Err(e) => Err(e),
            Ok(v) => if lines.len() == 1 || lines.last().len() == 0 {
                Ok(v)
            } else if cells(lines.last()).len() < cols {
                Err(
                    ShortRow {
                        line: lines.len() as usize,
                        got: cells(lines.last()).len() as usize,
                    },
                )
            } else {
                Ok(v.push(cells(lines.last())))
            },
        }
    }
}

pub open spec fn row_views(v: Seq<Vec<String>>) -> Seq<Seq<Seq<char>>> {
    v.map_values(|r: Vec<String>| texts(r@))
}

proof fn lemma_table_err(lines: Seq<Seq<char>>, cols: int, k: int)
    requires
        0 <= k <= lines.len(),
        table(lines.take(k), cols) is Err,
    ensures
        table(lines, cols) == table(lines.take(k), cols),
    decreases lines.len(),
{
    if k == lines.len() {
        assert(lines.take(k) =~= lines);
    } else {
        assert(lines.drop_last().take(k) =~= lines.take(k));
        lemma_table_err(lines.drop_last(), cols, k);
    }
}

/// Read a file's lines as rows of at least `cols` cells.
pub fn rows(lines: &Vec<String>, cols: usize) -> (r: Result<Vec<Vec<String>>, ShortRow>)
    ensures
        match (r, table(texts(lines@), cols as int)) {
            (Ok(v), Ok(t)) => row_views(v@) == t,
            (Err(e), Err(f)) => e == f,
            _ => false,
        },
{
    let ghost all = texts(lines@);
    let n: usize = lines.len();
    let mut out: Vec<Vec<String>> = Vec::new();
    let mut i: usize = 0;
    assert(all.take(0) =~= Seq::<Seq<char>>::empty());
    assert(row_views(out@) =~= Seq::<Seq<Seq<char>>>::empty());
    while i < n
        invariant
            n == lines@.len(),
            i <= n,
            all == texts(lines@),
            table(all.take(i as int), cols as int) == Ok::<Seq<Seq<Seq<char>>>, ShortRow>(
                row_views(out@),
            ),
        decreases n - i,
    {
        let ghost t = all.take(i + 1);
        assert(t.drop_last() =~= all.take(i as int));
        assert(t.last() == lines@[i as int]@);
        let line: &str = lines[i].as_str();
        if i > 0 && !line.is_empty() {
            let parts: Vec<String> = split(line);
            let got: usize = parts.len();
            assert(texts(parts@).len() == got);
            if got < cols {
                proof {
                    lemma_table_err(all, cols as int, i + 1);
                }
                return Err(ShortRow { line: i + 1, got });
            }
            let ghost before = row_views(out@);
            out.push(parts);
            assert(row_views(out@) =~= before.push(texts(parts@)));
        }
        i = i + 1;
    }
    assert(all.take(n as int) =~= all);
    Ok(out)
}

/// A flag column: `1` is set, anything else is not.
pub fn flag(cell: &str) -> (r: bool)
    ensures
        r == (cell@ == "1"@),
{
    same(cell, "1")
}

/// A note column: an empty cell is no note.
pub fn note(cell: &String) -> (r: Option<String>)
    ensures
        r is None <==> cell@.len() == 0,
        r matches Some(t) ==> t@ == cell@,
{
    if cell.as_str().is_empty() {
        None
    } else {
        Some(cell.clone())
    }
}

pub open spec fn cleaned(s: Seq<char>) -> Seq<char> {
    s.map_values(
        |c: char|
            if c == ',' {
                ';'
            } else {
                c
            },
    )
}

/// A note made fit for a cell.
pub fn clean_note(s: &str) -> (r: String)
    ensures
        r@ == cleaned(s@),
{
    let n: usize = s.unicode_len();
    let mut out: String = String::new();
    proof {
        reveal_strlit(";");
    }
    let mut i: usize = 0;
    while i < n
        invariant
            n == s@.len(),
            i <= n,
            out@ == cleaned(s@).take(i as int),
            ";"@ == seq![';'],
        decreases n - i,
    {
        if s.get_char(i) == ',' {
            out.append(";");
        } else {
            out.append(s.substring_char(i, i + 1));
        }
        assert(out@ =~= cleaned(s@).take(i + 1));
        i = i + 1;
    }
    assert(cleaned(s@).take(n as int) =~= cleaned(s@));
    out
}

/// Cells written as one row.
pub open spec fn joined(v: Seq<Seq<char>>) -> Seq<char>
    decreases v.len(),
{
    if v.len() == 0 {
        seq![]
    } else if v.len() == 1 {
        v[0]
    } else {
        v[0] + seq![','] + joined(v.skip(1))
    }
}

/// The cell holds no comma.
pub open spec fn plain(s: Seq<char>) -> bool {
    forall|k: int| 0 <= k < s.len() ==> #[trigger] s[k] != ','
}

proof fn lemma_comma_behind(s: Seq<char>, i: int, k: int)
    requires
        0 <= i <= k <= s.len(),
        forall|j: int| i <= j < k ==> #[trigger] s[j] != ',',
        k == s.len() || s[k] == ',',
    ensures
        comma(s, i) == k,
    decreases k - i,
{
    if i < k {
        assert(s[i] != ',');
        lemma_comma_behind(s, i + 1, k);
    }
}

/// A row reads back as the cells it was written from.
pub proof fn law_row_round_trip(v: Seq<Seq<char>>)
    requires
        v.len() > 0,
        forall|k: int| 0 <= k < v.len() ==> plain(#[trigger] v[k]),
    ensures
        cells(joined(v)) == v,
    decreases v.len(),
{
    let s = joined(v);
    assert(plain(v[0]));
    if v.len() == 1 {
        lemma_comma_behind(s, 0, s.len() as int);
        assert(cells(s) =~= v);
    } else {
        let k = v[0].len() as int;
        let rest = v.skip(1);
        assert forall|j: int| 0 <= j < k implies #[trigger] s[j] != ',' by {
            assert(s[j] == v[0][j]);
        }
        assert(s[k] == ',');
        lemma_comma_behind(s, 0, k);
        assert(s.take(k) =~= v[0]);
        assert(s.skip(k + 1) =~= joined(rest));
        assert forall|j: int| 0 <= j < rest.len() implies plain(#[trigger] rest[j]) by {
            assert(rest[j] == v[j + 1]);
        }
        law_row_round_trip(rest);
        assert(seq![v[0]] + rest =~= v);
    }
}

/// A cleaned note fits in a cell, whatever it said, and one without commas is
/// left as it was.
pub proof fn law_note_fits(s: Seq<char>)
    ensures
        plain(cleaned(s)),
        plain(s) ==> cleaned(s) == s,
{
    if plain(s) {
        assert(cleaned(s) =~= s);
    }
}

/// Rows at which a new group of equal keys begins.
pub open spec fn starts_of(keys: Seq<usize>) -> Seq<int>
    decreases keys.len(),
{
    if keys.len() == 0 {
        seq![]
    } else if keys.len() == 1 || keys[keys.len() - 2] != keys.last() {
        starts_of(keys.drop_last()).push(keys.len() - 1)
    } else {
        starts_of(keys.drop_last())
    }
}

/// Group rows by a key column: rows belong together while the key stays.
pub fn group_starts(keys: &Vec<usize>) -> (r: Vec<usize>)
    ensures
        r@.map_values(|i: usize| i as int) == starts_of(keys@),
{
    let n: usize = keys.len();
    let mut out: Vec<usize> = Vec::new();
    let mut i: usize = 0;
    assert(keys@.take(0) =~= Seq::<usize>::empty());
    assert(out@.map_values(|i: usize| i as int) =~= Seq::<int>::empty());
    while i < n
        invariant
            n == keys@.len(),
            i <= n,
            out@.map_values(|i: usize| i as int) == starts_of(keys@.take(i as int)),
        decreases n - i,
    {
        let ghost t = keys@.take(i + 1);
        let ghost before = out@.map_values(|i: usize| i as int);
        assert(t.drop_last() =~= keys@.take(i as int));
        assert(t.last() == keys@[i as int]);
        if i > 0 {
            assert(t[t.len() - 2] == keys@[i - 1]);
        }
        if i == 0 || keys[i - 1] != keys[i] {
            out.push(i);
            assert(out@.map_values(|i: usize| i as int) =~= before.push(i as int));
        }
        i = i + 1;
    }
    assert(keys@.take(n as int) =~= keys@);
    out
}

/// Cutting and joining are inverse: the cells of a row hold no comma and joined
/// again are the row.
pub proof fn law_cells_join_back(s: Seq<char>)
    ensures
        cells(s).len() > 0,
        joined(cells(s)) == s,
        forall|k: int| 0 <= k < cells(s).len() ==> plain(#[trigger] cells(s)[k]),
    decreases s.len(),
{
    lemma_comma(s, 0);
    let k = comma(s, 0);
    let c = cells(s);
    if k < s.len() {
        let rest = s.skip(k + 1);
        law_cells_join_back(rest);
        assert(c == seq![s.take(k)] + cells(rest));
        assert(c.skip(1) =~= cells(rest));
        assert(c[0] == s.take(k));
        assert(joined(c) == c[0] + seq![','] + joined(c.skip(1)));
        assert(s.take(k) + seq![','] + rest =~= s);
        assert forall|j: int| 0 <= j < c.len() implies plain(#[trigger] c[j]) by {
            if j > 0 {
                assert(c[j] == cells(rest)[j - 1]);
            } else {
                assert forall|i: int| 0 <= i < k implies #[trigger] s.take(k)[i] != ',' by {
                    assert(s.take(k)[i] == s[i]);
                }
            }
        }
    } else {
        assert(c == seq![s]);
        assert(c[0] == s);
    }
}

/// One more line of a file: an error stands; the header and an empty line add
/// nothing; a line with too few cells is refused with its number and its count;
/// any other adds its cells.
pub proof fn law_table_line(lines: Seq<Seq<char>>, line: Seq<char>, cols: int)
    requires
        lines.len() < usize::MAX,
        cells(line).len() <= usize::MAX,
    ensures
        table(Seq::<Seq<char>>::empty(), cols) == Ok::<Seq<Seq<Seq<char>>>, ShortRow>(seq![]),
        table(lines, cols) matches Err(e) ==> table(lines.push(line), cols) == Err::<
            Seq<Seq<Seq<char>>>,
            ShortRow,
        >(e),
        table(lines, cols) matches Ok(v) ==> {
            let t = table(lines.push(line), cols);
            &&& lines.len() == 0 || line.len() == 0 ==> t == Ok::<Seq<Seq<Seq<char>>>, ShortRow>(v)
            &&& lines.len() > 0 && line.len() > 0 && cells(line).len() >= cols ==> t == Ok::<
                Seq<Seq<Seq<char>>>,
                ShortRow,
            >(v.push(cells(line)))
            &&& lines.len() > 0 && line.len() > 0 && cells(line).len() < cols ==> (t matches Err(e)
                && e.line == lines.len() + 1 && e.got == cells(line).len())
        },
{
    assert(lines.push(line).drop_last() =~= lines);
    assert(lines.push(line).last() == line);
}

/// A cleaned note keeps its length and every character but the commas, which
/// become semicolons.
pub proof fn law_note_cleaned(s: Seq<char>, k: int)
    requires
        0 <= k < s.len(),
    ensures
        cleaned(s).len() == s.len(),
        s[k] == ',' ==> cleaned(s)[k] == ';',
        s[k] != ',' ==> cleaned(s)[k] == s[k],
{
}

/// A group begins at the first row and at every row whose key differs from the
/// one before, and nowhere else.
pub proof fn law_groups_begin(keys: Seq<usize>, k: int)
    requires
        0 <= k < keys.len(),
    ensures
        starts_of(keys).contains(k) <==> k == 0 || keys[k] != keys[k - 1],
        forall|j: int| 0 <= j < starts_of(keys).len() ==> 0 <= #[trigger] starts_of(keys)[j]
            < keys.len(),
    decreases keys.len(),
{
    let n = keys.len();
    let t = keys.drop_last();
    let s = starts_of(keys);
    let r = starts_of(t);
    if n > 1 {
        law_groups_begin(t, if k < n - 1 {
            k
        } else {
            0
        });
    }
    let ends = n == 1 || keys[n - 2] != keys.last();
    if ends {
        assert(s == r.push(n - 1));
        assert(s[r.len() as int] == n - 1);
    }
    assert forall|j: int| 0 <= j < s.len() implies 0 <= #[trigger] s[j] < n by {
        if j < r.len() {
            assert(s[j] == r[j]);
        }
    }
    if r.contains(k) {
        let j = choose|j: int| 0 <= j < r.len() && r[j] == k;
        assert(s[j] == k);
    }
    if s.contains(k) {
        let j = choose|j: int| 0 <= j < s.len() && s[j] == k;
        if j < r.len() {
            assert(r[j] == k);
        }
    }
}

} // verus!
