//! Splitting the csv text of the asset files, and reading numbers in it.
use vstd::prelude::*;
use crate::text::str_chars;

verus! {

/// The pieces of `s` between the occurrences of `sep`; `n` occurrences give `n + 1` pieces.
pub open spec fn split_on(s: Seq<char>, sep: char) -> Seq<Seq<char>>
    decreases s.len(),
{
    if s.len() == 0 {
        seq![Seq::<char>::empty()]
    } else {
        let p = split_on(s.drop_last(), sep);
        if s.last() == sep {
            p.push(Seq::<char>::empty())
        } else {
            p.update(p.len() - 1, p.last().push(s.last()))
        }
    }
}

pub proof fn lemma_split_on_nonempty(s: Seq<char>, sep: char)
    ensures
        split_on(s, sep).len() >= 1,
    decreases s.len(),
{
    if s.len() > 0 {
        lemma_split_on_nonempty(s.drop_last(), sep);
    }
}

/// Splits `s` at every `sep`.
pub fn split_chars(s: &Vec<char>, sep: char) -> (r: Vec<Vec<char>>)
    ensures
        r@.len() == split_on(s@, sep).len(),
        forall|i: int| 0 <= i < r@.len() ==> #[trigger] r@[i]@ == split_on(s@, sep)[i],
{
    let mut out: Vec<Vec<char>> = Vec::new();
    let mut cur: Vec<char> = Vec::new();
    let mut i: usize = 0;
    while i < s.len()
        invariant
            i <= s@.len(),
            split_on(s@.subrange(0, i as int), sep).len() == out@.len() + 1,
            forall|k: int| 0 <= k < out@.len() ==> #[trigger] out@[k]@ == split_on(s@.subrange(0, i as int), sep)[k],
            cur@ == split_on(s@.subrange(0, i as int), sep).last(),
        decreases s@.len() - i,
    {
        let c = s[i];
        proof {
            assert(s@.subrange(0, i + 1).drop_last() =~= s@.subrange(0, i as int));
            lemma_split_on_nonempty(s@.subrange(0, i as int), sep);
        }
        if c == sep {
            let mut done: Vec<char> = Vec::new();
            std::mem::swap(&mut done, &mut cur);
            out.push(done);
        } else {
            cur.push(c);
        }
        i = i + 1;
    }
    proof {
        assert(s@.subrange(0, s@.len() as int) =~= s@);
    }
    out.push(cur);
    proof {
        assert forall|i: int| 0 <= i < out@.len() implies #[trigger] out@[i]@ == split_on(s@, sep)[i] by {}
    }
    out
}

/// `fields` fitted to `n` columns: missing columns are empty, extra ones dropped.
pub open spec fn fit_columns(fields: Seq<Seq<char>>, n: nat) -> Seq<Seq<char>> {
    Seq::new(n, |i: int| if i < fields.len() { fields[i] } else { Seq::<char>::empty() })
}

/// The non-empty lines of `text`.
pub open spec fn csv_lines(text: Seq<char>) -> Seq<Seq<char>> {
    split_on(text, '\n').filter(|l: Seq<char>| l.len() > 0)
}

/// The rows of a csv text with `n` columns: one per non-empty line, each line
/// split at its commas and fitted to `n` columns.
pub open spec fn csv_rows(text: Seq<char>, n: nat) -> Seq<Seq<Seq<char>>> {
    csv_lines(text).map_values(|l: Seq<char>| fit_columns(split_on(l, ','), n))
}

/// The rows of `text` as `csv_rows` describes them.
pub fn split_csv(text: &str, n: usize) -> (rows: Vec<Vec<Vec<char>>>)
    ensures
        rows@.len() == csv_rows(text@, n as nat).len(),
        forall|r: int| #![trigger rows@[r]]
            0 <= r < rows@.len() ==> rows@[r]@.len() == n && forall|c: int| #![trigger rows@[r]@[c]]
                0 <= c < n ==> rows@[r]@[c]@ == csv_rows(text@, n as nat)[r][c],
{
    let chars = str_chars(text);
    let lines = split_chars(&chars, '\n');
    let ghost all_lines = split_on(text@, '\n');
    let ghost pred = |l: Seq<char>| l.len() > 0;
    let mut rows: Vec<Vec<Vec<char>>> = Vec::new();
    let mut i: usize = 0;
    proof {
        assert(all_lines.subrange(0, 0).filter(pred) =~= Seq::<Seq<char>>::empty()) by {
            reveal_with_fuel(Seq::filter, 1);
        }
    }
    while i < lines.len()
        invariant
            i <= lines@.len(),
            lines@.len() == all_lines.len(),
            chars@ == text@,
            all_lines == split_on(text@, '\n'),
            forall|k: int| 0 <= k < lines@.len() ==> #[trigger] lines@[k]@ == all_lines[k],
            pred == (|l: Seq<char>| l.len() > 0),
            rows@.len() == all_lines.subrange(0, i as int).filter(pred).len(),
            forall|r: int| #![trigger rows@[r]]
                0 <= r < rows@.len() ==> rows@[r]@.len() == n && forall|c: int| #![trigger rows@[r]@[c]]
                    0 <= c < n ==> rows@[r]@[c]@ == fit_columns(
                        split_on(all_lines.subrange(0, i as int).filter(pred)[r], ','),
                        n as nat,
                    )[c],
        decreases lines@.len() - i,
    {
        let ghost prev = all_lines.subrange(0, i as int).filter(pred);
        proof {
            assert(all_lines.subrange(0, i + 1).drop_last() =~= all_lines.subrange(0, i as int));
            assert(all_lines.subrange(0, i + 1).filter(pred) == if all_lines[i as int].len() > 0 {
                prev.push(all_lines[i as int])
            } else {
                prev
            }) by {
                reveal_with_fuel(Seq::filter, 1);
            }
        }
        if lines[i].len() > 0 {
            let fields = split_chars(&lines[i], ',');
            let mut row: Vec<Vec<char>> = Vec::new();
            let mut c: usize = 0;
            while c < n
                invariant
                    c <= n,
                    fields@.len() == split_on(lines@[i as int]@, ',').len(),
                    forall|k: int| 0 <= k < fields@.len() ==> #[trigger] fields@[k]@ == split_on(lines@[i as int]@, ',')[k],
                    row@.len() == c,
                    forall|k: int| 0 <= k < c ==> #[trigger] row@[k]@ == fit_columns(split_on(lines@[i as int]@, ','), n as nat)[k],
                decreases n - c,
            {
                if c < fields.len() {
                    row.push(fields[c].clone());
                } else {
                    row.push(Vec::new());
                }
                c = c + 1;
            }
            rows.push(row);
            proof {
                let now = all_lines.subrange(0, i + 1).filter(pred);
                assert forall|r: int| #![trigger rows@[r]]
                    0 <= r < rows@.len() implies rows@[r]@.len() == n && forall|c: int| #![trigger rows@[r]@[c]]
                        0 <= c < n ==> rows@[r]@[c]@ == fit_columns(split_on(now[r], ','), n as nat)[c] by {
                    if r < prev.len() {
                        assert(now[r] == prev[r]);
                    }
                }
            }
        }
        i = i + 1;
    }
    proof {
        assert(all_lines.subrange(0, all_lines.len() as int) =~= all_lines);
    }
    rows
}

} // verus!
