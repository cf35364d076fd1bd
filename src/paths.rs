//! Input specifiers: the standard-input sentinel, list files, and the flat
//! list of targets.
use vstd::prelude::*;

verus! {

/// The token that stands for standard input.
pub open spec fn sentinel() -> Seq<char> {
    "-"@
}

/// Whether a path as given names standard input.
pub fn is_stdin_sentinel(path: &str) -> (r: bool)
    ensures
        r == (path@ == sentinel()),
{
    proof {
        reveal_strlit("-");
    }
    if path.unicode_len() != 1 {
        assert(path@ != sentinel());
        false
    } else {
        let c = path.get_char(0);
        assert(c == '-' ==> path@ =~= sentinel());
        c == '-'
    }
}

/// The targets: the direct ones first, then those of each list, list after
/// list, each in its own order.
pub open spec fn expanded<T>(files: Seq<T>, lists: Seq<Seq<T>>) -> Seq<T> {
    files + lists.flatten()
}

/// The contents of a vector of vectors, as sequences.
pub open spec fn nested_view<T>(lists: Seq<Vec<T>>) -> Seq<Seq<T>> {
    lists.map_values(|l: Vec<T>| l@)
}

/// Puts the targets of every list after the direct targets, keeping every
/// order and every duplicate.
pub fn expand_paths<T>(files: Vec<T>, lists: Vec<Vec<T>>) -> (r: Vec<T>)
    ensures
        r@ == expanded(files@, nested_view(lists@)),
{
    let ghost all = nested_view(lists@);
    let mut out = files;
    let mut rest = lists;
    let ghost done: int = 0;
    while rest.len() > 0
        invariant
            0 <= done <= all.len(),
            rest@.len() == all.len() - done,
            nested_view(rest@) == all.skip(done),
            out@ == files@ + all.take(done).flatten(),
        decreases rest.len(),
    {
        let ghost before = rest@;
        let mut next = rest.remove(0);
        proof {
            assert(nested_view(before)[0] == all.skip(done)[0]);
            assert(next@ == all[done]);
            assert(all.take(done + 1) =~= all.take(done).push(all[done]));
            all.take(done).lemma_flatten_push(all[done]);
            assert forall|k: int| 0 <= k < rest@.len() implies nested_view(rest@)[k] == all.skip(
                done + 1,
            )[k] by {
                assert(rest@[k] == before[k + 1]);
                assert(nested_view(before)[k + 1] == all.skip(done)[k + 1]);
            }
            assert(nested_view(rest@) =~= all.skip(done + 1));
            done = done + 1;
        }
        out.append(&mut next);
    }
    assert(all.take(done) =~= all);
    out
}

/// A line as the list file holds it: a carriage return before the line feed
/// is not part of it.
pub open spec fn strip_cr(line: Seq<char>) -> Seq<char> {
    if line.len() > 0 && line.last() == '\r' {
        line.drop_last()
    } else {
        line
    }
}

/// The lines of `rest`, given that the current line so far is `current`: each
/// line feed ends a line; what follows the last line feed is a line when it
/// is not empty.
pub open spec fn lines_from(rest: Seq<char>, current: Seq<char>) -> Seq<Seq<char>>
    decreases rest.len(),
{
    if rest.len() == 0 {
        if current.len() == 0 {
            Seq::empty()
        } else {
            seq![current]
        }
    } else if rest[0] == '\n' {
        seq![strip_cr(current)] + lines_from(rest.drop_first(), Seq::empty())
    } else {
        lines_from(rest.drop_first(), current.push(rest[0]))
    }
}

/// The lines of a text.
pub open spec fn lines_of(text: Seq<char>) -> Seq<Seq<char>> {
    lines_from(text, Seq::empty())
}

/// The paths that a list file names, one per line.
pub fn split_lines(text: &str) -> (r: Vec<String>)
    ensures
        r@.map_values(|s: String| s@) == lines_of(text@),
{
    let ghost t = text@;
    let n = text.unicode_len();
    let mut out: Vec<String> = Vec::new();
    let mut start: usize = 0;
    let mut i: usize = 0;
    assert(t.skip(0) =~= t);
    assert(t.subrange(0, 0) =~= Seq::<char>::empty());
    while i < n
        invariant
            n == t.len(),
            t == text@,
            start <= i <= n,
            out@.map_values(|s: String| s@) + lines_from(t.skip(i as int), t.subrange(start as int, i as int))
                == lines_of(t),
        decreases n - i,
    {
        let c = text.get_char(i);
        proof {
            assert(t.skip(i as int).drop_first() =~= t.skip(i as int + 1));
        }
        if c == '\n' {
            let end = if i > start && text.get_char(i - 1) == '\r' {
                i - 1
            } else {
                i
            };
            let line = String::from_str(text.substring_char(start, end));
            proof {
                assert(line@ =~= strip_cr(t.subrange(start as int, i as int)));
            }
            out.push(line);
            proof {
                assert(t.subrange(i as int + 1, i as int + 1) =~= Seq::<char>::empty());
            }
            start = i + 1;
        } else {
            proof {
                assert(t.subrange(start as int, i as int).push(c) =~= t.subrange(start as int, i as int + 1));
            }
        }
        i = i + 1;
    }
    assert(t.skip(n as int) =~= Seq::<char>::empty());
    if start < n {
        let line = String::from_str(text.substring_char(start, n));
        out.push(line);
    }
    assert(out@.map_values(|s: String| s@) =~= lines_of(t));
    out
}

} // verus!
