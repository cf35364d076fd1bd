//! One run over the resolved targets, in per-file or in combined mode.
//!
//! The caller reads each target and hands its bytes to `Run::step`, printing
//! whatever line comes back; at the end it prints what `Run::finish` returns.
use vstd::prelude::*;

use crate::accumulator::{verdict_for, Accumulator};
use crate::detector::{encoding_label, guess_of, has_non_ascii};
use crate::paths::expanded;
use crate::verdict::{line_of, verdict_of};

verus! {

/// The lines a whole run prints, given the targets' paths and contents: one
/// per target in per-file mode, each file fed as one buffer; in combined mode
/// one for all of them, if there is any, each file being one buffer of the
/// shared stream.
pub open spec fn run_lines(combine: bool, paths: Seq<Seq<char>>, inputs: Seq<Seq<u8>>) -> Seq<
    Seq<char>,
> {
    if combine {
        if paths.len() == 0 {
            Seq::empty()
        } else {
            seq![line_of(verdict_of(inputs), None)]
        }
    } else {
        Seq::new(paths.len(), |i: int| line_of(verdict_of(seq![inputs[i]]), Some(paths[i])))
    }
}

/// The lines that an optional line adds to the output.
pub open spec fn printed_of(r: Option<String>) -> Seq<Seq<char>> {
    match r {
        Some(s) => seq![s@],
        None => Seq::empty(),
    }
}

/// The state of a run.
pub struct Run {
    combine: bool,
    acc: Accumulator,
    any: bool,
    paths: Ghost<Seq<Seq<char>>>,
    inputs: Ghost<Seq<Seq<u8>>>,
    printed: Ghost<Seq<Seq<char>>>,
}

impl Run {
    /// Whether all targets are reported together.
    pub closed spec fn combined(&self) -> bool {
        self.combine
    }

    /// The paths of the targets handed in so far.
    pub closed spec fn paths(&self) -> Seq<Seq<char>> {
        self.paths@
    }

    /// The contents of the targets handed in so far.
    pub closed spec fn inputs(&self) -> Seq<Seq<u8>> {
        self.inputs@
    }

    /// The lines handed out so far.
    pub closed spec fn printed(&self) -> Seq<Seq<char>> {
        self.printed@
    }

    /// The targets seen so far agree with what was fed and printed: in
    /// combined mode all bytes sit in the shared accumulator and nothing is
    /// printed yet; in per-file mode every target's line is out.
    pub closed spec fn wf(&self) -> bool {
        &&& self.paths@.len() == self.inputs@.len()
        &&& self.any == (self.paths@.len() > 0)
        &&& self.acc.wf()
        &&& self.combine ==> self.acc@ == self.inputs@ && self.printed@
            == Seq::<Seq<char>>::empty()
        &&& !self.combine ==> self.printed@ == run_lines(false, self.paths@, self.inputs@)
    }

    /// A run that has seen no target yet.
    pub fn new(combine: bool) -> (r: Run)
        ensures
            r.wf(),
            r.combined() == combine,
            r.paths() == Seq::<Seq<char>>::empty(),
            r.inputs() == Seq::<Seq<u8>>::empty(),
            r.printed() == Seq::<Seq<char>>::empty(),
    {
        let r = Run {
            combine,
            acc: Accumulator::new(),
            any: false,
            paths: Ghost(Seq::empty()),
            inputs: Ghost(Seq::empty()),
            printed: Ghost(Seq::empty()),
        };
        assert(run_lines(false, r.paths@, r.inputs@) =~= Seq::<Seq<char>>::empty());
        r
    }

    /// Takes the next target: in per-file mode gives its line at once, in
    /// combined mode adds its bytes to the shared stream and gives nothing.
    pub fn step(&mut self, path: &str, bytes: &[u8]) -> (r: Option<String>)
        requires
            old(self).wf(),
        ensures
            final(self).wf(),
            final(self).combined() == old(self).combined(),
            final(self).paths() == old(self).paths().push(path@),
            final(self).inputs() == old(self).inputs().push(bytes@),
            final(self).printed() == old(self).printed() + printed_of(r),
            old(self).combined() ==> r is None,
            !old(self).combined() ==> (r matches Some(s) && s@ == line_of(
                verdict_of(seq![bytes@]),
                Some(path@),
            )),
            !old(self).combined() ==> encoding_label(verdict_of(seq![bytes@]).0),
            !old(self).combined() ==> (has_non_ascii(bytes@) <==> verdict_of(seq![bytes@]).0
                != "ASCII"@),
    {
        let ghost before = *self;
        proof {
            self.paths@ = self.paths@.push(path@);
            self.inputs@ = self.inputs@.push(bytes@);
        }
        self.any = true;
        if self.combine {
            self.acc.feed(bytes);
            assert(printed_of(None) =~= Seq::<Seq<char>>::empty());
            assert(self.printed@ =~= before.printed@ + printed_of(None));
            None
        } else {
            let line = verdict_for(bytes).line(Some(path));
            proof {
                self.printed@ = self.printed@.push(line@);
                assert(self.printed@ =~= run_lines(false, self.paths@, self.inputs@));
                assert(self.printed@ =~= before.printed@ + printed_of(Some(line)));
            }
            Some(line)
        }
    }

    /// Ends the run: in combined mode gives the one line for all targets,
    /// if there was any; in per-file mode gives nothing more.
    pub fn finish(self) -> (r: Option<String>)
        requires
            self.wf(),
        ensures
            self.printed() + printed_of(r) == run_lines(
                self.combined(),
                self.paths(),
                self.inputs(),
            ),
            self.combined() && self.paths().len() > 0 ==> (r matches Some(s) && s@ == line_of(
                verdict_of(self.inputs()),
                None,
            ) && (has_non_ascii(self.inputs().flatten()) ==> s@ != "ASCII"@)),
            self.combined() && self.paths().len() > 0 ==> encoding_label(
                verdict_of(self.inputs()).0,
            ),
            self.combined() && self.paths().len() > 0 ==> (has_non_ascii(self.inputs().flatten())
                <==> verdict_of(self.inputs()).0 != "ASCII"@),
            !(self.combined() && self.paths().len() > 0) ==> r is None,
    {
        let ghost printed = self.printed@;
        if self.combine && self.any {
            let verdict = self.acc.finish();
            let line = verdict.line(None);
            proof {
                reveal_strlit("ASCII");
                reveal_strlit("?");
                if has_non_ascii(self.inputs@.flatten()) && !verdict.confident {
                    assert(line@[0] == '?');
                    assert("ASCII"@[0] == 'A');
                }
            }
            assert(printed + printed_of(Some(line)) =~= run_lines(
                true,
                self.paths@,
                self.inputs@,
            ));
            Some(line)
        } else {
            assert(printed + printed_of(None) =~= run_lines(
                self.combine,
                self.paths@,
                self.inputs@,
            ));
            None
        }
    }
}

/// A stream of 7-bit bytes is reported as "ASCII", without a question mark,
/// whatever the detector would guess and however it was fed.
pub proof fn lemma_ascii_reported_plainly(chunks: Seq<Seq<u8>>, path: Option<Seq<char>>)
    requires
        forall|i: int| 0 <= i < chunks.flatten().len() ==> chunks.flatten()[i] < 0x80,
    ensures
        verdict_of(chunks) == ("ASCII"@, true),
        line_of(verdict_of(chunks), path) == match path {
            Some(p) => "ASCII"@ + "\t"@ + p,
            None => "ASCII"@,
        },
{
}

/// A line starts with `?` exactly when its verdict is unsure, and a line
/// without a path holds no tab, as long as the name is an encoding label.
pub proof fn lemma_line_shape(verdict: (Seq<char>, bool), path: Option<Seq<char>>)
    requires
        encoding_label(verdict.0),
    ensures
        line_of(verdict, path).len() > 0,
        line_of(verdict, path)[0] == '?' <==> !verdict.1,
        path is None ==> forall|i: int|
            0 <= i < line_of(verdict, path).len() ==> #[trigger] line_of(verdict, path)[i]
                != '\t',
{
    reveal_strlit("?");
    reveal_strlit("\t");
    assert(verdict.0[0] != '?');
    if path is None {
        assert forall|i: int| 0 <= i < line_of(verdict, path).len() implies #[trigger] line_of(
            verdict,
            path,
        )[i] != '\t' by {
            if !verdict.1 && i > 0 {
                assert(line_of(verdict, path)[i] == verdict.0[i - 1]);
            }
        }
    } else {
        let p = path->Some_0;
        let head = if verdict.1 { verdict.0 } else { "?"@ + verdict.0 };
        assert(line_of(verdict, path) == head + "\t"@ + p);
        assert(line_of(verdict, path)[0] == head[0]);
    }
}

/// With no direct target and no list, there are no targets, and no mode
/// prints a line.
pub proof fn lemma_no_targets(
    combine: bool,
    files: Seq<Seq<char>>,
    lists: Seq<Seq<Seq<char>>>,
    inputs: Seq<Seq<u8>>,
)
    requires
        files.len() == 0,
        lists.len() == 0,
        inputs.len() == 0,
    ensures
        expanded(files, lists) == Seq::<Seq<char>>::empty(),
        run_lines(combine, expanded(files, lists), inputs) == Seq::<Seq<char>>::empty(),
{
    assert(expanded(files, lists) =~= Seq::<Seq<char>>::empty());
    assert(run_lines(combine, expanded(files, lists), inputs) =~= Seq::<Seq<char>>::empty());
}

/// In per-file mode there is one line per target, in the targets' order,
/// each for that target's bytes and path alone.
pub proof fn lemma_per_file_lines(paths: Seq<Seq<char>>, inputs: Seq<Seq<u8>>)
    requires
        paths.len() == inputs.len(),
    ensures
        run_lines(false, paths, inputs).len() == paths.len(),
        forall|i: int|
            0 <= i < paths.len() ==> #[trigger] run_lines(false, paths, inputs)[i] == line_of(
                verdict_of(seq![inputs[i]]),
                Some(paths[i]),
            ),
{
}

/// In combined mode there is exactly one line as soon as there is a target,
/// for all targets' bytes fed in order.
pub proof fn lemma_combined_one_line(paths: Seq<Seq<char>>, inputs: Seq<Seq<u8>>)
    requires
        paths.len() >= 1,
    ensures
        run_lines(true, paths, inputs).len() == 1,
        run_lines(true, paths, inputs)[0] == line_of(verdict_of(inputs), None),
{
}

/// Splitting a buffer in two, in order, leaves the stream and whether it is
/// ASCII unchanged; for an ASCII stream the verdict is unchanged too. (For
/// other streams the guess is the detector's, which sees the buffers.)
pub proof fn lemma_split_keeps_stream(fed: Seq<Seq<u8>>, a: Seq<u8>, b: Seq<u8>)
    ensures
        fed.push(a).push(b).flatten() == fed.push(a + b).flatten(),
        has_non_ascii(fed.push(a).push(b).flatten()) == has_non_ascii(fed.push(a + b).flatten()),
        !has_non_ascii(fed.push(a + b).flatten()) ==> verdict_of(fed.push(a).push(b))
            == verdict_of(fed.push(a + b)),
{
    fed.lemma_flatten_push(a);
    fed.push(a).lemma_flatten_push(b);
    fed.lemma_flatten_push(a + b);
    assert((fed.flatten() + a) + b =~= fed.flatten() + (a + b));
}

/// A non-ASCII byte anywhere in the combined stream makes the verdict the
/// detector's guess.
pub proof fn lemma_combined_not_ascii(inputs: Seq<Seq<u8>>, k: int, j: int)
    requires
        0 <= k < inputs.len(),
        0 <= j < inputs[k].len(),
        inputs[k][j] >= 0x80,
    ensures
        has_non_ascii(inputs.flatten()),
        verdict_of(inputs) == guess_of(inputs.push(Seq::empty())),
{
    lemma_entry_of_flatten(inputs, k, j);
    let at = inputs.take(k).flatten().len() + j;
    assert(inputs.flatten()[at] >= 0x80);
}

/// Where an entry of a nested sequence lands once it is flattened: after all
/// entries of the earlier inner sequences.
pub proof fn lemma_entry_of_flatten<T>(lists: Seq<Seq<T>>, k: int, j: int)
    requires
        0 <= k < lists.len(),
        0 <= j < lists[k].len(),
    ensures
        lists.take(k).flatten().len() + j < lists.flatten().len(),
        lists.flatten()[lists.take(k).flatten().len() + j] == lists[k][j],
{
    vstd::seq_lib::lemma_flatten_concat(lists.take(k), lists.skip(k));
    assert(lists.take(k) + lists.skip(k) =~= lists);
    let tail = lists.skip(k);
    assert(tail[0] == lists[k]);
    assert(tail.drop_first() =~= lists.skip(k + 1));
    assert(tail.flatten() == tail[0] + tail.drop_first().flatten());
}

/// A target named in a list keeps its place among all targets: after the
/// direct ones and those of the earlier lists. So a sentinel in a list stands
/// for standard input at that very place.
pub proof fn lemma_list_entry_position<T>(files: Seq<T>, lists: Seq<Seq<T>>, k: int, j: int)
    requires
        0 <= k < lists.len(),
        0 <= j < lists[k].len(),
    ensures
        files.len() + lists.take(k).flatten().len() + j < expanded(files, lists).len(),
        expanded(files, lists)[files.len() + lists.take(k).flatten().len() + j] == lists[k][j],
{
    lemma_entry_of_flatten(lists, k, j);
}

} // verus!
