use vstd::prelude::*;
use crate::log::LogLine;

verus! {

/// The number of lines a job's output keeps unless told otherwise.
pub const DEFAULT_OUTPUT_CAP: usize = 1000;

/// The newest `cap` entries of `s`, in their order; all of `s` when it is no longer.
pub open spec fn newest(s: Seq<LogLine>, cap: nat) -> Seq<LogLine> {
    if s.len() > cap {
        s.subrange(s.len() - cap, s.len() as int)
    } else {
        s
    }
}

/// What a channel holding `s`, with bound `cap`, holds after each of `lines` is appended in turn.
pub open spec fn appended_all(s: Seq<LogLine>, lines: Seq<LogLine>, cap: nat) -> Seq<LogLine>
    decreases lines.len(),
{
    if lines.len() == 0 {
        s
    } else {
        newest(appended_all(s, lines.drop_last(), cap).push(lines.last()), cap)
    }
}

/// An append-only buffer of log lines that drops its oldest line once it would pass its bound.
pub struct OutputChannel {
    lines: Vec<LogLine>,
    cap: usize,
}

impl View for OutputChannel {
    type V = Seq<LogLine>;

    closed spec fn view(&self) -> Seq<LogLine> {
        self.lines@
    }
}

impl OutputChannel {
    /// The most lines the channel holds.
    pub closed spec fn spec_cap(&self) -> nat {
        self.cap as nat
    }

    pub closed spec fn wf(&self) -> bool {
        self.lines@.len() <= self.cap
    }

    /// An empty channel that keeps at most `cap` lines.
    pub fn new(cap: usize) -> (r: OutputChannel)
        ensures
            r.wf(),
            r@ == Seq::<LogLine>::empty(),
            r.spec_cap() == cap,
    {
        OutputChannel { lines: Vec::new(), cap }
    }

    pub fn cap(&self) -> (r: usize)
        ensures
            r == self.spec_cap(),
    {
        self.cap
    }

    pub fn len(&self) -> (r: usize)
        ensures
            r == self@.len(),
            self.wf() ==> r <= self.spec_cap(),
    {
        self.lines.len()
    }

    /// A well-formed channel holds at most its bound.
    pub proof fn lemma_within_cap(&self)
        requires
            self.wf(),
        ensures
            self@.len() <= self.spec_cap(),
    {
    }

    /// Appends `line`; where the channel was full its oldest line leaves.
    pub fn push(&mut self, line: LogLine)
        requires
            old(self).wf(),
        ensures
            final(self).wf(),
            final(self).spec_cap() == old(self).spec_cap(),
            final(self)@ == newest(old(self)@.push(line), old(self).spec_cap()),
    {
        let ghost before = self.lines@.push(line);
        self.lines.push(line);
        if self.lines.len() > self.cap {
            self.lines.remove(0);
            assert(self.lines@ =~= before.subrange(before.len() - self.cap, before.len() as int));
        }
    }

    /// Appends each of `lines` in turn.
    pub fn push_all(&mut self, lines: Vec<LogLine>)
        requires
            old(self).wf(),
        ensures
            final(self).wf(),
            final(self).spec_cap() == old(self).spec_cap(),
            final(self)@ == appended_all(old(self)@, lines@, old(self).spec_cap()),
            final(self)@ == newest(old(self)@ + lines@, old(self).spec_cap()),
    {
        proof {
            lemma_channel_keeps_newest(self@, lines@, self.cap as nat);
        }
        let ghost start = self@;
        let mut i: usize = 0;
        while i < lines.len()
            invariant
                self.wf(),
                self.cap == old(self).cap,
                i <= lines@.len(),
                self@ == appended_all(start, lines@.subrange(0, i as int), self.cap as nat),
            decreases lines@.len() - i,
        {
            let line = lines[i].duplicate();
            proof {
                let t = lines@.subrange(0, i as int + 1);
                assert(t.drop_last() =~= lines@.subrange(0, i as int));
                assert(t.last() == line);
            }
            self.push(line);
            i = i + 1;
        }
        proof {
            assert(lines@.subrange(0, i as int) =~= lines@);
        }
    }

    /// Removes every line.
    pub fn clear(&mut self)
        requires
            old(self).wf(),
        ensures
            final(self).wf(),
            final(self).spec_cap() == old(self).spec_cap(),
            final(self)@ == Seq::<LogLine>::empty(),
    {
        self.lines.clear();
    }

    /// A copy of the lines, oldest first.
    pub fn snapshot(&self) -> (r: Vec<LogLine>)
        ensures
            r@ == self@,
    {
        let mut r: Vec<LogLine> = Vec::new();
        let mut i: usize = 0;
        while i < self.lines.len()
            invariant
                i <= self.lines@.len(),
                r@ == self.lines@.subrange(0, i as int),
            decreases self.lines@.len() - i,
        {
            r.push(self.lines[i].duplicate());
            proof {
                assert(r@ =~= self.lines@.subrange(0, i as int + 1));
            }
            i = i + 1;
        }
        proof {
            assert(self.lines@.subrange(0, i as int) =~= self.lines@);
        }
        r
    }
}

proof fn lemma_newest_of_newest(s: Seq<LogLine>, x: LogLine, cap: nat)
    ensures
        newest(newest(s, cap).push(x), cap) == newest(s.push(x), cap),
{
    if s.len() > cap {
        assert(newest(newest(s, cap).push(x), cap) =~= newest(s.push(x), cap));
    }
}

/// However many lines are appended to a channel, it holds exactly the newest of all the
/// lines it was given, up to its bound, oldest first: it never grows past the bound, and
/// lines leave in the order they came.
pub proof fn lemma_channel_keeps_newest(start: Seq<LogLine>, lines: Seq<LogLine>, cap: nat)
    requires
        start.len() <= cap,
    ensures
        appended_all(start, lines, cap) == newest(start + lines, cap),
        appended_all(start, lines, cap).len() <= cap,
        start.len() + lines.len() >= cap ==> appended_all(start, lines, cap).len() == cap,
        start.len() + lines.len() <= cap ==> appended_all(start, lines, cap) == start + lines,
    decreases lines.len(),
{
    if lines.len() == 0 {
        assert(start + lines =~= start);
    } else {
        lemma_channel_keeps_newest(start, lines.drop_last(), cap);
        lemma_newest_of_newest(start + lines.drop_last(), lines.last(), cap);
        assert((start + lines.drop_last()).push(lines.last()) =~= start + lines);
    }
}

} // verus!
