//! In-memory ring buffer of the most recent log lines.

use std::collections::VecDeque;
use vstd::prelude::*;

verus! {

/// How many lines a buffer made with `capacity` keeps: a buffer always keeps
/// the line just pushed, so a capacity of zero keeps one line.
pub open spec fn retained(capacity: nat) -> nat {
    if capacity == 0 { 1 } else { capacity }
}

/// The lines kept after `line` is pushed onto `lines`: when the buffer is at
/// (or above) its capacity the oldest line leaves, then `line` is appended.
pub open spec fn push_spec(lines: Seq<String>, capacity: nat, line: String) -> Seq<String> {
    if lines.len() >= capacity && lines.len() > 0 {
        lines.drop_first().push(line)
    } else {
        lines.push(line)
    }
}

/// The lines kept after pushing each of `pushed`, in order, onto `lines`.
pub open spec fn push_all(lines: Seq<String>, capacity: nat, pushed: Seq<String>) -> Seq<String>
    decreases pushed.len(),
{
    if pushed.len() == 0 {
        lines
    } else {
        push_all(push_spec(lines, capacity, pushed[0]), capacity, pushed.drop_first())
    }
}

/// The last `min(n, lines.len())` elements of `lines`, oldest first.
pub open spec fn latest(lines: Seq<String>, n: nat) -> Seq<String> {
    if n >= lines.len() {
        lines
    } else {
        lines.subrange(lines.len() - n, lines.len() as int)
    }
}

proof fn lemma_push_is_latest(lines: Seq<String>, capacity: nat, line: String)
    requires
        lines.len() <= retained(capacity),
    ensures
        push_spec(lines, capacity, line) == latest(lines.push(line), retained(capacity)),
{
    let pushed = lines.push(line);
    if lines.len() >= capacity && lines.len() > 0 {
        assert(pushed.subrange(pushed.len() - retained(capacity), pushed.len() as int)
            =~= lines.drop_first().push(line));
    }
}

proof fn lemma_latest_push(s: Seq<String>, r: nat, line: String)
    requires
        r >= 1,
    ensures
        latest(latest(s, r).push(line), r) == latest(s.push(line), r),
{
    if r < s.len() {
        let kept = s.subrange(s.len() - r, s.len() as int);
        assert(latest(kept.push(line), r) =~= latest(s.push(line), r));
    }
}

proof fn lemma_push_all_from(s: Seq<String>, capacity: nat, pushed: Seq<String>)
    ensures
        push_all(latest(s, retained(capacity)), capacity, pushed) == latest(
            s + pushed,
            retained(capacity),
        ),
    decreases pushed.len(),
{
    let r = retained(capacity);
    if pushed.len() == 0 {
        assert(s + pushed =~= s);
    } else {
        let lines = latest(s, r);
        lemma_push_is_latest(lines, capacity, pushed[0]);
        lemma_latest_push(s, r, pushed[0]);
        lemma_push_all_from(s.push(pushed[0]), capacity, pushed.drop_first());
        assert(s.push(pushed[0]) + pushed.drop_first() =~= s + pushed);
    }
}

/// A buffer keeps exactly the most recent lines: starting from any contents
/// it can hold, pushing a sequence of lines one after another leaves the last
/// `retained(capacity)` lines of everything seen so far, oldest first.
pub proof fn lemma_keeps_most_recent(lines: Seq<String>, capacity: nat, pushed: Seq<String>)
    requires
        lines.len() <= retained(capacity),
    ensures
        push_all(lines, capacity, pushed) == latest(lines + pushed, retained(capacity)),
{
    assert(latest(lines, retained(capacity)) == lines);
    lemma_push_all_from(lines, capacity, pushed);
}

/// Asking for the `n` most recent of the retained lines is asking for the
/// `min(n, retained)` most recent lines overall.
pub proof fn lemma_latest_of_latest(s: Seq<String>, r: nat, n: nat)
    ensures
        latest(latest(s, r), n) == latest(s, if n <= r { n } else { r }),
{
    let m = if n <= r { n } else { r };
    if m < s.len() {
        assert(latest(latest(s, r), n) =~= s.subrange(s.len() - m, s.len() as int));
    }
}

/// What `recent(n)` answers after a sequence of pushes onto a new buffer:
/// the last `min(n, retained(capacity))` lines pushed, oldest first.
pub proof fn lemma_recent_after_pushes(capacity: nat, pushed: Seq<String>, n: nat)
    ensures
        latest(push_all(Seq::empty(), capacity, pushed), n) == latest(
            pushed,
            if n <= retained(capacity) { n } else { retained(capacity) },
        ),
{
    lemma_keeps_most_recent(Seq::empty(), capacity, pushed);
    assert(Seq::<String>::empty() + pushed =~= pushed);
    lemma_latest_of_latest(pushed, retained(capacity), n);
}

/// In-memory ring buffer for recent log lines.
pub struct LogBuffer {
    lines: VecDeque<String>,
    capacity: usize,
    history: Ghost<Seq<String>>,
}

impl View for LogBuffer {
    type V = Seq<String>;

    /// The kept lines, oldest first.
    closed spec fn view(&self) -> Seq<String> {
        self.lines@
    }
}

impl LogBuffer {
    /// The capacity the buffer was made with.
    pub closed spec fn spec_capacity(&self) -> nat {
        self.capacity as nat
    }

    /// Every line ever pushed onto the buffer, oldest first.
    pub closed spec fn spec_history(&self) -> Seq<String> {
        self.history@
    }

    #[verifier::type_invariant]
    spec fn keeps_latest(&self) -> bool {
        &&& self.lines@.len() <= retained(self.capacity as nat)
        &&& self.lines@ == latest(self.history@, retained(self.capacity as nat))
    }

    /// An empty buffer that keeps the `capacity` most recent lines.
    pub fn new(capacity: usize) -> (buffer: Self)
        ensures
            buffer@ == Seq::<String>::empty(),
            buffer.spec_history() == Seq::<String>::empty(),
            buffer.spec_capacity() == capacity,
    {
        LogBuffer {
            lines: VecDeque::with_capacity(capacity),
            capacity,
            history: Ghost(Seq::empty()),
        }
    }

    /// Appends `line` as the newest line, dropping the oldest one when the
    /// buffer is full.
    pub fn push(&mut self, line: String)
        ensures
            final(self).spec_capacity() == old(self).spec_capacity(),
            final(self)@ == push_spec(old(self)@, old(self).spec_capacity(), line),
            final(self)@.len() <= retained(final(self).spec_capacity()),
            final(self).spec_history() == old(self).spec_history().push(line),
            final(self)@ == latest(final(self).spec_history(), retained(final(self).spec_capacity())),
    {
        proof {
            use_type_invariant(&*self);
        }
        let mut buffer = LogBuffer::new(0);
        std::mem::swap(&mut buffer, self);
        proof {
            use_type_invariant(&buffer);
        }
        let LogBuffer { mut lines, capacity, history } = buffer;
        let ghost pushed = history@.push(line);
        proof {
            lemma_push_is_latest(lines@, capacity as nat, line);
            lemma_latest_push(history@, retained(capacity as nat), line);
        }
        if lines.len() >= capacity {
            lines.pop_front();
        }
        lines.push_back(line);
        *self = LogBuffer { lines, capacity, history: Ghost(pushed) };
    }

    /// The `n` most recent lines (all of them when fewer are kept), oldest
    /// first.
    pub fn recent(&self, n: usize) -> (lines: Vec<String>)
        ensures
            lines@ == latest(self@, n as nat),
            lines@ == latest(
                self.spec_history(),
                if n <= retained(self.spec_capacity()) { n as nat } else { retained(self.spec_capacity()) },
            ),
    {
        proof {
            use_type_invariant(self);
        }
        let len = self.lines.len();
        let start = if n >= len { 0 } else { len - n };
        let mut lines: Vec<String> = Vec::new();
        let mut i = start;
        while i < len
            invariant
                start <= i <= len,
                len == self.lines@.len(),
                start == (if n >= len { 0 } else { len - n }),
                lines@ == self.lines@.subrange(start as int, i as int),
            decreases len - i,
        {
            lines.push(self.lines[i].clone());
            i = i + 1;
        }
        proof {
            if n >= len {
                assert(self.lines@.subrange(0, len as int) =~= self.lines@);
            }
            lemma_latest_of_latest(self.history@, retained(self.capacity as nat), n as nat);
        }
        lines
    }

    /// The number of lines kept.
    pub fn len(&self) -> (count: usize)
        ensures
            count == self@.len(),
            count <= retained(self.spec_capacity()),
    {
        proof {
            use_type_invariant(self);
        }
        self.lines.len()
    }
}

} // verus!
