//! The terminal relay: line-oriented forwarding of a descriptor's output.
//!
//! The relay reads chunks of bytes from the active descriptor and emits
//! complete lines, each stripped of its terminating newline.  Bytes after
//! the last newline of a chunk stay buffered until a later chunk completes
//! the line or the stream ends.  A read that returns zero bytes means end
//! of stream and must terminate the loop for that descriptor — it is never
//! treated as "try again".  Between descriptors the relay waits on the
//! handoff queue.

use vstd::prelude::*;

use crate::descriptor::OwnedDescriptor;

verus! {

/// The byte that terminates a line.
pub const LINE_END: u8 = 10;

/// Whether a byte sequence contains no line terminator.
pub open spec fn line_ok(l: Seq<u8>) -> bool {
    forall|i: int| 0 <= i < l.len() ==> l[i] != LINE_END
}

/// The views of a sequence of byte vectors.
pub open spec fn views_of(ls: Seq<Vec<u8>>) -> Seq<Seq<u8>> {
    ls.map_values(|l: Vec<u8>| l@)
}

/// The byte stream that a sequence of lines came from: each line followed
/// by its terminating newline.
pub open spec fn join_lines(ls: Seq<Seq<u8>>) -> Seq<u8>
    decreases ls.len(),
{
    if ls.len() == 0 {
        Seq::empty()
    } else {
        join_lines(ls.drop_last()) + ls.last() + seq![LINE_END]
    }
}

/// What one relay step asks the surrounding loop to do.
#[derive(Debug)]
pub enum RelayAction {
    /// Forward these complete lines, each without its newline, to the sink.
    EmitLines(Vec<Vec<u8>>),
    /// The stream has ended: stop reading from this descriptor and wait for
    /// the next one on the handoff queue.
    EndOfStream,
}

/// What the wait on the handoff queue decided.
#[derive(Debug)]
pub enum WaitAction {
    /// A descriptor arrived: start relaying from it.
    Attach(OwnedDescriptor),
    /// Nothing arrived yet: keep waiting.
    KeepWaiting,
}

/// Decide what to do with the outcome of one wait on the handoff queue:
/// attach the descriptor that arrived, or keep waiting.
pub fn wait_step(r: Option<OwnedDescriptor>) -> (a: WaitAction)
    ensures
        (match r {
            Some(d) => a == WaitAction::Attach(d),
            None => a == WaitAction::KeepWaiting,
        }),
{
    match r {
        Some(d) => WaitAction::Attach(d),
        None => WaitAction::KeepWaiting,
    }
}

/// The line-splitting state of the relay: the bytes of the current,
/// not yet terminated line.
pub struct LineRelay {
    buf: Vec<u8>,
}

impl LineRelay {
    /// The buffered bytes of the unfinished line.
    pub closed spec fn pending(&self) -> Seq<u8> {
        self.buf@
    }

    /// The buffer never holds a line terminator.
    pub open spec fn wf(&self) -> bool {
        line_ok(self.pending())
    }

    /// A relay with nothing buffered.
    pub fn new() -> (r: LineRelay)
        ensures
            r.pending() == Seq::<u8>::empty(),
            r.wf(),
    {
        let r = LineRelay { buf: Vec::new() };
        proof {
            assert(r.pending() =~= Seq::<u8>::empty());
        }
        r
    }

    /// Split one chunk of the stream into the complete lines it finishes.
    ///
    /// The lines returned, each followed by its newline, together with the
    /// bytes left buffered, are exactly the bytes that were buffered before
    /// plus the chunk; neither the lines nor the new buffer contain a
    /// newline.  These conditions pin the decomposition down uniquely.
    pub fn feed(&mut self, chunk: &Vec<u8>) -> (lines: Vec<Vec<u8>>)
        requires
            old(self).wf(),
        ensures
            final(self).wf(),
            forall|i: int| 0 <= i < lines@.len() ==> line_ok(#[trigger] views_of(lines@)[i]),
            join_lines(views_of(lines@)) + final(self).pending()
                == old(self).pending() + chunk@,
    {
        let mut lines: Vec<Vec<u8>> = Vec::new();
        let mut cur: Vec<u8> = Vec::new();
        core::mem::swap(&mut cur, &mut self.buf);
        proof {
            assert(views_of(lines@) =~= Seq::<Seq<u8>>::empty());
            assert(join_lines(views_of(lines@)) + cur@ =~= old(self).pending() + chunk@.take(0));
        }
        let mut i: usize = 0;
        while i < chunk.len()
            invariant
                0 <= i <= chunk@.len(),
                line_ok(cur@),
                forall|j: int| 0 <= j < lines@.len() ==> line_ok(#[trigger] views_of(lines@)[j]),
                join_lines(views_of(lines@)) + cur@ == old(self).pending() + chunk@.take(i as int),
            decreases chunk@.len() - i,
        {
            let ghost prev_lines = lines@;
            let ghost prev_cur = cur@;
            let b = chunk[i];
            if b == LINE_END {
                let done = cur;
                cur = Vec::new();
                lines.push(done);
                proof {
                    let jp = join_lines(views_of(prev_lines));
                    assert(views_of(lines@) =~= views_of(prev_lines).push(prev_cur));
                    assert(views_of(prev_lines).push(prev_cur).drop_last()
                        =~= views_of(prev_lines));
                    assert(join_lines(views_of(lines@)) == jp + prev_cur + seq![LINE_END]);
                    assert((old(self).pending() + chunk@.take(i as int)) + seq![LINE_END]
                        =~= old(self).pending() + chunk@.take(i as int + 1));
                    assert(cur@ =~= Seq::<u8>::empty());
                    assert((jp + prev_cur + seq![LINE_END]) + cur@
                        =~= jp + prev_cur + seq![LINE_END]);
                    assert(join_lines(views_of(lines@)) + cur@
                        == old(self).pending() + chunk@.take(i as int + 1));
                }
            } else {
                cur.push(b);
                proof {
                    let jp = join_lines(views_of(prev_lines));
                    assert(jp + prev_cur.push(b) =~= (jp + prev_cur).push(b));
                    assert((old(self).pending() + chunk@.take(i as int)).push(b)
                        =~= old(self).pending() + chunk@.take(i as int + 1));
                    assert(join_lines(views_of(lines@)) + cur@
                        == old(self).pending() + chunk@.take(i as int + 1));
                }
            }
            i = i + 1;
        }
        proof {
            assert(chunk@.take(chunk@.len() as int) =~= chunk@);
        }
        self.buf = cur;
        lines
    }

    /// One relay step for one read from the active descriptor: a zero-byte
    /// read ends the stream, anything else is split into complete lines.
    pub fn on_read(&mut self, chunk: &Vec<u8>) -> (a: RelayAction)
        requires
            old(self).wf(),
        ensures
            final(self).wf(),
            chunk@.len() == 0 ==> a is EndOfStream && *final(self) == *old(self),
            chunk@.len() > 0 ==> (a matches RelayAction::EmitLines(lines)
                && (forall|i: int| 0 <= i < lines@.len()
                    ==> line_ok(#[trigger] views_of(lines@)[i]))
                && join_lines(views_of(lines@)) + final(self).pending()
                    == old(self).pending() + chunk@),
    {
        if chunk.len() == 0 {
            RelayAction::EndOfStream
        } else {
            RelayAction::EmitLines(self.feed(chunk))
        }
    }

    /// Give out the unfinished line once the stream has ended, leaving the
    /// relay empty for the next descriptor.
    pub fn finish(&mut self) -> (rest: Option<Vec<u8>>)
        ensures
            final(self).pending() == Seq::<u8>::empty(),
            old(self).pending().len() == 0 ==> rest is None,
            old(self).pending().len() > 0 ==> (rest matches Some(v)
                && v@ == old(self).pending()),
    {
        if self.buf.len() == 0 {
            proof {
                assert(self.pending() =~= Seq::<u8>::empty());
            }
            None
        } else {
            let mut v: Vec<u8> = Vec::new();
            core::mem::swap(&mut v, &mut self.buf);
            proof {
                assert(self.pending() =~= Seq::<u8>::empty());
            }
            Some(v)
        }
    }
}

} // verus!
