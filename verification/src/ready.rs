//! Finding the device's request for a payload in what it sends.
//!
//! The device asks for the image with three bytes of value 3 in a row, which
//! may stand anywhere in its output, also across two reads.

use vstd::prelude::*;

verus! {

/// The control byte ("end of text") that the ready signal is made of.
pub const READY_BYTE: u8 = 3;

/// How many ready bytes in a row make the signal.
pub const READY_RUN: u8 = 3;

/// Whether three ready bytes stand in `stream` from index `at` on.
pub open spec fn signal_at(stream: Seq<u8>, at: int) -> bool {
    &&& 0 <= at
    &&& at + 3 <= stream.len()
    &&& stream[at] == 3
    &&& stream[at + 1] == 3
    &&& stream[at + 2] == 3
}

/// Whether `stream` holds the ready signal.
pub open spec fn has_ready_signal(stream: Seq<u8>) -> bool {
    exists|at: int| signal_at(stream, at)
}

/// How many ready bytes `stream` ends with.
pub open spec fn trailing_run(stream: Seq<u8>) -> nat
    decreases stream.len(),
{
    if stream.len() > 0 && stream.last() == 3 {
        1 + trailing_run(stream.drop_last())
    } else {
        0
    }
}

/// Watches the device's output for the ready signal.
pub struct ReadyDetector {
    run: u8,
    found: bool,
    heard: Ghost<Seq<u8>>,
}

impl ReadyDetector {
    /// Every byte fed so far, in order.
    pub closed spec fn heard(&self) -> Seq<u8> {
        self.heard@
    }

    /// The detector remembers of the stream what it needs: whether the signal
    /// was in it, and, until then, how many ready bytes it ends with.
    pub closed spec fn wf(&self) -> bool {
        &&& self.found == has_ready_signal(self.heard@)
        &&& !self.found ==> self.run == trailing_run(self.heard@)
        &&& self.run < 3
    }

    /// A detector that has heard nothing.
    pub fn new() -> (detector: ReadyDetector)
        ensures
            detector.wf(),
            detector.heard() == Seq::<u8>::empty(),
    {
        ReadyDetector { run: 0, found: false, heard: Ghost(Seq::empty()) }
    }

    /// Whether the signal has been heard.
    pub fn is_ready(&self) -> (ready: bool)
        requires
            self.wf(),
        ensures
            ready == has_ready_signal(self.heard()),
    {
        self.found
    }

    /// How many ready bytes in a row ended the stream, while the signal has not
    /// been heard; 0 from then on.
    pub fn run(&self) -> (run: u8)
        requires
            self.wf(),
        ensures
            run == if has_ready_signal(self.heard()) {
                0
            } else {
                trailing_run(self.heard())
            },
            run < READY_RUN,
    {
        if self.found {
            0
        } else {
            self.run
        }
    }

    /// Takes the next bytes of the device's output and says whether the signal
    /// has been heard by now.
    pub fn feed(&mut self, bytes: &[u8]) -> (ready: bool)
        requires
            old(self).wf(),
        ensures
            final(self).wf(),
            final(self).heard() == old(self).heard() + bytes@,
            ready == has_ready_signal(final(self).heard()),
    {
        let ghost before = self.heard@;
        let mut run: u8 = self.run;
        let mut found: bool = self.found;
        let mut i: usize = 0;
        assert(before + bytes@.take(0) =~= before);
        while i < bytes.len()
            invariant
                i <= bytes@.len(),
                run < 3,
                found == has_ready_signal(before + bytes@.take(i as int)),
                !found ==> run == trailing_run(before + bytes@.take(i as int)),
            decreases bytes@.len() - i,
        {
            let byte = bytes[i];
            let ghost seen = before + bytes@.take(i as int);
            proof {
                assert(before + bytes@.take(i + 1) =~= seen.push(byte));
                lemma_one_more_byte(seen, byte);
            }
            if !found {
                if byte == READY_BYTE {
                    run = run + 1;
                    if run == READY_RUN {
                        found = true;
                        run = 0;
                    }
                } else {
                    run = 0;
                }
            }
            i += 1;
        }
        assert(bytes@.take(bytes@.len() as int) =~= bytes@);
        self.run = run;
        self.found = found;
        self.heard = Ghost(before + bytes@);
        found
    }
}

/// The last `trailing_run(stream)` bytes of `stream` are ready bytes.
proof fn lemma_trailing_run_bytes(stream: Seq<u8>, back: int)
    requires
        1 <= back <= trailing_run(stream),
    ensures
        back <= stream.len(),
        stream[stream.len() - back] == 3,
    decreases stream.len(),
{
    if back > 1 {
        lemma_trailing_run_bytes(stream.drop_last(), back - 1);
    }
}

/// A stream that ends with `count` ready bytes has a trailing run of at least `count`.
proof fn lemma_trailing_run_at_least(stream: Seq<u8>, count: nat)
    requires
        count <= stream.len(),
        forall|k: int| stream.len() - count <= k < stream.len() ==> stream[k] == 3,
    ensures
        trailing_run(stream) >= count,
    decreases count,
{
    if count > 0 {
        lemma_trailing_run_at_least(stream.drop_last(), (count - 1) as nat);
    }
}

/// What one more byte does to a stream: the signal is in the longer stream if
/// it was in the shorter one, or if the new byte is the third ready byte in a
/// row; and the trailing run grows by one or falls to 0.
pub proof fn lemma_one_more_byte(stream: Seq<u8>, byte: u8)
    ensures
        trailing_run(stream.push(byte)) == if byte == 3 {
            trailing_run(stream) + 1
        } else {
            0
        },
        has_ready_signal(stream.push(byte)) <==> has_ready_signal(stream) || (byte == 3
            && trailing_run(stream) >= 2),
{
    let longer = stream.push(byte);
    assert(longer.drop_last() =~= stream);
    if has_ready_signal(stream) {
        let at = choose|at: int| signal_at(stream, at);
        assert(signal_at(longer, at));
    }
    if byte == 3 && trailing_run(stream) >= 2 {
        lemma_trailing_run_bytes(stream, 1);
        lemma_trailing_run_bytes(stream, 2);
        assert(signal_at(longer, longer.len() - 3));
    }
    if has_ready_signal(longer) && !has_ready_signal(stream) {
        let at = choose|at: int| signal_at(longer, at);
        if at + 3 <= stream.len() {
            assert(signal_at(stream, at));
        } else {
            assert(longer[at + 2] == byte);
            assert(stream[at] == 3 && stream[at + 1] == 3);
            lemma_trailing_run_at_least(stream, 2);
        }
    }
}

/// Once the signal has been heard, nothing that follows takes it back.
pub proof fn lemma_signal_stays(stream: Seq<u8>, more: Seq<u8>)
    requires
        has_ready_signal(stream),
    ensures
        has_ready_signal(stream + more),
{
    let at = choose|at: int| signal_at(stream, at);
    assert(signal_at(stream + more, at));
}

/// The three bytes of `stream` from index `at` on.
pub open spec fn window(stream: Seq<u8>, at: int) -> Seq<u8>
    recommends
        0 <= at,
        at + 3 <= stream.len(),
{
    stream.subrange(at, at + 3)
}

/// The signal is three ready bytes in a row and nothing less: the stream holds
/// it exactly when one of its windows of three bytes is `3, 3, 3`.
pub proof fn lemma_signal_is_a_window(stream: Seq<u8>)
    ensures
        has_ready_signal(stream) <==> exists|at: int|
            0 <= at && at + 3 <= stream.len() && #[trigger] window(stream, at) == seq![
                3u8,
                3u8,
                3u8,
            ],
{
    if has_ready_signal(stream) {
        let at = choose|at: int| signal_at(stream, at);
        assert(window(stream, at) =~= seq![3u8, 3u8, 3u8]);
    }
    if exists|at: int|
        0 <= at && at + 3 <= stream.len() && #[trigger] window(stream, at) == seq![3u8, 3u8, 3u8] {
        let at = choose|at: int|
            0 <= at && at + 3 <= stream.len() && #[trigger] window(stream, at) == seq![
                3u8,
                3u8,
                3u8,
            ];
        let three = window(stream, at);
        assert(three[0] == 3 && three[1] == 3 && three[2] == 3);
        assert(signal_at(stream, at));
    }
}

} // verus!
