use vstd::prelude::*;
use vstd::arithmetic::div_mod::{lemma_fundamental_div_mod, lemma_fundamental_div_mod_converse};

verus! {

/// Frequency of the tone, in hertz.
pub const TONE_FREQUENCY: u16 = 440;

/// Number of samples per second that the tone is played with unless the
/// audio device asks for another rate.
pub const SAMPLE_RATE: u16 = 44100;

/// Greatest distance of a sample of the tone from zero.
pub const AMPLITUDE: u16 = 30000;

/// The source of the tone's samples: one cycle of a wave, played over and
/// over.
pub struct SpeakersCallback {
    samples: Vec<i16>,
    current_sample: usize,
}

/// What the source holds: the samples of one cycle, and which of them comes
/// next.
pub struct ToneView {
    pub samples: Seq<i16>,
    pub position: int,
}

/// The index of the sample that follows the sample `steps` places after
/// `position`, in a cycle of `len` samples.
pub open spec fn position_after(position: int, steps: int, len: int) -> int {
    (position + steps) % len
}

impl View for SpeakersCallback {
    type V = ToneView;

    closed spec fn view(&self) -> ToneView {
        ToneView {
            samples: self.samples@,
            position: if self.current_sample == self.samples@.len() {
                0
            } else {
                self.current_sample as int
            },
        }
    }
}

impl SpeakersCallback {
    /// There is at least one sample, and the next one is one of them.
    pub closed spec fn wf(&self) -> bool {
        &&& self.samples@.len() > 0
        &&& self.current_sample <= self.samples@.len()
    }

    /// A source that plays `samples` from their start. There has to be at
    /// least one sample.
    pub fn new(samples: Vec<i16>) -> (callback: SpeakersCallback)
        requires
            samples@.len() > 0,
        ensures
            callback.wf(),
            callback@ == (ToneView { samples: samples@, position: 0 }),
    {
        SpeakersCallback { samples, current_sample: 0 }
    }

    /// The next sample. After the last sample of the cycle comes the first
    /// one again.
    pub fn next_sample(&mut self) -> (sample: i16)
        requires
            old(self).wf(),
        ensures
            final(self).wf(),
            sample == old(self)@.samples[old(self)@.position],
            final(self)@ == (ToneView {
                position: position_after(old(self)@.position, 1, old(self)@.samples.len() as int),
                ..old(self)@
            }),
    {
        if self.current_sample == self.samples.len() {
            self.current_sample = 0;
        }
        let sample = self.samples[self.current_sample];
        self.current_sample += 1;
        proof {
            lemma_next_position(old(self)@.position, old(self)@.samples.len() as int);
            lemma_position(old(self)@.position, old(self)@.samples.len() as int);
        }
        sample
    }

    /// The next `length` samples, in the order in which they are to be
    /// played.
    pub fn callback(&mut self, length: usize) -> (out: Vec<i16>)
        requires
            old(self).wf(),
        ensures
            final(self).wf(),
            out@.len() == length,
            forall|k: int|
                0 <= k < length ==> out@[k] == old(self)@.samples[position_after(
                    old(self)@.position,
                    k,
                    old(self)@.samples.len() as int,
                )],
            final(self)@ == (ToneView {
                position: position_after(
                    old(self)@.position,
                    length as int,
                    old(self)@.samples.len() as int,
                ),
                ..old(self)@
            }),
    {
        let mut out: Vec<i16> = Vec::new();
        let mut count: usize = 0;
        proof {
            lemma_position(old(self)@.position, old(self)@.samples.len() as int);
        }
        while count < length
            invariant
                count <= length,
                self.wf(),
                out@.len() == count,
                self@.samples == old(self)@.samples,
                self@.position == position_after(
                    old(self)@.position,
                    count as int,
                    old(self)@.samples.len() as int,
                ),
                forall|k: int|
                    0 <= k < count ==> out@[k] == old(self)@.samples[position_after(
                        old(self)@.position,
                        k,
                        old(self)@.samples.len() as int,
                    )],
            decreases length - count,
        {
            let sample = self.next_sample();
            out.push(sample);
            proof {
                lemma_next_position(
                    old(self)@.position + count,
                    old(self)@.samples.len() as int,
                );
                lemma_position(
                    position_after(
                        old(self)@.position,
                        count as int,
                        old(self)@.samples.len() as int,
                    ),
                    old(self)@.samples.len() as int,
                );
                lemma_next_position(
                    position_after(
                        old(self)@.position,
                        count as int,
                        old(self)@.samples.len() as int,
                    ),
                    old(self)@.samples.len() as int,
                );
            }
            count += 1;
        }
        out
    }
}

/// A position inside the cycle is its own remainder.
proof fn lemma_position(position: int, len: int)
    requires
        0 <= position < len,
    ensures
        position % len == position,
{
    lemma_fundamental_div_mod_converse(position, len, 0, position);
}

/// One step further round the cycle: the remainder goes up by one, and
/// from the last place back to zero.
proof fn lemma_next_position(x: int, len: int)
    requires
        0 <= x,
        0 < len,
    ensures
        0 <= x % len < len,
        (x + 1) % len == (if x % len + 1 == len {
            0
        } else {
            x % len + 1
        }),
{
    lemma_fundamental_div_mod(x, len);
    let q = x / len;
    let r = x % len;
    assert(0 <= r < len) by (nonlinear_arith)
        requires
            r == x % len,
            0 < len,
    ;
    if r + 1 == len {
        assert(x + 1 == (q + 1) * len + 0) by (nonlinear_arith)
            requires
                x == len * q + r,
                r + 1 == len,
        ;
        lemma_fundamental_div_mod_converse(x + 1, len, q + 1, 0);
    } else {
        assert(x + 1 == q * len + (r + 1)) by (nonlinear_arith)
            requires
                x == len * q + r,
        ;
        lemma_fundamental_div_mod_converse(x + 1, len, q, r + 1);
    }
}

} // verus!
