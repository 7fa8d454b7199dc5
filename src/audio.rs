use vstd::prelude::*;

verus! {

/// Number of interleaved samples the audio buffer retains at most.
pub const MAX_SAMPLES: u32 = 2048;

/// Number of most recent samples that the energy signal looks at.
pub const ENERGY_WINDOW: usize = 512;

/// Channel count of a block of PCM samples.
pub type ProjectMChannels = u32;

pub const MONO: ProjectMChannels = 1;

pub const STEREO: ProjectMChannels = 2;

/// Length of the interleaved stereo stream made from `n` samples of `channels` channels:
/// mono samples are duplicated, a trailing half frame of stereo input is dropped.
pub open spec fn stereo_len(n: nat, channels: u32) -> nat {
    if channels == 1 {
        2 * n
    } else {
        (n - n % 2) as nat
    }
}

/// The interleaved stereo stream that a block of samples contributes.
pub open spec fn stereo_of(s: Seq<i16>, channels: u32) -> Seq<i16> {
    Seq::new(
        stereo_len(s.len(), channels),
        |j: int|
            if channels == 1 {
                s[j / 2]
            } else {
                s[j]
            },
    )
}

/// The last `cap` elements of `s` (all of `s` when it is shorter).
pub open spec fn keep_last(s: Seq<i16>, cap: nat) -> Seq<i16> {
    if s.len() <= cap {
        s
    } else {
        s.subrange(s.len() - cap, s.len() as int)
    }
}

pub open spec fn magnitude(x: i16) -> nat {
    if x < 0 {
        (-x) as nat
    } else {
        x as nat
    }
}

/// Largest magnitude among the samples, 0 for none.
pub open spec fn peak_of(s: Seq<i16>) -> nat
    decreases s.len(),
{
    if s.len() == 0 {
        0
    } else {
        let rest = peak_of(s.drop_last());
        if magnitude(s.last()) > rest {
            magnitude(s.last())
        } else {
            rest
        }
    }
}

/// Converts an unsigned 8-bit sample (silence at 128) to the signed 16-bit scale.
pub open spec fn widen_u8(x: u8) -> i16 {
    ((x as int - 128) * 256) as i16
}

/// Fixed-capacity store of the most recent interleaved stereo samples.
#[derive(Debug)]
pub struct AudioBuffer {
    samples: Vec<i16>,
    capacity: usize,
}

impl View for AudioBuffer {
    type V = Seq<i16>;

    closed spec fn view(&self) -> Seq<i16> {
        self.samples@
    }
}

impl AudioBuffer {
    pub closed spec fn cap(&self) -> nat {
        self.capacity as nat
    }

    pub closed spec fn wf(&self) -> bool {
        &&& self.samples@.len() <= self.capacity
        &&& self.capacity == MAX_SAMPLES
    }

    /// The audio-energy signal: the peak magnitude over the most recent window.
    pub open spec fn energy_spec(&self) -> nat {
        peak_of(keep_last(self@, ENERGY_WINDOW as nat))
    }

    pub fn new() -> (r: AudioBuffer)
        ensures
            r.wf(),
            r@ == Seq::<i16>::empty(),
            r.cap() == MAX_SAMPLES,
    {
        AudioBuffer { samples: Vec::new(), capacity: MAX_SAMPLES as usize }
    }

    pub fn capacity(&self) -> (r: usize)
        ensures
            r == self.cap(),
    {
        self.capacity
    }

    pub fn len(&self) -> (r: usize)
        ensures
            r == self@.len(),
    {
        self.samples.len()
    }

    /// Sample `j` of the stereo stream that `samples` contributes.
    fn stereo_at(samples: &[i16], channels: u32, j: usize) -> (r: i16)
        requires
            channels == 1 || channels == 2,
            j < stereo_len(samples@.len(), channels),
        ensures
            r == stereo_of(samples@, channels)[j as int],
    {
        if channels == 1 {
            samples[j / 2]
        } else {
            samples[j]
        }
    }

    /// Appends a block of samples; only the most recent `cap()` samples are kept.
    pub fn push(&mut self, samples: &[i16], channels: u32)
        requires
            old(self).wf(),
            channels == 1 || channels == 2,
            channels == 1 ==> samples@.len() * 2 <= usize::MAX,
        ensures
            final(self).wf(),
            final(self).cap() == old(self).cap(),
            final(self)@ == keep_last(old(self)@ + stereo_of(samples@, channels), old(self).cap()),
            final(self)@.len() <= final(self).cap(),
            samples@.len() == 0 ==> final(self)@ == old(self)@,
    {
        let ghost incoming = stereo_of(samples@, channels);
        let ghost whole = self@ + incoming;
        let n: usize = if channels == 1 {
            samples.len() * 2
        } else {
            samples.len() - samples.len() % 2
        };
        let cap = self.capacity;
        let old_len = self.samples.len();
        assert(n == incoming.len());
        let mut out: Vec<i16> = Vec::new();
        if n >= cap {
            let mut j: usize = n - cap;
            while j < n
                invariant
                    cap <= n,
                    n - cap <= j <= n,
                    n == incoming.len(),
                    channels == 1 || channels == 2,
                    incoming == stereo_of(samples@, channels),
                    out@ == incoming.subrange(n - cap, j as int),
                decreases n - j,
            {
                let x = Self::stereo_at(samples, channels, j);
                out.push(x);
                j = j + 1;
                assert(out@ =~= incoming.subrange(n - cap, j as int));
            }
            proof {
                assert(whole.len() == old_len + n);
                if whole.len() > cap {
                    assert(out@ =~= whole.subrange(whole.len() - cap, whole.len() as int));
                } else {
                    assert(out@ =~= whole);
                }
            }
        } else {
            let keep: usize = cap - n;
            let mut i: usize = if old_len > keep {
                old_len - keep
            } else {
                0
            };
            let first = i;
            while i < old_len
                invariant
                    first <= i <= old_len,
                    old_len == self.samples@.len(),
                    out@ == self.samples@.subrange(first as int, i as int),
                decreases old_len - i,
            {
                out.push(self.samples[i]);
                i = i + 1;
            }
            let mut j: usize = 0;
            while j < n
                invariant
                    0 <= j <= n,
                    first <= old_len,
                    old_len == self.samples@.len(),
                    n == incoming.len(),
                    channels == 1 || channels == 2,
                    incoming == stereo_of(samples@, channels),
                    out@ == self.samples@.subrange(first as int, old_len as int) + incoming.subrange(0, j as int),
                decreases n - j,
            {
                let x = Self::stereo_at(samples, channels, j);
                out.push(x);
                j = j + 1;
                assert(out@ =~= self.samples@.subrange(first as int, old_len as int) + incoming.subrange(0, j as int));
            }
            assert(out@ =~= keep_last(whole, cap as nat));
        }
        self.samples = out;
        proof {
            if samples@.len() == 0 {
                assert(incoming =~= Seq::<i16>::empty());
                assert(whole =~= old(self)@);
            }
        }
    }

    /// Converts unsigned 8-bit samples and appends them like `push`.
    pub fn push_u8(&mut self, samples: &[u8], channels: u32)
        requires
            old(self).wf(),
            channels == 1 || channels == 2,
            channels == 1 ==> samples@.len() * 2 <= usize::MAX,
        ensures
            final(self).wf(),
            final(self).cap() == old(self).cap(),
            final(self)@ == keep_last(
                old(self)@ + stereo_of(samples@.map_values(|x: u8| widen_u8(x)), channels),
                old(self).cap(),
            ),
            samples@.len() == 0 ==> final(self)@ == old(self)@,
    {
        let mut wide: Vec<i16> = Vec::new();
        let mut i: usize = 0;
        while i < samples.len()
            invariant
                0 <= i <= samples@.len(),
                wide@ == samples@.subrange(0, i as int).map_values(|x: u8| widen_u8(x)),
            decreases samples@.len() - i,
        {
            let x = samples[i];
            let w: i16 = ((x as i32 - 128) * 256) as i16;
            wide.push(w);
            i = i + 1;
            assert(wide@ =~= samples@.subrange(0, i as int).map_values(|x: u8| widen_u8(x)));
        }
        assert(wide@ =~= samples@.map_values(|x: u8| widen_u8(x)));
        self.push(wide.as_slice(), channels);
    }

    /// Up to `n` most recent samples, oldest first; the buffer is not changed.
    pub fn pop_window(&self, n: usize) -> (r: Vec<i16>)
        ensures
            r@ == keep_last(self@, n as nat),
    {
        let len = self.samples.len();
        let mut i: usize = if len > n {
            len - n
        } else {
            0
        };
        let first = i;
        let mut out: Vec<i16> = Vec::new();
        while i < len
            invariant
                first <= i <= len,
                len == self.samples@.len(),
                out@ == self.samples@.subrange(first as int, i as int),
            decreases len - i,
        {
            out.push(self.samples[i]);
            i = i + 1;
        }
        assert(out@ =~= keep_last(self@, n as nat));
        out
    }

    /// The audio-energy signal: peak magnitude of the last `ENERGY_WINDOW` samples.
    pub fn energy(&self) -> (r: u32)
        ensures
            r == self.energy_spec(),
    {
        let window = self.pop_window(ENERGY_WINDOW);
        let mut peak: u32 = 0;
        let mut i: usize = 0;
        while i < window.len()
            invariant
                0 <= i <= window@.len(),
                peak == peak_of(window@.subrange(0, i as int)),
                peak <= 32768,
            decreases window@.len() - i,
        {
            let x = window[i];
            let m: u32 = if x < 0 {
                (-(x as i32)) as u32
            } else {
                x as u32
            };
            proof {
                let s = window@.subrange(0, i as int + 1);
                assert(s.drop_last() =~= window@.subrange(0, i as int));
                assert(s.last() == x);
            }
            if m > peak {
                peak = m;
            }
            i = i + 1;
        }
        assert(window@.subrange(0, window@.len() as int) =~= window@);
        peak
    }
}

/// Over any sequence of pushes the buffer holds the last `cap` samples of everything
/// pushed so far: trimming after each block is the same as trimming the whole history.
pub proof fn buffer_keeps_latest_of_history(history: Seq<i16>, block: Seq<i16>, cap: nat)
    ensures
        keep_last(keep_last(history, cap) + block, cap) == keep_last(history + block, cap),
        keep_last(history + block, cap).len() <= cap,
{
    let kept = keep_last(history, cap);
    let whole = history + block;
    if history.len() > cap {
        let lhs = keep_last(kept + block, cap);
        let rhs = keep_last(whole, cap);
        assert(lhs.len() == rhs.len());
        assert forall|i: int| 0 <= i < lhs.len() implies lhs[i] == rhs[i] by {
            let off = (kept + block).len() - lhs.len();
            let off2 = whole.len() - rhs.len();
            assert(lhs[i] == (kept + block)[off + i]);
            assert(rhs[i] == whole[off2 + i]);
            if off + i < kept.len() {
                assert(kept[off + i] == history[history.len() - cap + off + i]);
            }
        }
        assert(lhs =~= rhs);
    } else {
        assert(kept == history);
    }
}

} // verus!
