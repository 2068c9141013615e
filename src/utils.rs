use vstd::prelude::*;

verus! {

/// Number of `true` entries in `s`.
pub open spec fn num_true(s: Seq<bool>) -> nat
    decreases s.len(),
{
    if s.len() == 0 {
        0
    } else {
        num_true(s.drop_last()) + if s.last() { 1nat } else { 0nat }
    }
}

/// Counts the `true` entries of a slice.
pub fn count_true(slice: &[bool]) -> (r: usize)
    ensures
        r == num_true(slice@),
{
    let mut n: usize = 0;
    let mut i: usize = 0;
    while i < slice.len()
        invariant
            i <= slice@.len(),
            n == num_true(slice@.take(i as int)),
            n <= i,
        decreases slice@.len() - i,
    {
        proof {
            assert(slice@.take(i as int + 1).drop_last() =~= slice@.take(i as int));
        }
        if slice[i] {
            n = n + 1;
        }
        i = i + 1;
    }
    proof {
        assert(slice@.take(i as int) =~= slice@);
    }
    n
}

} // verus!

verus! {

/// A sequence holds at most its length in `true` entries, and exactly that
/// many only when every entry is `true`.
pub proof fn lemma_num_true_full(s: Seq<bool>)
    ensures
        num_true(s) <= s.len(),
        num_true(s) == s.len() <==> forall|i: int| 0 <= i < s.len() ==> s[i],
    decreases s.len(),
{
    if s.len() > 0 {
        lemma_num_true_full(s.drop_last());
        if num_true(s) == s.len() {
            assert forall|i: int| 0 <= i < s.len() implies s[i] by {
                if i < s.len() - 1 {
                    assert(s.drop_last()[i] == s[i]);
                }
            }
        }
        if forall|i: int| 0 <= i < s.len() ==> s[i] {
            assert forall|i: int| 0 <= i < s.drop_last().len() implies s.drop_last()[i] by {
                assert(s[i]);
            }
        }
    }
}

/// When every entry from index `n` on is `false`, at most `n` entries are
/// `true`, and exactly `n` only when the first `n` all are.
pub proof fn lemma_num_true_prefix(s: Seq<bool>, n: int)
    requires
        0 <= n <= s.len(),
        forall|i: int| n <= i < s.len() ==> !s[i],
    ensures
        num_true(s) <= n,
        num_true(s) == n <==> forall|i: int| 0 <= i < n ==> s[i],
    decreases s.len(),
{
    if s.len() == n {
        lemma_num_true_full(s);
    } else {
        let t = s.drop_last();
        assert forall|i: int| n <= i < t.len() implies !t[i] by {
            assert(t[i] == s[i]);
        }
        lemma_num_true_prefix(t, n);
        assert((forall|i: int| 0 <= i < n ==> s[i]) <==> (forall|i: int| 0 <= i < n ==> t[i])) by {
            assert forall|i: int| 0 <= i < n implies t[i] == s[i] by {}
        }
    }
}

} // verus!

verus! {

/// Shape of an audio buffer: samples per frame and frames per buffer.
#[derive(Clone, Copy, Debug, PartialEq, Eq, Structural)]
pub struct BufferInfo {
    pub frame_length: usize,
    pub frame_capture_size: usize,
}

impl BufferInfo {
    /// Samples that a buffer of this shape holds.
    pub open spec fn size(&self) -> nat {
        (self.frame_length * self.frame_capture_size) as nat
    }

    /// Samples that a buffer of this shape holds.
    pub fn buffer_size(&self) -> (r: usize)
        requires
            self.size() <= usize::MAX,
        ensures
            r == self.size(),
    {
        self.frame_length * self.frame_capture_size
    }
}

/// The domain a processing stage works in.
#[derive(Clone, Copy, Debug, PartialEq, Eq, Structural)]
pub enum Domain {
    FrequencyDomain,
    TimeDomain,
}

impl Domain {
    /// Human-readable name of the domain.
    pub fn name(&self) -> (r: &'static str)
        ensures
            *self == Domain::FrequencyDomain ==> r@ == "Frequency Domain"@,
            *self == Domain::TimeDomain ==> r@ == "Time Domain"@,
    {
        match self {
            Domain::FrequencyDomain => "Frequency Domain",
            Domain::TimeDomain => "Time Domain",
        }
    }
}

/// Audio samples buffered frame by frame, with the shape they were made for.
pub struct AudioBuffer<T> {
    data: Vec<T>,
    info: BufferInfo,
}

impl AudioBuffer<i16> {
    /// A silent buffer of `frame_capture_size` frames of `frame_length` samples.
    pub fn new(frame_length: usize, frame_capture_size: usize) -> (r: AudioBuffer<i16>)
        requires
            frame_length * frame_capture_size <= usize::MAX,
        ensures
            r.info() == (BufferInfo { frame_length, frame_capture_size }),
            r.samples() == Seq::new(r.info().size(), |i: int| 0i16),
    {
        Self::from_info(BufferInfo { frame_length, frame_capture_size })
    }

    /// A silent buffer of the given shape.
    pub fn from_info(info: BufferInfo) -> (r: AudioBuffer<i16>)
        requires
            info.size() <= usize::MAX,
        ensures
            r.info() == info,
            r.samples() == Seq::new(info.size(), |i: int| 0i16),
    {
        let n = info.buffer_size();
        let mut data: Vec<i16> = Vec::new();
        let mut i: usize = 0;
        while i < n
            invariant
                i <= n,
                data@ =~= Seq::new(i as nat, |k: int| 0i16),
            decreases n - i,
        {
            data.push(0i16);
            i = i + 1;
        }
        AudioBuffer { data, info }
    }
}

impl<T> AudioBuffer<T> {
    /// The buffered samples.
    pub closed spec fn samples(&self) -> Seq<T> {
        self.data@
    }

    /// The shape the buffer was made for.
    pub closed spec fn info(&self) -> BufferInfo {
        self.info
    }

    pub fn as_slice(&self) -> (r: &[T])
        ensures
            r@ == self.samples(),
    {
        self.data.as_slice()
    }

    pub fn as_mut_slice(&mut self) -> (r: &mut [T])
        ensures
            r@ == old(self).samples(),
            final(r)@ == final(self).samples(),
            final(self).info() == old(self).info(),
    {
        self.data.as_mut_slice()
    }

    pub fn frame_length(&self) -> (r: usize)
        ensures
            r == self.info().frame_length,
    {
        self.info.frame_length
    }

    pub fn frame_capture_size(&self) -> (r: usize)
        ensures
            r == self.info().frame_capture_size,
    {
        self.info.frame_capture_size
    }

    pub fn buffer_size(&self) -> (r: usize)
        requires
            self.info().size() <= usize::MAX,
        ensures
            r == self.info().size(),
    {
        self.info.buffer_size()
    }

    pub fn buffer_info(&self) -> (r: &BufferInfo)
        ensures
            *r == self.info(),
    {
        &self.info
    }
}

} // verus!
