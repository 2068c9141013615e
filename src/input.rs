use vstd::prelude::*;
use crate::utils::BufferInfo;

verus! {

/// Capture rate of the audio host, in frames per second.
pub const CAPTURE_FRAME_RATE: u32 = 100;

/// Rate at which buffers are handed on, in buffers per second.
pub const DISPLAY_FRAME_RATE: u32 = 50;

/// Errors of an audio input source.
#[derive(Debug)]
pub enum InputSourceError {
    /// No input device is currently selected.
    NoDeviceSelected,
    /// No input stream was built.
    NoStream,
    /// A stereo stream was asked for, but the device has no stereo channel.
    NoStereoChannel,
}

/// Describes an input device, to decide which one to use.
#[derive(Debug)]
pub struct DeviceInfo {
    /// The position of the device in the host's list.
    pub position: usize,
    /// Display name of the device.
    pub name: String,
    /// Number of channels of the device.
    pub channels: u16,
    /// Sample rate of the device, in samples per second.
    pub sample_rate: u32,
    /// Whether this is the host's default input device.
    pub standard: bool,
}

/// The description of the device at `position`; it is the standard device
/// when its name is the default device's name.
pub fn device_info(position: usize, name: String, channels: u16, sample_rate: u32, default_name: &Option<String>)
    -> (r: DeviceInfo)
    ensures
        r.position == position,
        r.name@ == name@,
        r.channels == channels,
        r.sample_rate == sample_rate,
        r.standard == (default_name matches Some(d) && d@ == name@),
{
    let standard = match default_name {
        Some(d) => *d == name,
        None => false,
    };
    DeviceInfo { position, name, channels, sample_rate, standard }
}

/// A device's name, or `<Unknown>` when the host could not tell it.
pub fn safe_name(name: Option<String>) -> (r: String)
    ensures
        name matches Some(n) ==> r@ == n@,
        name is None ==> r@ == "<Unknown>"@,
{
    match name {
        Some(n) => n,
        None => {
            proof {
                reveal_strlit("<Unknown>");
            }
            "<Unknown>".to_string()
        },
    }
}

/// The buffer shape for a device's sample rate: a frame holds one capture
/// period of samples, and a buffer holds the frames of one display period.
pub fn buffer_info_for_rate(sample_rate: u32) -> (r: BufferInfo)
    ensures
        r.frame_length == sample_rate / CAPTURE_FRAME_RATE,
        r.frame_capture_size == CAPTURE_FRAME_RATE / DISPLAY_FRAME_RATE,
        r.frame_capture_size == 2,
{
    BufferInfo {
        frame_length: (sample_rate / CAPTURE_FRAME_RATE) as usize,
        frame_capture_size: (CAPTURE_FRAME_RATE / DISPLAY_FRAME_RATE) as usize,
    }
}

/// The mono buffer after one stereo callback: the left samples (even
/// positions) of `data` replace the first or second frame of `buffer`, as far
/// as `data` reaches.
pub open spec fn mono_filled<T>(buffer: Seq<T>, frame_length: nat, second: bool, data: Seq<T>) -> Seq<T> {
    let base = if second {
        frame_length as int
    } else {
        0
    };
    Seq::new(
        buffer.len(),
        |k: int|
            if base <= k < base + frame_length && 2 * (k - base) < data.len() {
                data[2 * (k - base)]
            } else {
                buffer[k]
            },
    )
}

/// Builds mono buffers of two frames out of interleaved stereo callbacks:
/// the first callback fills the first frame, the second callback the second
/// frame and completes the buffer.
pub struct MonoFramer<T> {
    buffer: Vec<T>,
    frame_length: usize,
    second: bool,
}

impl<T: Copy> MonoFramer<T> {
    /// The buffered mono samples.
    pub closed spec fn samples(&self) -> Seq<T> {
        self.buffer@
    }

    /// Samples per frame.
    pub closed spec fn spec_frame_length(&self) -> nat {
        self.frame_length as nat
    }

    /// Whether the next callback fills the second frame.
    pub closed spec fn awaits_second(&self) -> bool {
        self.second
    }

    /// A framer whose two frames start out as `fill`.
    pub fn new(frame_length: usize, fill: T) -> (r: MonoFramer<T>)
        requires
            2 * frame_length <= usize::MAX,
        ensures
            r.samples() == Seq::new(2 * frame_length as nat, |k: int| fill),
            r.spec_frame_length() == frame_length,
            !r.awaits_second(),
    {
        let mut buffer: Vec<T> = Vec::new();
        let mut i: usize = 0;
        while i < 2 * frame_length
            invariant
                2 * frame_length <= usize::MAX,
                i <= 2 * frame_length,
                buffer@ =~= Seq::new(i as nat, |k: int| fill),
            decreases 2 * frame_length - i,
        {
            buffer.push(fill);
            i = i + 1;
        }
        MonoFramer { buffer, frame_length, second: false }
    }

    /// Takes one stereo callback's samples. Returns the completed mono buffer
    /// after the second frame, `None` after the first.
    pub fn push(&mut self, data: &[T]) -> (r: Option<Vec<T>>)
        requires
            old(self).samples().len() == 2 * old(self).spec_frame_length(),
        ensures
            final(self).samples() == mono_filled(
                old(self).samples(),
                old(self).spec_frame_length(),
                old(self).awaits_second(),
                data@,
            ),
            final(self).samples().len() == 2 * final(self).spec_frame_length(),
            final(self).spec_frame_length() == old(self).spec_frame_length(),
            final(self).awaits_second() == !old(self).awaits_second(),
            old(self).awaits_second() ==> (r matches Some(b) && b@ == final(self).samples()),
            !old(self).awaits_second() ==> r is None,
    {
        let base: usize = if self.second {
            self.frame_length
        } else {
            0
        };
        let ghost before = self.buffer@;
        let n = self.buffer.len();
        let mut k: usize = 0;
        while k < self.frame_length && 2 * k < data.len()
            invariant
                k <= self.frame_length,
                k > 0 ==> 2 * (k - 1) < data@.len(),
                n == 2 * self.frame_length,
                self.buffer@.len() == before.len() == 2 * self.frame_length,
                base == if self.second { self.frame_length } else { 0 },
                self.frame_length == old(self).frame_length,
                self.second == old(self).second,
                before == old(self).buffer@,
                forall|i: int|
                    0 <= i < before.len() ==> #[trigger] self.buffer@[i] == if base <= i < base + k {
                        data@[2 * (i - base)]
                    } else {
                        before[i]
                    },
            decreases self.frame_length - k,
        {
            self.buffer.set(base + k, data[2 * k]);
            k = k + 1;
        }
        proof {
            let m = mono_filled(before, self.frame_length as nat, self.second, data@);
            assert forall|i: int| 0 <= i < before.len() implies self.buffer@[i] == m[i] by {
                if base + k <= i < base + self.frame_length {
                    assert(2 * (i - base) >= data@.len());
                }
            }
            assert(self.buffer@ =~= m);
        }
        let done = self.second;
        self.second = !self.second;
        if done {
            let mut out: Vec<T> = Vec::new();
            let mut i: usize = 0;
            while i < self.buffer.len()
                invariant
                    i <= self.buffer@.len(),
                    out@ =~= self.buffer@.subrange(0, i as int),
                decreases self.buffer@.len() - i,
            {
                out.push(self.buffer[i]);
                i = i + 1;
            }
            proof {
                assert(out@ =~= self.buffer@);
            }
            Some(out)
        } else {
            None
        }
    }
}

} // verus!
