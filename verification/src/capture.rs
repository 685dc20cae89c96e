//! Turning captured input into stereo blocks for the mixer.
//!
//! Input arrives interleaved with any number of channels. Each input frame
//! becomes one stereo frame: its first two channels, or its one channel
//! twice. Stereo frames are gathered into blocks of [`CHUNK_FRAMES`] frames
//! (5 ms at 48 kHz); a full block is handed on as an [`AudioBuffer`].
//!
//! Which input device is captured is decided here too.

use crate::audio_buffer::AudioBuffer;
use crate::setup::{contains_text, has_text};
use vstd::prelude::*;

verus! {

/// The lower-case form of `s` that `str::to_lowercase` gives (Unicode's
/// lowercase mapping, character by character, with its rule for a final
/// sigma).
pub uninterp spec fn lowercase_of(s: Seq<char>) -> Seq<char>;

/// `str::to_lowercase`.
#[verifier::external_body]
fn to_lowercase(s: &str) -> (r: String)
    ensures
        r@ == lowercase_of(s@),
{
    s.to_lowercase()
}

/// Whether a lower-case device name names a known virtual loopback device.
pub open spec fn names_loopback(lower: Seq<char>) -> bool {
    ||| contains_text(lower, "perssua"@)
    ||| contains_text(lower, "blackhole"@)
    ||| contains_text(lower, "loopback"@)
    ||| contains_text(lower, "soundflower"@)
}

/// Whether an input device whose name is `name` (`None` where the device
/// could not tell it) is one to capture: its name contains the wanted name,
/// case aside, or, where no name is wanted, it names a loopback device.
pub open spec fn capture_device_matches(name: Option<String>, wanted: Option<String>) -> bool {
    match name {
        None => false,
        Some(n) => match wanted {
            Some(w) => contains_text(lowercase_of(n@), lowercase_of(w@)),
            None => names_loopback(lowercase_of(n@)),
        },
    }
}

fn lower_matches(lower: &str, wanted_lower: &Option<String>) -> (r: bool)
    ensures
        r == match *wanted_lower {
            Some(w) => contains_text(lower@, w@),
            None => names_loopback(lower@),
        },
{
    match wanted_lower {
        Some(w) => has_text(lower, w.as_str()),
        None => has_text(lower, "perssua") || has_text(lower, "blackhole") || has_text(
            lower,
            "loopback",
        ) || has_text(lower, "soundflower"),
    }
}

/// The input device to capture from, among devices named `names` in order:
/// the first whose name contains `wanted`, case aside, or, where no name is
/// wanted, the first that names a virtual loopback device (Perssua,
/// BlackHole, Loopback, Soundflower). `None` where no device matches; the
/// caller then falls back to the default input device when no name was
/// wanted, and fails otherwise.
pub fn select_capture_device(names: &Vec<Option<String>>, wanted: Option<String>) -> (r: Option<
    usize,
>)
    ensures
        match r {
            Some(i) => {
                &&& i < names@.len()
                &&& capture_device_matches(names@[i as int], wanted)
                &&& forall|j: int| 0 <= j < i ==> !capture_device_matches(names@[j], wanted)
            },
            None => forall|j: int|
                0 <= j < names@.len() ==> !capture_device_matches(names@[j], wanted),
        },
{
    let wanted_lower = match &wanted {
        Some(w) => Some(to_lowercase(w.as_str())),
        None => None,
    };
    let ghost wl = wanted_lower;
    assert(match wl {
        Some(l) => wanted is Some && l@ == lowercase_of(wanted->0@),
        None => wanted is None,
    });
    let mut i: usize = 0;
    while i < names.len()
        invariant
            i <= names@.len(),
            wanted_lower == wl,
            match wl {
                Some(l) => wanted is Some && l@ == lowercase_of(wanted->0@),
                None => wanted is None,
            },
            forall|j: int| 0 <= j < i ==> !capture_device_matches(names@[j], wanted),
        decreases names@.len() - i,
    {
        let found = match &names[i] {
            Some(n) => {
                let lower = to_lowercase(n.as_str());
                lower_matches(lower.as_str(), &wanted_lower)
            },
            None => false,
        };
        if found {
            return Some(i);
        }
        i = i + 1;
    }
    None
}

/// Frames per block handed to the mixer.
pub const CHUNK_FRAMES: usize = 240;

/// Samples per block: two channels of [`CHUNK_FRAMES`] frames.
#[verifier::inline]
pub open spec fn chunk_samples() -> int {
    480
}

/// The stereo frame made from one input frame.
pub open spec fn stereo_frame(frame: Seq<u32>) -> Seq<u32> {
    if frame.len() == 0 {
        seq![0u32, 0u32]
    } else if frame.len() == 1 {
        seq![frame[0], frame[0]]
    } else {
        seq![frame[0], frame[1]]
    }
}

/// The length of the first frame of `data` with `channels` channels; the
/// last frame may be cut short.
pub open spec fn first_frame_len(data: Seq<u32>, channels: nat) -> nat {
    if data.len() < channels {
        data.len()
    } else {
        channels
    }
}

/// The stereo samples made from interleaved `data` with `channels` channels,
/// frame by frame.
pub open spec fn stereo_of(data: Seq<u32>, channels: nat) -> Seq<u32>
    decreases data.len(),
{
    if data.len() == 0 || channels == 0 {
        Seq::empty()
    } else {
        let m = first_frame_len(data, channels);
        stereo_frame(data.take(m as int)) + stereo_of(data.skip(m as int), channels)
    }
}

/// Stereo input passes through unchanged: for two-channel input of whole
/// frames, each stereo frame is the input frame's left and right sample.
pub proof fn lemma_stereo_input_unchanged(data: Seq<u32>)
    requires
        data.len() % 2 == 0,
    ensures
        stereo_of(data, 2) == data,
    decreases data.len(),
{
    if data.len() > 0 {
        let rest = data.skip(2);
        lemma_stereo_input_unchanged(rest);
        assert(data.take(2) =~= seq![data[0], data[1]]);
        assert(data.take(2) + rest =~= data);
    }
}

/// Mono input is heard on both sides: each input sample becomes a stereo
/// frame of that sample twice.
pub proof fn lemma_mono_input_doubled(data: Seq<u32>)
    ensures
        stereo_of(data, 1).len() == 2 * data.len(),
        forall|i: int|
            #![trigger data[i]]
            0 <= i < data.len() ==> stereo_of(data, 1)[2 * i] == data[i] && stereo_of(data, 1)[2 * i
                + 1] == data[i],
    decreases data.len(),
{
    if data.len() > 0 {
        let rest = data.skip(1);
        lemma_mono_input_doubled(rest);
        assert(data.take(1) =~= seq![data[0]]);
        let tail = stereo_of(rest, 1);
        assert(stereo_of(data, 1) == seq![data[0], data[0]] + tail);
        assert forall|i: int| #![trigger data[i]] 0 <= i < data.len() implies stereo_of(data, 1)[2
            * i] == data[i] && stereo_of(data, 1)[2 * i + 1] == data[i] by {
            if i > 0 {
                assert(rest[i - 1] == data[i]);
                assert(tail[2 * (i - 1)] == rest[i - 1]);
                assert(tail[2 * (i - 1) + 1] == rest[i - 1]);
            }
        }
    }
}

/// Input with more channels keeps its first two: for `frames` whole frames
/// of `channels >= 2` channels, stereo frame `i` is samples `channels * i`
/// and `channels * i + 1` of the input.
pub proof fn lemma_first_two_channels_kept(data: Seq<u32>, channels: nat, frames: nat)
    requires
        channels >= 2,
        data.len() == channels * frames,
    ensures
        stereo_of(data, channels).len() == 2 * frames,
        forall|i: int|
            #![trigger stereo_of(data, channels)[2 * i]]
            0 <= i < frames ==> stereo_of(data, channels)[2 * i] == data[channels * i]
                && stereo_of(data, channels)[2 * i + 1] == data[channels * i + 1],
    decreases frames,
{
    if frames == 0 {
        assert(channels * frames == 0) by (nonlinear_arith)
            requires
                frames == 0,
        ;
    } else {
        assert(channels * frames == channels * (frames - 1) + channels) by (nonlinear_arith);
        assert(channels * (frames - 1) >= 0) by (nonlinear_arith)
            requires
                frames >= 1,
        ;
        let rest = data.skip(channels as int);
        lemma_first_two_channels_kept(rest, channels, (frames - 1) as nat);
        let first = data.take(channels as int);
        assert(first_frame_len(data, channels) == channels);
        assert(stereo_frame(first) =~= seq![data[0], data[1]]);
        let tail = stereo_of(rest, channels);
        assert(stereo_of(data, channels) == stereo_frame(first) + tail);
        assert forall|i: int|
            #![trigger stereo_of(data, channels)[2 * i]]
            0 <= i < frames implies stereo_of(data, channels)[2 * i] == data[channels * i]
                && stereo_of(data, channels)[2 * i + 1] == data[channels * i + 1] by {
            if i > 0 {
                assert(channels * i == channels * (i - 1) + channels) by (nonlinear_arith);
                assert(channels * (i - 1) + 1 < channels * (frames - 1)) by (nonlinear_arith)
                    requires
                        1 <= i < frames,
                        channels >= 2,
                ;
                assert(channels * (i - 1) >= 0) by (nonlinear_arith)
                    requires
                        1 <= i,
                ;
                assert(tail[2 * (i - 1)] == rest[channels * (i - 1)]);
                assert(tail[2 * (i - 1) + 1] == rest[channels * (i - 1) + 1]);
            } else {
                assert(channels * i == 0) by (nonlinear_arith)
                    requires
                        i == 0,
                ;
            }
        }
    }
}

/// With no name wanted, any device whose lower-case name mentions a known
/// virtual loopback device is one to capture; with a name wanted, a device
/// matches exactly when its lower-case name contains the wanted name's; a
/// device that could not tell its name never matches.
pub proof fn lemma_capture_match_names(name: String, wanted: String)
    ensures
        contains_text(lowercase_of(name@), "perssua"@) ==> capture_device_matches(Some(name), None),
        contains_text(lowercase_of(name@), "blackhole"@) ==> capture_device_matches(
            Some(name),
            None,
        ),
        contains_text(lowercase_of(name@), "loopback"@) ==> capture_device_matches(Some(name), None),
        contains_text(lowercase_of(name@), "soundflower"@) ==> capture_device_matches(
            Some(name),
            None,
        ),
        capture_device_matches(Some(name), Some(wanted)) <==> contains_text(
            lowercase_of(name@),
            lowercase_of(wanted@),
        ),
        !capture_device_matches(None, Some(wanted)),
        !capture_device_matches(None, None),
{
}

/// Gathers stereo frames into blocks.
pub struct StereoAccumulator {
    pending: Vec<u32>,
    sample_rate: u32,
}

impl StereoAccumulator {
    /// The stereo samples gathered towards the next block.
    pub closed spec fn pending_samples(&self) -> Seq<u32> {
        self.pending@
    }

    /// The sample rate given to each block.
    pub closed spec fn rate(&self) -> u32 {
        self.sample_rate
    }

    /// Less than a block is pending, in whole stereo frames.
    pub open spec fn wf(&self) -> bool {
        &&& self.pending_samples().len() < chunk_samples()
        &&& self.pending_samples().len() % 2 == 0
    }

    /// An accumulator with nothing pending, for input at `sample_rate` Hz.
    pub fn new(sample_rate: u32) -> (a: Self)
        ensures
            a.wf(),
            a.pending_samples() == Seq::<u32>::empty(),
            a.rate() == sample_rate,
    {
        StereoAccumulator { pending: Vec::with_capacity(2 * CHUNK_FRAMES), sample_rate }
    }

    /// Takes interleaved input with `input_channels` channels and returns
    /// the blocks it completes, in order. Block `i` holds the samples
    /// `480 * i .. 480 * (i + 1)` of what was pending followed by the
    /// stereo frames of `data`; what is left over stays pending. A completed
    /// block is dropped, not returned, when the rate is 0.
    pub fn push_input(&mut self, data: &[u32], input_channels: usize) -> (blocks: Vec<AudioBuffer>)
        requires
            old(self).wf(),
            input_channels > 0,
        ensures
            ({
                let all = old(self).pending_samples() + stereo_of(data@, input_channels as nat);
                let k = (all.len() as int) / chunk_samples();
                &&& final(self).wf()
                &&& final(self).rate() == old(self).rate()
                &&& final(self).pending_samples() == all.skip(k * chunk_samples())
                &&& blocks@.len() == if old(self).rate() > 0 { k } else { 0 }
                &&& forall|i: int|
                    0 <= i < blocks@.len() ==> {
                        &&& (#[trigger] blocks@[i]).wf()
                        &&& blocks@[i].channel_count() == 2
                        &&& blocks@[i].rate() == old(self).rate()
                        &&& blocks@[i].sample_bits() == all.subrange(
                            i * chunk_samples(),
                            (i + 1) * chunk_samples(),
                        )
                    }
            }),
    {
        let ghost ch = input_channels as nat;
        let ghost start = self.pending@;
        let ghost total = stereo_of(data@, ch);
        let ghost mut produced: Seq<u32> = Seq::empty();
        let ghost mut taken: nat = 0;
        let mut blocks: Vec<AudioBuffer> = Vec::new();
        let n = data.len();
        let mut j: usize = 0;
        assert(data@.skip(0) =~= data@);
        while j < n
            invariant
                n == data@.len(),
                j <= n,
                input_channels > 0,
                ch == input_channels as nat,
                total == stereo_of(data@, ch),
                total == produced + stereo_of(data@.skip(j as int), ch),
                self.pending@.len() < chunk_samples(),
                self.pending@.len() % 2 == 0,
                self.sample_rate == old(self).rate(),
                (start + produced).len() == taken * chunk_samples() + self.pending@.len(),
                self.pending@ == (start + produced).skip(taken * chunk_samples()),
                blocks@.len() == if self.sample_rate > 0 { taken } else { 0 },
                forall|i: int|
                    0 <= i < blocks@.len() ==> {
                        &&& (#[trigger] blocks@[i]).wf()
                        &&& blocks@[i].channel_count() == 2
                        &&& blocks@[i].rate() == self.sample_rate
                        &&& blocks@[i].sample_bits() == (start + produced).subrange(
                            i * chunk_samples(),
                            (i + 1) * chunk_samples(),
                        )
                    },
            decreases n - j,
        {
            let remaining = n - j;
            let frame_len = if remaining < input_channels {
                remaining
            } else {
                input_channels
            };
            let left = data[j];
            let right = if frame_len >= 2 {
                data[j + 1]
            } else {
                data[j]
            };
            proof {
                let rest = data@.skip(j as int);
                assert(first_frame_len(rest, ch) == frame_len);
                assert(rest.take(frame_len as int) =~= data@.subrange(j as int, j + frame_len));
                assert(rest.skip(frame_len as int) =~= data@.skip(j + frame_len));
                assert(stereo_frame(rest.take(frame_len as int)) =~= seq![left, right]);
                assert(total == (produced + seq![left, right]) + stereo_of(
                    data@.skip(j + frame_len),
                    ch,
                ));
            }
            let ghost before = start + produced;
            self.pending.push(left);
            self.pending.push(right);
            proof {
                produced = produced + seq![left, right];
                assert(start + produced =~= before + seq![left, right]);
                assert(self.pending@ =~= (start + produced).skip(taken * chunk_samples()));
                assert((start + produced).len() == taken * chunk_samples() + self.pending@.len());
                assert forall|i: int| #![trigger blocks@[i]] 0 <= i < blocks@.len() implies (start + produced).subrange(
                    i * chunk_samples(),
                    (i + 1) * chunk_samples(),
                ) == before.subrange(i * chunk_samples(), (i + 1) * chunk_samples()) by {
                    assert((start + produced).subrange(i * chunk_samples(), (i + 1) * chunk_samples())
                        =~= before.subrange(i * chunk_samples(), (i + 1) * chunk_samples()));
                }
            }
            if self.pending.len() >= 2 * CHUNK_FRAMES {
                let mut chunk: Vec<u32> = Vec::with_capacity(2 * CHUNK_FRAMES);
                std::mem::swap(&mut chunk, &mut self.pending);
                proof {
                    assert(chunk@.len() == chunk_samples());
                    assert((start + produced).len() == (taken + 1) * chunk_samples());
                    assert(self.pending@ =~= Seq::<u32>::empty());
                    assert(chunk@ =~= (start + produced).subrange(
                        taken * chunk_samples(),
                        (taken + 1) * chunk_samples(),
                    ));
                    assert(chunk@.len() % 2 == 0);
                }
                let made = AudioBuffer::new(chunk, 2, self.sample_rate);
                match made {
                    Ok(block) => {
                        blocks.push(block);
                    },
                    Err(_) => {},
                }
                proof {
                    taken = taken + 1;
                    assert(self.pending@ =~= (start + produced).skip(taken * chunk_samples()));
                }
            }
            j = j + frame_len;
        }
        proof {
            assert(data@.skip(n as int) =~= Seq::<u32>::empty());
            assert(produced =~= total);
            let all = start + total;
            vstd::arithmetic::div_mod::lemma_fundamental_div_mod(all.len() as int, chunk_samples() as int);
            assert((all.len() as int) / chunk_samples() == taken);
        }
        blocks
    }
}

} // verus!
