//! The shape of the sound: how many samples a clip has, and how it is cut into frames.

use vstd::prelude::*;

verus! {

/// Samples per second of what is sent.
pub const SAMPLE_RATE: usize = 48_000;

/// Samples in one frame of 20 ms.
pub const SAMPLES_PER_FRAME: usize = 960;

/// What came of asking a media file for its next packet.
#[derive(Debug, Clone, Copy, PartialEq, Eq, Structural)]
pub enum PacketRead {
    /// A packet of this track.
    Packet { track_id: u32 },
    /// The file ends here.
    EndOfFile,
    Failed,
}

/// What is done about it.
#[derive(Debug, Clone, Copy, PartialEq, Eq, Structural)]
pub enum ReadStep {
    Decode,
    Skip,
    Finish,
    Fail,
}

/// What came of decoding a packet.
#[derive(Debug, Clone, Copy, PartialEq, Eq, Structural)]
pub enum Decoding {
    Decoded,
    /// The packet is malformed.
    Malformed,
    Failed,
}

/// What is done about it.
#[derive(Debug, Clone, Copy, PartialEq, Eq, Structural)]
pub enum DecodeStep {
    Take,
    Skip,
    Fail,
}

/// What is done about a packet that was asked for.
pub open spec fn read_step(read: PacketRead, wanted: u32) -> ReadStep {
    match read {
        PacketRead::Packet { track_id } => if track_id == wanted {
            ReadStep::Decode
        } else {
            ReadStep::Skip
        },
        PacketRead::EndOfFile => ReadStep::Finish,
        PacketRead::Failed => ReadStep::Fail,
    }
}

/// Packets of the wanted track are decoded, and those of others are skipped; the end of the file
/// ends the clip; and any other failure is one of the clip.
pub fn after_read(read: PacketRead, wanted: u32) -> (r: ReadStep)
    ensures
        r == (match read {
            PacketRead::Packet { track_id } => if track_id == wanted {
                ReadStep::Decode
            } else {
                ReadStep::Skip
            },
            PacketRead::EndOfFile => ReadStep::Finish,
            PacketRead::Failed => ReadStep::Fail,
        }),
        r == read_step(read, wanted),
{
    match read {
        PacketRead::Packet { track_id } => if track_id == wanted {
            ReadStep::Decode
        } else {
            ReadStep::Skip
        },
        PacketRead::EndOfFile => ReadStep::Finish,
        PacketRead::Failed => ReadStep::Fail,
    }
}

/// Malformed packets, common at the start of MP3 streams, are skipped.
pub fn after_decode(decoding: Decoding) -> (r: DecodeStep)
    ensures
        r == (match decoding {
            Decoding::Decoded => DecodeStep::Take,
            Decoding::Malformed => DecodeStep::Skip,
            Decoding::Failed => DecodeStep::Fail,
        }),
{
    match decoding {
        Decoding::Decoded => DecodeStep::Take,
        Decoding::Malformed => DecodeStep::Skip,
        Decoding::Failed => DecodeStep::Fail,
    }
}

/// How many samples a clip of `len` samples has after it was brought from one rate to another.
pub open spec fn resampled(len: nat, from_rate: u32, to_rate: u32) -> nat {
    len * to_rate as nat / from_rate as nat
}

/// How many samples a clip of `len` samples has after it was brought from one rate to another:
/// its duration stays the same, to the last sample that is complete.
pub fn resampled_len(len: usize, from_rate: u32, to_rate: u32) -> (r: u64)
    requires
        from_rate > 0,
        len * to_rate <= u64::MAX,
    ensures
        r == (len * to_rate) / (from_rate as int),
        r == resampled(len as nat, from_rate, to_rate),
{
    let scaled: u64 = len as u64 * to_rate as u64;
    scaled / from_rate as u64
}

/// Number of frames that `len` samples fill, the last one perhaps in part.
pub open spec fn frame_count(len: nat) -> nat {
    (len + SAMPLES_PER_FRAME - 1) as nat / SAMPLES_PER_FRAME as nat
}

/// Frame `k` of the samples, with silence behind the last of them.
pub open spec fn frame_at<T>(samples: Seq<T>, silence: T, k: int) -> Seq<T> {
    Seq::new(
        SAMPLES_PER_FRAME as nat,
        |i: int|
            if k * SAMPLES_PER_FRAME + i < samples.len() {
                samples[k * SAMPLES_PER_FRAME + i]
            } else {
                silence
            },
    )
}

/// One frame of the samples from `start` on, with silence behind the last of them.
fn cut_frame<T: Copy>(samples: &[T], silence: T, start: usize) -> (r: Vec<T>)
    requires
        start < samples.len(),
    ensures
        r@ == Seq::new(
            SAMPLES_PER_FRAME as nat,
            |i: int|
                if start + i < samples@.len() {
                    samples@[start + i]
                } else {
                    silence
                },
        ),
{
    let mut frame: Vec<T> = Vec::new();
    let mut i: usize = 0;
    while i < SAMPLES_PER_FRAME
        invariant
            i <= SAMPLES_PER_FRAME,
            start < samples.len(),
            frame@ == Seq::new(
                i as nat,
                |j: int|
                    if start + j < samples@.len() {
                        samples@[start + j]
                    } else {
                        silence
                    },
            ),
        decreases SAMPLES_PER_FRAME - i,
    {
        if i < samples.len() - start {
            frame.push(samples[start + i]);
        } else {
            frame.push(silence);
        }
        i += 1;
    }
    frame
}

/// Cuts samples into frames of 20 ms, filling up the last one with silence.
pub fn split_frames<T: Copy>(samples: &[T], silence: T) -> (r: Vec<Vec<T>>)
    ensures
        r@.len() == frame_count(samples@.len()),
        forall|k: int|
            0 <= k < r@.len() ==> (#[trigger] r@[k])@ == frame_at(samples@, silence, k),
{
    let mut frames: Vec<Vec<T>> = Vec::new();
    let mut start: usize = 0;
    while start < samples.len()
        invariant
            start <= samples@.len(),
            start < samples@.len() ==> start == frames@.len() * SAMPLES_PER_FRAME,
            start == samples@.len() ==> frames@.len() == frame_count(samples@.len()),
            forall|k: int|
                0 <= k < frames@.len() ==> (#[trigger] frames@[k])@ == frame_at(
                    samples@,
                    silence,
                    k,
                ),
        decreases samples@.len() - start,
    {
        let frame: Vec<T> = cut_frame(samples, silence, start);
        assert(frame@ == frame_at(samples@, silence, frames@.len() as int));
        frames.push(frame);
        let left: usize = samples.len() - start;
        start =
        if left > SAMPLES_PER_FRAME {
            start + SAMPLES_PER_FRAME
        } else {
            samples.len()
        };
    }
    frames
}

/// No sample is lost and none is played twice: every sample stands in just one place of one
/// frame, in order, and what fills up the last frame is less than a frame.
pub proof fn law_frames_hold_all_samples<T>(samples: Seq<T>, silence: T, i: int)
    requires
        0 <= i < samples.len(),
    ensures
        i / (SAMPLES_PER_FRAME as int) < frame_count(samples.len()),
        frame_at(samples, silence, i / (SAMPLES_PER_FRAME as int))[i % (SAMPLES_PER_FRAME as int)]
            == samples[i],
        frame_count(samples.len()) * SAMPLES_PER_FRAME < samples.len() + SAMPLES_PER_FRAME,
{
}

/// A clip of so many half seconds lasts as many half seconds after it was brought from one even
/// rate to another.
pub proof fn law_resampling_keeps_duration(halves: nat, from_rate: u32, to_rate: u32)
    requires
        from_rate > 0,
        from_rate % 2 == 0,
        to_rate % 2 == 0,
    ensures
        (halves * (from_rate / 2) * to_rate) / (from_rate as int) == halves * (to_rate / 2),
        resampled(halves * (from_rate / 2) as nat, from_rate, to_rate) == halves * (to_rate / 2),
{
    let a = (from_rate / 2) as int;
    let b = (to_rate / 2) as int;
    assert(halves * (from_rate / 2) * to_rate == (halves * b) * from_rate) by (nonlinear_arith)
        requires
            a == (from_rate / 2) as int,
            b == (to_rate / 2) as int,
            from_rate == 2 * a,
            to_rate == 2 * b,
    ;
    vstd::arithmetic::div_mod::lemma_div_by_multiple(halves * b, from_rate as int);
}

/// A packet is decoded just if it is one of the wanted track; the clip ends just at the end of
/// the file, and fails just if reading failed.
pub proof fn law_wanted_packets_are_decoded(read: PacketRead, wanted: u32)
    ensures
        read_step(read, wanted) is Decode <==> read == (PacketRead::Packet { track_id: wanted }),
        read_step(read, wanted) is Finish <==> read is EndOfFile,
        read_step(read, wanted) is Fail <==> read is Failed,
{
}

/// Every frame has 960 samples; the frames hold all samples and less than a frame more; and what
/// stands behind the last sample is silence.
pub proof fn law_frames_are_filled_up_with_silence<T>(
    samples: Seq<T>,
    silence: T,
    frame: int,
    place: int,
)
    requires
        0 <= frame < frame_count(samples.len()),
        0 <= place < 960,
    ensures
        frame_at(samples, silence, frame).len() == 960,
        samples.len() <= frame_count(samples.len()) * 960 < samples.len() + 960,
        frame * 960 + place < samples.len() ==> frame_at(samples, silence, frame)[place]
            == samples[frame * 960 + place],
        frame * 960 + place >= samples.len() ==> frame_at(samples, silence, frame)[place]
            == silence,
        frame_count(0) == 0,
{
}

/// A resampled clip is as long as before, to the last sample that is complete: it does not last
/// longer, and with one sample more it would.
pub proof fn law_resampled_clip_lasts_as_long(len: nat, from_rate: u32, to_rate: u32)
    requires
        from_rate > 0,
    ensures
        resampled(len, from_rate, to_rate) * from_rate <= len * to_rate < (resampled(
            len,
            from_rate,
            to_rate,
        ) + 1) * from_rate,
{
    vstd::arithmetic::div_mod::lemma_fundamental_div_mod((len * to_rate) as int, from_rate as int);
    let r = resampled(len, from_rate, to_rate) as int;
    assert(r * from_rate + from_rate == (r + 1) * from_rate) by (nonlinear_arith);
    assert(from_rate * r == r * from_rate) by (nonlinear_arith);
}

} // verus!
