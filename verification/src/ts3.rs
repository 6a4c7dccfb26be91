//! What the bot sends to a TeamSpeak server: audio packets and chat replies.

use tsproto_packets::packets::{AudioData, CodecType, OutAudio};
use vstd::prelude::*;

verus! {

/// Who of a server group hears a whisper.
#[derive(Debug, Clone, Copy, PartialEq, Eq, Structural)]
pub enum WhisperScope {
    AllChannels,
    CurrentChannel,
}

impl WhisperScope {
    /// The number that stands for the scope in a packet.
    pub open spec fn wire(self) -> u8 {
        match self {
            WhisperScope::AllChannels => 0,
            WhisperScope::CurrentChannel => 1,
        }
    }

    /// The number that stands for the scope in a packet.
    pub fn wire_value(self) -> (r: u8)
        ensures
            r == self.wire(),
    {
        match self {
            WhisperScope::AllChannels => 0,
            WhisperScope::CurrentChannel => 1,
        }
    }
}

/// Where audio goes.
#[derive(Debug, Clone, Copy, PartialEq, Eq, Structural)]
pub enum PlaybackTarget {
    CurrentChannel,
    ServerGroup { group_id: u64, scope: WhisperScope },
}

/// How the sound in a packet is encoded.
#[derive(Debug, Clone, Copy, PartialEq, Eq, Structural)]
pub enum Codec {
    /// Mono, 48 kHz, made for voice.
    OpusVoice,
}

/// Where an audio packet is sent.
#[derive(Debug, Clone, Copy, PartialEq, Eq, Structural)]
pub enum Route {
    /// To the sender's channel.
    Voice,
    /// To the receivers that the three numbers select.
    Whisper { whisper_type: u8, target: u8, target_id: u64 },
}

/// The eight bytes of `n`, highest first.
pub open spec fn big_endian(n: u64) -> Seq<u8> {
    seq![
        (n / 0x100_0000_0000_0000) as u8,
        (n / 0x1_0000_0000_0000 % 0x100) as u8,
        (n / 0x100_0000_0000 % 0x100) as u8,
        (n / 0x1_0000_0000 % 0x100) as u8,
        (n / 0x100_0000 % 0x100) as u8,
        (n / 0x1_0000 % 0x100) as u8,
        (n / 0x100 % 0x100) as u8,
        (n % 0x100) as u8,
    ]
}

/// The header of a client's packet before it is sent: mac, packet id and client id are zero,
/// and the last byte holds the flags and the packet type.
pub open spec fn client_header(kind: u8) -> Seq<u8> {
    Seq::new(12, |i: int| 0u8).push(kind)
}

/// The number that stands for the codec in a packet.
pub open spec fn codec_byte(codec: Codec) -> u8 {
    match codec {
        Codec::OpusVoice => 4,
    }
}

/// An audio packet of a client: the header, the id of the packet's sound, the codec, whom a
/// whisper is for, and the sound. Voice has packet type 0; a whisper has packet type 1 and the
/// flag for the new protocol, 0x20.
pub open spec fn audio_packet(id: u16, codec: Codec, route: Route, data: Seq<u8>) -> Seq<u8> {
    let front = seq![(id / 0x100) as u8, (id % 0x100) as u8, codec_byte(codec)];
    match route {
        Route::Voice => client_header(0) + front + data,
        Route::Whisper { whisper_type, target, target_id } => client_header(0x21) + front + seq![
            whisper_type,
            target,
        ] + big_endian(target_id) + data,
    }
}

/// The packet that carries `data` to `target`.
pub open spec fn packet_for(target: PlaybackTarget, data: Seq<u8>) -> Seq<u8> {
    audio_packet(
        0,
        Codec::OpusVoice,
        match target {
            PlaybackTarget::CurrentChannel => Route::Voice,
            PlaybackTarget::ServerGroup { group_id, scope } => Route::Whisper {
                whisper_type: 0,
                target: scope.wire(),
                target_id: group_id,
            },
        },
        data,
    )
}

/// `tsproto_packets::packets::OutAudio::new`: the bytes of the packet that it makes of
/// `AudioData::C2S` or `AudioData::C2SWhisperNew` with these contents.
#[verifier::external_body]
fn out_audio(id: u16, codec: Codec, route: Route, data: &[u8]) -> (r: Vec<u8>)
    ensures
        r@ == audio_packet(id, codec, route, data@),
{
    let codec = match codec {
        Codec::OpusVoice => CodecType::OpusVoice,
    };
    let audio = match route {
        Route::Voice => AudioData::C2S { id, codec, data },
        Route::Whisper { whisper_type, target, target_id } => {
            AudioData::C2SWhisperNew { id, codec, whisper_type, target, target_id, data }
        },
    };
    OutAudio::new(&audio).into_vec()
}

/// The packet that carries `data`, one frame of sound, to `target`. An empty frame ends a
/// stream.
pub fn make_packet(target: &PlaybackTarget, data: &[u8]) -> (r: Vec<u8>)
    ensures
        r@ == packet_for(*target, data@),
{
    let route: Route = match *target {
        PlaybackTarget::CurrentChannel => Route::Voice,
        PlaybackTarget::ServerGroup { group_id, scope } => Route::Whisper {
            whisper_type: 0,
            target: scope.wire_value(),
            target_id: group_id,
        },
    };
    out_audio(0, Codec::OpusVoice, route, data)
}

/// A character without width.
pub const ZERO_WIDTH_SPACE: char = '\u{200B}';

/// `text` with a zero-width space behind each colon.
pub open spec fn escaped(text: Seq<char>) -> Seq<char>
    decreases text.len(),
{
    if text.len() == 0 {
        seq![]
    } else if text.last() == ':' {
        escaped(text.drop_last()).push(':').push(ZERO_WIDTH_SPACE)
    } else {
        escaped(text.drop_last()).push(text.last())
    }
}

/// TeamSpeak clients render ':x' sequences as emoticons ("30:00" shows a face in the middle). A
/// zero-width space after each colon breaks the pattern without visible change.
pub fn escape_emoticons(text: &str) -> (r: String)
    ensures
        r@ == escaped(text@),
{
    let mut out: String = String::new();
    for c in iter: text.chars()
        invariant
            out@ == escaped(iter.seq().take(iter.index() as int)),
            iter.seq() == text@,
    {
        proof {
            let seen = iter.seq().take(iter.index() + 1);
            assert(seen.drop_last() == iter.seq().take(iter.index() as int));
            assert(seen.last() == c);
        }
        out.push(c);
        if c == ':' {
            out.push(ZERO_WIDTH_SPACE);
        }
    }
    assert(text@.take(text@.len() as int) == text@);
    out
}

/// In a reply, every colon is followed by a zero-width space.
pub proof fn law_no_emoticon_is_left(text: Seq<char>)
    ensures
        forall|i: int|
            0 <= i < escaped(text).len() && #[trigger] escaped(text)[i] == ':' ==> i + 1
                < escaped(text).len() && escaped(text)[i + 1] == ZERO_WIDTH_SPACE,
    decreases text.len(),
{
    if text.len() > 0 {
        law_no_emoticon_is_left(text.drop_last());
        let rest = escaped(text.drop_last());
        assert forall|i: int|
            0 <= i < escaped(text).len() && #[trigger] escaped(text)[i] == ':' implies i + 1
            < escaped(text).len() && escaped(text)[i + 1] == ZERO_WIDTH_SPACE by {
            if i < rest.len() {
                assert(rest[i] == ':');
                assert(escaped(text)[i + 1] == rest[i + 1]);
            }
        }
    }
}

/// `text` as it is seen: without zero-width spaces.
pub open spec fn visible(text: Seq<char>) -> Seq<char> {
    text.filter(|c: char| c != ZERO_WIDTH_SPACE)
}

/// Escaping changes nothing that can be seen.
pub proof fn law_escaping_is_invisible(text: Seq<char>)
    ensures
        visible(escaped(text)) == visible(text),
    decreases text.len(),
{
    reveal(Seq::filter);
    if text.len() > 0 {
        law_escaping_is_invisible(text.drop_last());
        let rest = escaped(text.drop_last());
        let e = escaped(text);
        if text.last() == ':' {
            assert(e.drop_last() == rest.push(':'));
            assert(e.drop_last().drop_last() == rest);
            assert(visible(e) == visible(e.drop_last()));
            assert(visible(e.drop_last()) == visible(rest).push(':'));
        } else {
            assert(e.drop_last() == rest);
        }
    }
}

/// A packet carries the frame that was given, whole: the sound is what the packet ends with, and
/// in front of it stand 16 bytes for a voice packet and 26 for a whisper.
pub proof fn law_packet_carries_whole_frame(target: PlaybackTarget, data: Seq<u8>)
    ensures
        target is CurrentChannel ==> packet_for(target, data).len() == 16 + data.len(),
        target is ServerGroup ==> packet_for(target, data).len() == 26 + data.len(),
        packet_for(target, data).skip(packet_for(target, data).len() - data.len()) == data,
{
    let packet = packet_for(target, data);
    assert(packet.skip(packet.len() - data.len()) =~= data);
}

/// What stands in front of the sound. The first twelve bytes and the two that number the sound
/// are zero, and the codec is 4. Type and flags tell voice from a whisper; a whisper names the
/// group, highest byte first, and whether it goes to all channels or to the current one.
pub proof fn law_packet_names_target(target: PlaybackTarget, data: Seq<u8>)
    ensures
        ({
            let packet = packet_for(target, data);
            &&& forall|i: int| 0 <= i < 12 ==> #[trigger] packet[i] == 0
            &&& packet[13] == 0 && packet[14] == 0 && packet[15] == 4
            &&& target is CurrentChannel ==> packet[12] == 0
            &&& target matches PlaybackTarget::ServerGroup { group_id, scope } ==> {
                &&& packet[12] == 0x21
                &&& packet[16] == 0
                &&& scope is AllChannels ==> packet[17] == 0
                &&& scope is CurrentChannel ==> packet[17] == 1
                &&& ((((((packet[18] * 256 + packet[19]) * 256 + packet[20]) * 256 + packet[21])
                    * 256 + packet[22]) * 256 + packet[23]) * 256 + packet[24]) * 256 + packet[25]
                    == group_id
            }
        }),
{
}

/// Two packets are the same only if they carry the same sound to the same target.
pub proof fn law_packets_are_told_apart(
    target: PlaybackTarget,
    data: Seq<u8>,
    other: PlaybackTarget,
    other_data: Seq<u8>,
)
    ensures
        packet_for(target, data) == packet_for(other, other_data) <==> target == other && data
            == other_data,
{
    law_packet_carries_whole_frame(target, data);
    law_packet_carries_whole_frame(other, other_data);
    law_packet_names_target(target, data);
    law_packet_names_target(other, other_data);
}

/// Escaping goes character by character: a colon gets a zero-width space behind it, and
/// everything else stays as it is.
pub proof fn law_escaping_goes_by_character(a: Seq<char>, c: char, b: Seq<char>)
    ensures
        escaped(a + b) == escaped(a) + escaped(b),
        escaped(seq![c]) == (if c == ':' {
            seq![':', '\u{200B}']
        } else {
            seq![c]
        }),
        escaped(seq![]) == Seq::<char>::empty(),
    decreases b.len(),
{
    reveal_with_fuel(escaped, 2);
    assert(seq![c].drop_last() =~= Seq::<char>::empty());
    assert(escaped(seq![c]) =~= if c == ':' {
        seq![':', '\u{200B}']
    } else {
        seq![c]
    });
    if b.len() == 0 {
        assert(a + b =~= a);
        assert(escaped(a) + escaped(b) =~= escaped(a));
    } else {
        law_escaping_goes_by_character(a, c, b.drop_last());
        assert((a + b).drop_last() =~= a + b.drop_last());
        assert((a + b).last() == b.last());
        assert(escaped(a + b) =~= escaped(a) + escaped(b));
    }
}

} // verus!
