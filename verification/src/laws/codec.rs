//! The codecs: nothing is lost, and what is measured is what is written.

use crate::broker::handler::{IoEvent, Next, Note, ReadEvent, Session, Step};
use crate::buffer;
use crate::codec::decoder::{Decoded, MqttDecoder, VersionDecoder};
use crate::codec::encoder;
use crate::codec::parse;
use crate::codec::types::{EncodeError, MqttPacket, PacketV3, PacketV5, ServerPacket};
use crate::codec::version::ProtocolVersion;
use crate::codec::wire;
use crate::error::{Error, IoError};
use bytes::BytesMut;
use vstd::prelude::*;

verus! {

/// An attempt on an incomplete packet loses nothing: the next one starts from
/// the same bytes, and from those that arrived since.
pub proof fn law_incomplete_packets_are_kept(
    decoder: MqttDecoder,
    src: BytesMut,
    after: MqttDecoder,
    src_after: BytesMut,
    r: Result<Decoded<(MqttPacket, u32)>, IoError>,
    more: BytesMut,
    arrived: Seq<u8>,
)
    requires
        decoder.took(src, after, src_after, r),
        r matches Ok(Decoded::Insufficient),
        buffer::held(more) == buffer::held(src_after) + arrived,
    ensures
        after.stream(src_after) == decoder.stream(src),
        after.stream(more) == decoder.stream(src) + arrived,
{
}

/// A packet that arrives in two pieces is the packet that arrives in one: the
/// attempt after the second piece yields what an attempt on the whole yields,
/// and leaves what it leaves.
pub proof fn law_pieces_make_a_whole(
    decoder: MqttDecoder,
    src: BytesMut,
    after: MqttDecoder,
    src_after: BytesMut,
    r: Result<Decoded<(MqttPacket, u32)>, IoError>,
    more: BytesMut,
    arrived: Seq<u8>,
    whole: BytesMut,
    last: MqttDecoder,
    last_src: BytesMut,
    last_r: Result<Decoded<(MqttPacket, u32)>, IoError>,
)
    requires
        decoder.took(src, after, src_after, r),
        r matches Ok(Decoded::Insufficient),
        buffer::held(more) == buffer::held(src_after) + arrived,
        buffer::held(whole) == buffer::held(src) + arrived,
        after.took(more, last, last_src, last_r),
    ensures
        decoder.took(whole, last, last_src, last_r),
{
    law_incomplete_packets_are_kept(decoder, src, after, src_after, r, more, arrived);
    assert(decoder.stream(whole) == after.stream(more));
}

/// Packets that were sent in one go are all read: exactly the bytes of a packet
/// are taken, its fixed header and its remaining length, and what follows stays on
/// the stream for the next attempt.
pub proof fn law_pipelined_packets_survive(
    decoder: MqttDecoder,
    src: BytesMut,
    after: MqttDecoder,
    src_after: BytesMut,
    packet: MqttPacket,
    length: u32,
    header: nat,
    rest: nat,
)
    requires
        decoder.took(src, after, src_after, Ok(Decoded::Item((packet, length)))),
        parse::framing(decoder.stream(src)) == parse::Framing::Whole(header, rest),
    ensures
        after.stream(src_after) == decoder.stream(src).skip((header + rest) as int),
        length == rest,
{
    assert(after.header@ + buffer::held(src_after) == buffer::held(src_after));
}

/// A rejection of a whole packet takes its rest away and leaves its fixed header:
/// the bytes behind it are then read as its rest.
pub proof fn law_a_rejected_packet_leaves_its_header(
    decoder: MqttDecoder,
    src: BytesMut,
    after: MqttDecoder,
    src_after: BytesMut,
    e: IoError,
    header: nat,
    rest: nat,
)
    requires
        decoder.took(src, after, src_after, Err(e)),
        parse::framing(decoder.stream(src)) == parse::Framing::Whole(header, rest),
    ensures
        after.stream(src_after) == decoder.stream(src).take(header as int) + decoder.stream(
            src,
        ).skip((header + rest) as int),
{
}

/// A whole packet never waits for more bytes, and a partial one always does: the
/// broker asks for more exactly where there is no whole packet, and bytes that can
/// be no header are rejected at once.
pub proof fn law_whole_packets_do_not_wait(
    decoder: MqttDecoder,
    src: BytesMut,
    after: MqttDecoder,
    src_after: BytesMut,
    r: Result<Decoded<(MqttPacket, u32)>, IoError>,
)
    requires
        decoder.took(src, after, src_after, r),
    ensures
        (r matches Ok(Decoded::Insufficient)) <==> {
            ||| parse::framing(decoder.stream(src)) is NoHeader
            ||| parse::framing(decoder.stream(src)) is Partial
        },
        parse::framing(decoder.stream(src)) is BadHeader ==> r is Err,
{
}

/// What the broker writes is one whole packet: whoever reads its fixed header
/// finds the length of the rest, and nothing behind it.
pub proof fn law_written_packets_are_whole(written: ServerPacket, version: ProtocolVersion)
    ensures
        encoder::wire_form(written, version) matches Ok(bytes) ==> (parse::framing(bytes) matches
            parse::Framing::Whole(header, rest) && header + rest == bytes.len()),
{
    if let Ok(bytes) = encoder::wire_form(written, version) {
        lemma_written_is_framed(written, version);
        let (first, rest) = choose|first: u8, rest: Seq<u8>|
            bytes == #[trigger] wire::frame(first, rest) && rest.len()
                <= wire::MAX_REMAINING_LENGTH;
        lemma_frame_is_whole(first, rest);
    }
}

/// A frame is one whole packet.
pub proof fn lemma_frame_is_whole(first: u8, rest: Seq<u8>)
    requires
        rest.len() <= wire::MAX_REMAINING_LENGTH,
    ensures
        parse::framing(wire::frame(first, rest)) == parse::Framing::Whole(
            1 + wire::var_int(rest.len()).len(),
            rest.len(),
        ),
{
    let n = rest.len();
    reveal_with_fuel(wire::var_int, 4);
    wire::lemma_var_int_len(n);
    let field = wire::var_int(n);
    let bytes = wire::frame(first, rest);
    assert forall|i: int| 0 <= i < field.len() implies bytes[i + 1] == #[trigger] field[i] by {}
    if n < 128 {
        assert(field[0] == n as u8);
    } else if n < 16384 {
        assert(field[0] == (128 + n % 128) as u8);
        assert(field[1] == (n / 128) as u8);
    } else if n < 2097152 {
        assert(field[0] == (128 + n % 128) as u8);
        assert(field[1] == (128 + n / 128 % 128) as u8);
        assert(field[2] == (n / 128 / 128) as u8);
    } else {
        assert(field[0] == (128 + n % 128) as u8);
        assert(field[1] == (128 + n / 128 % 128) as u8);
        assert(field[2] == (128 + n / 128 / 128 % 128) as u8);
        assert(field[3] == (n / 128 / 128 / 128) as u8);
    }
}

/// A wire form is a frame.
proof fn lemma_written_is_framed(written: ServerPacket, version: ProtocolVersion)
    requires
        encoder::wire_form(written, version) is Ok,
    ensures
        exists|first: u8, rest: Seq<u8>|
            encoder::wire_form(written, version)->Ok_0 == #[trigger] wire::frame(first, rest)
                && rest.len() <= wire::MAX_REMAINING_LENGTH,
{
}

/// The first packet of a stream whose version was told is a CONNECT: what the
/// broker then reads is a CONNECT of that version, a rejection, or not enough.
pub proof fn law_the_first_packet_is_connect(
    version: ProtocolVersion,
    seen: Seq<u8>,
    decoder: MqttDecoder,
    src: BytesMut,
    arrived: Seq<u8>,
    after: MqttDecoder,
    src_after: BytesMut,
    r: Result<Decoded<(MqttPacket, u32)>, IoError>,
)
    requires
        VersionDecoder::told(
            seen,
            Ok::<Decoded<ProtocolVersion>, IoError>(Decoded::Item(version)),
        ),
        decoder.version == version,
        decoder.header@.len() == 0,
        buffer::held(src) == seen + arrived,
        decoder.took(src, after, src_after, r),
    ensures
        r matches Ok(Decoded::Item((packet, _))) ==> match version {
            ProtocolVersion::MQTT3 => packet matches MqttPacket::V3(PacketV3::Connect(_)),
            ProtocolVersion::MQTT5 => packet matches MqttPacket::V5(PacketV5::Connect(_)),
        },
{
    assert(decoder.stream(src)[0] == seen[0]);
}

/// A stream that begins with any other packet is rejected before a version is
/// told, and its session ends without a word to the client.
pub proof fn law_other_first_packets_are_rejected(
    seen: Seq<u8>,
    r: Result<Decoded<ProtocolVersion>, IoError>,
    session: Session,
    after: Session,
    step: Step,
)
    requires
        parse::is_other_packet(seen),
        VersionDecoder::told(seen, r),
        session.phase is Detecting,
        r matches Err(e) ==> session.advanced(
            IoEvent::Version(ReadEvent::Failed(e)),
            after,
            step,
        ),
    ensures
        r matches Err(e) && step == (Step {
            note: Some(Note::FirstPacketNotConnect),
            deliver: None,
            next: Next::Finish(Err(Error::Io(e))),
        }),
{
}

/// A variable byte integer determines its number.
pub proof fn law_var_int_is_read_back(m: nat, n: nat)
    requires
        wire::var_int(m) == wire::var_int(n),
    ensures
        m == n,
    decreases m,
{
    if m < 128 {
        assert(wire::var_int(m)[0] == m as u8);
        assert(wire::var_int(n)[0] < 128);
    } else {
        assert(wire::var_int(m)[0] >= 128);
        assert(n >= 128);
        let mt = wire::var_int(m / 128);
        let nt = wire::var_int(n / 128);
        assert(wire::var_int(m).skip(1) == mt);
        assert(wire::var_int(n).skip(1) == nt);
        law_var_int_is_read_back(m / 128, n / 128);
        assert(wire::var_int(m)[0] == (128 + m % 128) as u8);
        assert(wire::var_int(n)[0] == (128 + n % 128) as u8);
    }
}

/// A packet has a wire form under the codec of one version at most.
pub proof fn law_one_version_only(written: ServerPacket)
    ensures
        encoder::wire_form(written, ProtocolVersion::MQTT3) is Err || encoder::wire_form(
            written,
            ProtocolVersion::MQTT5,
        ) == Err::<Seq<u8>, EncodeError>(EncodeError::MalformedPacket),
{
}

} // verus!
