//! Framing and dispatch: from the bytes of one direction to its packets.
//!
//! A frame is a variable-length count and that many bytes. Behind an
//! optional compression layer it holds a packet id and the packet's fields.
//! The functions here take frames off a buffer, undo the compression layer,
//! find the decoder that the registry names for the id, decode, and let the
//! packet change the session before the next frame is looked at.

use vstd::prelude::*;
use crate::cipher::{advanced, plaintext, Keyed};
use crate::error::DecodeError;
use crate::functions::{all_kinds, get_functions, table, Functions};
use crate::packet::Packet;
use crate::parsable::{Decoded, Parsable};
use crate::serverbound::login::{key_bytes, EncResponse};
use crate::types::{Direction, Session, State, Status, UpdateError};
use crate::wire::{
    counted, counted_extend, counted_round_trip, encode_varint, varint, varint_groups_bounds,
};

verus! {

/// What became of one frame.
#[derive(Clone, Debug)]
pub enum Outcome {
    /// The frame held a packet of a known kind, here decoded.
    Packet(Parsable),
    /// No decoder is registered for this id in the direction and phase. The
    /// frame was skipped.
    UnknownPacket(i32),
    /// The frame's compressed body could not be inflated. The frame was
    /// dropped.
    DecompressionFailure,
    /// The frame's length of uncompressed data, its packet id or one of its
    /// fields could not be decoded. The frame was dropped.
    Malformed(DecodeError),
}

/// What became of one frame, as plain values.
pub enum Report {
    Packet(Decoded),
    UnknownPacket(i32),
    DecompressionFailure,
    Malformed(DecodeError),
}

impl View for Outcome {
    type V = Report;

    open spec fn view(&self) -> Report {
        match *self {
            Outcome::Packet(p) => Report::Packet(p@),
            Outcome::UnknownPacket(id) => Report::UnknownPacket(id),
            Outcome::DecompressionFailure => Report::DecompressionFailure,
            Outcome::Malformed(e) => Report::Malformed(e),
        }
    }
}

/// What the caller hands to the parser.
#[derive(Clone, Debug)]
pub enum Event {
    /// The next chunk of bytes of this direction, as it came off the wire.
    Chunk(Vec<u8>),
    /// The answer to a request for the secret: the base64 text of the key,
    /// or nothing where none could be had.
    Secret(Option<Vec<u8>>),
}

/// What the parser needs next.
#[derive(Clone, Copy, Debug, PartialEq, Eq, Structural)]
pub enum Action {
    /// The buffer holds no complete frame: hand in the next chunk.
    AwaitChunk,
    /// An encryption response was decoded: hand in the secret.
    AwaitSecret,
}

/// The bytes that zlib inflates `data` to, where `data` is a zlib stream.
pub uninterp spec fn zlib_inflated(data: Seq<u8>) -> Option<Seq<u8>>;

/// The body of a frame behind the compression layer. With a threshold of 0
/// there is no such layer. Otherwise the frame starts with the length of the
/// uncompressed data as a variable-length integer: where that is above 0
/// the rest is a zlib stream, else the rest is the body as it stands.
pub open spec fn uncompressed(compress: u32, frame: Seq<u8>) -> Result<Seq<u8>, Report> {
    if compress == 0 {
        Ok(frame)
    } else {
        match varint(frame) {
            Err(e) => Err(Report::Malformed(e)),
            Ok((data_length, rest)) => if data_length > 0 {
                match zlib_inflated(rest) {
                    Some(body) => Ok(body),
                    None => Err(Report::DecompressionFailure),
                }
            } else {
                Ok(rest)
            },
        }
    }
}

/// What the body of a frame comes to: a variable-length packet id, then the
/// fields of the kind that the registry names for the id in this direction
/// and phase.
pub open spec fn dispatched(
    functions: Functions,
    direction: Direction,
    state: State,
    body: Seq<u8>,
) -> Report {
    match varint(body) {
        Err(e) => Report::Malformed(e),
        Ok((id, payload)) => match functions.lookup(direction, state, id) {
            None => Report::UnknownPacket(id),
            Some(kind) => match functions.prototype(kind) {
                None => Report::UnknownPacket(id),
                Some(_) => match Decoded::wire(kind, payload) {
                    Ok(d) => Report::Packet(d),
                    Err(e) => Report::Malformed(e),
                },
            },
        },
    }
}

/// What a frame comes to in the session `session`.
pub open spec fn handled(
    functions: Functions,
    direction: Direction,
    session: Session,
    frame: Seq<u8>,
) -> Report {
    match uncompressed(session.compress, frame) {
        Err(report) => report,
        Ok(body) => dispatched(functions, direction, session.state, body),
    }
}

/// The buffer and the session once a chunk has been taken in: the chunk is
/// decrypted with the cipher of its direction and appended.
pub open spec fn received(
    direction: Direction,
    buffer: Seq<u8>,
    session: Session,
    chunk: Seq<u8>,
) -> (Seq<u8>, Session) {
    match direction {
        Direction::Serverbound => (
            buffer + plaintext(session.server_cipher, chunk),
            Session { server_cipher: advanced(session.server_cipher, chunk), ..session },
        ),
        Direction::Clientbound => (
            buffer + plaintext(session.client_cipher, chunk),
            Session { client_cipher: advanced(session.client_cipher, chunk), ..session },
        ),
    }
}

/// Where the parser stands after it has worked through a buffer.
pub struct Run {
    /// What became of each frame, in the order of the wire.
    pub reports: Seq<Report>,
    /// The bytes that are left: no complete frame, or what follows an
    /// encryption response.
    pub buffer: Seq<u8>,
    /// The session after the packets' changes.
    pub session: Session,
    /// Whether the last packet was an encryption response, whose change
    /// waits for the secret.
    pub awaiting_secret: bool,
}

/// A run with one more report in front.
pub open spec fn after(report: Report, run: Run) -> Run {
    Run { reports: seq![report] + run.reports, ..run }
}

/// Working through a buffer: frame after frame is taken off, decoded and
/// applied to the session, until no complete frame is left or an encryption
/// response asks for the secret.
pub open spec fn drained(
    functions: Functions,
    direction: Direction,
    buffer: Seq<u8>,
    session: Session,
) -> Run
    decreases buffer.len(),
    via drained_decreases
{
    match counted(buffer) {
        Err(_) => Run { reports: Seq::empty(), buffer, session, awaiting_secret: false },
        Ok((frame, rest)) => {
            let report = handled(functions, direction, session, frame);
            match report {
                Report::Packet(Decoded::EncResponse(_)) => Run {
                    reports: seq![report],
                    buffer: rest,
                    session,
                    awaiting_secret: true,
                },
                Report::Packet(d) => after(
                    report,
                    drained(functions, direction, rest, d.updated(session, None)),
                ),
                _ => after(report, drained(functions, direction, rest, session)),
            }
        },
    }
}

#[via_fn]
proof fn drained_decreases(
    functions: Functions,
    direction: Direction,
    buffer: Seq<u8>,
    session: Session,
) {
    frame_shrinks(buffer);
}

/// A frame and what follows it are shorter than the buffer they came from.
pub proof fn frame_shrinks(buffer: Seq<u8>)
    ensures
        counted(buffer) matches Ok((frame, rest)) ==> frame.len() + rest.len() < buffer.len(),
{
    varint_groups_bounds(buffer, 5);
}

/// `miniz_oxide::inflate::decompress_to_vec_zlib`: the bytes that a zlib
/// stream inflates to, and nothing where the bytes are no such stream.
#[verifier::external_body]
fn inflate(data: &[u8]) -> (r: Option<Vec<u8>>)
    ensures
        r is Some <==> zlib_inflated(data@) is Some,
        r matches Some(v) ==> zlib_inflated(data@) == Some(v@),
{
    match miniz_oxide::inflate::decompress_to_vec_zlib(data) {
        Ok(v) => Some(v),
        Err(_) => None,
    }
}

/// Takes the next frame off the buffer. Where the buffer does not hold a
/// complete frame it is left exactly as it was.
pub fn next_frame(data: &mut Packet) -> (r: Result<Packet, DecodeError>)
    ensures
        match counted(old(data)@) {
            Ok((frame, rest)) => r matches Ok(f) && f@ == frame && final(data)@ == rest,
            Err(e) => r matches Err(x) && x == e && final(data)@ == old(data)@,
        },
{
    let o_data: Vec<u8> = data.get_vec();
    let packet_length = match data.decode_varint() {
        Ok(packet_length) => packet_length,
        Err(e) => {
            data.set(o_data);
            return Err(e);
        },
    };
    if packet_length < 0 || data.len() < packet_length as usize {
        data.set(o_data);
        return Err(DecodeError::InsufficientData);
    }
    match data.read(packet_length as usize) {
        Ok(frame) => Ok(Packet::from(frame)),
        Err(e) => Err(e),
    }
}

/// Undoes the compression layer of a frame: with a threshold above 0 it
/// reads the length of the uncompressed data and, where that is above 0,
/// inflates the rest.
pub fn uncompress(compress: u32, frame: Packet) -> (r: Result<Packet, Outcome>)
    ensures
        match uncompressed(compress, frame@) {
            Ok(body) => r matches Ok(p) && p@ == body,
            Err(report) => r matches Err(o) && o@ == report,
        },
{
    if compress == 0 {
        return Ok(frame);
    }
    let mut packet = frame;
    let data_length = match packet.decode_varint() {
        Ok(data_length) => data_length,
        Err(e) => { return Err(Outcome::Malformed(e)); },
    };
    if data_length > 0 {
        match inflate(packet.get_slice()) {
            Some(body) => Ok(Packet::from(body)),
            None => Err(Outcome::DecompressionFailure),
        }
    } else {
        Ok(packet)
    }
}

/// Decodes the body of a frame: reads the packet id, asks the registry for
/// the kind and a fresh packet of it, and decodes the fields.
pub fn dispatch(functions: &Functions, direction: &Direction, state: &State, body: Packet) -> (r:
    Outcome)
    ensures
        r@ == dispatched(*functions, *direction, *state, body@),
{
    let mut packet = body;
    let packet_id = match packet.decode_varint() {
        Ok(packet_id) => packet_id,
        Err(e) => { return Outcome::Malformed(e); },
    };
    let kind = match functions.get_name(direction, state, &packet_id) {
        Some(kind) => *kind,
        None => { return Outcome::UnknownPacket(packet_id); },
    };
    let mut parsed_packet = match functions.get(&kind) {
        Some(func) => func,
        None => { return Outcome::UnknownPacket(packet_id); },
    };
    match parsed_packet.parse_packet(packet) {
        Ok(_) => Outcome::Packet(parsed_packet),
        Err(e) => Outcome::Malformed(e),
    }
}

/// Decodes one frame in the current state of the session.
pub fn handle_frame(
    functions: &Functions,
    direction: &Direction,
    status: &Status,
    frame: Packet,
) -> (r: Outcome)
    ensures
        r@ == handled(*functions, *direction, status@, frame@),
{
    match uncompress(status.compress, frame) {
        Err(outcome) => outcome,
        Ok(body) => dispatch(functions, direction, &status.state, body),
    }
}

/// What a call of the parser gives back.
#[derive(Debug)]
pub struct Progress {
    /// What became of each frame that was worked through, in order.
    pub outcomes: Vec<Outcome>,
    /// Whether a secret that was handed in enabled the ciphers.
    pub update: Result<(), UpdateError>,
    /// What the parser needs next.
    pub next: Action,
}

/// The reports of a list of outcomes.
pub open spec fn reports(outcomes: Seq<Outcome>) -> Seq<Report> {
    outcomes.map_values(|o: Outcome| o@)
}

/// The parser of one direction: its buffer of bytes not yet framed, and the
/// registry it decodes with.
pub struct PacketParser {
    direction: Direction,
    data: Packet,
    functions: Functions,
    awaiting_secret: bool,
}

impl PacketParser {
    /// The direction of the pipe.
    pub closed spec fn direction(&self) -> Direction {
        self.direction
    }

    /// The bytes that have arrived and are not yet framed.
    pub closed spec fn buffer(&self) -> Seq<u8> {
        self.data@
    }

    /// The registry.
    pub closed spec fn functions(&self) -> Functions {
        self.functions
    }

    /// Whether an encryption response waits for the secret.
    pub closed spec fn awaiting_secret(&self) -> bool {
        self.awaiting_secret
    }

    /// A parser for one direction, with an empty buffer and the registry of
    /// every packet that is decoded.
    pub fn new(direction: Direction) -> (r: Self)
        ensures
            r.direction() == direction,
            r.buffer() == Seq::<u8>::empty(),
            r.functions().routes() == table(),
            r.functions().kinds() == all_kinds(),
            !r.awaiting_secret(),
    {
        Self { direction, data: Packet::new(), functions: get_functions(), awaiting_secret: false }
    }

    /// The number of bytes that have arrived and are not yet framed.
    pub fn buffered(&self) -> (r: usize)
        ensures
            r == self.buffer().len(),
    {
        self.data.len()
    }

    /// Whether an encryption response waits for the secret.
    pub fn is_awaiting_secret(&self) -> (r: bool)
        ensures
            r == self.awaiting_secret(),
    {
        self.awaiting_secret
    }

    /// Takes in a chunk: decrypts it with the cipher of this direction and
    /// appends it to the buffer.
    fn receive(&mut self, status: &mut Status, chunk: Vec<u8>)
        ensures
            (final(self).buffer(), final(status)@) == received(
                old(self).direction(),
                old(self).buffer(),
                old(status)@,
                chunk@,
            ),
            final(self).direction() == old(self).direction(),
            final(self).functions() == old(self).functions(),
            final(self).awaiting_secret() == old(self).awaiting_secret(),
    {
        let new_bytes = match self.direction {
            Direction::Serverbound => status.server_cipher.decrypt(chunk),
            Direction::Clientbound => status.client_cipher.decrypt(chunk),
        };
        self.data.push_vec(new_bytes);
    }

    /// Works through the buffer until no complete frame is left or an
    /// encryption response asks for the secret.
    fn drain(&mut self, status: &mut Status) -> (r: Vec<Outcome>)
        ensures
            ({
                let run = drained(
                    old(self).functions(),
                    old(self).direction(),
                    old(self).buffer(),
                    old(status)@,
                );
                &&& reports(r@) == run.reports
                &&& final(self).buffer() == run.buffer
                &&& final(status)@ == run.session
                &&& final(self).awaiting_secret() == run.awaiting_secret
            }),
            final(self).direction() == old(self).direction(),
            final(self).functions() == old(self).functions(),
    {
        let mut outcomes: Vec<Outcome> = Vec::new();
        let ghost goal = drained(self.functions, self.direction, self.data@, status@);
        self.awaiting_secret = false;
        proof {
            assert(reports(outcomes@) == Seq::<Report>::empty());
            assert(Seq::<Report>::empty() + goal.reports == goal.reports);
        }
        while self.data.len() > 0
            invariant_except_break
                !self.awaiting_secret,
                goal == (Run {
                    reports: reports(outcomes@) + drained(
                        self.functions,
                        self.direction,
                        self.data@,
                        status@,
                    ).reports,
                    ..drained(self.functions, self.direction, self.data@, status@)
                }),
            invariant
                self.direction == old(self).direction,
                self.functions == old(self).functions,
            ensures
                goal == (Run {
                    reports: reports(outcomes@),
                    buffer: self.data@,
                    session: status@,
                    awaiting_secret: self.awaiting_secret,
                }),
            decreases self.data@.len(),
        {
            let ghost before = reports(outcomes@);
            let ghost here = drained(self.functions, self.direction, self.data@, status@);
            proof {
                frame_shrinks(self.data@);
            }
            let frame = match next_frame(&mut self.data) {
                Ok(frame) => frame,
                Err(_) => {
                    proof {
                        assert(before + here.reports == before);
                    }
                    break ;
                },
            };
            let outcome = handle_frame(&self.functions, &self.direction, status, frame);
            let ghost report = outcome@;
            let mut asks_secret = false;
            match &outcome {
                Outcome::Packet(parsed_packet) => {
                    match parsed_packet {
                        Parsable::EncResponse(_) => {
                            asks_secret = true;
                        },
                        _ => {
                            if parsed_packet.status_updating() {
                                let _ = parsed_packet.update_status(status, &None);
                            }
                        },
                    }
                },
                _ => {},
            }
            outcomes.push(outcome);
            proof {
                assert(reports(outcomes@) == before + seq![report]);
                let there = drained(self.functions, self.direction, self.data@, status@);
                if asks_secret {
                    assert(before + here.reports == reports(outcomes@));
                } else {
                    assert(before + (seq![report] + there.reports) == reports(outcomes@)
                        + there.reports);
                }
            }
            if asks_secret {
                self.awaiting_secret = true;
                break ;
            }
        }
        proof {
            if self.data@.len() == 0 && !self.awaiting_secret {
                let last = drained(self.functions, self.direction, self.data@, status@);
                assert(reports(outcomes@) + last.reports == reports(outcomes@));
            }
        }
        outcomes
    }

    /// One turn of the parser. It takes in what the caller hands over, works
    /// through the buffer, and says what it needs next.
    ///
    /// A chunk is decrypted and appended. A secret is offered to the ciphers
    /// where an encryption response waits for it. In both cases the frames
    /// in the buffer are then decoded in order, each packet changing the
    /// session before the next frame is looked at. The turn ends when no
    /// complete frame is left, or when an encryption response has been
    /// decoded: its change needs the secret, which the caller fetches. While
    /// the secret is awaited, chunks are taken in but not worked through.
    pub fn packet_parser(&mut self, status: &mut Status, event: Event) -> (r: Progress)
        ensures
            final(self).direction() == old(self).direction(),
            final(self).functions() == old(self).functions(),
            ({
                let start = started(
                    old(self).direction(),
                    old(self).buffer(),
                    old(status)@,
                    old(self).awaiting_secret(),
                    event,
                );
                let run = if start.2 {
                    Run {
                        reports: Seq::empty(),
                        buffer: start.0,
                        session: start.1,
                        awaiting_secret: true,
                    }
                } else {
                    drained(old(self).functions(), old(self).direction(), start.0, start.1)
                };
                &&& reports(r.outcomes@) == run.reports
                &&& final(self).buffer() == run.buffer
                &&& final(status)@ == run.session
                &&& final(self).awaiting_secret() == run.awaiting_secret
                &&& r.next == if run.awaiting_secret {
                    Action::AwaitSecret
                } else {
                    Action::AwaitChunk
                }
            }),
            r.update == match event {
                Event::Secret(secret) if old(self).awaiting_secret() => EncResponse::update_result(
                    key_bytes(secret),
                ),
                _ => Ok(()),
            },
    {
        let mut update: Result<(), UpdateError> = Ok(());
        match event {
            Event::Chunk(chunk) => {
                self.receive(status, chunk);
            },
            Event::Secret(secret) => {
                if self.awaiting_secret {
                    update = EncResponse::empty().update_status(status, &secret);
                    self.awaiting_secret = false;
                }
            },
        }
        if self.awaiting_secret {
            return Progress { outcomes: Vec::new(), update, next: Action::AwaitSecret };
        }
        let outcomes = self.drain(status);
        let next = if self.awaiting_secret {
            Action::AwaitSecret
        } else {
            Action::AwaitChunk
        };
        Progress { outcomes, update, next }
    }
}

/// The buffer, the session and whether the secret is still awaited, once an
/// event has been taken in and before the buffer is worked through.
pub open spec fn started(
    direction: Direction,
    buffer: Seq<u8>,
    session: Session,
    awaiting_secret: bool,
    event: Event,
) -> (Seq<u8>, Session, bool) {
    match event {
        Event::Chunk(chunk) => {
            let (buffer, session) = received(direction, buffer, session, chunk@);
            (buffer, session, awaiting_secret)
        },
        Event::Secret(secret) => if awaiting_secret {
            (buffer, EncResponse::updated(session, key_bytes(secret)), false)
        } else {
            (buffer, session, false)
        },
    }
}

/// The cipher that decrypts the traffic of a direction.
pub open spec fn cipher_of(direction: Direction, session: Session) -> Option<Keyed> {
    match direction {
        Direction::Serverbound => session.server_cipher,
        Direction::Clientbound => session.client_cipher,
    }
}

/// Whether a frame came to a packet that changes the session.
pub open spec fn changes_session(report: Report) -> bool {
    match report {
        Report::Packet(d) => d.mutates(),
        _ => false,
    }
}

/// A frame that is incomplete is left in the buffer; once the rest of it has
/// arrived it is taken off exactly, and what follows it stays.
pub proof fn frame_rollback(frame: Seq<u8>, cut: int, rest: Seq<u8>)
    requires
        frame.len() <= i32::MAX,
    ensures
        ({
            let whole = encode_varint(frame.len() as i32) + frame;
            &&& counted(whole + rest) == Ok::<(Seq<u8>, Seq<u8>), DecodeError>((frame, rest))
            &&& 0 <= cut < whole.len() ==> counted(whole.take(cut)) == Err::<
                (Seq<u8>, Seq<u8>),
                DecodeError,
            >(DecodeError::InsufficientData) && whole.take(cut) + (whole.skip(cut) + rest)
                == whole + rest
        }),
{
    counted_round_trip(frame, cut, rest);
    let whole = encode_varint(frame.len() as i32) + frame;
    if 0 <= cut < whole.len() {
        assert(whole.take(cut) + (whole.skip(cut) + rest) == whole + rest);
    }
}

/// A frame whose id no decoder is registered for is skipped: it is
/// reported, and the session is the same for the frame that follows.
pub proof fn unknown_packet_is_skipped(
    functions: Functions,
    direction: Direction,
    buffer: Seq<u8>,
    session: Session,
)
    requires
        counted(buffer) matches Ok((frame, _)) && handled(functions, direction, session, frame)
            is UnknownPacket,
    ensures
        counted(buffer) matches Ok((frame, rest)) && drained(functions, direction, buffer, session)
            == after(
            handled(functions, direction, session, frame),
            drained(functions, direction, rest, session),
        ),
{
}

/// The session changes only through packets that change it: a run in which
/// no such packet was decoded ends in the session it started in.
pub proof fn session_changes_only_by_packets(
    functions: Functions,
    direction: Direction,
    buffer: Seq<u8>,
    session: Session,
)
    ensures
        ({
            let run = drained(functions, direction, buffer, session);
            (forall|i: int| 0 <= i < run.reports.len() ==> !changes_session(run.reports[i]))
                ==> run.session == session
        }),
    decreases buffer.len(),
{
    let run = drained(functions, direction, buffer, session);
    if let Ok((frame, rest)) = counted(buffer) {
        frame_shrinks(buffer);
        let report = handled(functions, direction, session, frame);
        assert(run.reports[0] == report);
        if !changes_session(report) {
            let tail = drained(functions, direction, rest, session);
            session_changes_only_by_packets(functions, direction, rest, session);
            assert forall|i: int| 0 <= i < tail.reports.len() implies tail.reports[i]
                == run.reports[i + 1] by {}
            if forall|i: int| 0 <= i < run.reports.len() ==> !changes_session(run.reports[i]) {
                assert forall|i: int| 0 <= i < tail.reports.len() implies !changes_session(
                    tail.reports[i],
                ) by {
                    assert(tail.reports[i] == run.reports[i + 1]);
                }
            }
        }
    }
}

/// No packet touches the ciphers while a buffer is worked through: they
/// change only when a chunk is decrypted or a secret is handed in.
pub proof fn drained_keeps_ciphers(
    functions: Functions,
    direction: Direction,
    buffer: Seq<u8>,
    session: Session,
)
    ensures
        ({
            let run = drained(functions, direction, buffer, session);
            &&& run.session.client_cipher == session.client_cipher
            &&& run.session.server_cipher == session.server_cipher
        }),
    decreases buffer.len(),
{
    if let Ok((frame, rest)) = counted(buffer) {
        frame_shrinks(buffer);
        match handled(functions, direction, session, frame) {
            Report::Packet(Decoded::EncResponse(_)) => {},
            Report::Packet(d) => {
                drained_keeps_ciphers(functions, direction, rest, d.updated(session, None));
            },
            _ => {
                drained_keeps_ciphers(functions, direction, rest, session);
            },
        }
    }
}

/// Working through a buffer that arrives in two parts gives what working
/// through the whole of it gives: the same reports in the same order, the
/// same bytes left over and the same session. (Where the first part ends in
/// an encryption response, the second is not looked at before the secret
/// has been handed in, so nothing is said of that case.)
pub proof fn drained_in_two_parts(
    functions: Functions,
    direction: Direction,
    first: Seq<u8>,
    second: Seq<u8>,
    session: Session,
)
    ensures
        ({
            let one = drained(functions, direction, first, session);
            let two = drained(functions, direction, one.buffer + second, one.session);
            !one.awaiting_secret ==> drained(functions, direction, first + second, session) == (Run {
                reports: one.reports + two.reports,
                ..two
            })
        }),
    decreases first.len(),
{
    let one = drained(functions, direction, first, session);
    let two = drained(functions, direction, one.buffer + second, one.session);
    let whole = drained(functions, direction, first + second, session);
    match counted(first) {
        Err(_) => {
            assert(one.reports + two.reports == two.reports);
        },
        Ok((frame, rest)) => {
            frame_shrinks(first);
            counted_extend(first, second);
            let report = handled(functions, direction, session, frame);
            let next = match report {
                Report::Packet(Decoded::EncResponse(_)) => session,
                Report::Packet(d) => d.updated(session, None),
                _ => session,
            };
            if !one.awaiting_secret {
                drained_in_two_parts(functions, direction, rest, second, next);
                let tail = drained(functions, direction, rest, next);
                assert(one == after(report, tail));
                assert(whole == after(report, drained(functions, direction, rest + second, next)));
                assert(seq![report] + (tail.reports + two.reports) == (seq![report] + tail.reports)
                    + two.reports);
            }
        },
    }
}

/// With the cipher of its direction disabled, a stream that is handed in as
/// two chunks gives what it gives when handed in as one.
pub proof fn chunks_can_be_split(
    functions: Functions,
    direction: Direction,
    buffer: Seq<u8>,
    session: Session,
    first: Seq<u8>,
    second: Seq<u8>,
)
    requires
        cipher_of(direction, session) is None,
    ensures
        ({
            let start = received(direction, buffer, session, first);
            let one = drained(functions, direction, start.0, start.1);
            let resumed = received(direction, one.buffer, one.session, second);
            let two = drained(functions, direction, resumed.0, resumed.1);
            let whole = received(direction, buffer, session, first + second);
            !one.awaiting_secret ==> drained(functions, direction, whole.0, whole.1) == (Run {
                reports: one.reports + two.reports,
                ..two
            })
        }),
{
    let start = received(direction, buffer, session, first);
    let one = drained(functions, direction, start.0, start.1);
    drained_keeps_ciphers(functions, direction, start.0, start.1);
    drained_in_two_parts(functions, direction, buffer + first, second, session);
    assert(start.1 == session);
    assert(start.0 == buffer + first);
    assert(received(direction, one.buffer, one.session, second) == (
        one.buffer + second,
        one.session,
    ));
    assert(received(direction, buffer, session, first + second).0 == (buffer + first) + second);
    assert(received(direction, buffer, session, first + second).1 == session);
}

} // verus!
