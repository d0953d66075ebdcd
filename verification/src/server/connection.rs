//! What a connection says and decides, apart from the socket: the
//! greeting it opens with, and what becomes of each line it reads.

use crate::packet::{parse_spec, Packet, PacketError, PacketType, PacketView};
use crate::text::{push_char, views};
use rand::Rng;
use vstd::prelude::*;

verus! {

/// `rand::rngs::ThreadRng`, carried as it is: nothing is known of its state.
#[verifier::external_type_specification]
#[verifier::external_body]
pub struct ExThreadRng(rand::rngs::ThreadRng);

/// The number of characters of a token.
pub const TOKEN_LENGTH: usize = 22;

/// The version of the protocol that the server announces.
pub const PROTOCOL_VERSION: &'static str = "VATSIM FSD V3.13";

/// The lower-case hexadecimal digit of `n`, for `n` below 16.
pub open spec fn hex_char(n: int) -> char {
    if n == 0 {
        '0'
    } else if n == 1 {
        '1'
    } else if n == 2 {
        '2'
    } else if n == 3 {
        '3'
    } else if n == 4 {
        '4'
    } else if n == 5 {
        '5'
    } else if n == 6 {
        '6'
    } else if n == 7 {
        '7'
    } else if n == 8 {
        '8'
    } else if n == 9 {
        '9'
    } else if n == 10 {
        'a'
    } else if n == 11 {
        'b'
    } else if n == 12 {
        'c'
    } else if n == 13 {
        'd'
    } else if n == 14 {
        'e'
    } else {
        'f'
    }
}

/// Whether `c` is a lower-case hexadecimal digit.
pub open spec fn is_hex_digit(c: char) -> bool {
    ('0' <= c && c <= '9') || ('a' <= c && c <= 'f')
}

/// The token written from a sequence of draws: one hexadecimal digit for
/// the low four bits of each.
pub open spec fn token_of(draws: Seq<u8>) -> Seq<char> {
    Seq::new(draws.len(), |i: int| hex_char(draws[i] as int % 16))
}

/// The greeting of the server, carrying `token`.
pub open spec fn server_identification_view(token: Seq<char>) -> PacketView {
    PacketView {
        packet_type: PacketType::Request,
        command: "DI"@,
        destination: "SERVER"@,
        source: "CLIENT"@,
        data: seq![PROTOCOL_VERSION@, token],
    }
}

/// A text message from `from` to `to`.
pub open spec fn text_message_view(from: Seq<char>, to: Seq<char>, message: Seq<char>)
    -> PacketView {
    PacketView {
        packet_type: PacketType::Client,
        command: "TM"@,
        source: from,
        destination: to,
        data: seq![message],
    }
}

/// The generator of random numbers of the current thread, as
/// `rand::thread_rng` hands it out. Nothing is claimed of it. The call
/// fails only where the system cannot seed the generator.
#[verifier::external_body]
fn thread_rng() -> rand::rngs::ThreadRng {
    rand::thread_rng()
}

/// One draw of `Rng::gen_range` from the range `0..bound`: a number
/// below `bound`, and nothing more is known of it. `gen_range` panics on
/// an empty range, which `bound > 0` leaves out. The generator of the
/// thread reseeds itself from the system now and then, and panics where
/// that fails.
#[verifier::external_body]
fn draw_below(rng: &mut rand::rngs::ThreadRng, bound: u8) -> (n: u8)
    requires
        bound > 0,
    ensures
        n < bound,
{
    rng.gen_range(0..bound)
}

/// The lower-case hexadecimal digit of the low four bits of `n`.
fn hex_digit(n: u8) -> (c: char)
    ensures
        c == hex_char(n as int % 16),
        is_hex_digit(c),
{
    let d: u8 = n % 16;
    if d == 0 {
        '0'
    } else if d == 1 {
        '1'
    } else if d == 2 {
        '2'
    } else if d == 3 {
        '3'
    } else if d == 4 {
        '4'
    } else if d == 5 {
        '5'
    } else if d == 6 {
        '6'
    } else if d == 7 {
        '7'
    } else if d == 8 {
        '8'
    } else if d == 9 {
        '9'
    } else if d == 10 {
        'a'
    } else if d == 11 {
        'b'
    } else if d == 12 {
        'c'
    } else if d == 13 {
        'd'
    } else if d == 14 {
        'e'
    } else {
        'f'
    }
}

/// Writes a token from a sequence of draws.
pub fn token_from(draws: &Vec<u8>) -> (s: String)
    ensures
        s@ == token_of(draws@),
        forall|i: int| 0 <= i < s@.len() ==> is_hex_digit(#[trigger] s@[i]),
{
    let mut s = String::new();
    let mut i: usize = 0;
    while i < draws.len()
        invariant
            i <= draws.len(),
            s@ == token_of(draws@).take(i as int),
            forall|j: int| 0 <= j < s@.len() ==> is_hex_digit(#[trigger] s@[j]),
        decreases draws.len() - i,
    {
        push_char(&mut s, hex_digit(draws[i]));
        assert(s@ =~= token_of(draws@).take(i + 1));
        i += 1;
    }
    assert(token_of(draws@).take(draws.len() as int) =~= token_of(draws@));
    s
}

/// A fresh random token: 22 lower-case hexadecimal digits.
pub fn generate_token() -> (s: String)
    ensures
        s@.len() == TOKEN_LENGTH,
        forall|i: int| 0 <= i < s@.len() ==> is_hex_digit(#[trigger] s@[i]),
{
    let mut rng = thread_rng();
    let mut draws: Vec<u8> = Vec::new();
    while draws.len() < TOKEN_LENGTH
        invariant
            draws.len() <= TOKEN_LENGTH,
        decreases TOKEN_LENGTH - draws.len(),
    {
        let n = draw_below(&mut rng, 16);
        draws.push(n);
    }
    token_from(&draws)
}

/// The greeting that the server sends on a new connection, carrying
/// `token`.
pub fn server_identification(token: String) -> (p: Packet)
    ensures
        p@ == server_identification_view(token@),
{
    let mut data: Vec<String> = Vec::new();
    data.push(String::from_str(PROTOCOL_VERSION));
    data.push(token);
    assert(views(data@) =~= seq![PROTOCOL_VERSION@, token@]);
    Packet {
        packet_type: PacketType::Request,
        command: String::from_str("DI"),
        destination: String::from_str("SERVER"),
        source: String::from_str("CLIENT"),
        data,
    }
}

/// The line that carries a text message from `from` to `to`.
pub fn send_text_message(from: &str, to: &str, message: &str) -> (line: String)
    ensures
        line@ == crate::packet::format_spec(text_message_view(from@, to@, message@)),
{
    let mut data: Vec<String> = Vec::new();
    data.push(String::from_str(message));
    assert(views(data@) =~= seq![message@]);
    let packet = Packet {
        packet_type: PacketType::Client,
        command: String::from_str("TM"),
        source: String::from_str(from),
        destination: String::from_str(to),
        data,
    };
    packet.format()
}

/// What can happen to the reading side of a connection.
#[derive(Debug)]
pub enum ReaderEvent {
    /// A read of that many bytes has given this line. A read of nothing
    /// is the end of the stream.
    Line(usize, String),
    /// The read failed.
    ReadFailed,
    /// The dispatcher takes no packets any more.
    QueueClosed,
}

/// What the reading side of a connection does after a read.
#[derive(Debug)]
pub enum ReadAction {
    /// The stream has ended: stop, and remove the session.
    Close,
    /// Hand this packet to the dispatcher.
    Forward(Packet),
    /// The line is no packet: skip it and read on.
    Discard(PacketError),
}

/// Whether `r` is what the reading side does after a read of
/// `bytes_read` bytes that gave `line`: it closes at the end of the
/// stream, hands on the packet of a line that parses, and skips a line
/// that does not, with the error that parsing gave.
pub open spec fn read_action_spec(bytes_read: usize, line: Seq<char>, r: ReadAction) -> bool {
    if bytes_read == 0 {
        r is Close
    } else {
        match r {
            ReadAction::Close => false,
            ReadAction::Forward(p) => parse_spec(line) == Ok::<PacketView, Seq<char>>(p@),
            ReadAction::Discard(e) => e matches PacketError::InvalidFormat(m) && parse_spec(line)
                == Err::<PacketView, Seq<char>>(m@),
        }
    }
}

/// Decides what the reading side of a connection does next. A line is
/// handled as `on_line` says. A failed read ends the connection, and so
/// does a dispatcher that takes no packets any more.
pub fn on_reader_event(event: &ReaderEvent) -> (r: ReadAction)
    ensures
        match *event {
            ReaderEvent::Line(bytes_read, line) => read_action_spec(bytes_read, line@, r),
            ReaderEvent::ReadFailed => r is Close,
            ReaderEvent::QueueClosed => r is Close,
        },
{
    match event {
        ReaderEvent::Line(bytes_read, line) => on_line(*bytes_read, line.as_str()),
        ReaderEvent::ReadFailed => ReadAction::Close,
        ReaderEvent::QueueClosed => ReadAction::Close,
    }
}

/// Decides what the reading side of a connection does after a read of
/// `bytes_read` bytes that gave `line`. A read of nothing is the end of
/// the stream. A line that does not parse is skipped, whatever it holds.
pub fn on_line(bytes_read: usize, line: &str) -> (r: ReadAction)
    ensures
        read_action_spec(bytes_read, line@, r),
{
    if bytes_read == 0 {
        return ReadAction::Close;
    }
    match Packet::parse(line) {
        Ok(p) => ReadAction::Forward(p),
        Err(e) => ReadAction::Discard(e),
    }
}

} // verus!
