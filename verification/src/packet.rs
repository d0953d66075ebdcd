//! The packet codec: one protocol line to a structured packet and back.
//!
//! A line is a prefix character, a command of one or two letters glued to
//! a first identifier, a colon, a second identifier, and colon-separated
//! data fields. Which identifier is the source and which the destination
//! depends on the command.

use crate::text::{
    chars_of, clone_strings, find, find_char, free_of, is_space, is_whitespace, join, join_with,
    lemma_find_bounds, lemma_find_is, lemma_join_split, lemma_split_join, lemma_trim_terminated,
    push_char, same_text, split, split_on, string_of, trim, trim_bounds, trim_end, views,
};
use vstd::prelude::*;

verus! {

/// `serde_json::Error`, carried as it is: nothing is known of what it holds.
#[verifier::external_type_specification]
#[verifier::external_body]
pub struct ExJsonError(serde_json::Error);

/// Why a line could not be turned into a packet.
#[derive(Debug)]
pub enum PacketError {
    InvalidFormat(String),
    MissingField(String),
    JsonError(serde_json::Error),
}

/// The category of a packet, fixed by the first character of its line.
#[derive(Debug, Clone, Copy, PartialEq, Eq, Structural)]
pub enum PacketType {
    /// `$`: requests and responses.
    Request,
    /// `#`: adding and removing clients, text messages.
    Client,
    /// `%`: controller update.
    AtcUpdate,
    /// `@`: aircraft update.
    PilotUpdate,
    /// `!`: vendor-specific.
    IvaoSpecific,
    /// `&`: vendor-specific.
    IvaoData,
    /// `-`: vendor-specific.
    IvaoOther,
}

/// One unit of the wire protocol.
#[derive(Debug)]
pub struct Packet {
    pub packet_type: PacketType,
    pub command: String,
    pub destination: String,
    pub source: String,
    pub data: Vec<String>,
}

/// A packet as plain mathematical data.
pub struct PacketView {
    pub packet_type: PacketType,
    pub command: Seq<char>,
    pub destination: Seq<char>,
    pub source: Seq<char>,
    pub data: Seq<Seq<char>>,
}

impl View for Packet {
    type V = PacketView;

    open spec fn view(&self) -> PacketView {
        PacketView {
            packet_type: self.packet_type,
            command: self.command@,
            destination: self.destination@,
            source: self.source@,
            data: views(self.data@),
        }
    }
}

impl Clone for Packet {
    fn clone(&self) -> (r: Self)
        ensures
            r@ == self@,
    {
        Packet {
            packet_type: self.packet_type,
            command: self.command.clone(),
            destination: self.destination.clone(),
            source: self.source.clone(),
            data: clone_strings(&self.data),
        }
    }
}

/// The packet type that a prefix character stands for, if any.
pub open spec fn prefix_type(c: char) -> Option<PacketType> {
    if c == '$' {
        Some(PacketType::Request)
    } else if c == '#' {
        Some(PacketType::Client)
    } else if c == '%' {
        Some(PacketType::AtcUpdate)
    } else if c == '@' {
        Some(PacketType::PilotUpdate)
    } else if c == '!' {
        Some(PacketType::IvaoSpecific)
    } else if c == '&' {
        Some(PacketType::IvaoData)
    } else if c == '-' {
        Some(PacketType::IvaoOther)
    } else {
        None
    }
}

/// The prefix character of a packet type.
pub open spec fn prefix_char(t: PacketType) -> char {
    match t {
        PacketType::Request => '$',
        PacketType::Client => '#',
        PacketType::AtcUpdate => '%',
        PacketType::PilotUpdate => '@',
        PacketType::IvaoSpecific => '!',
        PacketType::IvaoData => '&',
        PacketType::IvaoOther => '-',
    }
}

/// Whether a packet of this type is a position update, whose line names
/// only the subject of the update.
pub open spec fn is_update(t: PacketType) -> bool {
    t == PacketType::PilotUpdate || t == PacketType::AtcUpdate
}

/// Whether `a` followed by `b` is one of the known two-letter commands.
pub open spec fn known_pair(a: char, b: char) -> bool {
    ||| (a == 'D' && b == 'I')
    ||| (a == 'I' && b == 'D')
    ||| (a == 'T' && b == 'M')
    ||| (a == 'A' && b == 'A')
    ||| (a == 'A' && b == 'P')
    ||| (a == 'D' && b == 'A')
    ||| (a == 'D' && b == 'P')
    ||| (a == 'C' && b == 'Q')
    ||| (a == 'C' && b == 'R')
    ||| (a == 'F' && b == 'P')
    ||| (a == 'N' && b == 'V')
}

/// Whether `a` is one of the known one-letter commands.
pub open spec fn known_single(a: char) -> bool {
    a == 'N' || a == 'S' || a == 'Y' || a == 'C' || a == 'R'
}

/// How many leading characters of `s` form the command: a known pair, else
/// a known single letter, else the first two characters, or all of `s` if
/// it is shorter than that.
pub open spec fn command_len(s: Seq<char>) -> int {
    if s.len() >= 2 && known_pair(s[0], s[1]) {
        2
    } else if s.len() >= 1 && known_single(s[0]) {
        1
    } else if s.len() >= 2 {
        2
    } else {
        s.len() as int
    }
}

/// The packet made of the parts of a line, with source and destination in
/// the order that the command and the packet type call for.
pub open spec fn assemble(
    t: PacketType,
    command: Seq<char>,
    first: Seq<char>,
    second: Seq<char>,
    data: Seq<Seq<char>>,
) -> PacketView {
    if command == "DI"@ {
        PacketView { packet_type: t, command, destination: first, source: second, data }
    } else if is_update(t) {
        PacketView { packet_type: t, command, destination: first, source: Seq::empty(), data }
    } else {
        PacketView { packet_type: t, command, destination: second, source: first, data }
    }
}

/// What parsing a line yields: the packet, or the text of the format error.
pub open spec fn parse_spec(raw: Seq<char>) -> Result<PacketView, Seq<char>> {
    let line = trim(raw);
    if line.len() == 0 {
        Err("Empty packet"@)
    } else {
        match prefix_type(line[0]) {
            None => Err("Unknown prefix: "@.push(line[0])),
            Some(t) => {
                let body = line.skip(1);
                let k = find(body, ':');
                if k >= body.len() {
                    Err("No colon found"@)
                } else {
                    let head = body.take(k);
                    let rest = body.skip(k + 1);
                    let n = command_len(head);
                    Ok(
                        assemble(
                            t,
                            head.take(n),
                            head.skip(n),
                            rest.take(find(rest, ':')),
                            data_of(rest),
                        ),
                    )
                }
            },
        }
    }
}

/// The identifiers of a packet as they stand on its line, after the command.
pub open spec fn format_idents(p: PacketView) -> Seq<char> {
    if p.command == "DI"@ {
        p.destination + seq![':'] + p.source
    } else if is_update(p.packet_type) {
        p.destination
    } else {
        p.source + seq![':'] + p.destination
    }
}

/// The line of a packet without its terminator.
pub open spec fn format_body(p: PacketView) -> Seq<char> {
    seq![prefix_char(p.packet_type)] + p.command + format_idents(p) + format_data(p.data)
}

/// The line of a packet, terminated by CR LF.
pub open spec fn format_spec(p: PacketView) -> Seq<char> {
    format_body(p) + seq!['\r', '\n']
}

/// Whether `line` is in wire form: its content, free of white space at both
/// ends, followed by CR LF and nothing else.
pub open spec fn is_wire_line(line: Seq<char>) -> bool {
    &&& line.len() >= 2
    &&& line[line.len() - 2] == '\r'
    &&& line[line.len() - 1] == '\n'
    &&& trim(line) == line.take(line.len() - 2)
}

/// The data fields of a line, given what follows its first colon.
pub open spec fn data_of(rest: Seq<char>) -> Seq<Seq<char>> {
    let k2 = find(rest, ':');
    if k2 < rest.len() {
        split(rest.skip(k2 + 1), ':')
    } else {
        Seq::empty()
    }
}

/// The data fields of a packet as they stand at the end of its line.
pub open spec fn format_data(data: Seq<Seq<char>>) -> Seq<char> {
    if data.len() > 0 {
        seq![':'] + join(data, ':')
    } else {
        Seq::empty()
    }
}

/// The second identifier and the data fields, written out again, are what
/// followed the first colon.
proof fn lemma_rest_rebuilt(rest: Seq<char>)
    ensures
        rest.take(find(rest, ':')) + format_data(data_of(rest)) == rest,
{
    let k2 = find(rest, ':');
    lemma_find_bounds(rest, ':');
    if k2 < rest.len() {
        lemma_join_split(rest.skip(k2 + 1), ':');
        assert(rest.take(k2) + (seq![':'] + rest.skip(k2 + 1)) =~= rest);
    } else {
        assert(rest.take(k2) + Seq::<char>::empty() =~= rest);
    }
}

/// Where both identifiers are written, a packet's line is its prefix, the
/// text before the first colon as it was split, the colon, and the rest.
proof fn lemma_format_of_assemble(
    t: PacketType,
    head: Seq<char>,
    n: int,
    second: Seq<char>,
    data: Seq<Seq<char>>,
)
    requires
        head.take(n) == "DI"@ || !is_update(t),
        0 <= n <= head.len(),
    ensures
        format_body(assemble(t, head.take(n), head.skip(n), second, data)) == seq![prefix_char(t)]
            + head + seq![':'] + (second + format_data(data)),
{
    let p = assemble(t, head.take(n), head.skip(n), second, data);
    assert(head.take(n) + head.skip(n) =~= head);
    assert(p.command + format_idents(p) =~= head + seq![':'] + second);
    assert(format_body(p) =~= seq![prefix_char(t)] + head + seq![':'] + (second + format_data(
        data,
    )));
}

/// Parsing a line in wire form and formatting the packet gives the line
/// back, unless the packet is a position update, whose line names one
/// identifier only. This holds of every command, the known and the
/// unknown ones, and of a position update too if its command is `DI`.
pub proof fn lemma_parse_then_format(line: Seq<char>)
    requires
        is_wire_line(line),
        parse_spec(line) is Ok,
        parse_spec(line)->Ok_0.command == "DI"@ || !is_update(
            parse_spec(line)->Ok_0.packet_type,
        ),
    ensures
        format_spec(parse_spec(line)->Ok_0) == line,
{
    let content = trim(line);
    let t = prefix_type(content[0])->Some_0;
    let body = content.skip(1);
    let k = find(body, ':');
    let head = body.take(k);
    let rest = body.skip(k + 1);
    let n = command_len(head);
    let p = assemble(t, head.take(n), head.skip(n), rest.take(find(rest, ':')), data_of(rest));
    assert(parse_spec(line) == Ok::<PacketView, Seq<char>>(p));
    lemma_find_bounds(body, ':');
    lemma_format_of_assemble(t, head, n, rest.take(find(rest, ':')), data_of(rest));
    lemma_rest_rebuilt(rest);
    assert(prefix_char(t) == content[0]);
    assert(seq![content[0]] + head + seq![':'] + rest =~= content);
    assert(content + seq!['\r', '\n'] =~= line);
}

/// Whether a packet comes back from its own line as it was.
///
/// It must write both identifiers: its command is `DI`, or it is no
/// position update. The command must be what is recognised at the front
/// of the command glued to the first identifier. Neither the command nor
/// an identifier nor a data field may hold a colon, and the line may not
/// end in white space.
pub open spec fn is_wire_safe(p: PacketView) -> bool {
    let first = if p.command == "DI"@ {
        p.destination
    } else {
        p.source
    };
    let second = if p.command == "DI"@ {
        p.source
    } else {
        p.destination
    };
    &&& p.command == "DI"@ || !is_update(p.packet_type)
    &&& command_len(p.command + first) == p.command.len()
    &&& free_of(p.command, ':')
    &&& free_of(first, ':')
    &&& free_of(second, ':')
    &&& forall|i: int| 0 <= i < p.data.len() ==> free_of(#[trigger] p.data[i], ':')
    &&& !is_space(format_body(p).last())
}

/// Formatting a packet and parsing the line gives the packet back, and
/// the line is in wire form, for every packet that is safe on the wire.
pub proof fn lemma_format_then_parse(p: PacketView)
    requires
        is_wire_safe(p),
    ensures
        is_wire_line(format_spec(p)),
        parse_spec(format_spec(p)) == Ok::<PacketView, Seq<char>>(p),
{
    let first = if p.command == "DI"@ {
        p.destination
    } else {
        p.source
    };
    let second = if p.command == "DI"@ {
        p.source
    } else {
        p.destination
    };
    let c0 = prefix_char(p.packet_type);
    let glued = p.command + first;
    let rest = second + format_data(p.data);
    let content = format_body(p);
    let line = format_spec(p);
    assert(format_idents(p) == first + seq![':'] + second);
    assert(content =~= seq![c0] + glued + seq![':'] + rest);
    assert(content[0] == c0);
    assert(!is_space(c0));
    lemma_trim_terminated(content);
    assert(line.take(line.len() - 2) =~= content);
    assert(prefix_type(c0) == Some(p.packet_type));

    let body = content.skip(1);
    assert(body =~= glued + seq![':'] + rest);
    lemma_find_is(body, ':', glued.len() as int);
    assert(body.take(glued.len() as int) =~= glued);
    assert(body.skip(glued.len() as int + 1) =~= rest);
    let n = command_len(glued);
    assert(glued.take(n) =~= p.command);
    assert(glued.skip(n) =~= first);

    if p.data.len() > 0 {
        assert(rest =~= second + seq![':'] + join(p.data, ':'));
        lemma_find_is(rest, ':', second.len() as int);
        assert(rest.skip(second.len() as int + 1) =~= join(p.data, ':'));
        lemma_split_join(p.data, ':');
    } else {
        assert(rest =~= second);
        lemma_find_is(rest, ':', second.len() as int);
        assert(p.data =~= Seq::<Seq<char>>::empty());
    }
    assert(rest.take(second.len() as int) =~= second);
    assert(data_of(rest) == p.data);
    assert(assemble(p.packet_type, p.command, first, second, p.data) == p);
}

/// The packet type that a prefix character stands for, if any.
pub fn type_of_prefix(c: char) -> (t: Option<PacketType>)
    ensures
        t == prefix_type(c),
{
    if c == '$' {
        Some(PacketType::Request)
    } else if c == '#' {
        Some(PacketType::Client)
    } else if c == '%' {
        Some(PacketType::AtcUpdate)
    } else if c == '@' {
        Some(PacketType::PilotUpdate)
    } else if c == '!' {
        Some(PacketType::IvaoSpecific)
    } else if c == '&' {
        Some(PacketType::IvaoData)
    } else if c == '-' {
        Some(PacketType::IvaoOther)
    } else {
        None
    }
}

/// The prefix character of a packet type.
pub fn prefix_of(t: PacketType) -> (c: char)
    ensures
        c == prefix_char(t),
{
    match t {
        PacketType::Request => '$',
        PacketType::Client => '#',
        PacketType::AtcUpdate => '%',
        PacketType::PilotUpdate => '@',
        PacketType::IvaoSpecific => '!',
        PacketType::IvaoData => '&',
        PacketType::IvaoOther => '-',
    }
}

fn is_known_pair(a: char, b: char) -> (r: bool)
    ensures
        r == known_pair(a, b),
{
    (a == 'D' && b == 'I') || (a == 'I' && b == 'D') || (a == 'T' && b == 'M') || (a == 'A' && b
        == 'A') || (a == 'A' && b == 'P') || (a == 'D' && b == 'A') || (a == 'D' && b == 'P') || (a
        == 'C' && b == 'Q') || (a == 'C' && b == 'R') || (a == 'F' && b == 'P') || (a == 'N' && b
        == 'V')
}

fn is_known_single(a: char) -> (r: bool)
    ensures
        r == known_single(a),
{
    a == 'N' || a == 'S' || a == 'Y' || a == 'C' || a == 'R'
}

impl PacketError {
    /// The error as a sentence for a log or a user.
    pub fn message(&self) -> (s: String)
        ensures
            self matches PacketError::InvalidFormat(m) ==> s@ == "Invalid packet format: "@ + m@,
            self matches PacketError::MissingField(m) ==> s@ == "Missing field: "@ + m@,
            self is JsonError ==> s@.len() >= "JSON parsing error: "@.len() && s@.take(
                "JSON parsing error: "@.len() as int,
            ) == "JSON parsing error: "@,
    {
        match self {
            PacketError::InvalidFormat(m) => String::from_str("Invalid packet format: ").concat(
                m.as_str(),
            ),
            PacketError::MissingField(m) => String::from_str("Missing field: ").concat(m.as_str()),
            PacketError::JsonError(e) => {
                let detail = json_error_text(e);
                let s = String::from_str("JSON parsing error: ").concat(detail.as_str());
                assert(s@.take("JSON parsing error: "@.len() as int) =~= "JSON parsing error: "@);
                s
            },
        }
    }
}

/// The text that `serde_json::Error` shows of itself through `Display`.
/// Nothing is claimed of it.
#[verifier::external_body]
fn json_error_text(e: &serde_json::Error) -> String {
    e.to_string()
}

impl From<serde_json::Error> for PacketError {
    /// Wraps the error as it is.
    fn from(e: serde_json::Error) -> (r: PacketError) {
        PacketError::JsonError(e)
    }
}

impl vstd::std_specs::convert::FromSpecImpl<serde_json::Error> for PacketError {
    open spec fn obeys_from_spec() -> bool {
        true
    }

    open spec fn from_spec(e: serde_json::Error) -> PacketError {
        PacketError::JsonError(e)
    }
}

impl Packet {
    /// Splits the text before the first colon into the command and the
    /// identifier that is glued to it.
    pub fn split_command_source(s: &str) -> (r: (String, String))
        ensures
            r.0@ == s@.take(command_len(s@)),
            r.1@ == s@.skip(command_len(s@)),
    {
        let v = chars_of(s);
        let len = v.len();
        let n: usize = if len >= 2 && is_known_pair(v[0], v[1]) {
            2
        } else if len >= 1 && is_known_single(v[0]) {
            1
        } else if len >= 2 {
            2
        } else {
            len
        };
        let command = string_of(&v, 0, n);
        let ident = string_of(&v, n, len);
        assert(v@.subrange(0, n as int) =~= s@.take(n as int));
        assert(v@.subrange(n as int, len as int) =~= s@.skip(n as int));
        (command, ident)
    }

    /// Parses one line of the protocol.
    ///
    /// White space around the line, its terminator included, is ignored.
    /// The line is rejected if nothing is left, if its first character is
    /// no known prefix, or if no colon follows the prefix.
    pub fn parse(raw: &str) -> (r: Result<Packet, PacketError>)
        ensures
            match r {
                Ok(p) => parse_spec(raw@) == Ok::<PacketView, Seq<char>>(p@),
                Err(e) => e matches PacketError::InvalidFormat(m) && parse_spec(raw@) == Err::<
                    PacketView,
                    Seq<char>,
                >(m@),
            },
    {
        let v = chars_of(raw);
        let (lo, hi) = trim_bounds(&v);
        let ghost line = trim(raw@);
        if lo == hi {
            return Err(PacketError::InvalidFormat(String::from_str("Empty packet")));
        }
        assert(line[0] == v@[lo as int]);
        let packet_type = match type_of_prefix(v[lo]) {
            Some(t) => t,
            None => {
                let mut m = String::from_str("Unknown prefix: ");
                push_char(&mut m, v[lo]);
                return Err(PacketError::InvalidFormat(m));
            },
        };
        let ghost body = line.skip(1);
        assert(body =~= v@.subrange(lo + 1, hi as int));
        let colon = find_char(&v, lo + 1, hi, ':');
        if colon == hi {
            return Err(PacketError::InvalidFormat(String::from_str("No colon found")));
        }
        let ghost k = colon - (lo + 1);
        let ghost head = body.take(k);
        let ghost rest = body.skip(k + 1);
        assert(head =~= v@.subrange(lo + 1, colon as int));
        assert(rest =~= v@.subrange(colon + 1, hi as int));
        let command_ident = string_of(&v, lo + 1, colon);
        let (command, first_ident) = Packet::split_command_source(command_ident.as_str());
        let colon2 = find_char(&v, colon + 1, hi, ':');
        let ghost k2 = colon2 - (colon + 1);
        let second_ident = string_of(&v, colon + 1, colon2);
        assert(rest.take(k2) =~= v@.subrange(colon + 1, colon2 as int));
        let data = if colon2 < hi {
            assert(rest.skip(k2 + 1) =~= v@.subrange(colon2 + 1, hi as int));
            split_on(&v, colon2 + 1, hi, ':')
        } else {
            let none: Vec<String> = Vec::new();
            assert(views(none@) =~= Seq::<Seq<char>>::empty());
            none
        };
        let packet = if same_text(command.as_str(), "DI") {
            Packet { packet_type, command, destination: first_ident, source: second_ident, data }
        } else if packet_type == PacketType::PilotUpdate || packet_type == PacketType::AtcUpdate {
            Packet { packet_type, command, destination: first_ident, source: String::new(), data }
        } else {
            Packet { packet_type, command, destination: second_ident, source: first_ident, data }
        };
        Ok(packet)
    }

    /// Formats the packet as one line of the protocol, terminated by CR LF.
    pub fn format(&self) -> (s: String)
        ensures
            s@ == format_spec(self@),
    {
        let mut s = self.body();
        push_char(&mut s, '\r');
        push_char(&mut s, '\n');
        assert(s@ =~= format_spec(self@));
        s
    }

    /// The line of the packet without its terminator.
    fn body(&self) -> (s: String)
        ensures
            s@ == format_body(self@),
    {
        let mut s = String::new();
        push_char(&mut s, prefix_of(self.packet_type));
        s.append(self.command.as_str());
        if same_text(self.command.as_str(), "DI") {
            s.append(self.destination.as_str());
            push_char(&mut s, ':');
            s.append(self.source.as_str());
        } else if self.packet_type == PacketType::PilotUpdate || self.packet_type
            == PacketType::AtcUpdate {
            s.append(self.destination.as_str());
        } else {
            s.append(self.source.as_str());
            push_char(&mut s, ':');
            s.append(self.destination.as_str());
        }
        assert(s@ =~= seq![prefix_char(self.packet_type)] + self.command@ + format_idents(self@));
        if self.data.len() > 0 {
            push_char(&mut s, ':');
            let fields = join_with(&self.data, ':');
            s.append(fields.as_str());
            assert(s@ =~= format_body(self@));
        }
        s
    }

    /// The packet as it is shown in a log: its line without white space at
    /// the end.
    pub fn display(&self) -> (s: String)
        ensures
            s@ == trim_end(format_spec(self@)),
    {
        let line = self.format();
        let v = chars_of(line.as_str());
        let mut j: usize = v.len();
        assert(v@.subrange(0, j as int) =~= v@);
        while j > 0 && is_whitespace(v[j - 1])
            invariant
                j <= v.len(),
                trim_end(v@) == trim_end(v@.subrange(0, j as int)),
            decreases j,
        {
            assert(v@.subrange(0, j as int).drop_last() =~= v@.subrange(0, j - 1));
            j -= 1;
        }
        string_of(&v, 0, j)
    }
}

} // verus!
