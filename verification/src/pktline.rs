//! pkt-line framing: a payload behind four hex digits that give the length
//! of the whole line, the four digits included.

use vstd::prelude::*;
use vstd::string::StringSliceAdditionalSpecFns;

verus! {

/// The two pack services.
#[derive(Clone, Copy, Debug, PartialEq, Eq, Structural)]
pub enum PackService {
    UploadPack,
    ReceivePack,
}

/// The longest payload whose line length still fits four hex digits.
pub const MAX_PAYLOAD: usize = 65531;

/// The lower-case hex digit for a value below sixteen, as an ASCII byte.
pub open spec fn hex_digit(d: int) -> u8 {
    if d < 10 {
        (48 + d) as u8
    } else {
        (87 + d) as u8
    }
}

/// The four hex digits of a line length.
pub open spec fn length_prefix(n: int) -> Seq<u8> {
    seq![
        hex_digit(n / 4096 % 16),
        hex_digit(n / 256 % 16),
        hex_digit(n / 16 % 16),
        hex_digit(n % 16),
    ]
}

/// The line that frames a payload.
pub open spec fn pkt_line(payload: Seq<u8>) -> Seq<u8> {
    length_prefix(payload.len() as int + 4) + payload
}

/// The flush marker, `0000`.
pub open spec fn flush_pkt() -> Seq<u8> {
    seq![48u8, 48u8, 48u8, 48u8]
}

/// The bytes of a text that is all ASCII.
pub open spec fn ascii_bytes(text: Seq<char>) -> Seq<u8> {
    Seq::new(text.len(), |i: int| text[i] as u8)
}

/// The line that announces a service.
pub open spec fn service_line(kind: PackService) -> Seq<char> {
    match kind {
        PackService::UploadPack => "# service=git-upload-pack\n"@,
        PackService::ReceivePack => "# service=git-receive-pack\n"@,
    }
}

/// What a ref advertisement starts with: the framed service line, then a
/// flush marker.
pub open spec fn announcement(kind: PackService) -> Seq<u8> {
    pkt_line(ascii_bytes(service_line(kind))) + flush_pkt()
}

fn hex(d: usize) -> (b: u8)
    requires
        d < 16,
    ensures
        b == hex_digit(d as int),
{
    if d < 10 {
        48u8 + (d as u8)
    } else {
        87u8 + (d as u8)
    }
}

/// Frames a payload as one line. A payload that is too long for four hex
/// digits has no line.
pub fn encode(payload: &[u8]) -> (line: Option<Vec<u8>>)
    ensures
        line is Some <==> payload@.len() <= MAX_PAYLOAD,
        line is Some ==> line->Some_0@ == pkt_line(payload@),
{
    let len: usize = payload.len();
    if len > MAX_PAYLOAD {
        return None;
    }
    let n: usize = len + 4;
    let mut out: Vec<u8> = Vec::new();
    out.push(hex(n / 4096 % 16));
    out.push(hex(n / 256 % 16));
    out.push(hex(n / 16 % 16));
    out.push(hex(n % 16));
    assert(out@ =~= length_prefix(n as int));
    let mut i: usize = 0;
    while i < len
        invariant
            len == payload@.len(),
            i <= len,
            out@ =~= length_prefix(n as int) + payload@.subrange(0, i as int),
        decreases len - i,
    {
        out.push(payload[i]);
        i += 1;
    }
    assert(payload@.subrange(0, len as int) =~= payload@);
    Some(out)
}

/// The service line, as text.
pub fn service_text(kind: PackService) -> (line: &'static str)
    ensures
        line@ == service_line(kind),
{
    match kind {
        PackService::UploadPack => "# service=git-upload-pack\n",
        PackService::ReceivePack => "# service=git-receive-pack\n",
    }
}

/// Builds what a ref advertisement starts with.
pub fn service_announcement(kind: PackService) -> (bytes: Vec<u8>)
    ensures
        bytes@ == announcement(kind),
{
    let text = service_text(kind);
    proof {
        reveal_strlit("# service=git-upload-pack\n");
        reveal_strlit("# service=git-receive-pack\n");
        assert(vstd::string::is_ascii(text));
        vstd::string::is_ascii_spec_bytes(text);
        assert(text.spec_bytes() =~= ascii_bytes(text@));
    }
    let mut out: Vec<u8> = match encode(text.as_bytes()) {
        Some(line) => line,
        None => Vec::new(),
    };
    out.push(48u8);
    out.push(48u8);
    out.push(48u8);
    out.push(48u8);
    assert(out@ =~= announcement(kind));
    out
}

/// An upload-pack advertisement starts with `001e`, the service line and
/// `0000`; a receive-pack advertisement with `001f`, its line and `0000`.
pub proof fn lemma_announcement_bytes()
    ensures
        announcement(PackService::UploadPack) == ascii_bytes(
            "001e# service=git-upload-pack\n0000"@,
        ),
        announcement(PackService::ReceivePack) == ascii_bytes(
            "001f# service=git-receive-pack\n0000"@,
        ),
{
    reveal_strlit("# service=git-upload-pack\n");
    reveal_strlit("# service=git-receive-pack\n");
    reveal_strlit("001e# service=git-upload-pack\n0000");
    reveal_strlit("001f# service=git-receive-pack\n0000");
    assert(announcement(PackService::UploadPack) =~= ascii_bytes(
        "001e# service=git-upload-pack\n0000"@,
    ));
    assert(announcement(PackService::ReceivePack) =~= ascii_bytes(
        "001f# service=git-receive-pack\n0000"@,
    ));
}

} // verus!
