//! Frames on the bus: a two-byte type tag, a four-byte body length and the body, all
//! integers least significant byte first.
use vstd::prelude::*;

use crate::bus::{Error, ServiceBus};
use crate::bytes::{append_bytes, copy_range};
use crate::rpc::Request;

verus! {

/// The type tags of the requests.
pub open spec fn known_tag(t: u16) -> bool {
    ||| 0 <= t <= 3
    ||| 100 <= t <= 102
    ||| 200 <= t <= 205
    ||| 1000 <= t <= 1002
    ||| 1100 <= t <= 1104
    ||| t == 1203
}

/// Whether a type tag is known.
pub fn is_known_tag(t: u16) -> (r: bool)
    ensures
        r == known_tag(t),
{
    t <= 3 || (100 <= t && t <= 102) || (200 <= t && t <= 205) || (1000 <= t && t <= 1002) || (
    1100 <= t && t <= 1104) || t == 1203
}

impl Request {
    /// The stable type tag of the request.
    pub fn type_tag(&self) -> (r: u16)
        ensures
            known_tag(r),
            *self == Request::Hello ==> r == 0,
            *self is UpdateSwapId ==> r == 1,
            *self is PeerMessage ==> r == 2,
            *self is FarMsgs ==> r == 3,
            *self == Request::GetInfo ==> r == 100,
            *self == Request::ListPeers ==> r == 101,
            *self == Request::ListSwaps ==> r == 102,
            *self is Listen ==> r == 200,
            *self is ConnectPeer ==> r == 201,
            *self == Request::PingPeer ==> r == 202,
            *self is OpenSwapWith ==> r == 203,
            *self is AcceptSwapFrom ==> r == 204,
            *self is FundSwap ==> r == 205,
            *self is Failure ==> r == 1000,
            *self is Success ==> r == 1001,
            *self is Progress ==> r == 1002,
            *self is NodeInfo ==> r == 1100,
            *self is PeerInfo ==> r == 1101,
            *self is SwapInfo ==> r == 1102,
            *self is PeerList ==> r == 1103,
            *self is SwapList ==> r == 1104,
            *self is SwapFunding ==> r == 1203,
    {
        match self {
            Request::Hello => 0,
            Request::UpdateSwapId(_) => 1,
            Request::PeerMessage(_) => 2,
            Request::FarMsgs(_) => 3,
            Request::GetInfo => 100,
            Request::ListPeers => 101,
            Request::ListSwaps => 102,
            Request::Listen(_) => 200,
            Request::ConnectPeer(_) => 201,
            Request::PingPeer => 202,
            Request::OpenSwapWith(_) => 203,
            Request::AcceptSwapFrom(_) => 204,
            Request::FundSwap(_) => 205,
            Request::Failure(_) => 1000,
            Request::Success(_) => 1001,
            Request::Progress(_) => 1002,
            Request::NodeInfo(_) => 1100,
            Request::PeerInfo(_) => 1101,
            Request::SwapInfo(_) => 1102,
            Request::PeerList(_) => 1103,
            Request::SwapList(_) => 1104,
            Request::SwapFunding(_) => 1203,
        }
    }
}

/// A frame: its type tag and body.
#[derive(Clone, Debug, PartialEq, Eq)]
pub struct Frame {
    pub type_tag: u16,
    pub body: Vec<u8>,
}

/// Two bytes, least significant first.
pub open spec fn le16(n: nat) -> Seq<u8> {
    seq![(n % 256) as u8, (n / 256) as u8]
}

/// Four bytes, least significant first.
pub open spec fn le32(n: nat) -> Seq<u8> {
    le16(n % 0x10000) + le16(n / 0x10000)
}

/// The bytes of a frame.
pub open spec fn frame_bytes(tag: u16, body: Seq<u8>) -> Seq<u8> {
    le16(tag as nat) + le32(body.len()) + body
}

/// Reads a frame that fills `b` exactly: its tag and body.
pub open spec fn parse_frame(b: Seq<u8>) -> Option<(u16, Seq<u8>)> {
    if b.len() < 6 {
        None
    } else {
        let len = b[2] + 256 * b[3] + 0x10000 * (b[4] + 256 * b[5]);
        if b.len() != 6 + len {
            None
        } else {
            Some(((b[0] + 256 * b[1]) as u16, b.skip(6)))
        }
    }
}

proof fn lemma_le16(n: nat)
    requires
        n < 0x10000,
    ensures
        le16(n)[0] + 256 * le16(n)[1] == n,
{
    assert(n == (n % 256) + 256 * (n / 256) && n / 256 < 256) by (nonlinear_arith)
        requires
            n < 0x10000,
    ;
}

proof fn lemma_le16_of(a: u8, b: u8)
    ensures
        le16((a + 256 * b) as nat) == seq![a, b],
{
    let n = (a + 256 * b) as nat;
    assert(n % 256 == a && n / 256 == b) by (nonlinear_arith)
        requires
            n == a + 256 * b,
            a < 256,
    ;
    assert(le16(n) =~= seq![a, b]);
}

/// A frame's bytes are read back as its tag and body.
pub proof fn lemma_frame_round_trip(tag: u16, body: Seq<u8>)
    requires
        body.len() <= u32::MAX,
    ensures
        parse_frame(frame_bytes(tag, body)) == Some((tag, body)),
{
    let b = frame_bytes(tag, body);
    let n = body.len();
    lemma_le16(tag as nat);
    lemma_le16(n % 0x10000);
    assert(n / 0x10000 < 0x10000 && n == n % 0x10000 + 0x10000 * (n / 0x10000)) by (nonlinear_arith)
        requires
            n <= u32::MAX,
    ;
    lemma_le16(n / 0x10000);
    assert(b.skip(6) =~= body);
}

/// Bytes that are read as a frame are exactly that frame's bytes.
pub proof fn lemma_frame_canonical(b: Seq<u8>)
    ensures
        parse_frame(b) matches Some((tag, body)) ==> frame_bytes(tag, body) == b,
{
    if let Some((tag, body)) = parse_frame(b) {
        let lo = b[2] + 256 * b[3];
        let hi = b[4] + 256 * b[5];
        let n = lo + 0x10000 * hi;
        assert(body.len() == n);
        assert(lo < 0x10000 && hi < 0x10000);
        vstd::arithmetic::div_mod::lemma_fundamental_div_mod_converse(
            n as int,
            0x10000,
            hi as int,
            lo as int,
        );
        lemma_le16_of(b[0], b[1]);
        lemma_le16_of(b[2], b[3]);
        lemma_le16_of(b[4], b[5]);
        assert(b =~= frame_bytes(tag, body));
    }
}

impl Frame {
    /// The frame's bytes; a body longer than four bytes can count is refused.
    pub fn encode(&self) -> (r: Result<Vec<u8>, Error>)
        ensures
            self.body@.len() > u32::MAX <==> r is Err,
            r matches Ok(v) ==> v@ == frame_bytes(self.type_tag, self.body@),
    {
        let n: usize = self.body.len();
        if n > 0xffff_ffff {
            return Err(Error::DataIntegrityError("frame body too long".to_owned()));
        }
        let t: u16 = self.type_tag;
        let lo: usize = n % 0x10000;
        let hi: usize = n / 0x10000;
        let mut out: Vec<u8> = Vec::new();
        out.push((t % 256) as u8);
        out.push((t / 256) as u8);
        out.push((lo % 256) as u8);
        out.push((lo / 256) as u8);
        out.push((hi % 256) as u8);
        out.push((hi / 256) as u8);
        assert(out@ =~= le16(t as nat) + le32(n as nat));
        append_bytes(&mut out, self.body.as_slice());
        Ok(out)
    }

    /// Reads one frame that fills `b`. Short or inconsistent bytes give
    /// `DataIntegrityError`; a tag no endpoint knows is refused on `bus` with `NotSupported`.
    pub fn decode(bus: ServiceBus, b: &[u8]) -> (r: Result<Frame, Error>)
        ensures
            parse_frame(b@) is None ==> r matches Err(Error::DataIntegrityError(_)),
            parse_frame(b@) matches Some((t, body)) ==> if known_tag(t) {
                r matches Ok(f) && f.type_tag == t && f.body@ == body
            } else {
                r matches Err(Error::NotSupported(l, _)) && l == bus
            },
    {
        if b.len() < 6 {
            return Err(Error::DataIntegrityError("frame too short".to_owned()));
        }
        let len: usize = b[2] as usize + 256 * (b[3] as usize) + 0x10000 * (b[4] as usize + 256 * (
        b[5] as usize));
        if b.len() - 6 != len {
            return Err(Error::DataIntegrityError("frame length mismatch".to_owned()));
        }
        let t: u16 = (b[0] as u16) + 256 * (b[1] as u16);
        if !is_known_tag(t) {
            return Err(Error::NotSupported(bus, "unknown type tag".to_owned()));
        }
        let body = copy_range(b, 6, b.len());
        assert(body@ =~= b@.skip(6));
        Ok(Frame { type_tag: t, body })
    }
}

} // verus!
