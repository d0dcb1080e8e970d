//! The wallet checkpoint: the wallet state's encoding followed by the Monero address,
//! each segment carrying its own length.
use vstd::prelude::*;

use crate::bus::Error;
use crate::bytes::{append_bytes, copy_range};
use crate::varint::{
    lemma_parse_varint_bound, lemma_u64_fits, lemma_varint_canonical, lemma_varint_parses,
    parse_varint, read_varint, varint, write_varint, MAX_VARINT_BYTES,
};

verus! {

/// Whether raw bytes are a Monero address: network byte, public spend and view keys, an
/// optional payment id and the checksum.
pub uninterp spec fn address_decodes(b: Seq<u8>) -> bool;

/// Relies on `monero::Address::from_bytes`: whether it accepts the bytes depends on them
/// alone, and it refuses fewer than 65.
#[verifier::external_body]
fn is_monero_address(b: &[u8]) -> (r: bool)
    ensures
        r == address_decodes(b@),
        b@.len() < 65 ==> !r,
{
    monero::Address::from_bytes(b).is_ok()
}

/// A Monero address held as its raw bytes.
#[derive(Clone, Debug, PartialEq, Eq)]
pub struct MoneroAddress(pub Vec<u8>);

impl MoneroAddress {
    /// Whether the bytes are an address.
    pub open spec fn wf(&self) -> bool {
        address_decodes(self.0@)
    }

    /// Takes raw bytes if they are an address.
    pub fn from_bytes(b: Vec<u8>) -> (r: Result<MoneroAddress, Error>)
        ensures
            address_decodes(b@) ==> r == Ok::<MoneroAddress, Error>(MoneroAddress(b)),
            !address_decodes(b@) ==> r matches Err(Error::DataIntegrityError(_)),
    {
        if is_monero_address(b.as_slice()) {
            Ok(MoneroAddress(b))
        } else {
            Err(Error::DataIntegrityError("invalid Monero address".to_owned()))
        }
    }
}

/// What a wallet checkpoints.
#[derive(Clone, Debug, PartialEq, Eq)]
pub struct CheckpointWallet {
    /// The wallet state's own encoding.
    pub wallet: Vec<u8>,
    pub xmr_addr: MoneroAddress,
}

/// The checkpoint of wallet body `w` and address `a`.
pub open spec fn checkpoint_bytes(w: Seq<u8>, a: Seq<u8>) -> Seq<u8> {
    varint(w.len()) + w + varint(a.len()) + a
}

/// Reads the checkpoint at the front of `b`: the wallet body and the address, or nothing
/// where the bytes are malformed or the address is not one. What follows is left unread.
pub open spec fn parse_checkpoint(b: Seq<u8>) -> Option<(Seq<u8>, Seq<u8>)> {
    match parse_varint(b, MAX_VARINT_BYTES as nat) {
        Some((l, j)) => if b.len() < j + l {
            None
        } else {
            let rest = b.skip((j + l) as int);
            match parse_varint(rest, MAX_VARINT_BYTES as nat) {
                Some((v, k)) => if rest.len() >= k + v && address_decodes(
                    rest.subrange(k as int, (k + v) as int),
                ) {
                    Some((b.subrange(j as int, (j + l) as int), rest.subrange(k as int, (k + v) as int)))
                } else {
                    None
                },
                None => None,
            }
        },
        None => None,
    }
}

/// Decoding an encoded checkpoint gives it back, whatever bytes follow it.
pub proof fn lemma_checkpoint_round_trip(w: Seq<u8>, a: Seq<u8>, rest: Seq<u8>)
    requires
        w.len() <= u64::MAX,
        a.len() <= u64::MAX,
        address_decodes(a),
    ensures
        parse_checkpoint(checkpoint_bytes(w, a) + rest) == Some((w, a)),
{
    let b = checkpoint_bytes(w, a) + rest;
    let tail = varint(a.len()) + a + rest;
    lemma_u64_fits(w.len() as u64);
    lemma_u64_fits(a.len() as u64);
    lemma_varint_parses(w.len(), w + tail, MAX_VARINT_BYTES as nat);
    assert(b =~= varint(w.len()) + (w + tail));
    let j = varint(w.len()).len() as int;
    assert(b.subrange(j, j + w.len()) =~= w);
    assert(b.skip(j + w.len()) =~= varint(a.len()) + (a + rest));
    lemma_varint_parses(a.len(), a + rest, MAX_VARINT_BYTES as nat);
    let k = varint(a.len()).len() as int;
    assert((varint(a.len()) + (a + rest)).subrange(k, k + a.len()) =~= a);
}

/// A checkpoint is read only from bytes that start with its encoding: decoding and then
/// encoding gives the bytes that were read.
pub proof fn lemma_checkpoint_canonical(b: Seq<u8>)
    ensures
        parse_checkpoint(b) matches Some((w, a)) ==> checkpoint_bytes(w, a).len() <= b.len()
            && b.subrange(0, checkpoint_bytes(w, a).len() as int) == checkpoint_bytes(w, a),
{
    if let Some((w, a)) = parse_checkpoint(b) {
        lemma_varint_canonical(b, MAX_VARINT_BYTES as nat);
        let (l, j) = parse_varint(b, MAX_VARINT_BYTES as nat)->0;
        assert(w.len() == l);
        let rest = b.skip((j + l) as int);
        lemma_varint_canonical(rest, MAX_VARINT_BYTES as nat);
        let (v, k) = parse_varint(rest, MAX_VARINT_BYTES as nat)->0;
        assert(a.len() == v);
        let n = j + l + k + v;
        assert(rest.subrange(0, (k + v) as int) =~= rest.subrange(0, k as int) + a);
        assert(b.subrange(0, n as int) =~= b.subrange(0, j as int) + w + rest.subrange(0, (k + v) as int));
    }
}

impl CheckpointWallet {
    pub open spec fn wf(&self) -> bool {
        self.xmr_addr.wf()
    }

    /// Encodes the checkpoint.
    pub fn strict_encode(&self) -> (r: Result<Vec<u8>, Error>)
        ensures
            r matches Ok(v) && v@ == checkpoint_bytes(self.wallet@, self.xmr_addr.0@),
    {
        let mut out: Vec<u8> = Vec::new();
        write_varint(&mut out, self.wallet.len() as u64);
        append_bytes(&mut out, self.wallet.as_slice());
        let a = &self.xmr_addr.0;
        write_varint(&mut out, a.len() as u64);
        append_bytes(&mut out, a.as_slice());
        assert(out@ =~= checkpoint_bytes(self.wallet@, a@));
        Ok(out)
    }

    /// Decodes the checkpoint at the front of `b`, whatever follows it; malformed input or
    /// an invalid address give `DataIntegrityError`.
    pub fn strict_decode(b: &[u8]) -> (r: Result<CheckpointWallet, Error>)
        ensures
            parse_checkpoint(b@) matches Some((w, a)) ==> (r matches Ok(c) && c.wallet@ == w
                && c.xmr_addr.0@ == a && c.wf()),
            parse_checkpoint(b@) is None ==> r matches Err(Error::DataIntegrityError(_)),
    {
        let malformed = Error::DataIntegrityError("malformed wallet checkpoint".to_owned());
        assert(b@.skip(0) =~= b@);
        let (l, j) = match read_varint(b, 0, MAX_VARINT_BYTES) {
            Some(p) => p,
            None => {
                return Err(malformed);
            },
        };
        proof {
            lemma_parse_varint_bound(b@, MAX_VARINT_BYTES as nat);
        }
        if l > (b.len() - j) as u128 {
            return Err(malformed);
        }
        let start: usize = j + l as usize;
        assert(b@.skip(start as int).len() == b@.len() - start);
        match read_varint(b, start, MAX_VARINT_BYTES) {
            None => Err(malformed),
            Some((v, k)) => {
                let rest_len: usize = b.len() - start;
                if k > rest_len || v > (rest_len - k) as u128 {
                    return Err(malformed);
                }
                let end: usize = start + k + v as usize;
                let wallet = copy_range(b, j, start);
                let addr = copy_range(b, start + k, end);
                assert(addr@ =~= b@.skip(start as int).subrange(k as int, (k + v) as int));
                match MoneroAddress::from_bytes(addr) {
                    Ok(xmr_addr) => Ok(CheckpointWallet { wallet, xmr_addr }),
                    Err(e) => Err(e),
                }
            },
        }
    }
}

} // verus!
