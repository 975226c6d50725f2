//! Key and nonce material: byte strings of the exact lengths that the
//! secret box is defined for.

use vstd::prelude::*;
use vstd::slice::slice_to_vec;
use crate::error::Error;

verus! {

/// Number of bytes in a key.
pub const KEYBYTES: usize = 32;

/// Number of bytes in a nonce.
pub const NONCEBYTES: usize = 24;

/// Number of bytes by which the sealed output is longer than the payload:
/// the length of the authentication tag.
pub const MACBYTES: usize = 16;

/// Copies a slice of exactly `N` bytes into an array.
fn copy_fixed<const N: usize>(bs: &[u8]) -> (out: [u8; N])
    requires
        bs@.len() == N,
    ensures
        out@ == bs@,
{
    let mut out = [0u8; N];
    let mut i: usize = 0;
    while i < N
        invariant
            i <= N,
            bs@.len() == N,
            out@.len() == N,
            forall|j: int| 0 <= j < i ==> out@[j] == bs@[j],
        decreases N - i,
    {
        out[i] = bs[i];
        i = i + 1;
    }
    assert(out@ =~= bs@);
    out
}

/// A secret key. Its length is part of its type: no key is ever cut or
/// padded to fit.
#[derive(Clone, Debug, PartialEq, Eq)]
pub struct Key {
    pub bytes: [u8; KEYBYTES],
}

impl View for Key {
    type V = Seq<u8>;

    open spec fn view(&self) -> Seq<u8> {
        self.bytes@
    }
}

impl Key {
    /// Makes a key of `bs` where it has exactly `KEYBYTES` bytes, and
    /// nothing otherwise.
    pub fn from_slice(bs: &[u8]) -> (r: Option<Key>)
        ensures
            bs@.len() == KEYBYTES ==> (r matches Some(k) && k@ == bs@),
            bs@.len() != KEYBYTES ==> r is None,
    {
        if bs.len() != KEYBYTES {
            return None;
        }
        Some(Key { bytes: copy_fixed::<KEYBYTES>(bs) })
    }

    /// The raw bytes of the key, with no framing.
    pub fn to_vec(&self) -> (out: Vec<u8>)
        ensures
            out@ == self@,
            out@.len() == KEYBYTES,
    {
        slice_to_vec(self.bytes.as_slice())
    }
}

/// A nonce. Its length is part of its type.
#[derive(Clone, Debug, PartialEq, Eq)]
pub struct Nonce {
    pub bytes: [u8; NONCEBYTES],
}

impl View for Nonce {
    type V = Seq<u8>;

    open spec fn view(&self) -> Seq<u8> {
        self.bytes@
    }
}

impl Nonce {
    /// Makes a nonce of `bs` where it has exactly `NONCEBYTES` bytes, and
    /// nothing otherwise.
    pub fn from_slice(bs: &[u8]) -> (r: Option<Nonce>)
        ensures
            bs@.len() == NONCEBYTES ==> (r matches Some(n) && n@ == bs@),
            bs@.len() != NONCEBYTES ==> r is None,
    {
        if bs.len() != NONCEBYTES {
            return None;
        }
        Some(Nonce { bytes: copy_fixed::<NONCEBYTES>(bs) })
    }

    /// The raw bytes of the nonce, with no framing.
    pub fn to_vec(&self) -> (out: Vec<u8>)
        ensures
            out@ == self@,
            out@.len() == NONCEBYTES,
    {
        slice_to_vec(self.bytes.as_slice())
    }
}

/// The outcome of loading a key from `bs`.
pub open spec fn spec_load_key(bs: Seq<u8>) -> Result<Seq<u8>, Error> {
    if bs.len() == KEYBYTES {
        Ok(bs)
    } else {
        Err(Error::InvalidKeyLength { actual: bs.len() as usize })
    }
}

/// The outcome of loading a nonce from `bs`.
pub open spec fn spec_load_nonce(bs: Seq<u8>) -> Result<Seq<u8>, Error> {
    if bs.len() == NONCEBYTES {
        Ok(bs)
    } else {
        Err(Error::InvalidNonceLength { actual: bs.len() as usize })
    }
}

/// Validates loaded key material: a key of the same bytes where the length
/// is `KEYBYTES`, the length error otherwise.
pub fn load_key(bs: &[u8]) -> (r: Result<Key, Error>)
    ensures
        match spec_load_key(bs@) {
            Ok(k) => r matches Ok(key) && key@ == k,
            Err(e) => r == Err::<Key, Error>(e),
        },
{
    match Key::from_slice(bs) {
        Some(key) => Ok(key),
        None => Err(Error::InvalidKeyLength { actual: bs.len() }),
    }
}

/// Validates loaded nonce material: a nonce of the same bytes where the
/// length is `NONCEBYTES`, the length error otherwise.
pub fn load_nonce(bs: &[u8]) -> (r: Result<Nonce, Error>)
    ensures
        match spec_load_nonce(bs@) {
            Ok(n) => r matches Ok(nonce) && nonce@ == n,
            Err(e) => r == Err::<Nonce, Error>(e),
        },
{
    match Nonce::from_slice(bs) {
        Some(nonce) => Ok(nonce),
        None => Err(Error::InvalidNonceLength { actual: bs.len() }),
    }
}

} // verus!
