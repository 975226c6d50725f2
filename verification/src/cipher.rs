//! The cipher driver: nonce acquisition, sealing, nonce placement, and the
//! opening that mirrors them, over byte buffers held in memory.

use vstd::prelude::*;
use vstd::slice::slice_subrange;
use sodiumoxide::crypto::secretbox;
use crate::error::Error;
use crate::material::{load_key, load_nonce, spec_load_nonce};
use crate::material::{Key, Nonce, KEYBYTES, MACBYTES, NONCEBYTES};

verus! {

/// The sealed output of the secret box, ciphertext and tag as one unit, for
/// a payload under a nonce and a key.
pub uninterp spec fn sealed_output(payload: Seq<u8>, nonce: Seq<u8>, key: Seq<u8>) -> Seq<u8>;

/// What the secret box makes of sealed bytes under a nonce and a key: the
/// payload where they verify, nothing where they do not.
pub uninterp spec fn opened(sealed: Seq<u8>, nonce: Seq<u8>, key: Seq<u8>) -> Option<Seq<u8>>;

/// The bytes of an optional buffer.
pub open spec fn bytes_of(buffer: Option<Vec<u8>>) -> Option<Seq<u8>> {
    match buffer {
        Some(v) => Some(v@),
        None => None,
    }
}

/// The bytes of an optional source.
pub open spec fn source_bytes(source: Option<&[u8]>) -> Option<Seq<u8>> {
    match source {
        Some(s) => Some(s@),
        None => None,
    }
}

/// Trusted: `sodiumoxide::crypto::secretbox::gen_key`. The result is random;
/// nothing is claimed of it beyond its type, which fixes its length.
#[verifier::external_body]
fn random_key() -> (key: Key) {
    Key { bytes: secretbox::gen_key().0 }
}

/// Trusted: `sodiumoxide::crypto::secretbox::gen_nonce`. The result is
/// random; nothing is claimed of it beyond its type, which fixes its length.
#[verifier::external_body]
fn random_nonce() -> (nonce: Nonce) {
    Nonce { bytes: secretbox::gen_nonce().0 }
}

/// Trusted: `sodiumoxide::crypto::secretbox::seal`. Claimed: the result is a
/// function of the three arguments alone, named `sealed_output`, and is
/// `MACBYTES` longer than the payload. The bound keeps the buffer that the
/// call allocates within what a `Vec` can hold.
#[verifier::external_body]
fn seal(payload: &[u8], nonce: &Nonce, key: &Key) -> (sealed: Vec<u8>)
    requires
        payload@.len() + MACBYTES <= isize::MAX,
    ensures
        sealed@ == sealed_output(payload@, nonce@, key@),
        sealed@.len() == payload@.len() + MACBYTES,
{
    secretbox::seal(payload, &secretbox::Nonce(nonce.bytes), &secretbox::Key(key.bytes))
}

/// Trusted: `sodiumoxide::crypto::secretbox::open`. Claimed: the result is a
/// function of the three arguments alone, named `opened`; input shorter than
/// a tag is refused; a payload that comes out is `MACBYTES` shorter than the
/// input; and what `seal` made of a payload under this nonce and key opens
/// to that payload.
#[verifier::external_body]
fn open(sealed: &[u8], nonce: &Nonce, key: &Key) -> (payload: Option<Vec<u8>>)
    ensures
        bytes_of(payload) == opened(sealed@, nonce@, key@),
        sealed@.len() < MACBYTES ==> payload is None,
        payload matches Some(p) ==> p@.len() + MACBYTES == sealed@.len(),
        forall|p: Seq<u8>|
            sealed@ == #[trigger] sealed_output(p, nonce@, key@) ==> bytes_of(payload) == Some(p),
{
    secretbox::open(sealed, &secretbox::Nonce(nonce.bytes), &secretbox::Key(key.bytes)).ok()
}

/// Generates a fresh random key and returns its raw bytes, exactly
/// `KEYBYTES` of them, as they are to be written.
pub fn gen_key() -> (out: Vec<u8>)
    ensures
        out@.len() == KEYBYTES,
{
    random_key().to_vec()
}

/// Generates a fresh random nonce and returns its raw bytes, exactly
/// `NONCEBYTES` of them, as they are to be written.
pub fn gen_nonce() -> (out: Vec<u8>)
    ensures
        out@.len() == NONCEBYTES,
{
    random_nonce().to_vec()
}

/// The bytes of the primary output: the sealed output alone where the nonce
/// goes to a sink of its own, the sealed output and then the nonce where it
/// does not.
pub open spec fn artifact(sealed: Seq<u8>, nonce: Seq<u8>, separate: bool) -> Seq<u8> {
    if separate {
        sealed
    } else {
        sealed + nonce
    }
}

/// The number of bytes that an artifact holds besides the payload: the
/// tag, and the nonce where it is appended.
pub open spec fn overhead(separate: bool) -> nat {
    if separate {
        MACBYTES as nat
    } else {
        (MACBYTES + NONCEBYTES) as nat
    }
}

/// The result of one encryption: the sealed output, the one nonce that was
/// used, and where that nonce is to be written.
#[derive(Clone, Debug, PartialEq, Eq)]
pub struct Encrypted {
    /// Ciphertext and tag, as the secret box returned them.
    pub sealed: Vec<u8>,
    /// The nonce that sealed them.
    pub nonce: Nonce,
    /// Whether the nonce goes to a sink of its own.
    pub separate: bool,
}

impl Encrypted {
    /// The bytes for the primary sink.
    pub open spec fn spec_primary(&self) -> Seq<u8> {
        artifact(self.sealed@, self.nonce@, self.separate)
    }

    /// The bytes for the nonce sink, where there is one.
    pub open spec fn spec_nonce_output(&self) -> Option<Seq<u8>> {
        if self.separate {
            Some(self.nonce@)
        } else {
            None
        }
    }

    /// The bytes to write to the primary sink, in order: the sealed output,
    /// followed by the nonce unless that has a sink of its own.
    pub fn primary_output(&self) -> (out: Vec<u8>)
        ensures
            out@ == self.spec_primary(),
    {
        let mut out = self.sealed.clone();
        if !self.separate {
            let nonce = self.nonce.to_vec();
            let ghost before = out@;
            out.extend_from_slice(nonce.as_slice());
            assert(out@ =~= before + nonce@);
        }
        out
    }

    /// The bytes to write to the separate nonce sink: the raw nonce where
    /// there is such a sink, nothing where the nonce was appended.
    pub fn nonce_output(&self) -> (out: Option<Vec<u8>>)
        ensures
            bytes_of(out) == self.spec_nonce_output(),
    {
        if self.separate {
            Some(self.nonce.to_vec())
        } else {
            None
        }
    }
}

/// Determines the nonce of an invocation. A source that is given is
/// validated and used as it is; without one a fresh nonce is generated.
pub fn acquire_nonce(source: Option<&[u8]>) -> (r: Result<Nonce, Error>)
    ensures
        match source {
            Some(bs) => match spec_load_nonce(bs@) {
                Ok(n) => r matches Ok(nonce) && nonce@ == n,
                Err(e) => r == Err::<Nonce, Error>(e),
            },
            None => r is Ok,
        },
{
    match source {
        Some(bs) => load_nonce(bs),
        None => Ok(random_nonce()),
    }
}

/// Seals `payload` under `nonce` and `key` and records where the nonce is
/// to go.
pub fn seal_payload(payload: &[u8], nonce: Nonce, key: &Key, separate: bool) -> (out: Encrypted)
    requires
        payload@.len() + MACBYTES <= isize::MAX,
    ensures
        out.sealed@ == sealed_output(payload@, nonce@, key@),
        out.nonce@ == nonce@,
        out.separate == separate,
        out.spec_primary().len() == payload@.len() + overhead(separate),
{
    let sealed = seal(payload, &nonce, key);
    Encrypted { sealed, nonce, separate }
}

/// The error that a nonce source gives, if any. No source gives none.
pub open spec fn spec_acquire_nonce(nonce_source: Option<Seq<u8>>) -> Option<Error> {
    match nonce_source {
        Some(n) => if n.len() != NONCEBYTES {
            Some(Error::InvalidNonceLength { actual: n.len() as usize })
        } else {
            None
        },
        None => None,
    }
}

/// The error that the loaded material of an invocation gives, if any: the
/// nonce is examined first, then the key.
pub open spec fn material_error(key: Seq<u8>, nonce_source: Option<Seq<u8>>) -> Option<Error> {
    if spec_acquire_nonce(nonce_source) is Some {
        spec_acquire_nonce(nonce_source)
    } else if key.len() != KEYBYTES {
        Some(Error::InvalidKeyLength { actual: key.len() as usize })
    } else {
        None
    }
}

/// Material of a wrong length is refused whatever the rest is: a nonce
/// source of a wrong length gives the nonce length error, and a key of a
/// wrong length gives the key length error unless the nonce source has
/// given its own. Material of the right lengths gives no error.
pub proof fn lemma_wrong_length_refused(key: Seq<u8>, nonce_source: Option<Seq<u8>>)
    ensures
        nonce_source matches Some(n) ==> (n.len() != NONCEBYTES ==> material_error(
            key,
            nonce_source,
        ) == Some(Error::InvalidNonceLength { actual: n.len() as usize })),
        key.len() != KEYBYTES ==> material_error(key, nonce_source) is Some,
        key.len() != KEYBYTES && spec_acquire_nonce(nonce_source) is None ==> material_error(
            key,
            nonce_source,
        ) == Some(Error::InvalidKeyLength { actual: key.len() as usize }),
        key.len() == KEYBYTES && spec_acquire_nonce(nonce_source) is None ==> material_error(
            key,
            nonce_source,
        ) is None,
{
}

/// Encrypts `payload` with the key material `key`.
///
/// The nonce is `nonce_source` where that is given, and freshly generated
/// where it is not. Material of the wrong length fails before anything is
/// sealed, the nonce's before the key's. On success the result holds the
/// sealed output of the payload under the nonce that it names.
pub fn encrypt(key: &[u8], payload: &[u8], nonce_source: Option<&[u8]>, separate: bool) -> (r:
    Result<Encrypted, Error>)
    requires
        payload@.len() + MACBYTES <= isize::MAX,
    ensures
        match material_error(key@, source_bytes(nonce_source)) {
            Some(e) => r == Err::<Encrypted, Error>(e),
            None => r matches Ok(out) && {
                &&& out.separate == separate
                &&& nonce_source matches Some(bs) ==> out.nonce@ == bs@
                &&& out.sealed@ == sealed_output(payload@, out.nonce@, key@)
                &&& out.spec_primary().len() == payload@.len() + overhead(separate)
            },
        },
{
    let nonce = match acquire_nonce(nonce_source) {
        Ok(nonce) => nonce,
        Err(e) => {
            return Err(e);
        },
    };
    let key = match load_key(key) {
        Ok(key) => key,
        Err(e) => {
            return Err(e);
        },
    };
    Ok(seal_payload(payload, nonce, &key, separate))
}

/// The sealed part and the nonce part of an artifact that carries its nonce
/// at its end.
pub open spec fn spec_split(data: Seq<u8>) -> (Seq<u8>, Seq<u8>)
    recommends
        data.len() >= NONCEBYTES,
{
    let cut = data.len() - NONCEBYTES;
    (data.subrange(0, cut), data.subrange(cut, data.len() as int))
}

/// Splitting undoes appending: an artifact made of a sealed output and a
/// nonce of the right length splits into those two.
pub proof fn lemma_split_of_appended(sealed: Seq<u8>, nonce: Seq<u8>)
    requires
        nonce.len() == NONCEBYTES,
    ensures
        spec_split(artifact(sealed, nonce, false)) == (sealed, nonce),
{
    let data = sealed + nonce;
    assert(data.subrange(0, data.len() - NONCEBYTES) =~= sealed);
    assert(data.subrange(data.len() - NONCEBYTES, data.len() as int) =~= nonce);
}

/// Takes an artifact with an appended nonce apart: the last `NONCEBYTES`
/// bytes are the nonce, what stands before them is the sealed output. An
/// artifact too short to hold a nonce gives the nonce length error.
pub fn split_artifact(data: &[u8]) -> (r: Result<(&[u8], Nonce), Error>)
    ensures
        data@.len() < NONCEBYTES ==> r == Err::<(&[u8], Nonce), Error>(
            Error::InvalidNonceLength { actual: data@.len() as usize },
        ),
        data@.len() >= NONCEBYTES ==> (r matches Ok(parts) && (parts.0@, parts.1@) == spec_split(
            data@,
        )),
{
    let len = data.len();
    if len < NONCEBYTES {
        return Err(Error::InvalidNonceLength { actual: len });
    }
    let sealed = slice_subrange(data, 0, len - NONCEBYTES);
    let tail = slice_subrange(data, len - NONCEBYTES, len);
    match Nonce::from_slice(tail) {
        Some(nonce) => Ok((sealed, nonce)),
        None => Err(Error::InvalidNonceLength { actual: len }),
    }
}

/// What an opening comes to: the payload, or the authentication failure.
pub open spec fn spec_authenticated(opened: Option<Seq<u8>>) -> Result<Seq<u8>, Error> {
    match opened {
        Some(p) => Ok(p),
        None => Err(Error::AuthenticationFailure),
    }
}

/// The bytes of a payload or the error in its place.
pub open spec fn outcome_bytes(r: Result<Vec<u8>, Error>) -> Result<Seq<u8>, Error> {
    match r {
        Ok(p) => Ok(p@),
        Err(e) => Err(e),
    }
}

/// Turns what the secret box made of sealed bytes into the outcome of a
/// decryption: a payload is handed on, a refusal is the authentication
/// failure. No part of a refused payload exists to be handed on.
pub fn authenticated(opened: Option<Vec<u8>>) -> (r: Result<Vec<u8>, Error>)
    ensures
        outcome_bytes(r) == spec_authenticated(bytes_of(opened)),
{
    match opened {
        Some(payload) => Ok(payload),
        None => Err(Error::AuthenticationFailure),
    }
}

/// Opens `sealed` under `nonce` and `key`.
pub fn open_sealed(sealed: &[u8], nonce: &Nonce, key: &Key) -> (r: Result<Vec<u8>, Error>)
    ensures
        outcome_bytes(r) == spec_authenticated(opened(sealed@, nonce@, key@)),
        sealed@.len() < MACBYTES ==> r == Err::<Vec<u8>, Error>(Error::AuthenticationFailure),
        r matches Ok(p) ==> p@.len() + MACBYTES == sealed@.len(),
        forall|p: Seq<u8>|
            sealed@ == #[trigger] sealed_output(p, nonce@, key@) ==> outcome_bytes(r) == Ok::<
                Seq<u8>,
                Error,
            >(p),
{
    authenticated(open(sealed, nonce, key))
}

/// The outcome of a decryption, over what the secret box makes of the
/// sealed part. Material of the wrong length fails first, the nonce's
/// before the key's; without a nonce source the nonce is the end of `data`.
pub open spec fn spec_decrypt(key: Seq<u8>, data: Seq<u8>, nonce_source: Option<Seq<u8>>) -> Result<
    Seq<u8>,
    Error,
> {
    if let Some(e) = material_error(key, nonce_source) {
        Err(e)
    } else {
        match nonce_source {
            Some(n) => spec_authenticated(opened(data, n, key)),
            None => if data.len() < NONCEBYTES {
                Err(Error::InvalidNonceLength { actual: data.len() as usize })
            } else {
                spec_authenticated(opened(spec_split(data).0, spec_split(data).1, key))
            },
        }
    }
}

/// The outcome `r` of decrypting `data` honours sealing: if `data` is the
/// primary output of any payload sealed under this key and a nonce, with
/// the nonce appended to it or given beside it, then `r` is that payload.
pub open spec fn opens_what_was_sealed(
    key: Seq<u8>,
    data: Seq<u8>,
    nonce_source: Option<Seq<u8>>,
    r: Result<Seq<u8>, Error>,
) -> bool {
    forall|payload: Seq<u8>, nonce: Seq<u8>|
        {
            &&& key.len() == KEYBYTES
            &&& nonce.len() == NONCEBYTES
            &&& nonce_source matches Some(bs) ==> bs == nonce
            &&& data == artifact(
                #[trigger] sealed_output(payload, nonce, key),
                nonce,
                nonce_source is Some,
            )
        } ==> r == Ok::<Seq<u8>, Error>(payload)
}

/// Decrypts an artifact with the key material `key`.
///
/// With a nonce source, `data` is the sealed output and the source is the
/// nonce. Without one, the last `NONCEBYTES` bytes of `data` are the nonce
/// and the rest is the sealed output. The outcome is a payload only where
/// the secret box verifies the sealed part under that nonce and key; every
/// artifact that an encryption of a payload produced, under the same key
/// and in either placement, decrypts to that payload.
pub fn decrypt(key: &[u8], data: &[u8], nonce_source: Option<&[u8]>) -> (r: Result<Vec<u8>, Error>)
    ensures
        outcome_bytes(r) == spec_decrypt(key@, data@, source_bytes(nonce_source)),
        opens_what_was_sealed(key@, data@, source_bytes(nonce_source), outcome_bytes(r)),
        r matches Ok(p) ==> p@.len() + overhead(nonce_source is Some) == data@.len(),
        material_error(key@, source_bytes(nonce_source)) is None && data@.len() < overhead(
            nonce_source is Some,
        ) ==> r is Err,
{
    let given = match nonce_source {
        Some(bs) => match load_nonce(bs) {
            Ok(nonce) => Some(nonce),
            Err(e) => {
                return Err(e);
            },
        },
        None => None,
    };
    let key = match load_key(key) {
        Ok(key) => key,
        Err(e) => {
            return Err(e);
        },
    };
    match given {
        Some(nonce) => open_sealed(data, &nonce, &key),
        None => match split_artifact(data) {
            Ok((sealed, nonce)) => {
                let r = open_sealed(sealed, &nonce, &key);
                proof {
                    assert forall|payload: Seq<u8>, n: Seq<u8>|
                        n.len() == NONCEBYTES && data@ == artifact(
                            #[trigger] sealed_output(payload, n, key@),
                            n,
                            false,
                        ) implies outcome_bytes(r) == Ok::<Seq<u8>, Error>(payload) by {
                        lemma_split_of_appended(sealed_output(payload, n, key@), n);
                    }
                }
                r
            },
            Err(e) => {
                proof {
                    assert forall|payload: Seq<u8>, n: Seq<u8>|
                        n.len() == NONCEBYTES && data@ == artifact(
                            #[trigger] sealed_output(payload, n, key@),
                            n,
                            false,
                        ) implies false by {
                        assert(data@.len() == sealed_output(payload, n, key@).len() + n.len());
                    }
                }
                Err(e)
            },
        },
    }
}

/// Decryption undoes encryption. Let `out` be an encryption of `payload`
/// under `key`, with whatever nonce it names and in either placement, and
/// let `r` be an outcome of decrypting its primary output under the same
/// key, with its nonce output as the nonce source. Then `r` is `payload`.
pub proof fn lemma_round_trip(
    key: Seq<u8>,
    payload: Seq<u8>,
    out: Encrypted,
    r: Result<Seq<u8>, Error>,
)
    requires
        key.len() == KEYBYTES,
        out.sealed@ == sealed_output(payload, out.nonce@, key),
        opens_what_was_sealed(key, out.spec_primary(), out.spec_nonce_output(), r),
    ensures
        r == Ok::<Seq<u8>, Error>(payload),
{
    let nonce = out.nonce@;
    assert(nonce.len() == NONCEBYTES);
    assert(out.spec_primary() == artifact(
        sealed_output(payload, nonce, key),
        nonce,
        out.spec_nonce_output() is Some,
    ));
}

} // verus!
