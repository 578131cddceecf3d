//! The signing leaf certificate of a verified file.

use vstd::prelude::*;
use crate::error::Error;
use crate::hex::{hex_of, lemma_hex_of_len, reversed, to_hex, to_hex_reversed};
use crate::name::{name_matches, Name, RawName};

verus! {

/// A native handle. Zero stands for "none".
pub type Handle = isize;

/// What `sha1::Sha1::digest` computes over a byte string.
pub uninterp spec fn sha1_of(data: Seq<u8>) -> Seq<u8>;

/// What `sha2::Sha256::digest` computes over a byte string.
pub uninterp spec fn sha256_of(data: Seq<u8>) -> Seq<u8>;

/// Relies on `sha1::Sha1::digest`: the SHA-1 digest of `data`, twenty bytes.
#[verifier::external_body]
fn sha1_digest(data: &[u8]) -> (r: Vec<u8>)
    ensures
        r@ == sha1_of(data@),
        r@.len() == 20,
{
    <sha1::Sha1 as sha1::Digest>::digest(data).to_vec()
}

/// Relies on `sha2::Sha256::digest`: the SHA-256 digest of `data`,
/// thirty-two bytes.
#[verifier::external_body]
fn sha256_digest(data: &[u8]) -> (r: Vec<u8>)
    ensures
        r@ == sha256_of(data@),
        r@.len() == 32,
{
    <sha2::Sha256 as sha2::Digest>::digest(data).to_vec()
}

/// The fields of a leaf certificate, copied out of the trust engine's
/// memory while its state is open.
#[derive(Clone, Debug)]
pub struct LeafCert {
    /// The certificate's full DER encoding.
    pub encoded: Vec<u8>,
    /// The serial number as the platform stores it, least significant byte
    /// first.
    pub serial: Vec<u8>,
    pub subject: RawName,
    pub issuer: RawName,
}

/// A verified signature: the trust state that the engine left open, and the
/// leaf certificate that signed the file.
pub struct Context {
    state: Handle,
    leaf: LeafCert,
}

impl Context {
    pub closed spec fn state_spec(&self) -> Handle {
        self.state
    }

    pub closed spec fn leaf_spec(&self) -> LeafCert {
        self.leaf
    }

    /// Takes ownership of an open trust state and the leaf certificate it
    /// yielded; without a certificate there is no context.
    pub fn new(state: Handle, leaf: Option<LeafCert>) -> (r: Result<Context, Error>)
        ensures
            leaf is None ==> r == Err::<Context, Error>(Error::LeafCertNotFound),
            leaf is Some ==> (r matches Ok(c) && c.state_spec() == state && c.leaf_spec()
                == leaf->0),
    {
        match leaf {
            Some(leaf) => Ok(Context { state, leaf }),
            None => Err(Error::LeafCertNotFound),
        }
    }

    /// The trust state to close once the context is no longer needed.
    pub fn state_handle(&self) -> (r: Handle)
        ensures
            r == self.state_spec(),
    {
        self.state
    }

    pub fn subject_name(&self) -> (r: Name)
        ensures
            name_matches(r, self.leaf_spec().subject),
    {
        Name::from_raw(&self.leaf.subject)
    }

    pub fn issuer_name(&self) -> (r: Name)
        ensures
            name_matches(r, self.leaf_spec().issuer),
    {
        Name::from_raw(&self.leaf.issuer)
    }

    /// The serial number in its usual written order.
    pub fn serial(&self) -> (r: String)
        ensures
            r@ == hex_of(reversed(self.leaf_spec().serial@)),
    {
        to_hex_reversed(self.leaf.serial.as_slice())
    }

    pub fn sha1_thumbprint(&self) -> (r: String)
        ensures
            r@ == hex_of(sha1_of(self.leaf_spec().encoded@)),
            r@.len() == 40,
    {
        let d = sha1_digest(self.leaf.encoded.as_slice());
        proof {
            lemma_hex_of_len(d@);
        }
        to_hex(d.as_slice())
    }

    pub fn sha256_thumbprint(&self) -> (r: String)
        ensures
            r@ == hex_of(sha256_of(self.leaf_spec().encoded@)),
            r@.len() == 64,
    {
        let d = sha256_digest(self.leaf.encoded.as_slice());
        proof {
            lemma_hex_of_len(d@);
        }
        to_hex(d.as_slice())
    }
}

} // verus!
