//! Verification of code signatures on executables.
//!
//! The library decides: it drives the platform's trust engine step by step,
//! falls back to catalog signatures, tracks every native handle that must be
//! released, and exposes the fields of the signing leaf certificate. The
//! platform calls themselves are made by the host, which hands their outcomes
//! back as plain values.

use vstd::prelude::*;
use crate::context::Context;
use crate::engine::{finishes, DIRECT_CHECK_FLAGS, utf16_of, valid_path, valid_target, Phase, Request, Verification, Verifier};
use crate::hex::{hex_of, reversed};
use crate::name::name_matches;
pub use crate::error::Error;
pub use crate::name::Name;

pub mod context;
pub mod engine;
pub mod error;
pub mod guard;
pub mod hex;
pub mod laws;
pub mod name;

verus! {

/// Checks that a file, or the executable of a running process, carries a
/// valid code signature.
pub struct CodeSignVerifier(Verifier);

/// The signing leaf certificate of a verified file.
pub struct SignatureContext(Context);

impl CodeSignVerifier {
    pub closed spec fn path_spec(&self) -> Seq<u16> {
        self.0.path_spec()
    }

    /// A verifier for the file at `path`.
    pub fn for_file(path: &str) -> (r: Self)
        ensures
            r.path_spec() == utf16_of(path@).push(0),
    {
        CodeSignVerifier(Verifier::for_file(path))
    }

    /// A verifier for a running process, from the image path the platform
    /// reported for it (UTF-16 code units), or from the error code of that
    /// query. This serves to check the application at the other end of a
    /// pipe.
    pub fn for_pid(image: Result<Vec<u16>, i32>) -> (r: Result<Self, Error>)
        ensures
            image matches Err(c) ==> r == Err::<Self, Error>(Error::OsError(c)),
            image matches Ok(u) ==> (valid_path(u@) <==> r is Ok) && (!valid_path(u@) ==> r
                == Err::<Self, Error>(Error::InvalidPath)) && (r matches Ok(v) ==> v.path_spec()
                == u@.push(0)),
    {
        match Verifier::for_pid(image) {
            Ok(v) => Ok(CodeSignVerifier(v)),
            Err(e) => Err(e),
        }
    }

    /// Starts the verification: the direct trust check of the target comes
    /// first, the catalog check only where the file carries no signature.
    /// A path that the platform would read as another one, or as none,
    /// ends at once as `InvalidPath`.
    pub fn verify(self) -> (r: (Verification, Request))
        ensures
            valid_target(self.path_spec()) ==> {
                &&& r.0.phase_spec() == Phase::Direct
                &&& r.0.target_spec() == self.path_spec()
                &&& r.0.wf()
                &&& r.1 matches Request::VerifyFile { path, flags } && path@ == self.path_spec()
                    && flags == DIRECT_CHECK_FLAGS
            },
            !valid_target(self.path_spec()) ==> r.0.done() && finishes(
                r.1,
                Seq::empty(),
                Err(Error::InvalidPath),
            ),
    {
        self.0.verify()
    }
}

impl SignatureContext {
    pub closed spec fn context(&self) -> Context {
        self.0
    }

    /// Wraps the context that a finished verification handed back.
    pub fn from_context(c: Context) -> (r: Self)
        ensures
            r.context() == c,
    {
        SignatureContext(c)
    }

    /// The context, for closing its trust state.
    pub fn into_context(self) -> (r: Context)
        ensures
            r == self.context(),
    {
        self.0
    }

    /// The subject name on the leaf certificate.
    pub fn subject_name(&self) -> (r: Name)
        ensures
            name_matches(r, self.context().leaf_spec().subject),
    {
        self.0.subject_name()
    }

    /// The issuer name on the leaf certificate.
    pub fn issuer_name(&self) -> (r: Name)
        ensures
            name_matches(r, self.context().leaf_spec().issuer),
    {
        self.0.issuer_name()
    }

    /// The SHA-1 thumbprint of the leaf certificate, in lower-case hex.
    pub fn sha1_thumbprint(&self) -> (r: String)
        ensures
            r@ == hex_of(crate::context::sha1_of(self.context().leaf_spec().encoded@)),
            r@.len() == 40,
    {
        self.0.sha1_thumbprint()
    }

    /// The SHA-256 thumbprint of the leaf certificate, in lower-case hex.
    pub fn sha256_thumbprint(&self) -> (r: String)
        ensures
            r@ == hex_of(crate::context::sha256_of(self.context().leaf_spec().encoded@)),
            r@.len() == 64,
    {
        self.0.sha256_thumbprint()
    }

    /// The leaf certificate's serial number, most significant byte first.
    pub fn serial(&self) -> (r: String)
        ensures
            r@ == hex_of(reversed(self.context().leaf_spec().serial@)),
    {
        self.0.serial()
    }
}

} // verus!
