//! The verification engine: a direct trust check, then, for a file without an
//! embedded signature, a check through the catalog that lists its hash.
//!
//! The engine makes no platform call itself. Each step returns the next
//! [`Request`] for the host to carry out, and takes the outcome back as an
//! [`Event`]. The last request, [`Request::Finish`], carries the result and
//! the release calls owed for every handle the engine was handed.

use vstd::prelude::*;
use crate::context::{Context, Handle, LeafCert};
use crate::error::{status_code, to_status_code, Error};
use crate::guard::{acquired, is_empty, rev, CleanupContext, Release, INVALID_HANDLE_VALUE};
use crate::hex::{hex_wide, to_hex_wide};

verus! {

/// The trust engine's status for a file that carries no signature.
pub const TRUST_E_NOSIGNATURE: u32 = 0x800B_0100;

/// Trust-engine provider flag: refuse MD2 and MD4 hashes.
pub const WTD_DISABLE_MD2_MD4: u32 = 0x2000;

/// Trust-engine provider flag: check the end certificate for revocation.
pub const WTD_REVOCATION_CHECK_END_CERT: u32 = 0x20;

/// Trust-engine provider flag: no IE4 chain building.
pub const WTD_NO_IE4_CHAIN_FLAG: u32 = 0x2;

/// Trust-engine provider flag: fetch nothing over the network, use cached
/// data only.
pub const WTD_CACHE_ONLY_URL_RETRIEVAL: u32 = 0x1000;

/// Trust-engine provider flag: the default operating-system version check.
pub const WTD_USE_DEFAULT_OSVER_CHECK: u32 = 0x400;

/// The provider flags of the direct check: revocation of the end
/// certificate is checked there, and only there.
pub const DIRECT_CHECK_FLAGS: u32 = WTD_DISABLE_MD2_MD4 | WTD_REVOCATION_CHECK_END_CERT
    | WTD_NO_IE4_CHAIN_FLAG;

/// The provider flags of the catalog check.
pub const CATALOG_CHECK_FLAGS: u32 = WTD_CACHE_ONLY_URL_RETRIEVAL | WTD_USE_DEFAULT_OSVER_CHECK;

/// The status reported when the host hands over the invalid handle value as
/// an opened file.
pub const ERROR_INVALID_HANDLE: i32 = 6;

/// The status reported for an event that does not answer the last request.
pub const ERROR_INVALID_PARAMETER: i32 = 87;

/// A platform call for the host to make.
pub enum Request {
    /// Run the trust engine on the file at `path` (NUL-terminated UTF-16),
    /// with the provider flags `flags`. Answer: `Trust`.
    VerifyFile { path: Vec<u16>, flags: u32 },
    /// Open the file at `path` for reading, sharing reads. Answer: `Acquired`.
    OpenFile { path: Vec<u16> },
    /// Take a catalog-admin context that hashes with SHA-256.
    /// Answer: `Acquired`.
    AcquireCatalogAdmin,
    /// Hash the open file through the catalog-admin context.
    /// Answer: `Hashed`.
    HashFile { admin: Handle, file: Handle },
    /// Look up a catalog that lists `hash`. Answer: `Acquired`, with zero
    /// where no catalog lists it.
    FindCatalog { admin: Handle, hash: Vec<u8> },
    /// Read the catalog file path of a catalog context.
    /// Answer: `CatalogPath`.
    CatalogInfo { info: Handle },
    /// Run the trust engine on `member` as listed in the catalog file
    /// `catalog` under `tag`, all three NUL-terminated UTF-16, with the
    /// provider flags `flags`. Answer: `Trust`.
    VerifyCatalog { catalog: Vec<u16>, member: Vec<u16>, tag: Vec<u16>, flags: u32 },
    /// Make the release calls in order, then hand `result` to the caller.
    Finish { release: Vec<Release>, result: Result<Context, Error> },
}

/// The outcome of a platform call.
pub enum Event {
    /// The trust engine's status (zero for trusted), the state it opened, and
    /// the signing leaf certificate where it yielded one.
    Trust { status: u32, state: Handle, leaf: Option<LeafCert> },
    /// A handle, or the platform's error code.
    Acquired(Result<Handle, i32>),
    /// A file hash, or the platform's error code.
    Hashed(Result<Vec<u8>, i32>),
    /// A catalog file path (NUL-terminated UTF-16), or the platform's error
    /// code.
    CatalogPath(Result<Vec<u16>, i32>),
}

/// Where a verification stands: the request it waits on an answer to.
#[derive(Clone, Copy, Debug, PartialEq, Eq, Structural)]
pub enum Phase {
    Direct,
    Open,
    Admin,
    Hash,
    Find,
    Info,
    Catalog,
    Done,
}

/// One verification in progress.
pub struct Verification {
    target: Vec<u16>,
    phase: Phase,
    guard: CleanupContext,
    direct_state: Handle,
    hash: Vec<u8>,
}

/// The release owed for a trust state: none for zero.
pub open spec fn state_release(h: Handle) -> Seq<Release> {
    if h != 0 {
        seq![Release::TrustState(h)]
    } else {
        Seq::empty()
    }
}

/// What an answer that comes out of turn hands over that must still be
/// released: the state of a trust-engine answer.
pub open spec fn stray(ev: Event) -> Seq<Release> {
    match ev {
        Event::Trust { status: _, state, leaf: _ } => state_release(state),
        _ => Seq::empty(),
    }
}

/// What a result is, with the context read as its state and certificate.
pub open spec fn result_is(r: Result<Context, Error>, e: Result<(Handle, LeafCert), Error>) -> bool {
    match (r, e) {
        (Ok(c), Ok((s, l))) => c.state_spec() == s && c.leaf_spec() == l,
        (Err(x), Err(y)) => x == y,
        _ => false,
    }
}

/// `r` is the last request, releasing `release` and handing back `result`.
pub open spec fn finishes(
    r: Request,
    release: Seq<Release>,
    result: Result<(Handle, LeafCert), Error>,
) -> bool {
    match r {
        Request::Finish { release: rl, result: res } => rl@ == release && result_is(res, result),
        _ => false,
    }
}

/// What a trust-engine answer with status zero gives: a context that owns
/// the state, or, without a certificate, `LeafCertNotFound`.
pub open spec fn trusted(state: Handle, leaf: Option<LeafCert>) -> Result<(Handle, LeafCert), Error> {
    match leaf {
        Some(l) => Ok((state, l)),
        None => Err(Error::LeafCertNotFound),
    }
}

/// The trust state of an answer that ends the verification, when the
/// returned context does not take it over.
pub open spec fn spent_state(status: u32, state: Handle, leaf: Option<LeafCert>) -> Seq<Release> {
    if status == 0 && leaf is Some {
        Seq::empty()
    } else {
        state_release(state)
    }
}

impl Verification {
    pub closed spec fn target_spec(&self) -> Seq<u16> {
        self.target@
    }

    pub closed spec fn phase_spec(&self) -> Phase {
        self.phase
    }

    pub closed spec fn guard_spec(&self) -> CleanupContext {
        self.guard
    }

    pub closed spec fn direct_state_spec(&self) -> Handle {
        self.direct_state
    }

    pub closed spec fn hash_spec(&self) -> Seq<u8> {
        self.hash@
    }

    /// Every handle the verification holds, in the order it would release
    /// them: the catalog handles last taken first, then the state of the
    /// direct check.
    pub open spec fn held(&self) -> Seq<Release> {
        rev(acquired(self.guard_spec())) + state_release(self.direct_state_spec())
    }

    /// Which handles can be held in each phase.
    pub open spec fn wf(&self) -> bool {
        let g = self.guard_spec();
        match self.phase_spec() {
            Phase::Direct => is_empty(g) && self.direct_state_spec() == 0,
            Phase::Open => is_empty(g),
            Phase::Admin => g.h_cat_admin == 0 && g.h_cat_info == 0,
            Phase::Hash | Phase::Find => g.h_cat_info == 0,
            Phase::Info | Phase::Catalog => true,
            Phase::Done => is_empty(g) && self.direct_state_spec() == 0,
        }
    }

    /// The verification is over and holds nothing.
    pub open spec fn done(&self) -> bool {
        self.phase_spec() == Phase::Done && is_empty(self.guard_spec()) && self.direct_state_spec()
            == 0
    }

    /// `n` moved to `phase`, keeping the target, the hash and the state of
    /// the direct check.
    pub open spec fn advanced(&self, n: Verification, phase: Phase) -> bool {
        n.phase_spec() == phase && n.target_spec() == self.target_spec() && n.hash_spec()
            == self.hash_spec() && n.direct_state_spec() == self.direct_state_spec()
    }

    /// `r` ends the verification: it releases `first`, then all that is
    /// held, and hands back `result`; `n` holds nothing.
    pub open spec fn ends(
        &self,
        n: Verification,
        r: Request,
        first: Seq<Release>,
        result: Result<(Handle, LeafCert), Error>,
    ) -> bool {
        finishes(r, first + self.held(), result) && n.done()
    }

    /// The step from `self` on `ev`: the request `r` and the verification `n`
    /// that follow.
    pub open spec fn step_spec(&self, ev: Event, r: Request, n: Verification) -> bool {
        let g = self.guard_spec();
        match (self.phase_spec(), ev) {
            (Phase::Direct, Event::Trust { status, state, leaf }) => if status == TRUST_E_NOSIGNATURE {
                &&& n.phase_spec() == Phase::Open
                &&& n.target_spec() == self.target_spec()
                &&& n.hash_spec() == self.hash_spec()
                &&& n.direct_state_spec() == state
                &&& n.guard_spec() == g
                &&& r matches Request::OpenFile { path } && path@ == self.target_spec()
            } else if status == 0 {
                self.ends(n, r, spent_state(status, state, leaf), trusted(state, leaf))
            } else {
                self.ends(
                    n,
                    r,
                    state_release(state),
                    Err(Error::OsError(status_code(status))),
                )
            },
            (Phase::Open, Event::Acquired(Ok(h))) => if h == INVALID_HANDLE_VALUE {
                self.ends(n, r, Seq::empty(), Err(Error::OsError(ERROR_INVALID_HANDLE)))
            } else {
                &&& self.advanced(n, Phase::Admin)
                &&& n.guard_spec() == CleanupContext { h_file: h, h_cat_admin: 0, h_cat_info: 0 }
                &&& r is AcquireCatalogAdmin
            },
            (Phase::Admin, Event::Acquired(Ok(h))) => {
                &&& self.advanced(n, Phase::Hash)
                &&& n.guard_spec() == CleanupContext { h_cat_admin: h, ..g }
                &&& r matches Request::HashFile { admin, file } && admin == h && file == g.h_file
            },
            (Phase::Hash, Event::Hashed(Ok(hash))) => {
                &&& n.phase_spec() == Phase::Find
                &&& n.target_spec() == self.target_spec()
                &&& n.direct_state_spec() == self.direct_state_spec()
                &&& n.hash_spec() == hash@
                &&& n.guard_spec() == g
                &&& r matches Request::FindCatalog { admin, hash: hr } && admin == g.h_cat_admin
                    && hr@ == hash@
            },
            (Phase::Find, Event::Acquired(Ok(h))) => if h == 0 {
                self.ends(n, r, Seq::empty(), Err(Error::Unsigned))
            } else {
                &&& self.advanced(n, Phase::Info)
                &&& n.guard_spec() == CleanupContext { h_cat_info: h, ..g }
                &&& r matches Request::CatalogInfo { info } && info == h
            },
            (Phase::Info, Event::CatalogPath(Ok(catalog))) => {
                &&& self.advanced(n, Phase::Catalog)
                &&& n.guard_spec() == g
                &&& r matches Request::VerifyCatalog { catalog: c, member, tag, flags } && c@
                    == catalog@ && member@ == self.target_spec() && tag@ == hex_wide(
                    self.hash_spec(),
                ).push(0) && flags == CATALOG_CHECK_FLAGS
            },
            (Phase::Catalog, Event::Trust { status, state, leaf }) => if status == 0 {
                self.ends(n, r, spent_state(status, state, leaf), trusted(state, leaf))
            } else {
                self.ends(
                    n,
                    r,
                    state_release(state),
                    Err(Error::OsError(status_code(status))),
                )
            },
            (Phase::Open, Event::Acquired(Err(c)))
            | (Phase::Admin, Event::Acquired(Err(c)))
            | (Phase::Hash, Event::Hashed(Err(c)))
            | (Phase::Find, Event::Acquired(Err(c)))
            | (Phase::Info, Event::CatalogPath(Err(c))) => self.ends(
                n,
                r,
                Seq::empty(),
                Err(Error::OsError(c)),
            ),
            (_, other) => self.ends(
                n,
                r,
                stray(other),
                Err(Error::OsError(ERROR_INVALID_PARAMETER)),
            ),
        }
    }

    /// A verification of the file at `target` (NUL-terminated UTF-16), and
    /// its first request: the direct trust check. A target that the platform
    /// would read as another path, or as none, ends at once as `InvalidPath`.
    pub fn start(target: Vec<u16>) -> (r: (Verification, Request))
        ensures
            valid_target(target@) ==> {
                &&& r.0.phase_spec() == Phase::Direct
                &&& r.0.target_spec() == target@
                &&& r.0.wf()
                &&& r.1 matches Request::VerifyFile { path, flags } && path@ == target@ && flags
                    == DIRECT_CHECK_FLAGS
            },
            !valid_target(target@) ==> r.0.done() && finishes(
                r.1,
                Seq::empty(),
                Err(Error::InvalidPath),
            ),
    {
        let n = target.len();
        let ok = n >= 2 && target[n - 1] == 0 && no_nul(target.as_slice(), n - 1);
        proof {
            if valid_target(target@) {
                assert forall|j: int| 0 <= j < n - 1 implies target@[j] != 0 by {
                    assert(target@.drop_last()[j] == target@[j]);
                }
            }
        }
        let path = target.clone();
        let v = Verification {
            target,
            phase: if ok { Phase::Direct } else { Phase::Done },
            guard: CleanupContext::empty(),
            direct_state: 0,
            hash: Vec::new(),
        };
        if ok {
            (v, Request::VerifyFile { path, flags: DIRECT_CHECK_FLAGS })
        } else {
            (v, Request::Finish { release: Vec::new(), result: Err(Error::InvalidPath) })
        }
    }

    /// Ends the verification: releases `first`, then all that is held.
    fn finish(&mut self, first: Vec<Release>, result: Result<Context, Error>) -> (r: Request)
        ensures
            (match r {
                Request::Finish { release, result: res } => release@ == first@ + old(self).held()
                    && res == result,
                _ => false,
            }),
            final(self).done(),
    {
        let mut release = first;
        let mut plan = self.guard.release_plan();
        release.append(&mut plan);
        if self.direct_state != 0 {
            release.push(Release::TrustState(self.direct_state));
        }
        proof {
            assert(release@ =~= first@ + old(self).held());
        }
        self.guard = CleanupContext::empty();
        self.direct_state = 0;
        self.phase = Phase::Done;
        Request::Finish { release, result }
    }

    /// Takes the answer to the last request and returns the next one.
    pub fn step(&mut self, ev: Event) -> (r: Request)
        ensures
            old(self).step_spec(ev, r, *final(self)),
    {
        match (self.phase, ev) {
            (Phase::Direct, Event::Trust { status, state, leaf }) => {
                if status == TRUST_E_NOSIGNATURE {
                    self.direct_state = state;
                    self.phase = Phase::Open;
                    Request::OpenFile { path: self.target.clone() }
                } else {
                    self.conclude(status, state, leaf)
                }
            },
            (Phase::Open, Event::Acquired(Ok(h))) => {
                if h == INVALID_HANDLE_VALUE {
                    return self.finish(Vec::new(), Err(Error::OsError(ERROR_INVALID_HANDLE)));
                }
                self.guard = CleanupContext::new(h);
                self.phase = Phase::Admin;
                Request::AcquireCatalogAdmin
            },
            (Phase::Admin, Event::Acquired(Ok(h))) => {
                self.guard.h_cat_admin = h;
                self.phase = Phase::Hash;
                Request::HashFile { admin: h, file: self.guard.h_file }
            },
            (Phase::Hash, Event::Hashed(Ok(hash))) => {
                let sent = hash.clone();
                self.hash = hash;
                self.phase = Phase::Find;
                Request::FindCatalog { admin: self.guard.h_cat_admin, hash: sent }
            },
            (Phase::Find, Event::Acquired(Ok(h))) => {
                if h == 0 {
                    self.finish(Vec::new(), Err(Error::Unsigned))
                } else {
                    self.guard.h_cat_info = h;
                    self.phase = Phase::Info;
                    Request::CatalogInfo { info: h }
                }
            },
            (Phase::Info, Event::CatalogPath(Ok(catalog))) => {
                let tag = to_hex_wide(self.hash.as_slice());
                self.phase = Phase::Catalog;
                Request::VerifyCatalog {
                    catalog,
                    member: self.target.clone(),
                    tag,
                    flags: CATALOG_CHECK_FLAGS,
                }
            },
            (Phase::Catalog, Event::Trust { status, state, leaf }) => {
                self.conclude(status, state, leaf)
            },
            (Phase::Open, Event::Acquired(Err(c)))
            | (Phase::Admin, Event::Acquired(Err(c)))
            | (Phase::Hash, Event::Hashed(Err(c)))
            | (Phase::Find, Event::Acquired(Err(c)))
            | (Phase::Info, Event::CatalogPath(Err(c))) => {
                self.finish(Vec::new(), Err(Error::OsError(c)))
            },
            (_, other) => {
                let mut first: Vec<Release> = Vec::new();
                if let Event::Trust { status: _, state, leaf: _ } = other {
                    if state != 0 {
                        first.push(Release::TrustState(state));
                    }
                }
                proof {
                    assert(first@ =~= stray(other));
                }
                self.finish(first, Err(Error::OsError(ERROR_INVALID_PARAMETER)))
            },
        }
    }

    /// Ends the verification on a trust-engine answer.
    fn conclude(&mut self, status: u32, state: Handle, leaf: Option<LeafCert>) -> (r: Request)
        ensures
            status == 0 ==> old(self).ends(*final(self), r, spent_state(status, state, leaf), trusted(state, leaf)),
            status != 0 ==> old(self).ends(
                *final(self),
                r,
                state_release(state),
                Err(Error::OsError(status_code(status))),
            ),
    {
        let mut first: Vec<Release> = Vec::new();
        if status == 0 {
            let had_leaf = leaf.is_some();
            if !had_leaf && state != 0 {
                first.push(Release::TrustState(state));
            }
            proof {
                assert(first@ =~= spent_state(status, state, leaf));
            }
            let result = Context::new(state, leaf);
            self.finish(first, result)
        } else {
            if state != 0 {
                first.push(Release::TrustState(state));
            }
            proof {
                assert(first@ =~= state_release(state));
            }
            self.finish(first, Err(Error::OsError(to_status_code(status))))
        }
    }
}

} // verus!

verus! {

/// The UTF-16 encoding of one character: one code unit below U+10000,
/// otherwise a surrogate pair.
pub open spec fn utf16_char(c: char) -> Seq<u16> {
    let u = c as u32;
    if u < 0x10000 {
        seq![u as u16]
    } else {
        seq![(0xD800 + (u - 0x10000) / 0x400) as u16, (0xDC00 + (u - 0x10000) % 0x400) as u16]
    }
}

/// The UTF-16 encoding of a string, character by character.
pub open spec fn utf16_of(s: Seq<char>) -> Seq<u16>
    decreases s.len(),
{
    if s.len() == 0 {
        Seq::empty()
    } else {
        utf16_of(s.drop_last()) + utf16_char(s.last())
    }
}

/// The UTF-16 code units of `s`, in order.
fn encode_utf16(s: &str) -> (r: Vec<u16>)
    ensures
        r@ == utf16_of(s@),
{
    let n = s.unicode_len();
    let mut out: Vec<u16> = Vec::new();
    let mut i: usize = 0;
    while i < n
        invariant
            n == s@.len(),
            i <= n,
            out@ == utf16_of(s@.subrange(0, i as int)),
        decreases n - i,
    {
        let c = s.get_char(i);
        let u = c as u32;
        if u < 0x10000 {
            out.push(u as u16);
        } else {
            let v = u - 0x10000;
            out.push((0xD800 + v / 0x400) as u16);
            out.push((0xDC00 + v % 0x400) as u16);
        }
        proof {
            let next = s@.subrange(0, i + 1);
            assert(next.drop_last() =~= s@.subrange(0, i as int));
            assert(next.last() == c);
        }
        i = i + 1;
    }
    proof {
        assert(s@.subrange(0, n as int) =~= s@);
    }
    out
}

/// A path as a platform call reads it: code units with no NUL among them,
/// at least one.
pub open spec fn valid_path(units: Seq<u16>) -> bool {
    units.len() > 0 && forall|i: int| 0 <= i < units.len() ==> units[i] != 0
}

/// Whether none of the first `end` code units is NUL.
fn no_nul(units: &[u16], end: usize) -> (r: bool)
    requires
        end <= units@.len(),
    ensures
        r == forall|j: int| 0 <= j < end ==> units@[j] != 0,
{
    let mut i: usize = 0;
    while i < end
        invariant
            end <= units@.len(),
            i <= end,
            forall|j: int| 0 <= j < i ==> units@[j] != 0,
        decreases end - i,
    {
        if units[i] == 0 {
            return false;
        }
        i = i + 1;
    }
    true
}

/// A target as the trust engine reads it: a valid path and a terminating
/// NUL.
pub open spec fn valid_target(t: Seq<u16>) -> bool {
    t.len() > 0 && t.last() == 0 && valid_path(t.drop_last())
}

/// The target of a verification, held as NUL-terminated UTF-16.
pub struct Verifier {
    path: Vec<u16>,
}

impl Verifier {
    pub closed spec fn path_spec(&self) -> Seq<u16> {
        self.path@
    }

    /// A verifier for the file at `path`. Nothing is read yet.
    pub fn for_file(path: &str) -> (r: Self)
        ensures
            r.path_spec() == utf16_of(path@).push(0),
    {
        let mut units = encode_utf16(path);
        units.push(0);
        Verifier { path: units }
    }

    /// A verifier for the executable of a running process, from what the
    /// platform reported for it: the full image path in UTF-16 code units,
    /// or the error code of the failed query.
    pub fn for_pid(image: Result<Vec<u16>, i32>) -> (r: Result<Self, Error>)
        ensures
            image matches Err(c) ==> r == Err::<Self, Error>(Error::OsError(c)),
            image matches Ok(u) ==> (valid_path(u@) <==> r is Ok) && (!valid_path(u@) ==> r
                == Err::<Self, Error>(Error::InvalidPath)) && (r matches Ok(v) ==> v.path_spec()
                == u@.push(0)),
    {
        match image {
            Err(c) => Err(Error::OsError(c)),
            Ok(units) => {
                if units.len() == 0 {
                    return Err(Error::InvalidPath);
                }
                if !no_nul(units.as_slice(), units.len()) {
                    return Err(Error::InvalidPath);
                }
                let mut path = units;
                path.push(0);
                Ok(Verifier { path })
            },
        }
    }

    /// Starts the verification; the first request is the direct trust check
    /// of the target, unless the target cannot be handed to the platform.
    pub fn verify(self) -> (r: (Verification, Request))
        ensures
            valid_target(self.path_spec()) ==> {
                &&& r.0.phase_spec() == Phase::Direct
                &&& r.0.target_spec() == self.path_spec()
                &&& r.0.wf()
                &&& r.1 matches Request::VerifyFile { path, flags } && path@ == self.path_spec()
                    && flags == DIRECT_CHECK_FLAGS
            },
            !valid_target(self.path_spec()) ==> r.0.done() && finishes(
                r.1,
                Seq::empty(),
                Err(Error::InvalidPath),
            ),
    {
        Verification::start(self.path)
    }
}

} // verus!
