//! Properties of the verification engine and the certificate context that
//! hold for every file and every platform answer.

use vstd::prelude::*;
use crate::context::{sha1_of, sha256_of, Handle, LeafCert};
use crate::engine::{
    finishes, state_release, Event, Phase, Request, Verification, CATALOG_CHECK_FLAGS,
    TRUST_E_NOSIGNATURE,
};
use crate::engine::{utf16_char, utf16_of, valid_target};
use crate::error::Error;
use crate::guard::{owed, owed_file, Release, INVALID_HANDLE_VALUE};
use crate::hex::{hex_of, hex_wide};
use crate::SignatureContext;

verus! {

/// A file whose signature is embedded is settled by the direct check alone:
/// a trusted answer with a leaf certificate ends the verification with a
/// context that owns the trust state and that certificate, and releases
/// nothing.
pub proof fn lemma_embedded_signature(
    v0: Verification,
    state: Handle,
    leaf: LeafCert,
    r0: Request,
    v1: Verification,
)
    requires
        v0.wf(),
        v0.phase_spec() == Phase::Direct,
        v0.step_spec(Event::Trust { status: 0, state, leaf: Some(leaf) }, r0, v1),
    ensures
        finishes(r0, Seq::empty(), Ok((state, leaf))),
        v1.done(),
{
    assert(v0.held() =~= Seq::<Release>::empty());
    assert(Seq::<Release>::empty() + v0.held() =~= Seq::<Release>::empty());
}

/// A file with no embedded signature whose hash no catalog lists ends as
/// `Unsigned`, not as a platform error, once the file, the catalog-admin
/// context and the hash have been had; the admin context, the file and the
/// state of the direct check are released, in that order.
pub proof fn lemma_unsigned_file(
    v0: Verification,
    state: Handle,
    leaf: Option<LeafCert>,
    file: Handle,
    admin: Handle,
    hash: Vec<u8>,
    r0: Request,
    r1: Request,
    r2: Request,
    r3: Request,
    r4: Request,
    v1: Verification,
    v2: Verification,
    v3: Verification,
    v4: Verification,
    v5: Verification,
)
    requires
        v0.wf(),
        v0.phase_spec() == Phase::Direct,
        v0.step_spec(Event::Trust { status: TRUST_E_NOSIGNATURE, state, leaf }, r0, v1),
        file != INVALID_HANDLE_VALUE,
        v1.step_spec(Event::Acquired(Ok(file)), r1, v2),
        v2.step_spec(Event::Acquired(Ok(admin)), r2, v3),
        v3.step_spec(Event::Hashed(Ok(hash)), r3, v4),
        v4.step_spec(Event::Acquired(Ok(0)), r4, v5),
    ensures
        r0 matches Request::OpenFile { path } && path@ == v0.target_spec(),
        r1 is AcquireCatalogAdmin,
        r2 matches Request::HashFile { admin: a, file: f } && a == admin && f == file,
        r3 matches Request::FindCatalog { admin: a, hash: h } && a == admin && h@ == hash@,
        finishes(
            r4,
            owed(admin, Release::CatalogAdmin(admin)) + owed_file(file)
                + state_release(state),
            Err(Error::Unsigned),
        ),
        v5.done(),
{
    assert(v4.held() =~= owed(admin, Release::CatalogAdmin(admin)) + owed_file(file) + state_release(state));
    assert(Seq::<Release>::empty() + v4.held() =~= v4.held());
}

/// A file listed in a catalog but carrying no signature of its own is
/// checked as a member of that catalog, under its hash in hex, and a trusted
/// answer gives the same kind of context as an embedded signature: it owns
/// the second trust state and the leaf certificate. The catalog context, the
/// admin context, the file and the state of the direct check are released,
/// in that order.
pub proof fn lemma_catalog_fallback(
    v0: Verification,
    state: Handle,
    leaf: Option<LeafCert>,
    file: Handle,
    admin: Handle,
    hash: Vec<u8>,
    info: Handle,
    catalog: Vec<u16>,
    state2: Handle,
    leaf2: LeafCert,
    r0: Request,
    r1: Request,
    r2: Request,
    r3: Request,
    r4: Request,
    r5: Request,
    r6: Request,
    v1: Verification,
    v2: Verification,
    v3: Verification,
    v4: Verification,
    v5: Verification,
    v6: Verification,
    v7: Verification,
)
    requires
        v0.wf(),
        v0.phase_spec() == Phase::Direct,
        info != 0,
        v0.step_spec(Event::Trust { status: TRUST_E_NOSIGNATURE, state, leaf }, r0, v1),
        file != INVALID_HANDLE_VALUE,
        v1.step_spec(Event::Acquired(Ok(file)), r1, v2),
        v2.step_spec(Event::Acquired(Ok(admin)), r2, v3),
        v3.step_spec(Event::Hashed(Ok(hash)), r3, v4),
        v4.step_spec(Event::Acquired(Ok(info)), r4, v5),
        v5.step_spec(Event::CatalogPath(Ok(catalog)), r5, v6),
        v6.step_spec(Event::Trust { status: 0, state: state2, leaf: Some(leaf2) }, r6, v7),
    ensures
        r4 matches Request::CatalogInfo { info: i } && i == info,
        r5 matches Request::VerifyCatalog { catalog: c, member, tag, flags } && c@ == catalog@
            && member@ == v0.target_spec() && tag@ == hex_wide(hash@).push(0) && flags
            == CATALOG_CHECK_FLAGS,
        finishes(
            r6,
            seq![Release::CatalogContext { admin, info }] + owed(admin, Release::CatalogAdmin(admin))
                + owed_file(file) + state_release(state),
            Ok((state2, leaf2)),
        ),
        v7.done(),
{
    assert(v6.held() =~= seq![Release::CatalogContext { admin, info }] + owed(
        admin,
        Release::CatalogAdmin(admin),
    ) + owed_file(file) + state_release(state));
    assert(Seq::<Release>::empty() + v6.held() =~= v6.held());
}

/// The handle a release call gives back.
pub open spec fn released_handle(x: Release) -> Handle {
    match x {
        Release::TrustState(h) => h,
        Release::CatalogContext { admin: _, info } => info,
        Release::CatalogAdmin(h) => h,
        Release::File(h) => h,
    }
}

/// No handle leaks. A step that does not end the verification keeps every
/// handle held before and takes on any handle its answer hands over. A step
/// that ends it releases everything held, as the last releases and in order,
/// holds nothing after, and releases the trust state of a trust-engine
/// answer unless the returned context owns it.
pub proof fn lemma_no_handle_leaks(v: Verification, ev: Event, r: Request, n: Verification)
    requires
        v.wf(),
        v.step_spec(ev, r, n),
    ensures
        n.wf(),
        !(r is Finish) ==> forall|x: Release| v.held().contains(x) ==> n.held().contains(x),
        !(r is Finish) ==> (match ev {
            Event::Acquired(Ok(h)) => h != 0 ==> exists|i: int|
                0 <= i < n.held().len() && released_handle(n.held()[i]) == h,
            Event::Trust { status: _, state, leaf: _ } => state != 0 ==> n.held().contains(
                Release::TrustState(state),
            ),
            _ => true,
        }),
        (match r {
            Request::Finish { release, result } => {
                &&& n.held().len() == 0
                &&& release@.len() >= v.held().len()
                &&& release@.subrange(release@.len() - v.held().len(), release@.len() as int)
                    == v.held()
                &&& (match ev {
                    Event::Trust { status: _, state, leaf: _ } => state != 0 ==> (
                    release@.contains(Release::TrustState(state)) || (result matches Ok(c)
                        && c.state_spec() == state)),
                    _ => true,
                })
            },
            _ => true,
        }),
{
    let ng = n.guard_spec();
    if let Request::Finish { release, result } = r {
        assert(n.held() =~= Seq::<Release>::empty());
        let first = release@.subrange(0, release@.len() - v.held().len());
        assert(release@ =~= first + v.held());
        assert(release@.subrange(release@.len() - v.held().len(), release@.len() as int)
            =~= v.held());
        if let Event::Trust { status, state, leaf } = ev {
            if state != 0 && !(result matches Ok(c) && c.state_spec() == state) {
                assert(release@[0] == Release::TrustState(state));
            }
        }
    } else {
        assert forall|x: Release| v.held().contains(x) implies n.held().contains(x) by {
            let i = choose|i: int| 0 <= i < v.held().len() && v.held()[i] == x;
            match v.phase_spec() {
                Phase::Open => {
                    assert(n.held()[n.held().len() - 1] == x);
                },
                Phase::Admin => {
                    if ng.h_cat_admin != 0 {
                        assert(n.held()[i + 1] == x);
                    } else {
                        assert(n.held()[i] == x);
                    }
                },
                Phase::Find => {
                    assert(n.held()[i + 1] == x);
                },
                _ => {
                    assert(n.held()[i] == x);
                },
            }
        }
        if let Event::Acquired(Ok(h)) = ev {
            if h != 0 {
                assert(released_handle(n.held()[0]) == h);
            }
        }
        if let Event::Trust { status, state, leaf } = ev {
            if state != 0 {
                assert(n.held()[n.held().len() - 1] == Release::TrustState(state));
            }
        }
    }
}

/// What a step takes on: the releases owed for the handle its answer hands
/// over, where the verification keeps it.
pub open spec fn handed(v: Verification, ev: Event) -> Seq<Release> {
    match (v.phase_spec(), ev) {
        (Phase::Direct, Event::Trust { status, state, leaf: _ }) => if status == TRUST_E_NOSIGNATURE {
            state_release(state)
        } else {
            Seq::empty()
        },
        (Phase::Open, Event::Acquired(Ok(h))) => owed_file(h),
        (Phase::Admin, Event::Acquired(Ok(h))) => owed(h, Release::CatalogAdmin(h)),
        (Phase::Find, Event::Acquired(Ok(h))) => owed(
            h,
            Release::CatalogContext { admin: v.guard_spec().h_cat_admin, info: h },
        ),
        _ => Seq::empty(),
    }
}

/// The release calls a request asks for.
pub open spec fn released(r: Request) -> Seq<Release> {
    match r {
        Request::Finish { release, result: _ } => release@,
        _ => Seq::empty(),
    }
}

proof fn lemma_step_keeps(v: Verification, ev: Event, r: Request, n: Verification)
    requires
        v.wf(),
        v.step_spec(ev, r, n),
        !(r is Finish),
    ensures
        n.wf(),
        forall|x: Release| v.held().contains(x) ==> n.held().contains(x),
        forall|x: Release| handed(v, ev).contains(x) ==> n.held().contains(x),
{
    lemma_no_handle_leaks(v, ev, r, n);
    assert forall|x: Release| handed(v, ev).contains(x) implies n.held().contains(x) by {
        assert(handed(v, ev).len() == 1);
        assert(x == handed(v, ev)[0]);
        match v.phase_spec() {
            Phase::Direct => {
                assert(n.held()[n.held().len() - 1] == x);
            },
            _ => {
                assert(n.held()[0] == x);
            },
        }
    }
}

proof fn lemma_kept_until(vs: Seq<Verification>, evs: Seq<Event>, rs: Seq<Request>, k: int)
    requires
        vs.len() == evs.len() + 1,
        rs.len() == evs.len(),
        vs[0].wf(),
        forall|i: int| 0 <= i < evs.len() ==> vs[i].step_spec(evs[i], rs[i], vs[i + 1]),
        forall|i: int| 0 <= i < evs.len() - 1 ==> !(rs[i] is Finish),
        0 <= k < evs.len(),
    ensures
        vs[k].wf(),
        forall|x: Release| vs[0].held().contains(x) ==> vs[k].held().contains(x),
        forall|i: int, x: Release|
            0 <= i < k && handed(vs[i], evs[i]).contains(x) ==> vs[k].held().contains(x),
    decreases k,
{
    if k > 0 {
        lemma_kept_until(vs, evs, rs, k - 1);
        lemma_step_keeps(vs[k - 1], evs[k - 1], rs[k - 1], vs[k]);
    }
}

/// No handle outlives a verification. Over a whole run, from its first
/// answer to the request that ends it: every handle that any answer handed
/// over and the verification kept is released by that last request, and so
/// is all that was held at the start; afterwards nothing is held; and the
/// trust state of the last answer is released unless the returned context
/// owns it.
pub proof fn lemma_run_releases_everything(
    vs: Seq<Verification>,
    evs: Seq<Event>,
    rs: Seq<Request>,
)
    requires
        evs.len() > 0,
        vs.len() == evs.len() + 1,
        rs.len() == evs.len(),
        vs[0].wf(),
        forall|i: int| 0 <= i < evs.len() ==> vs[i].step_spec(evs[i], rs[i], vs[i + 1]),
        forall|i: int| 0 <= i < evs.len() - 1 ==> !(rs[i] is Finish),
        rs.last() is Finish,
    ensures
        forall|i: int, x: Release|
            0 <= i < evs.len() - 1 && handed(vs[i], evs[i]).contains(x) ==> released(
                rs.last(),
            ).contains(x),
        forall|x: Release| vs[0].held().contains(x) ==> released(rs.last()).contains(x),
        vs.last().held().len() == 0,
        (match evs.last() {
            Event::Trust { status: _, state, leaf: _ } => state != 0 ==> (released(
                rs.last(),
            ).contains(Release::TrustState(state)) || (rs.last() matches Request::Finish {
                release: _,
                result: Ok(c),
            } && c.state_spec() == state)),
            _ => true,
        }),
{
    let m = evs.len() - 1;
    lemma_kept_until(vs, evs, rs, m);
    lemma_no_handle_leaks(vs[m], evs[m], rs[m], vs[m + 1]);
    let held = vs[m].held();
    let rel = released(rs[m]);
    assert(rel.subrange(rel.len() - held.len(), rel.len() as int) == held);
    assert forall|x: Release| held.contains(x) implies rel.contains(x) by {
        let j = choose|j: int| 0 <= j < held.len() && held[j] == x;
        assert(rel.subrange(rel.len() - held.len(), rel.len() as int)[j] == x);
        assert(rel[rel.len() - held.len() + j] == x);
    }
}

proof fn lemma_utf16_char_nul(c: char)
    ensures
        utf16_char(c).len() >= 1,
        (forall|j: int| 0 <= j < utf16_char(c).len() ==> utf16_char(c)[j] != 0) <==> (c as u32
            != 0),
{
    let u = c as u32;
    assert(u <= 0x10FFFF);
    if u < 0x10000 {
        assert(utf16_char(c)[0] == u);
    } else {
        assert((u - 0x10000) / 0x400 <= 0x3FF) by (nonlinear_arith)
            requires
                0x10000 <= u <= 0x10FFFF,
        ;
        assert(utf16_char(c)[0] != 0);
        assert(utf16_char(c)[1] != 0);
    }
}

proof fn lemma_utf16_nul(s: Seq<char>)
    ensures
        (s.len() > 0) == (utf16_of(s).len() > 0),
        (forall|j: int| 0 <= j < utf16_of(s).len() ==> utf16_of(s)[j] != 0) <==> (forall|i: int|
            0 <= i < s.len() ==> s[i] as u32 != 0),
    decreases s.len(),
{
    if s.len() > 0 {
        let p = s.drop_last();
        lemma_utf16_nul(p);
        lemma_utf16_char_nul(s.last());
        let a = utf16_of(p);
        let b = utf16_char(s.last());
        assert(utf16_of(s) == a + b);
        if forall|i: int| 0 <= i < s.len() ==> s[i] as u32 != 0 {
            assert forall|i: int| 0 <= i < p.len() implies p[i] as u32 != 0 by {
                assert(p[i] == s[i]);
            }
            assert(s[s.len() - 1] as u32 != 0);
            assert forall|j: int| 0 <= j < (a + b).len() implies (a + b)[j] != 0 by {
                if j >= a.len() {
                    assert((a + b)[j] == b[j - a.len()]);
                }
            }
        }
        if forall|j: int| 0 <= j < utf16_of(s).len() ==> utf16_of(s)[j] != 0 {
            assert forall|j: int| 0 <= j < a.len() implies a[j] != 0 by {
                assert((a + b)[j] == a[j]);
            }
            assert forall|j: int| 0 <= j < b.len() implies b[j] != 0 by {
                assert((a + b)[j + a.len()] == b[j]);
            }
            assert forall|i: int| 0 <= i < s.len() implies s[i] as u32 != 0 by {
                if i < p.len() {
                    assert(p[i] == s[i]);
                }
            }
        }
    }
}

/// A path given as a string reaches the trust engine exactly when it is not
/// empty and holds no U+0000 character; otherwise `verify` ends at once as
/// `InvalidPath`.
pub proof fn lemma_file_path_usable(s: Seq<char>)
    ensures
        valid_target(utf16_of(s).push(0)) <==> (s.len() > 0 && forall|i: int|
            0 <= i < s.len() ==> s[i] as u32 != 0),
{
    lemma_utf16_nul(s);
    assert(utf16_of(s).push(0).drop_last() =~= utf16_of(s));
}

/// How far a verification has come; the catalog check comes last.
pub open spec fn rank(p: Phase) -> nat {
    match p {
        Phase::Direct => 0,
        Phase::Open => 1,
        Phase::Admin => 2,
        Phase::Hash => 3,
        Phase::Find => 4,
        Phase::Info => 5,
        Phase::Catalog => 6,
        Phase::Done => 7,
    }
}

/// Every verification ends: each step either ends it or moves it strictly
/// forward, so no run takes more than eight steps.
pub proof fn lemma_each_step_progresses(v: Verification, ev: Event, r: Request, n: Verification)
    requires
        v.step_spec(ev, r, n),
    ensures
        r is Finish && n.done() || rank(n.phase_spec()) > rank(v.phase_spec()),
{
}

/// Thumbprints are the same on every call: two results of
/// `sha1_thumbprint` on one context are equal, both the hex of the SHA-1
/// digest of the encoded certificate; likewise for `sha256_thumbprint`.
pub proof fn lemma_thumbprints_repeat(
    c: SignatureContext,
    a1: String,
    a2: String,
    b1: String,
    b2: String,
)
    requires
        a1@ == hex_of(sha1_of(c.context().leaf_spec().encoded@)),
        a2@ == hex_of(sha1_of(c.context().leaf_spec().encoded@)),
        b1@ == hex_of(sha256_of(c.context().leaf_spec().encoded@)),
        b2@ == hex_of(sha256_of(c.context().leaf_spec().encoded@)),
    ensures
        a1@ == a2@,
        b1@ == b2@,
{
}

} // verus!
