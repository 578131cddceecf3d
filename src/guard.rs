//! Release of the native handles taken during one verification.

use vstd::prelude::*;
use crate::context::Handle;

verus! {

/// One native release call.
#[derive(Clone, Copy, Debug, PartialEq, Eq, Structural)]
pub enum Release {
    /// Close a trust state through the trust engine's close action.
    TrustState(Handle),
    /// Release a catalog context found through a catalog-admin context.
    CatalogContext { admin: Handle, info: Handle },
    /// Release a catalog-admin context.
    CatalogAdmin(Handle),
    /// Close a file handle.
    File(Handle),
}

/// The handles of the catalog lookup: the target file, the catalog-admin
/// context and the catalog context, taken in that order. Zero marks a handle
/// not (yet) taken; so does the invalid handle value in the file slot.
#[derive(Clone, Copy, Debug, PartialEq, Eq, Structural)]
pub struct CleanupContext {
    pub h_file: Handle,
    pub h_cat_admin: Handle,
    pub h_cat_info: Handle,
}

/// The value the platform gives for a file it could not open.
pub const INVALID_HANDLE_VALUE: Handle = -1;

/// The release owed for the file slot: none for zero or for the invalid
/// handle value.
pub open spec fn owed_file(h: Handle) -> Seq<Release> {
    if h != 0 && h != INVALID_HANDLE_VALUE {
        seq![Release::File(h)]
    } else {
        Seq::empty()
    }
}

/// The releases owed for a handle slot: none for zero.
pub open spec fn owed(h: Handle, r: Release) -> Seq<Release> {
    if h != 0 {
        seq![r]
    } else {
        Seq::empty()
    }
}

/// The handles held, in the order they were taken.
pub open spec fn acquired(g: CleanupContext) -> Seq<Release> {
    owed_file(g.h_file) + owed(g.h_cat_admin, Release::CatalogAdmin(g.h_cat_admin))
        + owed(g.h_cat_info, Release::CatalogContext { admin: g.h_cat_admin, info: g.h_cat_info })
}

/// `s` from last to first.
pub open spec fn rev(s: Seq<Release>) -> Seq<Release> {
    Seq::new(s.len(), |i: int| s[s.len() - 1 - i])
}

pub open spec fn is_empty(g: CleanupContext) -> bool {
    g.h_file == 0 && g.h_cat_admin == 0 && g.h_cat_info == 0
}

impl CleanupContext {
    /// A guard that holds the opened target file and nothing else yet.
    pub fn new(h_file: Handle) -> (r: Self)
        ensures
            r.h_file == h_file,
            r.h_cat_admin == 0,
            r.h_cat_info == 0,
    {
        CleanupContext { h_file, h_cat_admin: 0, h_cat_info: 0 }
    }

    /// A guard that holds nothing.
    pub fn empty() -> (r: Self)
        ensures
            is_empty(r),
    {
        CleanupContext { h_file: 0, h_cat_admin: 0, h_cat_info: 0 }
    }

    /// The release calls owed for what the guard holds: each handle taken
    /// exactly once, last taken first, none for an empty slot: never a
    /// release of zero, nor of the invalid handle value as a file.
    pub fn release_plan(&self) -> (r: Vec<Release>)
        ensures
            r@ == rev(acquired(*self)),
            !r@.contains(Release::File(0)),
            !r@.contains(Release::File(INVALID_HANDLE_VALUE)),
            !r@.contains(Release::CatalogAdmin(0)),
    {
        let mut r: Vec<Release> = Vec::new();
        if self.h_cat_info != 0 {
            r.push(Release::CatalogContext { admin: self.h_cat_admin, info: self.h_cat_info });
        }
        if self.h_cat_admin != 0 {
            r.push(Release::CatalogAdmin(self.h_cat_admin));
        }
        if self.h_file != 0 && self.h_file != INVALID_HANDLE_VALUE {
            r.push(Release::File(self.h_file));
        }
        assert(r@ =~= rev(acquired(*self)));
        r
    }
}

} // verus!
