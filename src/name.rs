//! Distinguished-name fields of a certificate.

use vstd::prelude::*;

verus! {

/// What `String::from_utf16_lossy` makes of a run of UTF-16 code units.
pub uninterp spec fn utf16_lossy(s: Seq<u16>) -> Seq<char>;

/// Relies on `String::from_utf16_lossy`: decodes UTF-16, replacing invalid
/// sequences; the result depends on the code units alone.
#[verifier::external_body]
fn decode_utf16(units: &[u16]) -> (r: String)
    ensures
        r@ == utf16_lossy(units@),
{
    String::from_utf16_lossy(units)
}

/// The four attributes read from a subject or issuer name.
#[derive(Clone, Copy, PartialEq, Eq, Debug)]
pub enum NameField {
    /// OID 2.5.4.3
    CommonName,
    /// OID 2.5.4.10
    Organization,
    /// OID 2.5.4.11
    OrganizationUnit,
    /// OID 2.5.4.6
    Country,
}

/// The dotted object identifier of each attribute.
pub open spec fn oid_text(f: NameField) -> Seq<char> {
    match f {
        NameField::CommonName => seq!['2', '.', '5', '.', '4', '.', '3'],
        NameField::Organization => seq!['2', '.', '5', '.', '4', '.', '1', '0'],
        NameField::OrganizationUnit => seq!['2', '.', '5', '.', '4', '.', '1', '1'],
        NameField::Country => seq!['2', '.', '5', '.', '4', '.', '6'],
    }
}

impl NameField {
    /// The object identifier under which the platform looks the attribute up.
    pub fn oid(self) -> (r: &'static str)
        ensures
            r@ == oid_text(self),
    {
        match self {
            NameField::CommonName => {
                proof {
                    reveal_strlit("2.5.4.3");
                }
                "2.5.4.3"
            },
            NameField::Organization => {
                proof {
                    reveal_strlit("2.5.4.10");
                }
                "2.5.4.10"
            },
            NameField::OrganizationUnit => {
                proof {
                    reveal_strlit("2.5.4.11");
                }
                "2.5.4.11"
            },
            NameField::Country => {
                proof {
                    reveal_strlit("2.5.4.6");
                }
                "2.5.4.6"
            },
        }
    }
}

/// An attribute as the platform's name query returns it: UTF-16 code units
/// ending with a NUL. A lone NUL means the certificate does not carry it.
pub open spec fn attr_of(raw: Seq<u16>) -> Option<Seq<char>> {
    if raw.len() <= 1 {
        None
    } else {
        Some(utf16_lossy(raw.subrange(0, raw.len() - 1)))
    }
}

pub open spec fn opt_view(o: Option<String>) -> Option<Seq<char>> {
    match o {
        Some(s) => Some(s@),
        None => None,
    }
}

/// Decodes one attribute as the name query returned it.
pub fn attr_value(raw: &[u16]) -> (r: Option<String>)
    ensures
        opt_view(r) == attr_of(raw@),
{
    if raw.len() <= 1 {
        return None;
    }
    let n = raw.len() - 1;
    let mut units: Vec<u16> = Vec::new();
    let mut i: usize = 0;
    while i < n
        invariant
            n == raw@.len() - 1,
            i <= n,
            units@ == raw@.subrange(0, i as int),
        decreases n - i,
    {
        units.push(raw[i]);
        proof {
            assert(units@ =~= raw@.subrange(0, i + 1));
        }
        i = i + 1;
    }
    Some(decode_utf16(units.as_slice()))
}

/// The four attributes of a name, each as the platform's name query
/// returned it.
#[derive(Clone, Debug)]
pub struct RawName {
    pub common_name: Vec<u16>,
    pub organization: Vec<u16>,
    pub organization_unit: Vec<u16>,
    pub country: Vec<u16>,
}

/// An issuer or subject name: common name (OID 2.5.4.3), organization
/// (2.5.4.10), organizational unit (2.5.4.11) and country (2.5.4.6), each
/// present only where the certificate carries it.
#[derive(Clone, Debug, PartialEq, Eq)]
pub struct Name {
    pub common_name: Option<String>,
    pub organization: Option<String>,
    pub organization_unit: Option<String>,
    pub country: Option<String>,
}

/// The name that the four raw attributes describe.
pub open spec fn name_matches(n: Name, raw: RawName) -> bool {
    &&& opt_view(n.common_name) == attr_of(raw.common_name@)
    &&& opt_view(n.organization) == attr_of(raw.organization@)
    &&& opt_view(n.organization_unit) == attr_of(raw.organization_unit@)
    &&& opt_view(n.country) == attr_of(raw.country@)
}

impl Name {
    /// Decodes each of the four attributes.
    pub fn from_raw(raw: &RawName) -> (r: Name)
        ensures
            name_matches(r, *raw),
    {
        Name {
            common_name: attr_value(raw.common_name.as_slice()),
            organization: attr_value(raw.organization.as_slice()),
            organization_unit: attr_value(raw.organization_unit.as_slice()),
            country: attr_value(raw.country.as_slice()),
        }
    }
}

} // verus!
