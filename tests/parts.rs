use codesign_verify::guard::{CleanupContext, Release};
use codesign_verify::hex::{to_hex, to_hex_reversed, to_hex_wide};
use codesign_verify::name::{attr_value, NameField};
use codesign_verify::error::to_status_code;

#[test]
fn guard_releases_last_taken_first() {
    let mut g = CleanupContext::new(3);
    assert_eq!(g.release_plan(), vec![Release::File(3)]);
    g.h_cat_admin = 4;
    g.h_cat_info = 5;
    assert_eq!(
        g.release_plan(),
        vec![Release::CatalogContext { admin: 4, info: 5 }, Release::CatalogAdmin(4), Release::File(3)]
    );
}

#[test]
fn guard_skips_empty_slots() {
    assert!(CleanupContext::new(0).release_plan().is_empty());
    assert!(CleanupContext::empty().release_plan().is_empty());
}

#[test]
fn hex_rendering() {
    assert_eq!(to_hex(&[0x00, 0x0f, 0xa0, 0xff]), "000fa0ff");
    assert_eq!(to_hex(&[]), "");
    assert_eq!(to_hex_reversed(&[0x00, 0x0f, 0xa0, 0xff]), "ffa00f00");
    assert_eq!(to_hex_wide(&[0x9a]), vec![57, 97, 0]);
    assert_eq!(to_hex_wide(&[]), vec![0]);
}

#[test]
fn attribute_decoding() {
    assert_eq!(attr_value(&[0]), None);
    assert_eq!(attr_value(&[]), None);
    assert_eq!(attr_value(&[85, 83, 0]).as_deref(), Some("US"));
}

#[test]
fn attribute_identifiers() {
    assert_eq!(NameField::CommonName.oid(), "2.5.4.3");
    assert_eq!(NameField::Organization.oid(), "2.5.4.10");
    assert_eq!(NameField::OrganizationUnit.oid(), "2.5.4.11");
    assert_eq!(NameField::Country.oid(), "2.5.4.6");
}

#[test]
fn status_codes_keep_their_bits() {
    assert_eq!(to_status_code(87), 87);
    assert_eq!(to_status_code(0x800B_0100), -2146762496);
    assert_eq!(to_status_code(0xffff_ffff), -1);
}

#[test]
fn guard_never_releases_the_invalid_file_handle() {
    assert!(CleanupContext::new(-1).release_plan().is_empty());
    let mut g = CleanupContext::new(-1);
    g.h_cat_admin = 4;
    assert_eq!(g.release_plan(), vec![Release::CatalogAdmin(4)]);
}
