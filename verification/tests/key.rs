//! Key derivation requests and derived key handling.

use rand::RngExt;
use sev_snp::{DerivedKey, KeyRequest, RootKey, TcbVersion};

fn le32(buf: &[u8], offset: usize) -> Option<u32> {
    buf.get(offset..offset + 4)
        .map(|b| u32::from_le_bytes([b[0], b[1], b[2], b[3]]))
}

fn le64(buf: &[u8], offset: usize) -> Option<u64> {
    buf.get(offset..offset + 8).map(|b| {
        let mut a = [0u8; 8];
        a.copy_from_slice(b);
        u64::from_le_bytes(a)
    })
}

#[test]
fn bindings_serialise_to_the_firmware_layout() {
    let mut rng = rand::rng();
    let (svn, tcb, mit): (u32, u64, u64) = (rng.random(), rng.random(), rng.random());

    let request = KeyRequest::new()
        .root_key(RootKey::Vmrk)
        .vmpl(2)
        .bind_measurement()
        .bind_guest_policy()
        .bind_guest_svn(svn)
        .bind_tcb(TcbVersion::from_raw(tcb))
        .bind_launch_mit_vector(mit);

    let selected = request.fields();
    assert!(selected.measurement() && selected.guest_policy());
    assert!(selected.guest_svn() && selected.tcb_version());
    assert!(selected.launch_mit_vector());
    assert!(!selected.image_id() && !selected.family_id());

    let wire = request.to_wire();
    assert_eq!(le32(&wire, 0), Some(1), "VMRK selector");
    assert_eq!(le32(&wire, 4), Some(0), "reserved word");
    assert_eq!(le64(&wire, 8), Some(selected.raw()));
    assert_eq!(le32(&wire, 16), Some(2), "vmpl");
    assert_eq!(le32(&wire, 20), Some(svn));
    assert_eq!(le64(&wire, 24), Some(tcb));
    assert_eq!(le64(&wire, 32), Some(mit));
}

#[test]
fn vmpls_outside_the_architected_range_never_reach_the_firmware() {
    assert!(KeyRequest::new().vmpl(3).validate().is_ok());
    assert!(KeyRequest::new().vmpl(4).validate().is_err());
}

#[test]
fn key_material_is_wiped_on_drop() {
    let mut key = DerivedKey::from_bytes(rand::rng().random());
    assert_ne!(*key.as_bytes(), [0u8; DerivedKey::LEN]);
    key.zeroize_now();
    assert_eq!(*key.as_bytes(), [0u8; DerivedKey::LEN]);
}

#[test]
fn derived_key_debug_is_redacted() {
    let key = DerivedKey::from_bytes([0xA5; DerivedKey::LEN]);
    let shown = format!("{key:?}");
    assert_eq!(shown, "DerivedKey(<redacted>)");
    assert!(!shown.contains("165"));
}

#[test]
fn derived_keys_promise_to_wipe_on_drop() {
    fn wipes_on_drop<T: zeroize::ZeroizeOnDrop>(_: &T) -> bool {
        true
    }
    assert!(wipes_on_drop(&DerivedKey::from_bytes([1; DerivedKey::LEN])));
}
