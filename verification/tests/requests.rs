use mobile_image_mounter::{MobileImageMounter, MobileImageMounterError};

fn client(handle: usize) -> MobileImageMounter {
    MobileImageMounter::new(handle, 0).unwrap()
}

#[test]
fn new_keeps_the_handle_on_success() {
    let m = MobileImageMounter::new(0x1000, 0).unwrap();
    assert_eq!(m.client(), 0x1000);
}

#[test]
fn new_reports_the_service_error() {
    assert_eq!(
        MobileImageMounter::new(0x1000, -3).err(),
        Some(MobileImageMounterError::ConnFailed)
    );
    assert_eq!(
        MobileImageMounter::new(0x1000, -1).err(),
        Some(MobileImageMounterError::InvalidArg)
    );
    assert_eq!(
        MobileImageMounter::new(0x1000, 99).err(),
        Some(MobileImageMounterError::UnknownError)
    );
}

#[test]
fn start_service_keeps_the_handle_on_success() {
    let m = MobileImageMounter::start_service(77, 0).unwrap();
    assert_eq!(m.client(), 77);
}

#[test]
fn start_service_reports_the_service_error() {
    assert_eq!(
        MobileImageMounter::start_service(77, -5).err(),
        Some(MobileImageMounterError::DeviceLocked)
    );
}

#[test]
fn upload_without_image_is_dmg_not_found() {
    let m = client(1);
    assert_eq!(
        m.upload_image(None, "Developer", Some(vec![1u8; 10])).err(),
        Some(MobileImageMounterError::DmgNotFound)
    );
}

#[test]
fn upload_reports_missing_image_before_missing_signature() {
    let m = client(1);
    assert_eq!(
        m.upload_image(None, "Developer", None).err(),
        Some(MobileImageMounterError::DmgNotFound)
    );
}

#[test]
fn upload_without_signature_is_signature_not_found() {
    let m = client(1);
    assert_eq!(
        m.upload_image(Some(1024), "Developer", None).err(),
        Some(MobileImageMounterError::SignatureNotFound)
    );
}

#[test]
fn upload_request_carries_sizes_and_type() {
    let m = client(5);
    let signature: Vec<u8> = (0..128u32).map(|i| (i * 7) as u8).collect();
    let req = m.upload_image(Some(123_456), "Developer", Some(signature.clone())).ok().unwrap();
    assert_eq!(req.client, 5);
    assert_eq!(req.image_size, 123_456u64);
    assert_eq!(req.signature, signature);
    assert_eq!(req.signature_size, 128u32);
    assert_eq!(req.image_type, Some(b"Developer\0".to_vec()));
}

#[test]
fn upload_with_empty_type_passes_no_type() {
    let m = client(5);
    let req = m.upload_image(Some(1), "", Some(Vec::new())).ok().unwrap();
    assert_eq!(req.image_type, None);
    assert!(req.signature.is_empty());
    assert_eq!(req.signature_size, 0);
}

#[test]
fn upload_signature_with_zero_bytes_is_kept_whole() {
    let m = client(5);
    let signature = vec![0u8, 1, 0, 2, 0];
    let req = m.upload_image(Some(1), "Developer", Some(signature.clone())).ok().unwrap();
    assert_eq!(req.signature, signature);
    assert_eq!(req.signature_size, 5);
}

#[test]
fn mount_without_image_is_dmg_not_found() {
    let m = client(2);
    assert_eq!(
        m.mount_image(None, "Developer", Some(vec![1, 2])).err(),
        Some(MobileImageMounterError::DmgNotFound)
    );
    assert_eq!(
        m.mount_image(None, "Developer", None).err(),
        Some(MobileImageMounterError::DmgNotFound)
    );
}

#[test]
fn mount_without_signature_is_signature_not_found() {
    let m = client(2);
    assert_eq!(
        m.mount_image(Some("/tmp/DeveloperDiskImage.dmg"), "Developer", None).err(),
        Some(MobileImageMounterError::SignatureNotFound)
    );
}

#[test]
fn mount_request_carries_path_signature_and_type() {
    let m = client(2);
    let signature = vec![0xde, 0xad, 0x00, 0xef];
    let req = m
        .mount_image(Some("/tmp/img.dmg"), "Developer", Some(signature.clone()))
        .ok()
        .unwrap();
    assert_eq!(req.client, 2);
    assert_eq!(req.image_path, b"/tmp/img.dmg\0".to_vec());
    assert_eq!(req.signature, signature);
    assert_eq!(req.signature_size, 4);
    assert_eq!(req.image_type, Some(b"Developer\0".to_vec()));
}

#[test]
fn mount_with_empty_type_and_signature() {
    let m = client(2);
    let req = m.mount_image(Some("/a"), "", Some(Vec::new())).ok().unwrap();
    assert_eq!(req.image_type, None);
    assert_eq!(req.signature_size, 0);
    assert!(req.signature.is_empty());
    assert_eq!(req.image_path, vec![b'/', b'a', 0]);
}

#[test]
fn manifest_without_signature_is_signature_not_found() {
    let m = client(3);
    assert_eq!(
        m.query_personalization_manifest("Personalized", None).err(),
        Some(MobileImageMounterError::SignatureNotFound)
    );
}

#[test]
fn manifest_request_carries_type_and_size() {
    let m = client(3);
    let req = m.query_personalization_manifest("Personalized", Some(vec![9u8; 4096])).ok().unwrap();
    assert_eq!(req.client, 3);
    assert_eq!(req.signature, vec![9u8; 4096]);
    assert_eq!(req.signature_size, 4096);
    assert_eq!(req.image_type, Some(b"Personalized\0".to_vec()));
    let req = m.query_personalization_manifest("", Some(vec![1u8])).ok().unwrap();
    assert_eq!(req.image_type, None);
}

#[test]
fn mount_with_options_matches_plain_mount() {
    let m = client(4);
    for (path, sig) in [
        (None, None),
        (None, Some(vec![1u8])),
        (Some("/x.dmg"), None),
        (Some("/x.dmg"), Some(vec![1u8, 2])),
    ] {
        let plain = m.mount_image(path, "Developer", sig.clone());
        let with_options = m.mount_image_with_options(path, "Developer", sig);
        match (plain, with_options) {
            (Err(a), Err(b)) => assert_eq!(a, b),
            (Ok(a), Ok(b)) => {
                assert_eq!(a.client, b.client);
                assert_eq!(a.image_path, b.image_path);
                assert_eq!(a.signature, b.signature);
                assert_eq!(a.signature_size, b.signature_size);
                assert_eq!(a.image_type, b.image_type);
            }
            _ => panic!("plain mount and mount with options disagree"),
        }
    }
}

#[test]
fn mount_missing_signature_ignores_image_type() {
    let m = client(4);
    for image_type in ["", "Developer", "Personalized"] {
        assert_eq!(
            m.mount_image(Some("/x.dmg"), image_type, None).err(),
            Some(MobileImageMounterError::SignatureNotFound)
        );
    }
}

#[test]
fn manifest_signature_with_zero_bytes_is_kept_whole() {
    let m = client(3);
    let req = m.query_personalization_manifest("Personalized", Some(vec![0u8, 0, 7])).ok().unwrap();
    assert_eq!(req.signature, vec![0u8, 0, 7]);
    assert_eq!(req.signature_size, 3);
}
