use chocho_session::gen::random_from_uin;
use chocho_session::hexstr::{hex_decode, hex_encode};

#[test]
fn generation_is_deterministic() {
    let a = random_from_uin(10001);
    let b = random_from_uin(10001);
    assert_eq!(a, b);
}

#[test]
fn distinct_accounts_get_distinct_identities() {
    let a = random_from_uin(10001);
    let b = random_from_uin(10002);
    assert_ne!(a.display, b.display);
    assert_ne!(a.boot_id, b.boot_id);
    assert_ne!(a.imei, b.imei);
    assert_ne!(a.android_id, b.android_id);
}

#[test]
fn generated_fields_have_the_expected_shapes() {
    let d = random_from_uin(123456789);
    assert!(d.display.starts_with("CHOCHO."));
    assert!(d.display.ends_with(".001"));
    assert_eq!(d.display.len(), "CHOCHO.".len() + 6 + ".001".len());
    assert_eq!(d.imei.len(), 15);
    assert!(d.imei.chars().all(|c| c.is_ascii_digit()));
    // The boot identifier has the 8-4-4-4-12 grouping.
    let groups: Vec<&str> = d.boot_id.split('-').collect();
    assert_eq!(
        groups.iter().map(|g| g.len()).collect::<Vec<_>>(),
        vec![8, 4, 4, 4, 12]
    );
    assert_eq!(d.android_id.len(), 16);
    assert_eq!(d.ip_address.len(), 4);
    assert_eq!(d.ip_address[0], 10);
    assert_eq!(d.ip_address[1], 0);
    assert_eq!(d.imsi_md5.len(), 16);
    assert_eq!(d.mac_address.len(), 17);
    assert_eq!(d.version.sdk, 29);
    assert_eq!(d.version.release, "10");
    assert_eq!(d.qimei, None);
    assert_eq!(d.os_type, "android");
}

#[test]
fn hex_text_encodes_and_decodes() {
    assert_eq!(hex_encode(&vec![1u8, 2, 255]), "0102ff");
    assert_eq!(hex_encode(&vec![]), "");
    assert_eq!(hex_decode("0102ff"), Some(vec![1u8, 2, 255]));
    assert_eq!(hex_decode("0102FF"), Some(vec![1u8, 2, 255]));
    assert_eq!(hex_decode(""), Some(vec![]));
    assert_eq!(hex_decode("abc"), None);
    assert_eq!(hex_decode("zz"), None);
    let bytes: Vec<u8> = (0u8..=255).collect();
    assert_eq!(hex_decode(hex_encode(&bytes).as_str()), Some(bytes));
}
