use link_rs::Link;
use link_rs::LinkGenerator;

#[test]
fn generate_link() {
    let mut s = LinkGenerator::new("/redirect", 10);
    let l = s.generate_url();

    println!("{:?}", l);

    assert_eq!(
        l,
        Link {
            key: "vq5ejng0p6".into(),
            url: "/redirect/vq5ejng0p6".into()
        }
    );
}

#[test]
fn generate_link_with_salt() {
    let mut s = LinkGenerator::new_with_salt("/redirect", 10, "salt");
    let l = s.generate_url();

    assert_eq!(
        l,
        Link {
            key: "9x5eo4n7ow".into(),
            url: "/redirect/9x5eo4n7ow".into()
        }
    );
}

#[test]
fn generate_qr() {
    let mut s = LinkGenerator::new("/redirect", 10);
    let qr = s.generate_qr();

    assert!(qr.is_ok());
}

#[test]
fn base_path_keeps_single_separator() {
    let mut with_slash = LinkGenerator::new("/redirect/", 10);
    let l = with_slash.generate_url();
    assert_eq!(l.url, "/redirect/vq5ejng0p6");

    let mut doubled = LinkGenerator::new("/redirect//", 10);
    let l2 = doubled.generate_url();
    assert_eq!(l2.url, "/redirect/vq5ejng0p6");
}

#[test]
fn link_new_concatenates() {
    let l = Link::new("/base/", String::from("key"));
    assert_eq!(l.key, "key");
    assert_eq!(l.url, "/base/key");
}

#[test]
fn sequential_generation_distinct_keys() {
    let mut s = LinkGenerator::new("/redirect", 10);
    let first = s.generate_url();
    let second = s.generate_url();
    assert_ne!(first.key, second.key);

    let mut preset = LinkGenerator::new_with_internal_id(1, "/redirect", 10, None);
    let expected_second = preset.generate_url();
    assert_eq!(second.key, expected_second.key);
}

#[test]
fn counter_wraps_on_overflow() {
    let mut s = LinkGenerator::new("/redirect", 10);
    s.set_internal_id(u64::MAX);
    assert_eq!(s.get_internal_id(), u64::MAX);
    let at_max = s.generate_url();
    assert_eq!(s.get_internal_id(), 0);
    let wrapped = s.generate_url();
    assert_eq!(s.get_internal_id(), 1);
    assert_ne!(at_max.key, wrapped.key);
    assert_eq!(wrapped.key, "vq5ejng0p6");
}

#[test]
fn generate_two_gives_distinct_keys() {
    let mut s = LinkGenerator::new("/redirect", 10);
    let (first, second) = link_rs::generator::generate_two(&mut s);
    assert_ne!(first.key, second.key);
    assert_eq!(first.key, "vq5ejng0p6");
}

#[test]
fn qr_failure_still_advances_counter() {
    let long_base: String = "/r".repeat(4000);
    let mut s = LinkGenerator::new(&long_base, 10);
    let qr = s.generate_qr();
    match qr {
        Ok(_) => panic!("a URL thousands of characters long exceeds QR capacity"),
        Err(e) => assert_eq!(e, link_rs::EncodingError::Barcode),
    }
    assert_eq!(s.get_internal_id(), 1);
}
