use omglol::structures::DNStype;

#[test]
fn dns_display() {
    assert!(format!("{}", DNStype::A.as_string()) == "A");
}

#[test]
fn dns_type_text_all_variants() {
    assert_eq!(DNStype::A.as_string(), "A");
    assert_eq!(DNStype::AAA.as_string(), "AAA");
    assert_eq!(DNStype::CAA.as_string(), "CAA");
    assert_eq!(DNStype::CNAME.as_string(), "CNAME");
    assert_eq!(DNStype::MX.as_string(), "MX");
    assert_eq!(DNStype::NS.as_string(), "NS");
    assert_eq!(DNStype::SRV.as_string(), "SRV");
    assert_eq!(DNStype::TXT.as_string(), "TXT");
}
