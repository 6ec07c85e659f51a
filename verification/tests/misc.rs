use backend::ip::{AsnRecord, CityRecord, IpInformation};
use backend::tls::{
    certificate_source, self_signed_names, server_alpn_protocols,
    CertificateSource, ClientHelloInfo,
};
use backend::tracking::{leak_status, TrackOrigin, PIXEL_GIF};
use backend::turnstile::siteverify_form;

#[test]
fn ip_information() {
    let info = IpInformation::from_records(
        Some(CityRecord {
            city_name: Some("Berlin".to_string()),
            country_name: Some("Germany".to_string()),
            country_iso_code: Some("DE".to_string()),
        }),
        Some(AsnRecord { number: Some(3320), organization: Some("Telekom".to_string()) }),
    );
    assert_eq!(info.city.as_deref(), Some("Berlin"));
    assert_eq!(info.country.as_deref(), Some("Germany"));
    assert_eq!(info.country_code.as_deref(), Some("DE"));
    assert_eq!(info.asn, Some(3320));
    assert_eq!(info.isp.as_deref(), Some("Telekom"));
    let empty = IpInformation::from_records(None, None);
    assert!(empty.city.is_none() && empty.country.is_none() && empty.country_code.is_none());
    assert!(empty.asn.is_none() && empty.isp.is_none());
}

#[test]
fn cipher_suite_names() {
    let info = ClientHelloInfo::from_client_hello(&vec![0xc02f, 0x1234], None, None);
    assert_eq!(info.offered_cipher_suites[0], "TLS_ECDHE_RSA_WITH_AES_128_GCM_SHA256");
    assert_eq!(info.offered_cipher_suites[1], format!("{:?}", rustls::CipherSuite::from(0x1234u16)));
}

#[test]
fn client_hello() {
    let mut info = ClientHelloInfo::from_client_hello(
        &vec![0x1301, 0x1302],
        Some("example.org".to_string()),
        Some(vec![b"h2".to_vec(), b"http/1.1".to_vec()]),
    );
    assert_eq!(info.offered_cipher_suites, vec!["TLS13_AES_128_GCM_SHA256", "TLS13_AES_256_GCM_SHA384"]);
    assert_eq!(info.server_name.as_deref(), Some("example.org"));
    assert_eq!(info.alpn_protocols, vec!["h2", "http/1.1"]);
    assert!(info.negotiated_cipher_suite.is_none());
    info.set_negotiated(Some(0x1303));
    assert_eq!(info.negotiated_cipher_suite.as_deref(), Some("TLS13_CHACHA20_POLY1305_SHA256"));
    let bare = ClientHelloInfo::from_client_hello(&vec![], None, None);
    assert!(bare.alpn_protocols.is_empty() && bare.offered_cipher_suites.is_empty());
}

#[test]
fn certificate_choice() {
    assert!(matches!(
        certificate_source(Some("c.pem".to_string()), Some("k.pem".to_string())),
        CertificateSource::Files { .. }
    ));
    assert!(matches!(certificate_source(Some("c.pem".to_string()), None), CertificateSource::SelfSigned));
    assert!(matches!(certificate_source(None, None), CertificateSource::SelfSigned));
    assert_eq!(self_signed_names(), vec!["localhost".to_string()]);
    assert_eq!(server_alpn_protocols(), vec![b"http/1.1".to_vec()]);
}

#[test]
fn tracking_bits() {
    assert_eq!(TrackOrigin::Browser.as_str(), "browser");
    assert_eq!(TrackOrigin::Mail.as_str(), "mail");
    assert_eq!(&PIXEL_GIF[..6], b"GIF89a");
    assert_eq!(PIXEL_GIF[42], 0x3b);
    let s = leak_status(None, None::<Vec<String>>, vec![]);
    assert!(!s.leak_check && !s.checked && s.breaches.is_empty());
    let s = leak_status(Some(true), Some(vec!["X".to_string()]), vec![]);
    assert!(s.leak_check && s.checked);
    assert_eq!(s.breaches, vec!["X".to_string()]);
    let s = leak_status(Some(false), Some(vec![]), vec!["unused".to_string()]);
    assert!(!s.leak_check && s.checked && s.breaches.is_empty());
}

#[test]
fn captcha_form() {
    assert_eq!(siteverify_form("secret", " \t", Some("1.2.3.4")), None);
    assert_eq!(
        siteverify_form("secret", "tok", None),
        Some(vec![
            ("secret".to_string(), "secret".to_string()),
            ("response".to_string(), "tok".to_string()),
        ])
    );
    assert_eq!(
        siteverify_form("secret", "tok", Some("1.2.3.4")),
        Some(vec![
            ("secret".to_string(), "secret".to_string()),
            ("response".to_string(), "tok".to_string()),
            ("remoteip".to_string(), "1.2.3.4".to_string()),
        ])
    );
}
