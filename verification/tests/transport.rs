use ring_ring::p2p::transport::{
    make_server_config, server_certificate_request, CertificateAuthority, SERVER_NAME,
};

#[test]
fn server_config_builds() {
    assert!(make_server_config().is_ok());
}

#[test]
fn certificate_is_for_localhost_and_no_authority() {
    assert_eq!(SERVER_NAME, "localhost");
    let request = server_certificate_request();
    assert_eq!(request.subject_alt_names, vec!["localhost".to_string()]);
    assert_eq!(request.authority, CertificateAuthority::NotCa);
}
