use icmpv6_decoder::errors::Error;
use icmpv6_decoder::icmpv6::register_defaults;
use icmpv6_decoder::icmpv6::Registry;
use icmpv6_decoder::icmpv6::IPPROTO_ICMPV6;

#[test]
fn register_defaults_binds_protocol_58_once() {
    let mut registry = Registry::new();
    assert!(register_defaults(&mut registry).is_ok());
    assert_eq!(registry.next_headers, vec![58]);

    match register_defaults(&mut registry) {
        Err(Error::RegisterError { protocol }) => assert_eq!(protocol, IPPROTO_ICMPV6),
        other => panic!("{:#?}", other),
    }
    assert_eq!(registry.next_headers, vec![58]);
}

#[test]
fn registry_accepts_distinct_protocols() {
    let mut registry = Registry::new();
    assert!(registry.register_next_header(6).is_ok());
    assert!(registry.register_next_header(17).is_ok());
    assert!(register_defaults(&mut registry).is_ok());
    assert!(registry.register_next_header(17).is_err());
    assert_eq!(registry.next_headers, vec![6, 17, 58]);
}
