use pmtu::CorrelationTable;
use pmtu::Registration;
use pmtu::addr_key;

#[test]
fn first_caller_is_primary() {
    let mut t = CorrelationTable::new();
    assert!(t.can_register());
    let key = addr_key(0x0A00_0001, 0);
    match t.register_or_attach(key) {
        Registration::Primary { token } => assert_eq!(token, 0),
        Registration::Secondary { .. } => panic!("first caller must be primary"),
    }
}

#[test]
fn second_caller_attaches_to_same_token() {
    let mut t = CorrelationTable::new();
    let key = addr_key(0x0A00_0001, 0);
    let first = t.register_or_attach(key);
    let second = t.register_or_attach(key);
    let tok1 = match first {
        Registration::Primary { token } => token,
        Registration::Secondary { .. } => panic!("first caller must be primary"),
    };
    match second {
        Registration::Secondary { token } => assert_eq!(token, tok1),
        Registration::Primary { .. } => panic!("second caller must attach, not probe"),
    }
}

#[test]
fn distinct_destinations_are_independent() {
    let mut t = CorrelationTable::new();
    let k1 = addr_key(0x0A00_0001, 0);
    let k2 = addr_key(0x0A00_0002, 0);
    let r1 = t.register_or_attach(k1);
    let r2 = t.register_or_attach(k2);
    assert!(matches!(r1, Registration::Primary { .. }));
    assert!(matches!(r2, Registration::Primary { .. }));
    assert_eq!(t.deliver(k1), Some(0));
    assert_eq!(t.deliver(k2), Some(1));
    t.retire(k2);
    assert_eq!(t.deliver(k1), Some(0));
    assert_eq!(t.deliver(k2), None);
}

#[test]
fn retired_destination_reprobes_freshly() {
    let mut t = CorrelationTable::new();
    let key = addr_key(0xC0A8_0101, 7);
    let first = t.register_or_attach(key);
    let tok1 = match first {
        Registration::Primary { token } => token,
        Registration::Secondary { .. } => panic!("first caller must be primary"),
    };
    t.retire(key);
    match t.register_or_attach(key) {
        Registration::Primary { token } => assert_ne!(token, tok1),
        Registration::Secondary { .. } => panic!("a retired entry must not be attachable"),
    }
}

#[test]
fn deliver_without_entry_is_none() {
    let t = CorrelationTable::new();
    assert_eq!(t.deliver(addr_key(0x7F00_0001, 0)), None);
}

#[test]
fn addr_key_packs_address_and_port() {
    assert_eq!(addr_key(0x0102_0304, 5), 0x0102_0304_0005u64);
    assert_eq!(addr_key(0, 0), 0);
    assert_eq!(addr_key(u32::MAX, u16::MAX), 0xFFFF_FFFF_FFFFu64);
    assert_ne!(addr_key(1, 0), addr_key(0, 1));
}
