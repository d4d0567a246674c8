use squealog::registry::{Registry, RegistryError, TransportKind, KLOG_KEY};

#[test]
fn duplicate_slot_is_refused() {
    let mut reg = Registry::new();
    assert_eq!(reg.add_socket(0, TransportKind::Udp, "udp"), Ok(0));
    assert_eq!(reg.add_socket(1, TransportKind::UnixDgram, "log"), Ok(1));
    assert_eq!(
        reg.add_socket(0, TransportKind::UnixDgram, "again"),
        Err(RegistryError::DuplicateHandle)
    );
    assert_eq!(reg.len(), 2);
    assert_eq!(reg.entry(0).name, "udp");
    assert_eq!(reg.entry(1).name, "log");
}

#[test]
fn klog_key_is_reserved_and_unique() {
    let mut reg = Registry::new();
    assert_eq!(reg.add_socket(0, TransportKind::Udp, "udp"), Ok(0));
    assert_eq!(reg.add_klog("klog"), Ok(KLOG_KEY));
    assert_eq!(reg.add_klog("klog"), Err(RegistryError::DuplicateHandle));
    assert_eq!(KLOG_KEY, usize::MAX - 1);
    assert_eq!(reg.lookup(KLOG_KEY), Some(1));
    assert_eq!(reg.entry(1).kind, TransportKind::Klog);
    assert_eq!(reg.lookup(0), Some(0));
    assert_eq!(reg.lookup(5), None);
}
