use ring_ring::p2p::discovery::{
    service_info, service_record, DiscoveryEvent, PeerAddress, PeerScan, SERVICE_TYPE,
};

#[test]
fn service_record_names_the_instance() {
    let info = service_info("node-a", 4242);
    assert_eq!(info.get_type(), SERVICE_TYPE);
    assert_eq!(info.get_fullname(), "node-a._ring_ring._udp.local.");
    assert_eq!(info.get_hostname(), "node-a.local.");
    assert_eq!(info.get_port(), 4242);
    assert!(info.get_addresses().is_empty());
    assert!(info.is_addr_auto());
}

#[test]
fn service_record_fields() {
    let record = service_record("node-a", 4242);
    assert_eq!(record.service_type, "_ring_ring._udp.local.");
    assert_eq!(record.instance_name, "node-a");
    assert_eq!(record.host_name, "node-a.local.");
    assert_eq!(record.addresses, "");
    assert_eq!(record.port, 4242);
    assert!(record.properties.is_empty());
    assert!(record.auto_addresses);
}

#[test]
fn scan_runs_two_rounds_per_second() {
    let mut scan: PeerScan<u32> = PeerScan::new(2);
    let mut rounds = 0;
    while !scan.is_finished() {
        scan.record(DiscoveryEvent::Other);
        rounds += 1;
    }
    assert_eq!(rounds, 4);
    assert!(scan.into_peers().is_empty());
}

#[test]
fn zero_timeout_runs_no_round() {
    let scan: PeerScan<u32> = PeerScan::new(0);
    assert!(scan.is_finished());
}

#[test]
fn scan_collects_resolved_addresses_in_order() {
    let mut scan: PeerScan<u32> = PeerScan::new(2);
    scan.record(DiscoveryEvent::Resolved { addresses: vec![10, 11], port: 7000 });
    scan.record(DiscoveryEvent::Other);
    scan.record(DiscoveryEvent::Resolved { addresses: vec![], port: 1 });
    scan.record(DiscoveryEvent::Resolved { addresses: vec![12], port: 7001 });
    assert!(scan.is_finished());
    assert_eq!(
        scan.into_peers(),
        vec![
            PeerAddress { ip: 10, port: 7000 },
            PeerAddress { ip: 11, port: 7000 },
            PeerAddress { ip: 12, port: 7001 },
        ]
    );
}

#[test]
fn host_name_already_in_local_domain_is_kept_once() {
    let info = service_info("node-b.local", 1);
    assert_eq!(info.get_hostname(), "node-b.local.");
    assert_eq!(info.get_fullname(), "node-b.local._ring_ring._udp.local.");
}
