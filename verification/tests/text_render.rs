use sysmon::snapshot::{AllNetworksData, ComponentData, Disk};
use sysmon::text::{i64_to_dec, join_with, u64_to_dec};

#[test]
fn decimal_of_zero() {
    assert_eq!(u64_to_dec(0), "0");
}

#[test]
fn decimal_of_single_digit() {
    assert_eq!(u64_to_dec(7), "7");
}

#[test]
fn decimal_of_many_digits() {
    assert_eq!(u64_to_dec(1234567890), "1234567890");
    assert_eq!(u64_to_dec(u64::MAX), "18446744073709551615");
}

#[test]
fn decimal_of_signed_values() {
    assert_eq!(i64_to_dec(0), "0");
    assert_eq!(i64_to_dec(42), "42");
    assert_eq!(i64_to_dec(-42), "-42");
    assert_eq!(i64_to_dec(i64::MIN), "-9223372036854775808");
}

#[test]
fn join_with_separator() {
    let parts: Vec<String> = vec!["a".to_owned(), "b".to_owned(), "c".to_owned()];
    assert_eq!(join_with(&parts, ","), "a,b,c");
    let empty: Vec<String> = Vec::new();
    assert_eq!(join_with(&empty, ","), "");
    let one: Vec<String> = vec!["only".to_owned()];
    assert_eq!(join_with(&one, ","), "only");
}

#[test]
fn disk_record_renders_labeled_lines() {
    let d = Disk {
        available_space: 500,
        disk_type: "SSD".to_owned(),
        file_system: "ext4".to_owned(),
        total_space: 1000,
        is_removable: false,
        is_read_only: false,
    };
    let s = d.to_string();
    assert_eq!(
        s,
        "available_space: 500\ndisk type: SSD\ndfile system: ext4\ntotal space: 1000"
    );
    let a = s.find("available_space: 500").unwrap();
    let b = s.find("disk type: SSD").unwrap();
    let c = s.find("dfile system: ext4").unwrap();
    let t = s.find("total space: 1000").unwrap();
    assert!(a < b && b < c && c < t);
}

#[test]
fn component_record_renders_labeled_lines() {
    let c = ComponentData::new("coretemp".to_owned(), 45, 90, 100);
    assert_eq!(
        c.to_string(),
        "label:               coretemp\ntemperature:         45\nmax_temp:            90\ntcritical_temp:      100\n"
    );
}

#[test]
fn unlabeled_component_renders_a_blank() {
    let c = ComponentData::new(String::new(), 45, 90, 100);
    assert_eq!(c.to_string(), " ");
}

#[test]
fn network_record_renders_labeled_lines() {
    let n = AllNetworksData {
        interface_name: "eth0".to_owned(),
        network_ip_networks: "10.0.0.2/24".to_owned(),
        network_mac_address: "aa:bb:cc:dd:ee:ff".to_owned(),
        total_errors_on_received: 1,
        total_errors_on_transmitted: 2,
        total_packets_received: 3,
        total_packets_transmitted: 4,
        mtu: 1500,
    };
    let s = n.to_string();
    assert_eq!(
        s,
        "interface name:              eth0\n\
         network ip networks:         10.0.0.2/24\n\
         network mac address:         aa:bb:cc:dd:ee:ff\n\
         total errors on received:    1\n\
         total errors on transmitted: 2\n\
         total packets received:      3\n\
         total packets transmitted:   4\n\
         mtu:                         1500"
    );
}
