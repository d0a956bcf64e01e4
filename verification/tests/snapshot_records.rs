use sysmon::probe::{ComponentProbe, CpuProbe, DiskProbe, MemoryProbe, NetProbe, OsProbe};
use sysmon::snapshot::{
    AllData, ComponentsData, CpuData, DramData, GpuData, NetworkData, OperationSystem, RamData,
};

fn disk_probe(name: Option<&str>, available: u64, total: u64) -> DiskProbe {
    DiskProbe {
        name: name.map(|s| s.to_owned()),
        available_space: available,
        total_space: total,
        kind: "HDD".to_owned(),
        file_system: Some("ext4".to_owned()),
        is_removable: false,
        is_read_only: false,
    }
}

#[test]
fn cpu_record_passes_readings_through() {
    let p = CpuProbe {
        logical_cores: 8,
        physical_cores: Some(4),
        brand: Some("ExampleBrand".to_owned()),
        arch: "x86_64".to_owned(),
        usage: 17,
    };
    let r = CpuData::from_probe(p, Some(2400), Some(55));
    assert_eq!(r.count_logical_cores, 8);
    assert_eq!(r.count_physical_cores, 4);
    assert_eq!(r.cpu_brand, "ExampleBrand");
    assert_eq!(r.cpu_arch, "x86_64");
    assert_eq!(r.global_cpu_usage, 17);
    assert_eq!(r.speed, 2400);
    assert_eq!(r.cpu_temp, 55);
}

#[test]
fn cpu_record_degrades_missing_readings() {
    let p = CpuProbe {
        logical_cores: 2,
        physical_cores: None,
        brand: None,
        arch: "aarch64".to_owned(),
        usage: 3,
    };
    let r = CpuData::from_probe(p, None, None);
    assert_eq!(r.count_physical_cores, 0);
    assert_eq!(r.cpu_brand, "unknown");
    assert_eq!(r.speed, 0);
    assert_eq!(r.cpu_temp, 0);
}

#[test]
fn cpu_record_degrades_wholly_without_processors() {
    let p = CpuProbe {
        logical_cores: 0,
        physical_cores: Some(4),
        brand: Some("ExampleBrand".to_owned()),
        arch: "x86_64".to_owned(),
        usage: 17,
    };
    let r = CpuData::from_probe(p, Some(2400), Some(55));
    assert_eq!(r.count_logical_cores, 0);
    assert_eq!(r.count_physical_cores, 0);
    assert_eq!(r.cpu_brand, "unknown");
    assert_eq!(r.cpu_arch, "x86_64");
    assert_eq!(r.global_cpu_usage, 0);
    assert_eq!(r.speed, 0);
    assert_eq!(r.cpu_temp, 0);
}

#[test]
fn graphics_record_keeps_reported_adapters() {
    let g = GpuData::from_adapters(Some(vec!["adapter0".to_owned(), "adapter1".to_owned()]));
    assert_eq!(g.gpu_data_vulcan, vec!["adapter0".to_owned(), "adapter1".to_owned()]);
}

#[test]
fn graphics_record_degrades_to_empty() {
    let g = GpuData::from_adapters(None);
    assert!(g.gpu_data_vulcan.is_empty());
}

#[test]
fn memory_record_copies_every_field() {
    let m = MemoryProbe {
        total_memory: 1,
        used_memory: 2,
        total_swap: 3,
        free_swap: 4,
        used_swap: 5,
        available_memory: 6,
    };
    let r = RamData::from_probe(m);
    assert_eq!(r.total_memory, 1);
    assert_eq!(r.used_memory, 2);
    assert_eq!(r.total_swap, 3);
    assert_eq!(r.free_swap, 4);
    assert_eq!(r.used_swap, 5);
    assert_eq!(r.available_memory, 6);
}

fn os_probe() -> OsProbe {
    OsProbe {
        name_os: Some("ExampleOS".to_owned()),
        kernel_version: None,
        os_version: Some("1.0".to_owned()),
        distribution: "example".to_owned(),
        host_name: None,
        cpu_arch: "x86_64".to_owned(),
    }
}

#[test]
fn os_record_keeps_optional_fields() {
    let r = OperationSystem::from_probe(Some("Linux".to_owned()), os_probe());
    assert_eq!(r.os_type, "Linux");
    assert_eq!(r.name_os.as_deref(), Some("ExampleOS"));
    assert_eq!(r.kernel_version, None);
    assert_eq!(r.os_version.as_deref(), Some("1.0"));
    assert_eq!(r.distribution, "example");
    assert_eq!(r.host_name, None);
    assert_eq!(r.cpu_arch, "x86_64");
}

#[test]
fn os_record_degrades_kind_to_unknown() {
    let r = OperationSystem::from_probe(None, os_probe());
    assert_eq!(r.os_type, "unknown");
}

#[test]
fn volume_table_drops_volumes_without_capacity() {
    let r = DramData::from_probe(vec![
        disk_probe(Some("a"), 2048000, 0),
        disk_probe(Some("b"), 2048000, 4096000),
    ]);
    assert_eq!(r.disks.len(), 1);
    assert_eq!(r.disks[0].0, "b");
}

#[test]
fn volume_table_keeps_byte_counts() {
    let r = DramData::from_probe(vec![disk_probe(Some("a"), 2048000, 4096000)]);
    assert_eq!(r.disks[0].1.available_space, 2048000);
    assert_eq!(r.disks[0].1.total_space, 4096000);
    assert_eq!(r.disks[0].1.disk_type, "HDD");
    assert_eq!(r.disks[0].1.file_system, "ext4");
}

#[test]
fn volume_table_defaults_missing_names() {
    let mut p = disk_probe(None, 1024000, 1024000);
    p.file_system = None;
    let r = DramData::from_probe(vec![p]);
    assert_eq!(r.disks[0].0, "unknown");
    assert_eq!(r.disks[0].1.file_system, "unknown");
}

#[test]
fn volume_table_replaces_repeated_names() {
    let r = DramData::from_probe(vec![
        disk_probe(Some("a"), 1024000, 1024000),
        disk_probe(Some("c"), 1024000, 1024000),
        disk_probe(Some("a"), 3072000, 3072000),
    ]);
    assert_eq!(r.disks.len(), 2);
    assert_eq!(r.disks[0].0, "a");
    assert_eq!(r.disks[0].1.total_space, 3072000);
    assert_eq!(r.disks[1].0, "c");
}

#[test]
fn network_record_joins_ip_networks_and_counts() {
    let p = NetProbe {
        interface_name: "eth0".to_owned(),
        ip_networks: vec!["10.0.0.2/24".to_owned(), "fe80::1/64".to_owned()],
        mac_address: "aa:bb:cc:dd:ee:ff".to_owned(),
        total_errors_on_received: 0,
        total_errors_on_transmitted: 0,
        total_packets_received: 9,
        total_packets_transmitted: 8,
        mtu: 1500,
    };
    let r = NetworkData::from_probe(vec![p]);
    assert_eq!(r.network_len, 1);
    assert_eq!(r.data_network.len(), 1);
    assert_eq!(r.data_network[0].network_ip_networks, "10.0.0.2/24fe80::1/64");
    assert_eq!(r.data_network[0].interface_name, "eth0");
    assert_eq!(r.data_network[0].mtu, 1500);
}

#[test]
fn sensor_records_degrade_missing_temperatures_to_zero() {
    let r = ComponentsData::from_probe(vec![
        ComponentProbe {
            label: "cpu".to_owned(),
            temperature: Some(45),
            max_temp: None,
            critical_temp: Some(100),
        },
        ComponentProbe { label: "gpu".to_owned(), temperature: None, max_temp: None, critical_temp: None },
    ]);
    assert_eq!(r.component_data_v.len(), 2);
    assert_eq!(r.component_data_v[0].temperature, 45);
    assert_eq!(r.component_data_v[0].max_temp, 0);
    assert_eq!(r.component_data_v[0].critical_temp, 100);
    assert_eq!(r.component_data_v[1].temperature, 0);
}

#[test]
fn capture_populates_every_category() {
    let snap = AllData::new();
    assert_eq!(snap.network_data.network_len as usize, snap.network_data.data_network.len());
    // Volume names are filed once each.
    for i in 0..snap.dram_data.disks.len() {
        for j in (i + 1)..snap.dram_data.disks.len() {
            assert_ne!(snap.dram_data.disks[i].0, snap.dram_data.disks[j].0);
        }
    }
    // Degradation is coupled: a host with no visible processor reports
    // every processor reading at its default.
    if snap.cpu_data.count_logical_cores == 0 {
        assert_eq!(snap.cpu_data.count_physical_cores, 0);
        assert_eq!(snap.cpu_data.cpu_brand, "unknown");
        assert_eq!(snap.cpu_data.speed, 0);
    }
}

#[test]
fn capture_survives_a_failed_graphics_probe() {
    let snap = AllData {
        cpu_data: CpuData::new(),
        gpu_data: GpuData::from_adapters(None),
        dram_data: DramData::new(),
        ram_data: RamData::new(),
        os_data: OperationSystem::new(),
        network_data: NetworkData::new(),
        components_data: ComponentsData::new(),
    };
    assert!(snap.gpu_data.gpu_data_vulcan.is_empty());
    assert_eq!(snap.network_data.network_len as usize, snap.network_data.data_network.len());
}

#[test]
fn composition_survives_a_failed_graphics_probe() {
    let cpu = CpuProbe {
        logical_cores: 8,
        physical_cores: Some(4),
        brand: Some("ExampleBrand".to_owned()),
        arch: "x86_64".to_owned(),
        usage: 17,
    };
    let memory = MemoryProbe {
        total_memory: 100,
        used_memory: 60,
        total_swap: 50,
        free_swap: 40,
        used_swap: 10,
        available_memory: 40,
    };
    let net = NetProbe {
        interface_name: "eth0".to_owned(),
        ip_networks: vec!["10.0.0.2/24".to_owned()],
        mac_address: "aa:bb:cc:dd:ee:ff".to_owned(),
        total_errors_on_received: 0,
        total_errors_on_transmitted: 0,
        total_packets_received: 9,
        total_packets_transmitted: 8,
        mtu: 1500,
    };
    let sensor = ComponentProbe {
        label: "cpu".to_owned(),
        temperature: Some(45),
        max_temp: None,
        critical_temp: Some(100),
    };
    let snap = AllData::from_probes(
        cpu,
        Some(2400),
        Some(55),
        None,
        vec![disk_probe(Some("a"), 500, 1000)],
        memory,
        Some("Linux".to_owned()),
        os_probe(),
        vec![net],
        vec![sensor],
    );
    // The failed graphics probe degrades to an empty sequence...
    assert!(snap.gpu_data.gpu_data_vulcan.is_empty());
    // ...and the other six sub-records are fully populated from their
    // own readings.
    assert_eq!(snap.cpu_data.count_logical_cores, 8);
    assert_eq!(snap.cpu_data.speed, 2400);
    assert_eq!(snap.dram_data.disks.len(), 1);
    assert_eq!(snap.dram_data.disks[0].1.total_space, 1000);
    assert_eq!(snap.ram_data.total_memory, 100);
    assert_eq!(snap.os_data.os_type, "Linux");
    assert_eq!(snap.network_data.network_len, 1);
    assert_eq!(snap.components_data.component_data_v.len(), 1);
    assert_eq!(snap.components_data.component_data_v[0].temperature, 45);
}

#[test]
fn per_category_refresh_leaves_other_categories_alone() {
    let mut snap = AllData::new();
    let before = snap.clone();
    snap.update_all_cpu();
    assert_eq!(snap.gpu_data, before.gpu_data);
    assert_eq!(snap.dram_data, before.dram_data);
    assert_eq!(snap.ram_data, before.ram_data);
    assert_eq!(snap.os_data, before.os_data);
    assert_eq!(snap.network_data, before.network_data);
    assert_eq!(snap.components_data, before.components_data);
    snap.update_all_ram();
    assert_eq!(snap.gpu_data, before.gpu_data);
    assert_eq!(snap.os_data, before.os_data);
}
