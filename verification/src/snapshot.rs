//! The snapshot records, one per monitored category, and the constructors
//! that apply the degradation rules: a probe that cannot supply a value
//! yields explicit zero / empty / "unknown" defaults, never an error.
use vstd::prelude::*;

use crate::probe::{
    probe_components, probe_cpu, probe_cpu_speed, probe_cpu_temp, probe_disks, probe_gpu_adapters,
    probe_memory, probe_networks, probe_os_identity, probe_os_type,
};
use crate::probe::{ComponentProbe, CpuProbe, DiskProbe, MemoryProbe, NetProbe, OsProbe};

verus! {

/// The processor sub-record.
#[derive(Clone, Debug, Default, PartialEq, Eq)]
pub struct CpuData {
    pub count_physical_cores: usize,
    pub count_logical_cores: usize,
    pub cpu_brand: String,
    pub cpu_arch: String,
    pub global_cpu_usage: i32,
    pub speed: u64,
    pub cpu_temp: i32,
}

impl CpuData {
    /// Composes the processor record from raw readings. When no processor
    /// was seen, every field but the architecture degrades to its default;
    /// otherwise each missing reading degrades on its own.
    pub fn from_probe(p: CpuProbe, speed: Option<u64>, temp: Option<i32>) -> (r: CpuData)
        ensures
            r.cpu_arch == p.arch,
            p.logical_cores > 0 ==> {
                &&& r.count_physical_cores == p.physical_cores.unwrap_or(0)
                &&& r.count_logical_cores == p.logical_cores
                &&& r.cpu_brand@ == (match p.brand {
                    Some(b) => b@,
                    None => "unknown"@,
                })
                &&& r.global_cpu_usage == p.usage
                &&& r.speed == speed.unwrap_or(0)
                &&& r.cpu_temp == temp.unwrap_or(0)
            },
            p.logical_cores == 0 ==> {
                &&& r.count_physical_cores == 0
                &&& r.count_logical_cores == 0
                &&& r.cpu_brand@ == "unknown"@
                &&& r.global_cpu_usage == 0
                &&& r.speed == 0
                &&& r.cpu_temp == 0
            },
    {
        if p.logical_cores > 0 {
            CpuData {
                count_physical_cores: p.physical_cores.unwrap_or(0),
                count_logical_cores: p.logical_cores,
                cpu_brand: match p.brand {
                    Some(b) => b,
                    None => String::from_str("unknown"),
                },
                cpu_arch: p.arch,
                global_cpu_usage: p.usage,
                speed: speed.unwrap_or(0),
                cpu_temp: temp.unwrap_or(0),
            }
        } else {
            CpuData {
                count_physical_cores: 0,
                count_logical_cores: 0,
                cpu_brand: String::from_str("unknown"),
                cpu_arch: p.arch,
                global_cpu_usage: 0,
                speed: 0,
                cpu_temp: 0,
            }
        }
    }

    /// Captures the processor record from the live host. Degradation is
    /// coupled: when no processor was seen, every reading but the
    /// architecture is at its default.
    pub fn new() -> (r: CpuData)
        ensures
            r.count_logical_cores == 0 ==> {
                &&& r.count_physical_cores == 0
                &&& r.cpu_brand@ == "unknown"@
                &&& r.global_cpu_usage == 0
                &&& r.speed == 0
                &&& r.cpu_temp == 0
            },
    {
        CpuData::from_probe(probe_cpu(), probe_cpu_speed(), probe_cpu_temp())
    }

    /// Replaces the record wholesale with a fresh capture.
    pub fn update_cpu_data(&mut self) {
        *self = Self::new();
    }
}

/// The graphics sub-record: the adapter names the backend reported.
#[derive(Clone, Debug, Default, PartialEq, Eq)]
pub struct GpuData {
    pub gpu_data_vulcan: Vec<String>,
}

impl GpuData {
    /// Composes the graphics record; an absent backend degrades to an
    /// empty adapter sequence.
    pub fn from_adapters(adapters: Option<Vec<String>>) -> (r: GpuData)
        ensures
            r.gpu_data_vulcan@ == (match adapters {
                Some(v) => v@,
                None => Seq::<String>::empty(),
            }),
    {
        match adapters {
            Some(v) => GpuData { gpu_data_vulcan: v },
            None => GpuData { gpu_data_vulcan: Vec::new() },
        }
    }

    /// Captures the graphics record from the live host.
    pub fn new() -> GpuData {
        GpuData::from_adapters(probe_gpu_adapters())
    }

    /// Replaces the record wholesale with a fresh capture.
    pub fn update_gpu(&mut self) {
        *self = Self::new();
    }
}

/// The memory sub-record, all fields in bytes.
#[derive(Clone, Debug, Default, PartialEq, Eq)]
pub struct RamData {
    pub total_memory: u64,
    pub used_memory: u64,
    pub total_swap: u64,
    pub free_swap: u64,
    pub used_swap: u64,
    pub available_memory: u64,
}

impl RamData {
    /// Composes the memory record from a raw reading, field for field.
    pub fn from_probe(m: MemoryProbe) -> (r: RamData)
        ensures
            r.total_memory == m.total_memory,
            r.used_memory == m.used_memory,
            r.total_swap == m.total_swap,
            r.free_swap == m.free_swap,
            r.used_swap == m.used_swap,
            r.available_memory == m.available_memory,
    {
        RamData {
            total_memory: m.total_memory,
            used_memory: m.used_memory,
            total_swap: m.total_swap,
            free_swap: m.free_swap,
            used_swap: m.used_swap,
            available_memory: m.available_memory,
        }
    }

    /// Captures the memory record from the live host.
    pub fn new() -> RamData {
        RamData::from_probe(probe_memory())
    }

    /// Replaces the record wholesale with a fresh capture.
    pub fn update_ram(&mut self) {
        *self = Self::new();
    }
}

/// The OS identity sub-record; the kind and the architecture are always
/// present, the other fields stay optional.
#[derive(Clone, Debug, Default, PartialEq, Eq)]
pub struct OperationSystem {
    pub os_type: String,
    pub name_os: Option<String>,
    pub kernel_version: Option<String>,
    pub os_version: Option<String>,
    pub distribution: String,
    pub host_name: Option<String>,
    pub cpu_arch: String,
}

impl OperationSystem {
    /// Composes the OS record; an unreadable kind degrades to "unknown",
    /// optional fields pass through unchanged.
    pub fn from_probe(os_type: Option<String>, p: OsProbe) -> (r: OperationSystem)
        ensures
            r.os_type@ == (match os_type {
                Some(s) => s@,
                None => "unknown"@,
            }),
            r.name_os == p.name_os,
            r.kernel_version == p.kernel_version,
            r.os_version == p.os_version,
            r.distribution == p.distribution,
            r.host_name == p.host_name,
            r.cpu_arch == p.cpu_arch,
    {
        OperationSystem {
            os_type: match os_type {
                Some(s) => s,
                None => String::from_str("unknown"),
            },
            name_os: p.name_os,
            kernel_version: p.kernel_version,
            os_version: p.os_version,
            distribution: p.distribution,
            host_name: p.host_name,
            cpu_arch: p.cpu_arch,
        }
    }

    /// Captures the OS record from the live host.
    pub fn new() -> OperationSystem {
        OperationSystem::from_probe(probe_os_type(), probe_os_identity())
    }
}

/// One volume's record, spaces as the byte counts the host reported.
#[derive(Clone, Debug, Default, PartialEq, Eq)]
pub struct Disk {
    pub available_space: u64,
    pub disk_type: String,
    pub file_system: String,
    pub total_space: u64,
    pub is_removable: bool,
    pub is_read_only: bool,
}

/// The mathematical image of one volume record.
pub ghost struct DiskV {
    pub available_space: u64,
    pub disk_type: Seq<char>,
    pub file_system: Seq<char>,
    pub total_space: u64,
    pub is_removable: bool,
    pub is_read_only: bool,
}

impl View for Disk {
    type V = DiskV;

    open spec fn view(&self) -> DiskV {
        DiskV {
            available_space: self.available_space,
            disk_type: self.disk_type@,
            file_system: self.file_system@,
            total_space: self.total_space,
            is_removable: self.is_removable,
            is_read_only: self.is_read_only,
        }
    }
}

/// The canonical multi-line text of a volume record.
pub open spec fn disk_text(d: DiskV) -> Seq<char> {
    "available_space: "@ + crate::text::dec_digits(d.available_space as nat) + "\n"@
        + "disk type: "@ + d.disk_type + "\n"@ + "dfile system: "@ + d.file_system + "\n"@
        + "total space: "@ + crate::text::dec_digits(d.total_space as nat)
}

impl Disk {
    /// Renders the volume record as labeled lines.
    pub fn to_string(&self) -> (r: String)
        ensures
            r@ == disk_text(self@),
    {
        let mut s = String::from_str("available_space: ");
        let a = crate::text::u64_to_dec(self.available_space);
        s.append(a.as_str());
        s.append("\n");
        s.append("disk type: ");
        s.append(self.disk_type.as_str());
        s.append("\n");
        s.append("dfile system: ");
        s.append(self.file_system.as_str());
        s.append("\n");
        s.append("total space: ");
        let t = crate::text::u64_to_dec(self.total_space);
        s.append(t.as_str());
        proof {
            assert(s@ =~= disk_text(self@));
        }
        s
    }
}

/// The view of a volume table: each entry's key view paired with the
/// volume record's view, in table order.
pub open spec fn entry_views(s: Seq<(String, Disk)>) -> Seq<(Seq<char>, DiskV)> {
    s.map_values(|p: (String, Disk)| (p.0@, p.1@))
}

/// Insert-or-replace on an association sequence: the first entry with the
/// key is replaced in place, and a missing key is appended at the end.
pub open spec fn upsert(s: Seq<(Seq<char>, DiskV)>, key: Seq<char>, v: DiskV) -> Seq<
    (Seq<char>, DiskV),
>
    decreases s.len(),
{
    if s.len() == 0 {
        seq![(key, v)]
    } else if s[0].0 == key {
        seq![(key, v)] + s.skip(1)
    } else {
        seq![s[0]] + upsert(s.skip(1), key, v)
    }
}

/// The key under which a probed volume is filed.
pub open spec fn disk_key_of(r: DiskProbe) -> Seq<char> {
    match r.name {
        Some(n) => n@,
        None => "unknown"@,
    }
}

/// The volume record a probed volume degrades to: spaces kept as the
/// byte counts read, an unreadable filesystem name filed as "unknown".
pub open spec fn disk_v_of(r: DiskProbe) -> DiskV {
    DiskV {
        available_space: r.available_space,
        disk_type: r.kind@,
        file_system: match r.file_system {
            Some(f) => f@,
            None => "unknown"@,
        },
        total_space: r.total_space,
        is_removable: r.is_removable,
        is_read_only: r.is_read_only,
    }
}

/// The volume table that a sequence of probed volumes composes to:
/// volumes with no capacity are dropped, the rest are upserted in order.
pub open spec fn dram_entries(rs: Seq<DiskProbe>) -> Seq<(Seq<char>, DiskV)>
    decreases rs.len(),
{
    if rs.len() == 0 {
        Seq::empty()
    } else if rs.last().total_space > 0 {
        upsert(dram_entries(rs.drop_last()), disk_key_of(rs.last()), disk_v_of(rs.last()))
    } else {
        dram_entries(rs.drop_last())
    }
}

/// No two entries share a key.
pub open spec fn keys_unique(s: Seq<(Seq<char>, DiskV)>) -> bool {
    forall|i: int, j: int| 0 <= i < j < s.len() ==> s[i].0 != s[j].0
}

/// Some entry is filed under the key.
pub open spec fn key_present(s: Seq<(Seq<char>, DiskV)>, x: Seq<char>) -> bool {
    exists|i: int| 0 <= i < s.len() && s[i].0 == x
}

/// Insert-or-replace keeps keys unique, and afterwards exactly the old
/// keys and the inserted one are present.
pub proof fn lemma_upsert_keys(s: Seq<(Seq<char>, DiskV)>, key: Seq<char>, v: DiskV)
    requires
        keys_unique(s),
    ensures
        keys_unique(upsert(s, key, v)),
        forall|x: Seq<char>|
            #[trigger] key_present(upsert(s, key, v), x) <==> (key_present(s, x) || x == key),
{
    let u = upsert(s, key, v);
    if key_present(s, key) {
        let j = choose|j: int| 0 <= j < s.len() && s[j].0 == key;
        assert(forall|k: int| 0 <= k < j ==> s[k].0 != key);
        lemma_upsert_found(s, key, v, j);
        assert(u =~= s.update(j, (key, v)));
        assert forall|i: int| 0 <= i < u.len() implies u[i].0 == s[i].0 by {}
        assert forall|x: Seq<char>| #[trigger] key_present(u, x) <==> (key_present(s, x) || x
            == key) by {
            if key_present(u, x) {
                let i = choose|i: int| 0 <= i < u.len() && u[i].0 == x;
                assert(s[i].0 == x);
                assert(key_present(s, x));
            }
            if key_present(s, x) {
                let i = choose|i: int| 0 <= i < s.len() && s[i].0 == x;
                assert(u[i].0 == x);
                assert(key_present(u, x));
            }
            if x == key {
                assert(u[j].0 == x);
                assert(key_present(u, x));
            }
        }
    } else {
        assert(forall|k: int| 0 <= k < s.len() ==> s[k].0 != key);
        lemma_upsert_absent(s, key, v);
        assert(u =~= s.push((key, v)));
        assert forall|x: Seq<char>| #[trigger] key_present(u, x) <==> (key_present(s, x) || x
            == key) by {
            if key_present(u, x) {
                let i = choose|i: int| 0 <= i < u.len() && u[i].0 == x;
                if i < s.len() {
                    assert(s[i].0 == x);
                    assert(key_present(s, x));
                } else {
                    assert(x == key);
                }
            }
            if key_present(s, x) {
                let i = choose|i: int| 0 <= i < s.len() && s[i].0 == x;
                assert(u[i].0 == x);
                assert(key_present(u, x));
            }
            if x == key {
                assert(u[s.len() as int].0 == x);
                assert(key_present(u, x));
            }
        }
    }
}

/// The volume table composed from any sequence of probed volumes has
/// unique keys: each volume name is filed once.
pub proof fn lemma_dram_keys_unique(rs: Seq<DiskProbe>)
    ensures
        keys_unique(dram_entries(rs)),
    decreases rs.len(),
{
    if rs.len() == 0 {
    } else {
        lemma_dram_keys_unique(rs.drop_last());
        if rs.last().total_space > 0 {
            lemma_upsert_keys(dram_entries(rs.drop_last()), disk_key_of(rs.last()), disk_v_of(rs.last()));
        }
    }
}

proof fn lemma_upsert_found(s: Seq<(Seq<char>, DiskV)>, key: Seq<char>, v: DiskV, j: int)
    requires
        0 <= j < s.len(),
        s[j].0 == key,
        forall|k: int| 0 <= k < j ==> s[k].0 != key,
    ensures
        upsert(s, key, v) =~= s.update(j, (key, v)),
    decreases j,
{
    if j == 0 {
        assert(upsert(s, key, v) =~= s.update(0, (key, v)));
    } else {
        lemma_upsert_found(s.skip(1), key, v, j - 1);
        assert(upsert(s, key, v) =~= s.update(j, (key, v)));
    }
}

proof fn lemma_upsert_absent(s: Seq<(Seq<char>, DiskV)>, key: Seq<char>, v: DiskV)
    requires
        forall|k: int| 0 <= k < s.len() ==> s[k].0 != key,
    ensures
        upsert(s, key, v) =~= s.push((key, v)),
    decreases s.len(),
{
    if s.len() == 0 {
    } else {
        lemma_upsert_absent(s.skip(1), key, v);
        assert(upsert(s, key, v) =~= s.push((key, v)));
    }
}

/// The storage sub-record: a table from volume name to volume record,
/// keys unique, insertion order immaterial.
#[derive(Clone, Debug, Default, PartialEq, Eq)]
pub struct DramData {
    pub disks: Vec<(String, Disk)>,
}

impl View for DramData {
    type V = Seq<(Seq<char>, DiskV)>;

    open spec fn view(&self) -> Seq<(Seq<char>, DiskV)> {
        entry_views(self.disks@)
    }
}

fn upsert_entry(disks: &mut Vec<(String, Disk)>, name: String, di: Disk)
    ensures
        entry_views(final(disks)@) == upsert(entry_views(old(disks)@), name@, di@),
{
    let mut j: usize = 0;
    while j < disks.len()
        invariant
            j <= disks@.len(),
            disks@ == old(disks)@,
            forall|k: int| 0 <= k < j ==> entry_views(disks@)[k].0 != name@,
        decreases disks@.len() - j,
    {
        if disks[j].0 == name {
            proof {
                lemma_upsert_found(entry_views(disks@), name@, di@, j as int);
            }
            let ghost before = entry_views(disks@);
            disks.set(j, (name, di));
            proof {
                assert(entry_views(disks@) =~= before.update(j as int, (name@, di@)));
            }
            return ;
        }
        j += 1;
    }
    proof {
        lemma_upsert_absent(entry_views(disks@), name@, di@);
    }
    let ghost before = entry_views(disks@);
    disks.push((name, di));
    proof {
        assert(entry_views(disks@) =~= before.push((name@, di@)));
    }
}

impl DramData {
    /// Composes the volume table from raw volume readings: volumes with no
    /// capacity are dropped, spaces stay the byte counts read, missing
    /// names and filesystem names degrade to "unknown", and a repeated
    /// name replaces the earlier entry.
    pub fn from_probe(records: Vec<DiskProbe>) -> (r: DramData)
        ensures
            r@ == dram_entries(records@),
            keys_unique(r@),
    {
        proof {
            lemma_dram_keys_unique(records@);
        }
        let ghost orig = records@;
        let mut records = records;
        let mut disks: Vec<(String, Disk)> = Vec::new();
        let ghost mut i: int = 0;
        proof {
            assert(entry_views(disks@) =~= dram_entries(orig.take(0)));
        }
        while records.len() > 0
            invariant
                0 <= i,
                i + records@.len() == orig.len(),
                records@ == orig.skip(i),
                entry_views(disks@) == dram_entries(orig.take(i)),
            decreases records@.len(),
    {
            let rec = records.remove(0);
            proof {
                assert(rec == orig[i]);
                assert(records@ =~= orig.skip(i + 1));
                assert(orig.take(i + 1).drop_last() =~= orig.take(i));
                assert(orig.take(i + 1).last() == orig[i]);
            }
            if rec.total_space > 0 {
                let name = match rec.name {
                    Some(n) => n,
                    None => String::from_str("unknown"),
                };
                let di = Disk {
                    available_space: rec.available_space,
                    disk_type: rec.kind,
                    file_system: match rec.file_system {
                        Some(f) => f,
                        None => String::from_str("unknown"),
                    },
                    total_space: rec.total_space,
                    is_removable: rec.is_removable,
                    is_read_only: rec.is_read_only,
                };
                proof {
                    assert(name@ == disk_key_of(orig[i]));
                    assert(di@ == disk_v_of(orig[i]));
                }
                upsert_entry(&mut disks, name, di);
            }
            proof {
                i = i + 1;
            }
        }
        proof {
            assert(orig.take(i) =~= orig);
        }
        DramData { disks }
    }

    /// Captures the volume table from the live host.
    pub fn new() -> (r: DramData)
        ensures
            keys_unique(r@),
    {
        DramData::from_probe(probe_disks())
    }

    /// Replaces the table wholesale with a fresh capture.
    pub fn update_disk_data(&mut self)
        ensures
            keys_unique(final(self)@),
    {
        *self = Self::new();
    }
}

/// One network interface's record.
#[derive(Clone, Debug, Default, PartialEq, Eq)]
pub struct AllNetworksData {
    pub interface_name: String,
    pub network_ip_networks: String,
    pub network_mac_address: String,
    pub total_errors_on_received: u64,
    pub total_errors_on_transmitted: u64,
    pub total_packets_received: u64,
    pub total_packets_transmitted: u64,
    pub mtu: u64,
}

/// The mathematical image of one interface record.
pub ghost struct NetV {
    pub interface_name: Seq<char>,
    pub network_ip_networks: Seq<char>,
    pub network_mac_address: Seq<char>,
    pub total_errors_on_received: u64,
    pub total_errors_on_transmitted: u64,
    pub total_packets_received: u64,
    pub total_packets_transmitted: u64,
    pub mtu: u64,
}

impl View for AllNetworksData {
    type V = NetV;

    open spec fn view(&self) -> NetV {
        NetV {
            interface_name: self.interface_name@,
            network_ip_networks: self.network_ip_networks@,
            network_mac_address: self.network_mac_address@,
            total_errors_on_received: self.total_errors_on_received,
            total_errors_on_transmitted: self.total_errors_on_transmitted,
            total_packets_received: self.total_packets_received,
            total_packets_transmitted: self.total_packets_transmitted,
            mtu: self.mtu,
        }
    }
}

/// The texts of a sequence of strings, run together with no separator.
pub open spec fn concat_texts(s: Seq<String>) -> Seq<char>
    decreases s.len(),
{
    if s.len() == 0 {
        Seq::empty()
    } else {
        concat_texts(s.drop_last()) + s.last()@
    }
}

/// Runs a sequence of strings together with no separator.
fn join_all(parts: &Vec<String>) -> (r: String)
    ensures
        r@ == concat_texts(parts@),
{
    let mut s = String::new();
    let mut j: usize = 0;
    proof {
        assert(parts@.take(0) =~= Seq::<String>::empty());
    }
    while j < parts.len()
        invariant
            j <= parts@.len(),
            s@ == concat_texts(parts@.take(j as int)),
        decreases parts@.len() - j,
    {
        s.append(parts[j].as_str());
        proof {
            assert(parts@.take(j + 1).drop_last() =~= parts@.take(j as int));
            assert(parts@.take(j + 1).last() == parts@[j as int]);
        }
        j += 1;
    }
    proof {
        assert(parts@.take(j as int) =~= parts@);
    }
    s
}

/// The views of a sequence of interface records.
pub open spec fn net_views(s: Seq<AllNetworksData>) -> Seq<NetV> {
    s.map_values(|n: AllNetworksData| n@)
}

/// The interface records a sequence of probed interfaces composes to.
pub open spec fn net_vs_of_probes(rs: Seq<NetProbe>) -> Seq<NetV> {
    rs.map_values(|p: NetProbe| net_v_of(p))
}

/// The interface record a probed interface composes to; its IP networks
/// are run together as one text.
pub open spec fn net_v_of(p: NetProbe) -> NetV {
    NetV {
        interface_name: p.interface_name@,
        network_ip_networks: concat_texts(p.ip_networks@),
        network_mac_address: p.mac_address@,
        total_errors_on_received: p.total_errors_on_received,
        total_errors_on_transmitted: p.total_errors_on_transmitted,
        total_packets_received: p.total_packets_received,
        total_packets_transmitted: p.total_packets_transmitted,
        mtu: p.mtu,
    }
}

/// The canonical multi-line text of one interface record.
pub open spec fn net_text(n: NetV) -> Seq<char> {
    "interface name:              "@ + n.interface_name + "\n"@
        + "network ip networks:         "@ + n.network_ip_networks + "\n"@
        + "network mac address:         "@ + n.network_mac_address + "\n"@
        + "total errors on received:    "@ + crate::text::dec_digits(
        n.total_errors_on_received as nat,
    ) + "\n"@ + "total errors on transmitted: "@ + crate::text::dec_digits(
        n.total_errors_on_transmitted as nat,
    ) + "\n"@ + "total packets received:      "@ + crate::text::dec_digits(
        n.total_packets_received as nat,
    ) + "\n"@ + "total packets transmitted:   "@ + crate::text::dec_digits(
        n.total_packets_transmitted as nat,
    ) + "\n"@ + "mtu:                         "@ + crate::text::dec_digits(n.mtu as nat)
}

impl AllNetworksData {
    /// Renders the interface record as labeled lines.
    pub fn to_string(&self) -> (r: String)
        ensures
            r@ == net_text(self@),
    {
        let mut s = String::from_str("interface name:              ");
        s.append(self.interface_name.as_str());
        s.append("\n");
        s.append("network ip networks:         ");
        s.append(self.network_ip_networks.as_str());
        s.append("\n");
        s.append("network mac address:         ");
        s.append(self.network_mac_address.as_str());
        s.append("\n");
        s.append("total errors on received:    ");
        let a = crate::text::u64_to_dec(self.total_errors_on_received);
        s.append(a.as_str());
        s.append("\n");
        s.append("total errors on transmitted: ");
        let b = crate::text::u64_to_dec(self.total_errors_on_transmitted);
        s.append(b.as_str());
        s.append("\n");
        s.append("total packets received:      ");
        let c = crate::text::u64_to_dec(self.total_packets_received);
        s.append(c.as_str());
        s.append("\n");
        s.append("total packets transmitted:   ");
        let d = crate::text::u64_to_dec(self.total_packets_transmitted);
        s.append(d.as_str());
        s.append("\n");
        s.append("mtu:                         ");
        let e = crate::text::u64_to_dec(self.mtu);
        s.append(e.as_str());
        proof {
            assert(s@ =~= net_text(self@));
        }
        s
    }
}

/// The network sub-record: one record per interface, with the count
/// mirrored as a field.
#[derive(Clone, Debug, Default, PartialEq, Eq)]
pub struct NetworkData {
    pub data_network: Vec<AllNetworksData>,
    pub network_len: i32,
}

impl View for NetworkData {
    type V = Seq<NetV>;

    open spec fn view(&self) -> Seq<NetV> {
        net_views(self.data_network@)
    }
}

impl NetworkData {
    /// Composes the network record from raw interface readings, one
    /// record per reading, in the given order.
    pub fn from_probe(records: Vec<NetProbe>) -> (r: NetworkData)
        requires
            records@.len() <= i32::MAX,
        ensures
            r@ == net_vs_of_probes(records@),
            r.network_len == records@.len(),
    {
        let ghost orig = records@;
        let mut records = records;
        let mut datas: Vec<AllNetworksData> = Vec::new();
        let mut len: i32 = 0;
        while records.len() > 0
            invariant
                0 <= len,
                len + records@.len() == orig.len(),
                orig.len() <= i32::MAX,
                records@ == orig.skip(len as int),
                datas@.len() == len as int,
                forall|k: int| 0 <= k < len ==> datas@[k]@ == net_v_of(orig[k]),
            decreases records@.len(),
        {
            let rec = records.remove(0);
            proof {
                assert(rec == orig[len as int]);
                assert(records@ =~= orig.skip(len as int + 1));
            }
            let ip_str = join_all(&rec.ip_networks);
            let tmp = AllNetworksData {
                interface_name: rec.interface_name,
                network_ip_networks: ip_str,
                network_mac_address: rec.mac_address,
                total_errors_on_received: rec.total_errors_on_received,
                total_errors_on_transmitted: rec.total_errors_on_transmitted,
                total_packets_received: rec.total_packets_received,
                total_packets_transmitted: rec.total_packets_transmitted,
                mtu: rec.mtu,
            };
            proof {
                assert(tmp@ == net_v_of(orig[len as int]));
            }
            datas.push(tmp);
            len += 1;
        }
        proof {
            assert forall|k: int| 0 <= k < orig.len() implies net_views(datas@)[k]
                == net_vs_of_probes(orig)[k] by {
                assert(datas@[k]@ == net_v_of(orig[k]));
            }
            assert(net_views(datas@) =~= net_vs_of_probes(orig));
        }
        NetworkData { data_network: datas, network_len: len }
    }

    /// Captures the network record from the live host; interfaces beyond
    /// what the count field can mirror are dropped from the end.
    pub fn new() -> (r: NetworkData)
        ensures
            r.network_len == r.data_network@.len(),
    {
        let mut records = probe_networks();
        while records.len() > 0x7fffffff
            invariant
                true,
            decreases records@.len(),
        {
            let _ = records.pop();
        }
        let r = NetworkData::from_probe(records);
        proof {
            assert(r@.len() == r.data_network@.len());
            assert(net_vs_of_probes(records@).len() == records@.len());
        }
        r
    }

    /// Replaces the record wholesale with a fresh capture.
    pub fn update_network_data(&mut self)
        ensures
            final(self).network_len == final(self).data_network@.len(),
    {
        *self = Self::new();
    }
}

/// One thermal sensor's record, temperatures in whole degrees.
#[derive(Clone, Debug, Default, PartialEq, Eq)]
pub struct ComponentData {
    pub label: String,
    pub temperature: i64,
    pub max_temp: i64,
    pub critical_temp: i64,
}

/// The mathematical image of one sensor record.
pub ghost struct ComponentV {
    pub label: Seq<char>,
    pub temperature: i64,
    pub max_temp: i64,
    pub critical_temp: i64,
}

impl View for ComponentData {
    type V = ComponentV;

    open spec fn view(&self) -> ComponentV {
        ComponentV {
            label: self.label@,
            temperature: self.temperature,
            max_temp: self.max_temp,
            critical_temp: self.critical_temp,
        }
    }
}

/// The views of a sequence of sensor records.
pub open spec fn component_views(s: Seq<ComponentData>) -> Seq<ComponentV> {
    s.map_values(|c: ComponentData| c@)
}

/// The sensor records a sequence of probed sensors degrades to.
pub open spec fn component_vs_of_probes(rs: Seq<ComponentProbe>) -> Seq<ComponentV> {
    rs.map_values(|p: ComponentProbe| component_v_of(p))
}

/// The sensor record a probed sensor degrades to: a missing temperature
/// reads as zero.
pub open spec fn component_v_of(p: ComponentProbe) -> ComponentV {
    ComponentV {
        label: p.label@,
        temperature: p.temperature.unwrap_or(0),
        max_temp: p.max_temp.unwrap_or(0),
        critical_temp: p.critical_temp.unwrap_or(0),
    }
}

/// The canonical text of one sensor record: a single blank for an
/// unlabeled sensor, labeled lines otherwise.
pub open spec fn component_text(c: ComponentV) -> Seq<char> {
    if c.label.len() == 0 {
        " "@
    } else {
        "label:               "@ + c.label + "\n"@ + "temperature:         "@
            + crate::text::dec_int(c.temperature as int) + "\n"@ + "max_temp:            "@
            + crate::text::dec_int(c.max_temp as int) + "\n"@ + "tcritical_temp:      "@
            + crate::text::dec_int(c.critical_temp as int) + "\n"@
    }
}

impl ComponentData {
    /// Builds one sensor record from its parts, field for field.
    pub fn new(label_: String, temperature_: i64, max_temp_: i64, critical_temp_: i64) -> (r:
        ComponentData)
        ensures
            r.label == label_,
            r.temperature == temperature_,
            r.max_temp == max_temp_,
            r.critical_temp == critical_temp_,
    {
        ComponentData {
            label: label_,
            temperature: temperature_,
            max_temp: max_temp_,
            critical_temp: critical_temp_,
        }
    }

    /// Renders the sensor record as labeled lines.
    pub fn to_string(&self) -> (r: String)
        ensures
            r@ == component_text(self@),
    {
        if self.label.as_str().is_empty() {
            String::from_str(" ")
        } else {
            let mut s = String::from_str("label:               ");
            s.append(self.label.as_str());
            s.append("\n");
            s.append("temperature:         ");
            let a = crate::text::i64_to_dec(self.temperature);
            s.append(a.as_str());
            s.append("\n");
            s.append("max_temp:            ");
            let b = crate::text::i64_to_dec(self.max_temp);
            s.append(b.as_str());
            s.append("\n");
            s.append("tcritical_temp:      ");
            let c = crate::text::i64_to_dec(self.critical_temp);
            s.append(c.as_str());
            s.append("\n");
            proof {
                assert(s@ =~= component_text(self@));
            }
            s
        }
    }
}

/// The thermal sub-record: one record per sensor, possibly none.
#[derive(Clone, Debug, Default, PartialEq, Eq)]
pub struct ComponentsData {
    pub component_data_v: Vec<ComponentData>,
}

impl View for ComponentsData {
    type V = Seq<ComponentV>;

    open spec fn view(&self) -> Seq<ComponentV> {
        component_views(self.component_data_v@)
    }
}

impl ComponentsData {
    /// Composes the thermal record from raw sensor readings, one record
    /// per reading, in the given order.
    pub fn from_probe(records: Vec<ComponentProbe>) -> (r: ComponentsData)
        ensures
            r@ == component_vs_of_probes(records@),
    {
        let ghost orig = records@;
        let mut records = records;
        let mut comp_data_v: Vec<ComponentData> = Vec::new();
        let ghost mut i: int = 0;
        while records.len() > 0
            invariant
                0 <= i,
                i + records@.len() == orig.len(),
                records@ == orig.skip(i),
                comp_data_v@.len() == i,
                forall|k: int| 0 <= k < i ==> comp_data_v@[k]@ == component_v_of(orig[k]),
            decreases records@.len(),
        {
            let rec = records.remove(0);
            proof {
                assert(rec == orig[i]);
                assert(records@ =~= orig.skip(i + 1));
            }
            let tmp = ComponentData::new(
                rec.label,
                rec.temperature.unwrap_or(0),
                rec.max_temp.unwrap_or(0),
                rec.critical_temp.unwrap_or(0),
            );
            proof {
                assert(tmp@ == component_v_of(orig[i]));
            }
            comp_data_v.push(tmp);
            proof {
                i = i + 1;
            }
        }
        proof {
            assert forall|k: int| 0 <= k < orig.len() implies component_views(comp_data_v@)[k]
                == component_vs_of_probes(orig)[k] by {
                assert(comp_data_v@[k]@ == component_v_of(orig[k]));
            }
            assert(component_views(comp_data_v@) =~= component_vs_of_probes(orig));
        }
        ComponentsData { component_data_v: comp_data_v }
    }

    /// Captures the thermal record from the live host.
    pub fn new() -> ComponentsData {
        ComponentsData::from_probe(probe_components())
    }

    /// Replaces the record wholesale with a fresh capture.
    pub fn update_data(&mut self) {
        *self = Self::new();
    }
}

/// The full snapshot: one sub-record per category, every one always
/// present — a failing probe fills its sub-record with defaults, it never
/// removes it.
#[derive(Clone, Debug, Default, PartialEq, Eq)]
pub struct AllData {
    pub cpu_data: CpuData,
    pub gpu_data: GpuData,
    pub dram_data: DramData,
    pub ram_data: RamData,
    pub os_data: OperationSystem,
    pub network_data: NetworkData,
    pub components_data: ComponentsData,
}

/// A snapshot is internally sound: every category sub-record is present
/// by construction, the interface count mirrors the interface records, and
/// the volume table's keys are unique.
pub open spec fn snapshot_wf(s: AllData) -> bool {
    &&& s.network_data.network_len == s.network_data.data_network@.len()
    &&& keys_unique(s.dram_data@)
}

impl AllData {
    /// Composes one snapshot from raw readings of all seven categories.
    /// Each category degrades on its own; in particular a failed graphics
    /// probe yields an empty adapter sequence, and the other six
    /// sub-records still come fully from their own readings.
    pub fn from_probes(
        cpu: CpuProbe,
        speed: Option<u64>,
        temp: Option<i32>,
        adapters: Option<Vec<String>>,
        disks: Vec<DiskProbe>,
        memory: MemoryProbe,
        os_type: Option<String>,
        os: OsProbe,
        networks: Vec<NetProbe>,
        components: Vec<ComponentProbe>,
    ) -> (r: AllData)
        requires
            networks@.len() <= i32::MAX,
        ensures
            snapshot_wf(r),
            r.cpu_data.cpu_arch == cpu.arch,
            cpu.logical_cores > 0 ==> {
                &&& r.cpu_data.count_physical_cores == cpu.physical_cores.unwrap_or(0)
                &&& r.cpu_data.count_logical_cores == cpu.logical_cores
                &&& r.cpu_data.cpu_brand@ == (match cpu.brand {
                    Some(b) => b@,
                    None => "unknown"@,
                })
                &&& r.cpu_data.global_cpu_usage == cpu.usage
                &&& r.cpu_data.speed == speed.unwrap_or(0)
                &&& r.cpu_data.cpu_temp == temp.unwrap_or(0)
            },
            cpu.logical_cores == 0 ==> {
                &&& r.cpu_data.count_physical_cores == 0
                &&& r.cpu_data.count_logical_cores == 0
                &&& r.cpu_data.cpu_brand@ == "unknown"@
                &&& r.cpu_data.global_cpu_usage == 0
                &&& r.cpu_data.speed == 0
                &&& r.cpu_data.cpu_temp == 0
            },
            r.gpu_data.gpu_data_vulcan@ == (match adapters {
                Some(v) => v@,
                None => Seq::<String>::empty(),
            }),
            r.dram_data@ == dram_entries(disks@),
            keys_unique(r.dram_data@),
            r.ram_data == (RamData {
                total_memory: memory.total_memory,
                used_memory: memory.used_memory,
                total_swap: memory.total_swap,
                free_swap: memory.free_swap,
                used_swap: memory.used_swap,
                available_memory: memory.available_memory,
            }),
            r.os_data.os_type@ == (match os_type {
                Some(st) => st@,
                None => "unknown"@,
            }),
            r.os_data.name_os == os.name_os,
            r.os_data.kernel_version == os.kernel_version,
            r.os_data.os_version == os.os_version,
            r.os_data.distribution == os.distribution,
            r.os_data.host_name == os.host_name,
            r.os_data.cpu_arch == os.cpu_arch,
            r.network_data@ == net_vs_of_probes(networks@),
            r.network_data.network_len == networks@.len(),
            r.components_data@ == component_vs_of_probes(components@),
    {
        let network_data = NetworkData::from_probe(networks);
        proof {
            assert(network_data@.len() == network_data.data_network@.len());
            assert(net_vs_of_probes(networks@).len() == networks@.len());
        }
        AllData {
            cpu_data: CpuData::from_probe(cpu, speed, temp),
            gpu_data: GpuData::from_adapters(adapters),
            dram_data: DramData::from_probe(disks),
            ram_data: RamData::from_probe(memory),
            os_data: OperationSystem::from_probe(os_type, os),
            network_data,
            components_data: ComponentsData::from_probe(components),
        }
    }

    /// Captures every category in one snapshot; interfaces beyond what
    /// the network count field can mirror are dropped from the end.
    pub fn new() -> (r: AllData)
        ensures
            snapshot_wf(r),
    {
        let mut networks = probe_networks();
        while networks.len() > 0x7fffffff
            invariant
                true,
            decreases networks@.len(),
        {
            let _ = networks.pop();
        }
        AllData::from_probes(
            probe_cpu(),
            probe_cpu_speed(),
            probe_cpu_temp(),
            probe_gpu_adapters(),
            probe_disks(),
            probe_memory(),
            probe_os_type(),
            probe_os_identity(),
            networks,
            probe_components(),
        )
    }

    /// Replaces the whole snapshot with a fresh capture.
    pub fn update_all_data(&mut self)
        ensures
            snapshot_wf(*final(self)),
    {
        *self = Self::new();
    }

    /// Refreshes the processor sub-record alone.
    pub fn update_all_cpu(&mut self)
        ensures
            final(self).gpu_data == old(self).gpu_data,
            final(self).dram_data == old(self).dram_data,
            final(self).ram_data == old(self).ram_data,
            final(self).os_data == old(self).os_data,
            final(self).network_data == old(self).network_data,
            final(self).components_data == old(self).components_data,
    {
        self.cpu_data.update_cpu_data();
    }

    /// Refreshes the graphics sub-record alone.
    pub fn update_all_gpu(&mut self)
        ensures
            final(self).cpu_data == old(self).cpu_data,
            final(self).dram_data == old(self).dram_data,
            final(self).ram_data == old(self).ram_data,
            final(self).os_data == old(self).os_data,
            final(self).network_data == old(self).network_data,
            final(self).components_data == old(self).components_data,
    {
        self.gpu_data.update_gpu();
    }

    /// Refreshes the storage sub-record alone.
    pub fn update_all_disk(&mut self)
        ensures
            final(self).cpu_data == old(self).cpu_data,
            final(self).gpu_data == old(self).gpu_data,
            final(self).ram_data == old(self).ram_data,
            final(self).os_data == old(self).os_data,
            final(self).network_data == old(self).network_data,
            final(self).components_data == old(self).components_data,
    {
        self.dram_data.update_disk_data();
    }

    /// Refreshes the memory sub-record alone.
    pub fn update_all_ram(&mut self)
        ensures
            final(self).cpu_data == old(self).cpu_data,
            final(self).gpu_data == old(self).gpu_data,
            final(self).dram_data == old(self).dram_data,
            final(self).os_data == old(self).os_data,
            final(self).network_data == old(self).network_data,
            final(self).components_data == old(self).components_data,
    {
        self.ram_data.update_ram();
    }

    /// Refreshes the OS identity sub-record alone.
    pub fn update_all_os(&mut self)
        ensures
            final(self).cpu_data == old(self).cpu_data,
            final(self).gpu_data == old(self).gpu_data,
            final(self).dram_data == old(self).dram_data,
            final(self).ram_data == old(self).ram_data,
            final(self).network_data == old(self).network_data,
            final(self).components_data == old(self).components_data,
    {
        self.os_data = OperationSystem::new();
    }

    /// Refreshes the network sub-record alone.
    pub fn update_all_network(&mut self)
        ensures
            final(self).cpu_data == old(self).cpu_data,
            final(self).gpu_data == old(self).gpu_data,
            final(self).dram_data == old(self).dram_data,
            final(self).ram_data == old(self).ram_data,
            final(self).os_data == old(self).os_data,
            final(self).components_data == old(self).components_data,
    {
        self.network_data.update_network_data();
    }

    /// Refreshes the thermal sub-record alone.
    pub fn update_all_components(&mut self)
        ensures
            final(self).cpu_data == old(self).cpu_data,
            final(self).gpu_data == old(self).gpu_data,
            final(self).dram_data == old(self).dram_data,
            final(self).ram_data == old(self).ram_data,
            final(self).os_data == old(self).os_data,
            final(self).network_data == old(self).network_data,
    {
        self.components_data.update_data();
    }
}

} // verus!
