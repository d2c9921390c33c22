//! The TOML configuration format (see the configuration file specification):
//! which keys are read, what each defaults to, and which missing sections are errors.
use vstd::prelude::*;

use super::FormatError;
use super::FormatErrorView;
use super::TraitFormat;
use crate::param::ContainerConfig;
use crate::param::CpuConfig;
use crate::param::CpuConfigView;
use crate::param::DeviceConfig;
use crate::param::DeviceConfigView;
use crate::param::EnvironmentConfig;
use crate::param::EnvironmentConfigView;
use crate::param::KernelConfig;
use crate::param::KernelConfigView;
use crate::param::MemoryMapping;
use crate::param::PhysicalMemoryConfig;
use crate::param::QemuConfig;
use crate::param::QemuConfigView;
use crate::param::SystemConfig;
use crate::param::SystemConfigView;
use crate::param::VDevConfig;
use crate::param::VDevConfigView;
use crate::param::VmConfig;
use crate::param::VmConfigView;
use crate::value::array_at;
use crate::value::bool_at;
use crate::value::float_at;
use crate::value::int_at;
use crate::value::items_data;
use crate::value::lemma_entries_data;
use crate::value::lemma_items_data;
use crate::value::parse_toml_text;
use crate::value::str_at;
use crate::value::toml_document;
use crate::value::toml_error_text;
use crate::value::entries_data;
use crate::value::TomlData;
use crate::value::TomlValue;

verus! {

/// The TOML reader.
pub struct Toml {
    text: String,
    table: Option<TomlValue>,
}

// ---------------------------------------------------------------------------
// What a document means
// ---------------------------------------------------------------------------

/// The bit pattern of the binary64 number 0.6, the version assumed when none is given.
pub const DEFAULT_VERSION_BITS: u64 = 0x3FE3_3333_3333_3333u64;

/// A string, or `default` where there is none.
pub open spec fn text_or(o: Option<Seq<char>>, default: Seq<char>) -> Seq<char> {
    match o {
        Some(s) => s,
        None => default,
    }
}

/// An integer taken as a `u64` (two's complement, as Rust's `as` does), or `default`.
pub open spec fn u64_or(o: Option<i64>, default: u64) -> u64 {
    match o {
        Some(i) => i as u64,
        None => default,
    }
}

/// An optional integer taken as a `u64`.
pub open spec fn opt_u64(o: Option<i64>) -> Option<u64> {
    match o {
        Some(i) => Some(i as u64),
        None => None,
    }
}

/// The integers of a list, in order, taken as `u64`; other items are skipped.
pub open spec fn integers_of(items: Seq<TomlData>) -> Seq<u64>
    decreases items.len(),
{
    if items.len() == 0 {
        Seq::empty()
    } else {
        let front = integers_of(items.drop_last());
        match items.last().as_integer() {
            Some(i) => front.push(i as u64),
            None => front,
        }
    }
}

/// `0, 1, ..., n - 1`.
pub open spec fn count_up(n: u64) -> Seq<u64> {
    Seq::new(n as nat, |i: int| i as u64)
}

/// Whether a top-level key names a virtual machine section: it begins with `vm_`.
pub open spec fn is_vm_key(key: Seq<char>) -> bool {
    key.len() >= 3 && key[0] == 'v' && key[1] == 'm' && key[2] == '_'
}

/// The `cpus` section of a virtual machine.
pub open spec fn cpu_config_of(vm: TomlData) -> Result<CpuConfigView, FormatErrorView> {
    match vm.get("cpus"@) {
        None => Err(FormatErrorView::ParseError("cpus section not found"@)),
        Some(c) => {
            let n = u64_or(int_at(c, "num_cpus"@), 1);
            Ok(
                CpuConfigView {
                    num_cpus: n,
                    pcpu_mapping: match array_at(c, "pcpu_mapping"@) {
                        Some(a) => integers_of(a),
                        None => count_up(n),
                    },
                },
            )
        },
    }
}

/// One entry of a `memory` list.
pub open spec fn memory_mapping_of(m: TomlData) -> MemoryMapping {
    MemoryMapping {
        guest_base: u64_or(int_at(m, "guest_base"@), 0),
        host_base: u64_or(int_at(m, "host_base"@), 0),
        size: u64_or(int_at(m, "size"@), 0),
    }
}

/// The memory mappings of a virtual machine.
pub open spec fn memory_mappings_of(vm: TomlData) -> Seq<MemoryMapping> {
    match array_at(vm, "memory"@) {
        Some(list) => list.map_values(|m: TomlData| memory_mapping_of(m)),
        None => Seq::empty(),
    }
}

/// One entry of a `vdev` list.
pub open spec fn vdev_of(v: TomlData) -> VDevConfigView {
    VDevConfigView {
        device: text_or(str_at(v, "device"@), "unknown"@),
        guest_base: u64_or(int_at(v, "guest_base"@), 0),
        size: u64_or(int_at(v, "size"@), 0),
        config: v.get("config"@),
    }
}

/// The virtual devices of a virtual machine.
pub open spec fn vdevs_of(vm: TomlData) -> Seq<VDevConfigView> {
    match array_at(vm, "vdev"@) {
        Some(list) => list.map_values(|v: TomlData| vdev_of(v)),
        None => Seq::empty(),
    }
}

/// A `vm_*` section.
pub open spec fn vm_config_of(vm: TomlData) -> Result<VmConfigView, FormatErrorView> {
    match cpu_config_of(vm) {
        Err(e) => Err(e),
        Ok(cpus) => Ok(
            VmConfigView {
                os: text_or(str_at(vm, "os"@), "unknown"@),
                os_version: str_at(vm, "os_version"@),
                cpus,
                memory: memory_mappings_of(vm),
                vdev: vdevs_of(vm),
            },
        ),
    }
}

/// The virtual machines among the top-level entries, in the entries' order; the
/// first faulty one in that order decides the error.
pub open spec fn vms_of(entries: Seq<(Seq<char>, TomlData)>) -> Result<
    Seq<(Seq<char>, VmConfigView)>,
    FormatErrorView,
>
    decreases entries.len(),
{
    if entries.len() == 0 {
        Ok(Seq::empty())
    } else {
        match vms_of(entries.drop_last()) {
            Err(e) => Err(e),
            Ok(front) => {
                let (key, value) = entries.last();
                if is_vm_key(key) {
                    match vm_config_of(value) {
                        Ok(vm) => Ok(front.push((key, vm))),
                        Err(e) => Err(e),
                    }
                } else {
                    Ok(front)
                }
            },
        }
    }
}

/// The virtual machines of a document.
pub open spec fn vm_section_of(root: TomlData) -> Result<
    Seq<(Seq<char>, VmConfigView)>,
    FormatErrorView,
> {
    match root.as_table() {
        Some(entries) => vms_of(entries),
        None => Ok(Seq::empty()),
    }
}

/// The `env.memory` section.
pub open spec fn physical_memory_of(env: TomlData) -> Result<PhysicalMemoryConfig, FormatErrorView> {
    match env.get("memory"@) {
        None => Err(FormatErrorView::ParseError("env.memory section not found"@)),
        Some(m) => Ok(
            PhysicalMemoryConfig {
                base: u64_or(int_at(m, "base"@), 0x8000_0000),
                size: u64_or(int_at(m, "size"@), 0x4000_0000),
            },
        ),
    }
}

/// One entry of an `env.device` list.
pub open spec fn device_of(d: TomlData) -> DeviceConfigView {
    DeviceConfigView {
        device: text_or(str_at(d, "device"@), "unknown"@),
        base: u64_or(int_at(d, "base"@), 0),
        size: u64_or(int_at(d, "size"@), 0),
    }
}

/// The physical devices.
pub open spec fn devices_of(env: TomlData) -> Seq<DeviceConfigView> {
    match array_at(env, "device"@) {
        Some(list) => list.map_values(|d: TomlData| device_of(d)),
        None => Seq::empty(),
    }
}

/// The optional `env.qemu` section.
pub open spec fn qemu_config_of(env: TomlData) -> Option<QemuConfigView> {
    match env.get("qemu"@) {
        Some(q) => Some(
            QemuConfigView {
                kernel_path: str_at(q, "kernel_path"@),
                initrd_path: str_at(q, "initrd_path"@),
                dtb_path: str_at(q, "dtb_path"@),
                bios_path: str_at(q, "bios_path"@),
            },
        ),
        None => None,
    }
}

/// The `env` section.
pub open spec fn environment_of(root: TomlData) -> Result<EnvironmentConfigView, FormatErrorView> {
    match root.get("env"@) {
        None => Err(FormatErrorView::ParseError("env section not found"@)),
        Some(env) => {
            let n = u64_or(int_at(env, "num_of_cpus"@), 2);
            match physical_memory_of(env) {
                Err(e) => Err(e),
                Ok(memory) => Ok(
                    EnvironmentConfigView {
                        arch: text_or(str_at(env, "arch"@), "rv64"@),
                        hext: match bool_at(env, "hext"@) {
                            Some(b) => b,
                            None => false,
                        },
                        num_of_cpus: n,
                        cores: match array_at(env, "cores"@) {
                            Some(a) => integers_of(a),
                            None => count_up(n),
                        },
                        bsp: u64_or(int_at(env, "bsp"@), 0),
                        memory,
                        devices: devices_of(env),
                        qemu: qemu_config_of(env),
                    },
                ),
            }
        },
    }
}

/// The optional `kernel` section.
pub open spec fn kernel_config_of(root: TomlData) -> KernelConfigView {
    match root.get("kernel"@) {
        Some(k) => KernelConfigView {
            scheduler: str_at(k, "scheduler"@),
            dispatcher: str_at(k, "dispatcher"@),
            heap_size: opt_u64(int_at(k, "heap_size"@)),
            stack_size: opt_u64(int_at(k, "stack_size"@)),
        },
        None => KernelConfigView {
            scheduler: None,
            dispatcher: None,
            heap_size: None,
            stack_size: None,
        },
    }
}

/// The configuration a document describes. The virtual machines are read first,
/// then the environment, so an error in the former is the one reported.
pub open spec fn system_config_of(root: TomlData) -> Result<SystemConfigView, FormatErrorView> {
    match vm_section_of(root) {
        Err(e) => Err(e),
        Ok(vms) => match environment_of(root) {
            Err(e) => Err(e),
            Ok(environment) => Ok(
                SystemConfigView {
                    version_bits: match float_at(root, "version"@) {
                        Some(b) => b,
                        None => DEFAULT_VERSION_BITS,
                    },
                    name: text_or(str_at(root, "name"@), "Default Project"@),
                    test: bool_at(root, "test"@),
                    vms,
                    environment,
                    kernel: kernel_config_of(root),
                },
            ),
        },
    }
}

/// The configuration a text describes: an error where the text is no TOML document.
pub open spec fn toml_config(text: Seq<char>) -> Result<SystemConfigView, FormatErrorView> {
    match toml_document(text) {
        None => Err(FormatErrorView::ParseError("Failed to parse TOML"@)),
        Some(root) => system_config_of(root),
    }
}

/// The container that the single-container layout reads, or nothing where that
/// reading fails (a required integer is missing).
pub open spec fn container_of(id: u64, root: TomlData) -> Option<ContainerConfig> {
    let nested = match root.get("env"@) {
        Some(env) => match env.get("num_of_cpus"@) {
            Some(n) => Some((env, n)),
            None => None,
        },
        None => None,
    };
    match nested {
        Some((env, n)) => match (n.as_integer(), int_at(env, "bsp"@)) {
            (Some(cpus), Some(bsp)) => Some(
                ContainerConfig { id, num_of_cpus: cpus as u64, bsp: bsp as u64, cores: 3 },
            ),
            _ => None,
        },
        None => match int_at(root, "env.bsp"@) {
            Some(bsp) => Some(ContainerConfig { id, num_of_cpus: 0, bsp: bsp as u64, cores: 3 }),
            None => None,
        },
    }
}

// ---------------------------------------------------------------------------
// The reader
// ---------------------------------------------------------------------------

impl TraitFormat for Toml {
    open spec fn format_result(text: Seq<char>) -> Result<SystemConfigView, FormatErrorView> {
        toml_config(text)
    }

    fn parse(text: String) -> (r: Result<SystemConfig, FormatError>) {
        let (r, _report) = Toml::parse_with_report(text);
        r
    }
}

/// The report to show where a text is not a TOML document: the `toml` crate's
/// own account of the fault.
pub open spec fn toml_report(text: Seq<char>) -> Option<Seq<char>> {
    match toml_document(text) {
        None => Some(toml_error_text(text)),
        Some(_) => None,
    }
}

impl Toml {
    /// Reads the configuration that `text` describes, together with the report
    /// that is to be shown where the text is not a TOML document at all.
    pub fn parse_with_report(text: String) -> (r: (Result<SystemConfig, FormatError>, Option<String>))
        ensures
            super::config_result(r.0) == toml_config(text@),
            crate::value::opt_chars(r.1) == toml_report(text@),
    {
        match parse_toml_text(text.as_str()) {
            Ok(t) => (inner_parse(&t), None),
            Err(report) => (
                Err(FormatError::ParseError(String::from_str("Failed to parse TOML"))),
                Some(report),
            ),
        }
    }
}

/// Casts as Rust's `as` does.
fn to_u64(i: i64) -> (r: u64)
    ensures
        r == i as u64,
{
    i as u64
}

fn u64_or_exec(o: Option<i64>, default: u64) -> (r: u64)
    ensures
        r == u64_or(o, default),
{
    match o {
        Some(i) => to_u64(i),
        None => default,
    }
}

fn opt_u64_exec(o: Option<i64>) -> (r: Option<u64>)
    ensures
        r == opt_u64(o),
{
    match o {
        Some(i) => Some(to_u64(i)),
        None => None,
    }
}

fn text_or_exec(o: Option<String>, default: &str) -> (r: String)
    ensures
        r@ == text_or(crate::value::opt_chars(o), default@),
{
    match o {
        Some(s) => s,
        None => String::from_str(default),
    }
}

/// The integers of a list, in order, as `u64`.
pub fn integer_list(items: &Vec<TomlValue>) -> (r: Vec<u64>)
    ensures
        r@ == integers_of(items_data(items@)),
{
    proof {
        lemma_items_data(items@);
    }
    let ghost model = items_data(items@);
    let mut out: Vec<u64> = Vec::new();
    let mut i: usize = 0;
    while i < items.len()
        invariant
            0 <= i <= items@.len(),
            model == items_data(items@),
            model.len() == items@.len(),
            forall|j: int| 0 <= j < items@.len() ==> #[trigger] model[j] == items@[j]@,
            out@ == integers_of(model.take(i as int)),
        decreases items@.len() - i,
    {
        proof {
            assert(model.take(i + 1).drop_last() =~= model.take(i as int));
        }
        match items[i].as_integer() {
            Some(v) => out.push(to_u64(v)),
            None => {},
        }
        i = i + 1;
    }
    proof {
        assert(model.take(i as int) =~= model);
    }
    out
}

/// `0, 1, ..., n - 1`.
pub fn count_up_to(n: u64) -> (r: Vec<u64>)
    ensures
        r@ == count_up(n),
{
    let mut out: Vec<u64> = Vec::new();
    let mut i: u64 = 0;
    while i < n
        invariant
            i <= n,
            out@ =~= Seq::new(i as nat, |j: int| j as u64),
        decreases n - i,
    {
        out.push(i);
        i = i + 1;
    }
    out
}

/// Reads the `cpus` section of a machine: `num_cpus` (default 1) and
/// `pcpu_mapping` (default `0 .. num_cpus`); an error where the section is missing.
pub fn parse_cpu_config(vm_table: &TomlValue) -> (r: Result<CpuConfig, FormatError>)
    ensures
        match r {
            Ok(c) => cpu_config_of(vm_table@) == Ok::<CpuConfigView, FormatErrorView>(c@),
            Err(e) => cpu_config_of(vm_table@) == Err::<CpuConfigView, FormatErrorView>(e@),
        },
{
    let cpu_section = match vm_table.get("cpus") {
        Some(c) => c,
        None => {
            return Err(FormatError::ParseError(String::from_str("cpus section not found")));
        },
    };
    let num_cpus = u64_or_exec(cpu_section.int_at("num_cpus"), 1);
    let pcpu_mapping = match cpu_section.array_at("pcpu_mapping") {
        Some(a) => integer_list(a),
        None => count_up_to(num_cpus),
    };
    Ok(CpuConfig { num_cpus, pcpu_mapping })
}

/// Reads the `memory` list of a machine; each missing address or size is 0.
pub fn parse_memory_mappings(vm_table: &TomlValue) -> (r: Result<Vec<MemoryMapping>, FormatError>)
    ensures
        r matches Ok(m) && m@ == memory_mappings_of(vm_table@),
{
    let mut memory: Vec<MemoryMapping> = Vec::new();
    match vm_table.array_at("memory") {
        Some(mem_list) => {
            proof {
                lemma_items_data(mem_list@);
            }
            let ghost model = items_data(mem_list@);
            let mut i: usize = 0;
            while i < mem_list.len()
                invariant
                    0 <= i <= mem_list@.len(),
                    model == items_data(mem_list@),
                    model.len() == mem_list@.len(),
                    forall|j: int| 0 <= j < mem_list@.len() ==> #[trigger] model[j] == mem_list@[j]@,
                    memory@ =~= model.take(i as int).map_values(
                        |m: TomlData| memory_mapping_of(m),
                    ),
                decreases mem_list@.len() - i,
            {
                let mem_value = &mem_list[i];
                let guest_base = u64_or_exec(mem_value.int_at("guest_base"), 0);
                let host_base = u64_or_exec(mem_value.int_at("host_base"), 0);
                let size = u64_or_exec(mem_value.int_at("size"), 0);
                memory.push(MemoryMapping { guest_base, host_base, size });
                i = i + 1;
            }
            proof {
                assert(model.take(i as int) =~= model);
            }
        },
        None => {},
    }
    Ok(memory)
}

/// Reads the `vdev` list of a machine; a missing device name is `unknown`, a
/// missing address or size 0, and `config` is kept as written.
pub fn parse_vdev(vm_table: &TomlValue) -> (r: Result<Vec<VDevConfig>, FormatError>)
    ensures
        r matches Ok(v) && v@.map_values(|d: VDevConfig| d@) == vdevs_of(vm_table@),
{
    let mut vdev: Vec<VDevConfig> = Vec::new();
    match vm_table.array_at("vdev") {
        Some(vdev_list) => {
            proof {
                lemma_items_data(vdev_list@);
            }
            let ghost model = items_data(vdev_list@);
            let mut i: usize = 0;
            while i < vdev_list.len()
                invariant
                    0 <= i <= vdev_list@.len(),
                    model == items_data(vdev_list@),
                    model.len() == vdev_list@.len(),
                    forall|j: int|
                        0 <= j < vdev_list@.len() ==> #[trigger] model[j] == vdev_list@[j]@,
                    vdev@.map_values(|d: VDevConfig| d@) =~= model.take(i as int).map_values(
                        |v: TomlData| vdev_of(v),
                    ),
                decreases vdev_list@.len() - i,
            {
                let vdev_value = &vdev_list[i];
                let device = text_or_exec(vdev_value.str_at("device"), "unknown");
                let guest_base = u64_or_exec(vdev_value.int_at("guest_base"), 0);
                let size = u64_or_exec(vdev_value.int_at("size"), 0);
                let config = match vdev_value.get("config") {
                    Some(c) => Some(c.duplicate()),
                    None => None,
                };
                let ghost before = vdev@;
                vdev.push(VDevConfig { device, guest_base, size, config });
                proof {
                    assert(vdev@.map_values(|d: VDevConfig| d@) =~= before.map_values(
                        |d: VDevConfig| d@,
                    ).push(vdev@[i as int]@));
                    assert(model.take(i + 1).map_values(|v: TomlData| vdev_of(v)) =~= model.take(
                        i as int,
                    ).map_values(|v: TomlData| vdev_of(v)).push(vdev_of(model[i as int])));
                }
                i = i + 1;
            }
            proof {
                assert(model.take(i as int) =~= model);
            }
        },
        None => {},
    }
    Ok(vdev)
}

/// Reads a `vm_*` section: `os` (default `unknown`), `os_version`, the CPUs, the
/// memory mappings and the virtual devices.
pub fn parse_vm_config(vm_table: &TomlValue) -> (r: Result<VmConfig, FormatError>)
    ensures
        match r {
            Ok(c) => vm_config_of(vm_table@) == Ok::<VmConfigView, FormatErrorView>(c@),
            Err(e) => vm_config_of(vm_table@) == Err::<VmConfigView, FormatErrorView>(e@),
        },
{
    let os = text_or_exec(vm_table.str_at("os"), "unknown");
    let os_version = vm_table.str_at("os_version");
    let cpus = match parse_cpu_config(vm_table) {
        Ok(c) => c,
        Err(e) => {
            return Err(e);
        },
    };
    let memory = match parse_memory_mappings(vm_table) {
        Ok(m) => m,
        Err(e) => {
            return Err(e);
        },
    };
    let vdev = match parse_vdev(vm_table) {
        Ok(v) => v,
        Err(e) => {
            return Err(e);
        },
    };
    Ok(VmConfig { os, os_version, cpus, memory, vdev })
}

/// Whether a key names a virtual machine section.
pub fn is_vm_section(key: &String) -> (r: bool)
    ensures
        r == is_vm_key(key@),
{
    let k = key.as_str();
    if k.unicode_len() < 3 {
        return false;
    }
    k.get_char(0) == 'v' && k.get_char(1) == 'm' && k.get_char(2) == '_'
}

/// Reads every top-level section whose name begins with `vm_`, in the order in
/// which the table lists them.
pub fn parse_vms(table: &TomlValue) -> (r: Result<Vec<(String, VmConfig)>, FormatError>)
    ensures
        match r {
            Ok(vms) => vm_section_of(table@) == Ok::<Seq<(Seq<char>, VmConfigView)>, FormatErrorView>(
                vms@.map_values(|e: (String, VmConfig)| (e.0@, e.1@)),
            ),
            Err(e) => vm_section_of(table@) == Err::<Seq<(Seq<char>, VmConfigView)>, FormatErrorView>(e@),
        },
{
    let mut vms: Vec<(String, VmConfig)> = Vec::new();
    match table.as_table() {
        Some(entries) => {
            proof {
                lemma_entries_data(entries@);
            }
            let ghost model = entries_data(entries@);
            let mut i: usize = 0;
            proof {
                assert(model.take(0) =~= Seq::<(Seq<char>, TomlData)>::empty());
                assert(vms@.map_values(|e: (String, VmConfig)| (e.0@, e.1@)) =~= Seq::<
                    (Seq<char>, VmConfigView),
                >::empty());
            }
            while i < entries.len()
                invariant
                    0 <= i <= entries@.len(),
                    model == entries_data(entries@),
                    table@.as_table() == Some(model),
                    model.len() == entries@.len(),
                    forall|j: int|
                        0 <= j < entries@.len() ==> #[trigger] model[j] == (
                            entries@[j].0@,
                            entries@[j].1@,
                        ),
                    vms_of(model.take(i as int)) == Ok::<Seq<(Seq<char>, VmConfigView)>, FormatErrorView>(
                        vms@.map_values(|e: (String, VmConfig)| (e.0@, e.1@)),
                    ),
                decreases entries@.len() - i,
            {
                proof {
                    assert(model.take(i + 1).drop_last() =~= model.take(i as int));
                }
                let key = &entries[i].0;
                let value = &entries[i].1;
                if is_vm_section(key) {
                    match parse_vm_config(value) {
                        Ok(vm_config) => {
                            let ghost before = vms@;
                            vms.push((key.clone(), vm_config));
                            proof {
                                assert(vms@.drop_last() == before);
                                assert(vms@.map_values(|e: (String, VmConfig)| (e.0@, e.1@))
                                    =~= before.map_values(|e: (String, VmConfig)| (e.0@, e.1@)).push(
                                    (key@, vm_config@),
                                ));
                            }
                        },
                        Err(e) => {
                            proof {
                                assert(model.take(i + 1).last() == model[i as int]);
                                lemma_vms_error_stays(model, i as int + 1);
                            }
                            return Err(e);
                        },
                    }
                }
                i = i + 1;
            }
            proof {
                assert(model.take(i as int) =~= model);
            }
        },
        None => {
            proof {
                assert(vms@.map_values(|e: (String, VmConfig)| (e.0@, e.1@)) =~= Seq::<
                    (Seq<char>, VmConfigView),
                >::empty());
            }
        },
    }
    Ok(vms)
}

/// Once the leading entries hold a faulty virtual machine, every longer prefix
/// reports that same error.
proof fn lemma_vms_error_stays(entries: Seq<(Seq<char>, TomlData)>, k: int)
    requires
        0 <= k <= entries.len(),
        vms_of(entries.take(k)) is Err,
    ensures
        vms_of(entries) == vms_of(entries.take(k)),
    decreases entries.len() - k,
{
    if k < entries.len() {
        assert(entries.take(k + 1).drop_last() =~= entries.take(k));
        lemma_vms_error_stays(entries, k + 1);
    } else {
        assert(entries.take(k) =~= entries);
    }
}

/// Reads `env.memory`: `base` (default 0x8000_0000) and `size` (default
/// 0x4000_0000); an error where the section is missing.
pub fn parse_physical_memory(env: &TomlValue) -> (r: Result<PhysicalMemoryConfig, FormatError>)
    ensures
        match r {
            Ok(m) => physical_memory_of(env@) == Ok::<PhysicalMemoryConfig, FormatErrorView>(m),
            Err(e) => physical_memory_of(env@) == Err::<PhysicalMemoryConfig, FormatErrorView>(e@),
        },
{
    let memory_section = match env.get("memory") {
        Some(m) => m,
        None => {
            return Err(
                FormatError::ParseError(String::from_str("env.memory section not found")),
            );
        },
    };
    let base = u64_or_exec(memory_section.int_at("base"), 0x8000_0000);
    let size = u64_or_exec(memory_section.int_at("size"), 0x4000_0000);
    Ok(PhysicalMemoryConfig { base, size })
}

/// Reads the `env.device` list; a missing device name is `unknown`, a missing
/// address or size 0.
pub fn parse_devices(env: &TomlValue) -> (r: Result<Vec<DeviceConfig>, FormatError>)
    ensures
        r matches Ok(d) && d@.map_values(|x: DeviceConfig| x@) == devices_of(env@),
{
    let mut devices: Vec<DeviceConfig> = Vec::new();
    match env.array_at("device") {
        Some(device_list) => {
            proof {
                lemma_items_data(device_list@);
            }
            let ghost model = items_data(device_list@);
            let mut i: usize = 0;
            while i < device_list.len()
                invariant
                    0 <= i <= device_list@.len(),
                    model == items_data(device_list@),
                    model.len() == device_list@.len(),
                    forall|j: int|
                        0 <= j < device_list@.len() ==> #[trigger] model[j] == device_list@[j]@,
                    devices@.map_values(|x: DeviceConfig| x@) =~= model.take(i as int).map_values(
                        |d: TomlData| device_of(d),
                    ),
                decreases device_list@.len() - i,
            {
                let device_value = &device_list[i];
                let device = text_or_exec(device_value.str_at("device"), "unknown");
                let base = u64_or_exec(device_value.int_at("base"), 0);
                let size = u64_or_exec(device_value.int_at("size"), 0);
                let ghost before = devices@;
                devices.push(DeviceConfig { device, base, size });
                proof {
                    assert(devices@.map_values(|x: DeviceConfig| x@) =~= before.map_values(
                        |x: DeviceConfig| x@,
                    ).push(devices@[i as int]@));
                    assert(model.take(i + 1).map_values(|d: TomlData| device_of(d)) =~= model.take(
                        i as int,
                    ).map_values(|d: TomlData| device_of(d)).push(device_of(model[i as int])));
                }
                i = i + 1;
            }
            proof {
                assert(model.take(i as int) =~= model);
            }
        },
        None => {},
    }
    Ok(devices)
}

/// Reads the optional `env.qemu` section.
pub fn parse_qemu_config(env: &TomlValue) -> (r: Option<QemuConfig>)
    ensures
        crate::param::opt_qemu(r) == qemu_config_of(env@),
{
    match env.get("qemu") {
        Some(qemu_section) => Some(
            QemuConfig {
                kernel_path: qemu_section.str_at("kernel_path"),
                initrd_path: qemu_section.str_at("initrd_path"),
                dtb_path: qemu_section.str_at("dtb_path"),
                bios_path: qemu_section.str_at("bios_path"),
            },
        ),
        None => None,
    }
}

/// Reads the `env` section: `arch` (default `rv64`), `hext` (default false),
/// `num_of_cpus` (default 2), `cores` (default `0 .. num_of_cpus`), `bsp` (default
/// 0), the memory, the devices and QEMU's images; an error where `env` or
/// `env.memory` is missing.
pub fn parse_environment(table: &TomlValue) -> (r: Result<EnvironmentConfig, FormatError>)
    ensures
        match r {
            Ok(c) => environment_of(table@) == Ok::<EnvironmentConfigView, FormatErrorView>(c@),
            Err(e) => environment_of(table@) == Err::<EnvironmentConfigView, FormatErrorView>(e@),
        },
{
    let env = match table.get("env") {
        Some(e) => e,
        None => {
            return Err(FormatError::ParseError(String::from_str("env section not found")));
        },
    };
    let arch = text_or_exec(env.str_at("arch"), "rv64");
    let hext = match env.bool_at("hext") {
        Some(b) => b,
        None => false,
    };
    let num_of_cpus = u64_or_exec(env.int_at("num_of_cpus"), 2);
    let cores = match env.array_at("cores") {
        Some(a) => integer_list(a),
        None => count_up_to(num_of_cpus),
    };
    let bsp = u64_or_exec(env.int_at("bsp"), 0);
    let memory = match parse_physical_memory(env) {
        Ok(m) => m,
        Err(e) => {
            return Err(e);
        },
    };
    let devices = match parse_devices(env) {
        Ok(d) => d,
        Err(e) => {
            return Err(e);
        },
    };
    let qemu = parse_qemu_config(env);
    Ok(EnvironmentConfig { arch, hext, num_of_cpus, cores, bsp, memory, devices, qemu })
}

/// Reads the optional `kernel` section.
pub fn parse_kernel(table: &TomlValue) -> (r: Result<KernelConfig, FormatError>)
    ensures
        r matches Ok(k) && k@ == kernel_config_of(table@),
{
    match table.get("kernel") {
        Some(k) => Ok(
            KernelConfig {
                scheduler: k.str_at("scheduler"),
                dispatcher: k.str_at("dispatcher"),
                heap_size: opt_u64_exec(k.int_at("heap_size")),
                stack_size: opt_u64_exec(k.int_at("stack_size")),
            },
        ),
        None => Ok(
            KernelConfig { scheduler: None, dispatcher: None, heap_size: None, stack_size: None },
        ),
    }
}

/// Builds the configuration from a parsed document: `version` (default 0.6),
/// `name` (default `Default Project`), `test`, the machines, the environment and
/// the kernel.
pub fn inner_parse(table: &TomlValue) -> (r: Result<SystemConfig, FormatError>)
    ensures
        super::config_result(r) == system_config_of(table@),
{
    let version_bits = match table.float_at("version") {
        Some(b) => b,
        None => DEFAULT_VERSION_BITS,
    };
    let name = text_or_exec(table.str_at("name"), "Default Project");
    let test = table.bool_at("test");
    let vms = match parse_vms(table) {
        Ok(v) => v,
        Err(e) => {
            return Err(e);
        },
    };
    let environment = match parse_environment(table) {
        Ok(e) => e,
        Err(e) => {
            return Err(e);
        },
    };
    let kernel = match parse_kernel(table) {
        Ok(k) => k,
        Err(e) => {
            return Err(e);
        },
    };
    Ok(SystemConfig { version_bits, name, test, vms, environment, kernel })
}

/// Reads the container numbered `id` in the single-container layout: with an
/// `env.num_of_cpus` entry, the CPU count and `env.bsp` come from the `env`
/// table; without it, the CPU count is 0 and the boot CPU comes from a top-level
/// key literally named `env.bsp`. The core count is 3 either way.
pub fn parse_container(id: u64, container: &TomlValue) -> (r: ContainerConfig)
    requires
        container_of(id, container@) is Some,
    ensures
        Some(r) == container_of(id, container@),
{
    match container.get("env") {
        Some(env) => match env.get("num_of_cpus") {
            Some(num_of_cpus) => {
                let bsp = env.int_at("bsp");
                let cpus = num_of_cpus.as_integer();
                match (cpus, bsp) {
                    (Some(c), Some(b)) => {
                        return ContainerConfig {
                            id,
                            num_of_cpus: to_u64(c),
                            bsp: to_u64(b),
                            cores: 3,
                        };
                    },
                    _ => {
                        proof {
                            assert(false);
                        }
                    },
                }
            },
            None => {},
        },
        None => {},
    }
    match container.int_at("env.bsp") {
        Some(b) => ContainerConfig { id, num_of_cpus: 0, bsp: to_u64(b), cores: 3 },
        None => {
            proof {
                assert(false);
            }
            ContainerConfig { id, num_of_cpus: 0, bsp: 0, cores: 3 }
        },
    }
}

// ---------------------------------------------------------------------------
// Laws
// ---------------------------------------------------------------------------

/// The keys of a document's top-level entries, in order.
pub open spec fn top_level_keys(root: TomlData) -> Seq<Seq<char>> {
    match root.as_table() {
        Some(entries) => entries.map_values(|e: (Seq<char>, TomlData)| e.0),
        None => Seq::empty(),
    }
}

/// Whether every `vm_*` section of a document has a `cpus` section.
pub open spec fn vm_sections_have_cpus(root: TomlData) -> bool {
    match root.as_table() {
        Some(entries) => forall|i: int|
            0 <= i < entries.len() && is_vm_key(#[trigger] entries[i].0) ==> entries[i].1.get(
                "cpus"@,
            ) is Some,
        None => true,
    }
}

/// Whether a document has an `env` section with a `memory` section.
pub open spec fn has_env_memory(root: TomlData) -> bool {
    match root.get("env"@) {
        Some(env) => env.get("memory"@) is Some,
        None => false,
    }
}

proof fn lemma_vms_of(entries: Seq<(Seq<char>, TomlData)>)
    ensures
        vms_of(entries) is Ok <==> forall|i: int|
            0 <= i < entries.len() && is_vm_key(#[trigger] entries[i].0) ==> entries[i].1.get(
                "cpus"@,
            ) is Some,
        vms_of(entries) matches Ok(vms) ==> vms.map_values(
            |v: (Seq<char>, VmConfigView)| v.0,
        ) == entries.map_values(|e: (Seq<char>, TomlData)| e.0).filter(
            |k: Seq<char>| is_vm_key(k),
        ),
    decreases entries.len(),
{
    let keys = entries.map_values(|e: (Seq<char>, TomlData)| e.0);
    let pred = |k: Seq<char>| is_vm_key(k);
    reveal(Seq::filter);
    if entries.len() == 0 {
        assert(keys =~= Seq::<Seq<char>>::empty());
        assert(vms_of(entries) == Ok::<Seq<(Seq<char>, VmConfigView)>, FormatErrorView>(
            Seq::empty(),
        ));
        assert(Seq::<(Seq<char>, VmConfigView)>::empty().map_values(
            |v: (Seq<char>, VmConfigView)| v.0,
        ) =~= Seq::<Seq<char>>::empty());
    } else {
        let front = entries.drop_last();
        lemma_vms_of(front);
        let front_keys = front.map_values(|e: (Seq<char>, TomlData)| e.0);
        assert(keys.drop_last() =~= front_keys);
        assert(keys.last() == entries.last().0);
        if vms_of(front) is Ok {
            if vms_of(entries) is Ok {
                assert forall|i: int|
                    0 <= i < entries.len() && is_vm_key(#[trigger] entries[i].0) implies entries[i].1.get(
                    "cpus"@,
                ) is Some by {
                    if i < entries.len() - 1 {
                        assert(front[i] == entries[i]);
                    }
                }
                let fv = vms_of(front)->Ok_0;
                let vms = vms_of(entries)->Ok_0;
                if is_vm_key(entries.last().0) {
                    assert(vms.drop_last() =~= fv);
                    assert(vms.map_values(|v: (Seq<char>, VmConfigView)| v.0) =~= fv.map_values(
                        |v: (Seq<char>, VmConfigView)| v.0,
                    ).push(entries.last().0));
                } else {
                    assert(vms == fv);
                }
            } else {
                assert(is_vm_key(entries[entries.len() - 1].0));
            }
        } else {
            let k = choose|i: int|
                !(0 <= i < front.len() && is_vm_key(#[trigger] front[i].0) ==> front[i].1.get(
                    "cpus"@,
                ) is Some);
            assert(entries[k] == front[k]);
        }
    }
}

/// The virtual machines that a document yields are its top-level sections whose
/// names begin with `vm_`, all of them, in the order in which the parsed table
/// lists its entries.
pub proof fn law_vms_are_vm_sections(root: TomlData)
    ensures
        vm_section_of(root) matches Ok(vms) ==> vms.map_values(
            |v: (Seq<char>, VmConfigView)| v.0,
        ) == top_level_keys(root).filter(|k: Seq<char>| is_vm_key(k)),
{
    match root.as_table() {
        Some(entries) => lemma_vms_of(entries),
        None => {
            reveal(Seq::filter);
            assert(Seq::<(Seq<char>, VmConfigView)>::empty().map_values(
                |v: (Seq<char>, VmConfigView)| v.0,
            ) =~= Seq::<Seq<char>>::empty());
        },
    }
}

/// A document yields a configuration exactly when every `vm_*` section has a
/// `cpus` section and there is an `env` section with a `memory` section; every
/// other key is optional.
pub proof fn law_config_accepted(root: TomlData)
    ensures
        system_config_of(root) is Ok <==> vm_sections_have_cpus(root) && has_env_memory(root),
{
    match root.as_table() {
        Some(entries) => lemma_vms_of(entries),
        None => {},
    }
}

/// A text yields a configuration exactly when it is a TOML document that does.
pub proof fn law_text_accepted(text: Seq<char>)
    ensures
        toml_config(text) is Ok <==> match toml_document(text) {
            Some(root) => vm_sections_have_cpus(root) && has_env_memory(root),
            None => false,
        },
{
    match toml_document(text) {
        Some(root) => law_config_accepted(root),
        None => {},
    }
}

/// Where a machine gives no `pcpu_mapping`, vCPU `i` runs on physical CPU `i`,
/// for each of its `num_cpus` vCPUs; likewise the environment's cores default to
/// `0 .. num_of_cpus`.
pub proof fn law_default_mappings(vm: TomlData, root: TomlData)
    ensures
        cpu_config_of(vm) matches Ok(c) ==> (array_at(vm.get("cpus"@)->0, "pcpu_mapping"@) is None
            ==> c.pcpu_mapping.len() == c.num_cpus && forall|i: int|
            0 <= i < c.num_cpus ==> #[trigger] c.pcpu_mapping[i] == i),
        environment_of(root) matches Ok(e) ==> (array_at(root.get("env"@)->0, "cores"@) is None
            ==> e.cores.len() == e.num_of_cpus && forall|i: int|
            0 <= i < e.num_of_cpus ==> #[trigger] e.cores[i] == i),
{
}

/// The top-level settings of an accepted document are the values written under
/// `version`, `name` and `test`; where `version` or `name` holds no value of its
/// type, 0.6 and `Default Project` stand in, and `test` is then absent.
pub proof fn law_top_level_fields(root: TomlData)
    requires
        system_config_of(root) is Ok,
    ensures
        ({
            let c = system_config_of(root)->Ok_0;
            &&& (root.get("version"@) matches Some(TomlData::Float(v)) ==> c.version_bits == v)
            &&& (!(root.get("version"@) matches Some(TomlData::Float(_))) ==> c.version_bits
                == DEFAULT_VERSION_BITS)
            &&& (root.get("name"@) matches Some(TomlData::Str(n)) ==> c.name == n)
            &&& (!(root.get("name"@) matches Some(TomlData::Str(_))) ==> c.name
                == "Default Project"@)
            &&& (root.get("test"@) matches Some(TomlData::Bool(t)) ==> c.test == Some(t))
            &&& (!(root.get("test"@) matches Some(TomlData::Bool(_))) ==> c.test is None)
        }),
{
}

/// The environment of an accepted document is what its `env` table says: each
/// value written under `arch`, `hext`, `num_of_cpus`, `bsp`, and under `base` and
/// `size` of the `env.memory` table, is the one read (an integer as a `u64`);
/// where a key holds no value of its type the documented default stands in:
/// `rv64`, false, 2, 0, 0x8000_0000 and 0x4000_0000.
pub proof fn law_environment_fields(root: TomlData)
    requires
        system_config_of(root) is Ok,
    ensures
        ({
            let e = system_config_of(root)->Ok_0.environment;
            let env = root.get("env"@)->Some_0;
            let mem = env.get("memory"@)->Some_0;
            &&& root.get("env"@) is Some && env.get("memory"@) is Some
            &&& (mem.get("base"@) matches Some(TomlData::Int(b)) ==> e.memory.base == b as u64)
            &&& (!(mem.get("base"@) matches Some(TomlData::Int(_))) ==> e.memory.base
                == 0x8000_0000)
            &&& (mem.get("size"@) matches Some(TomlData::Int(z)) ==> e.memory.size == z as u64)
            &&& (!(mem.get("size"@) matches Some(TomlData::Int(_))) ==> e.memory.size
                == 0x4000_0000)
            &&& (env.get("hext"@) matches Some(TomlData::Bool(h)) ==> e.hext == h)
            &&& (!(env.get("hext"@) matches Some(TomlData::Bool(_))) ==> !e.hext)
            &&& (env.get("arch"@) matches Some(TomlData::Str(a)) ==> e.arch == a)
            &&& (!(env.get("arch"@) matches Some(TomlData::Str(_))) ==> e.arch == "rv64"@)
            &&& (env.get("num_of_cpus"@) matches Some(TomlData::Int(n)) ==> e.num_of_cpus
                == n as u64)
            &&& (!(env.get("num_of_cpus"@) matches Some(TomlData::Int(_))) ==> e.num_of_cpus
                == 2)
            &&& (env.get("bsp"@) matches Some(TomlData::Int(b)) ==> e.bsp == b as u64)
            &&& (!(env.get("bsp"@) matches Some(TomlData::Int(_))) ==> e.bsp == 0)
        }),
{
}

/// The kernel settings are the strings written under `scheduler` and
/// `dispatcher` and the integers (as `u64`) under `heap_size` and `stack_size` of
/// the `kernel` table; each is absent where the key holds no value of its type,
/// or where there is no `kernel` table.
pub proof fn law_kernel_fields(root: TomlData)
    requires
        system_config_of(root) is Ok,
    ensures
        ({
            let k = system_config_of(root)->Ok_0.kernel;
            let section = root.get("kernel"@);
            &&& (section matches Some(t) ==> {
                &&& (t.get("scheduler"@) matches Some(TomlData::Str(x)) ==> k.scheduler == Some(x))
                &&& (!(t.get("scheduler"@) matches Some(TomlData::Str(_))) ==> k.scheduler is None)
                &&& (t.get("dispatcher"@) matches Some(TomlData::Str(x)) ==> k.dispatcher == Some(
                    x,
                ))
                &&& (!(t.get("dispatcher"@) matches Some(TomlData::Str(_))) ==> k.dispatcher
                    is None)
                &&& (t.get("heap_size"@) matches Some(TomlData::Int(x)) ==> k.heap_size == Some(
                    x as u64,
                ))
                &&& (!(t.get("heap_size"@) matches Some(TomlData::Int(_))) ==> k.heap_size
                    is None)
                &&& (t.get("stack_size"@) matches Some(TomlData::Int(x)) ==> k.stack_size == Some(
                    x as u64,
                ))
                &&& (!(t.get("stack_size"@) matches Some(TomlData::Int(_))) ==> k.stack_size
                    is None)
            })
            &&& (section is None ==> k.scheduler is None && k.dispatcher is None && k.heap_size
                is None && k.stack_size is None)
        }),
{
}

/// A machine section is read as written: `os` and `os_version`, `num_cpus` of
/// its `cpus` table, and each entry of its `memory` and `vdev` lists in order,
/// with the documented defaults where a key holds no value of its type
/// (`unknown`, 1 CPU, addresses and sizes 0); a list of integers under
/// `pcpu_mapping` is the mapping, item for item.
pub proof fn law_vm_fields(v: TomlData)
    requires
        vm_config_of(v) is Ok,
    ensures
        ({
            let c = vm_config_of(v)->Ok_0;
            let cpus = v.get("cpus"@)->Some_0;
            &&& v.get("cpus"@) is Some
            &&& (v.get("os"@) matches Some(TomlData::Str(o)) ==> c.os == o)
            &&& (!(v.get("os"@) matches Some(TomlData::Str(_))) ==> c.os == "unknown"@)
            &&& (v.get("os_version"@) matches Some(TomlData::Str(o)) ==> c.os_version == Some(o))
            &&& (!(v.get("os_version"@) matches Some(TomlData::Str(_))) ==> c.os_version is None)
            &&& (cpus.get("num_cpus"@) matches Some(TomlData::Int(n)) ==> c.cpus.num_cpus
                == n as u64)
            &&& (!(cpus.get("num_cpus"@) matches Some(TomlData::Int(_))) ==> c.cpus.num_cpus == 1)
            &&& (cpus.get("pcpu_mapping"@) matches Some(TomlData::Array(a)) ==> ((forall|i: int|
                0 <= i < a.len() ==> #[trigger] a[i] is Int) ==> c.cpus.pcpu_mapping.len() == a.len()
                && forall|i: int|
                0 <= i < a.len() ==> #[trigger] c.cpus.pcpu_mapping[i] == a[i]->Int_0 as u64))
            &&& (v.get("memory"@) matches Some(TomlData::Array(l)) ==> {
                &&& c.memory.len() == l.len()
                &&& forall|i: int|
                    0 <= i < l.len() ==> {
                        &&& (l[i].get("guest_base"@) matches Some(TomlData::Int(x))
                            ==> #[trigger] c.memory[i].guest_base == x as u64)
                        &&& (!(l[i].get("guest_base"@) matches Some(TomlData::Int(_)))
                            ==> c.memory[i].guest_base == 0)
                        &&& (l[i].get("host_base"@) matches Some(TomlData::Int(x))
                            ==> c.memory[i].host_base == x as u64)
                        &&& (!(l[i].get("host_base"@) matches Some(TomlData::Int(_)))
                            ==> c.memory[i].host_base == 0)
                        &&& (l[i].get("size"@) matches Some(TomlData::Int(x)) ==> c.memory[i].size
                            == x as u64)
                        &&& (!(l[i].get("size"@) matches Some(TomlData::Int(_)))
                            ==> c.memory[i].size == 0)
                    }
            })
            &&& (!(v.get("memory"@) matches Some(TomlData::Array(_))) ==> c.memory.len() == 0)
            &&& (v.get("vdev"@) matches Some(TomlData::Array(l)) ==> {
                &&& c.vdev.len() == l.len()
                &&& forall|i: int|
                    0 <= i < l.len() ==> {
                        &&& (l[i].get("device"@) matches Some(TomlData::Str(x))
                            ==> #[trigger] c.vdev[i].device == x)
                        &&& (!(l[i].get("device"@) matches Some(TomlData::Str(_)))
                            ==> c.vdev[i].device == "unknown"@)
                        &&& (l[i].get("guest_base"@) matches Some(TomlData::Int(x))
                            ==> c.vdev[i].guest_base == x as u64)
                        &&& (!(l[i].get("guest_base"@) matches Some(TomlData::Int(_)))
                            ==> c.vdev[i].guest_base == 0)
                        &&& (l[i].get("size"@) matches Some(TomlData::Int(x)) ==> c.vdev[i].size
                            == x as u64)
                        &&& (!(l[i].get("size"@) matches Some(TomlData::Int(_)))
                            ==> c.vdev[i].size == 0)
                        &&& c.vdev[i].config == l[i].get("config"@)
                    }
            })
            &&& (!(v.get("vdev"@) matches Some(TomlData::Array(_))) ==> c.vdev.len() == 0)
        }),
{
    let c = vm_config_of(v)->Ok_0;
    let cpus = v.get("cpus"@)->Some_0;
    match cpus.get("pcpu_mapping"@) {
        Some(TomlData::Array(a)) => {
            if forall|i: int| 0 <= i < a.len() ==> #[trigger] a[i] is Int {
                lemma_integers_of_all(a);
            }
        },
        _ => {},
    }
}

/// Where every item of a list is an integer, its integers are the items, in order.
proof fn lemma_integers_of_all(a: Seq<TomlData>)
    requires
        forall|i: int| 0 <= i < a.len() ==> #[trigger] a[i] is Int,
    ensures
        integers_of(a).len() == a.len(),
        forall|i: int| 0 <= i < a.len() ==> #[trigger] integers_of(a)[i] == a[i]->Int_0 as u64,
    decreases a.len(),
{
    if a.len() > 0 {
        let f = a.drop_last();
        assert forall|i: int| 0 <= i < f.len() implies #[trigger] f[i] is Int by {
            assert(f[i] == a[i]);
        }
        lemma_integers_of_all(f);
        assert(a.last() is Int);
        assert forall|i: int| 0 <= i < a.len() implies #[trigger] integers_of(a)[i] == a[i]->Int_0
            as u64 by {
            if i < a.len() - 1 {
                assert(f[i] == a[i]);
            }
        }
    }
}

/// The lists of the environment are read item for item: each `env.device` entry
/// in order (name `unknown`, base and size 0 where they hold no value of their
/// type), a list of integers under `cores`, and the images named in `env.qemu`.
pub proof fn law_environment_lists(root: TomlData)
    requires
        system_config_of(root) is Ok,
    ensures
        ({
            let e = system_config_of(root)->Ok_0.environment;
            let env = root.get("env"@)->Some_0;
            &&& (env.get("device"@) matches Some(TomlData::Array(l)) ==> {
                &&& e.devices.len() == l.len()
                &&& forall|i: int|
                    0 <= i < l.len() ==> {
                        &&& (l[i].get("device"@) matches Some(TomlData::Str(x))
                            ==> #[trigger] e.devices[i].device == x)
                        &&& (!(l[i].get("device"@) matches Some(TomlData::Str(_)))
                            ==> e.devices[i].device == "unknown"@)
                        &&& (l[i].get("base"@) matches Some(TomlData::Int(x)) ==> e.devices[i].base
                            == x as u64)
                        &&& (!(l[i].get("base"@) matches Some(TomlData::Int(_)))
                            ==> e.devices[i].base == 0)
                        &&& (l[i].get("size"@) matches Some(TomlData::Int(x)) ==> e.devices[i].size
                            == x as u64)
                        &&& (!(l[i].get("size"@) matches Some(TomlData::Int(_)))
                            ==> e.devices[i].size == 0)
                    }
            })
            &&& (!(env.get("device"@) matches Some(TomlData::Array(_))) ==> e.devices.len() == 0)
            &&& (env.get("cores"@) matches Some(TomlData::Array(a)) ==> ((forall|i: int|
                0 <= i < a.len() ==> #[trigger] a[i] is Int) ==> e.cores.len() == a.len()
                && forall|i: int| 0 <= i < a.len() ==> #[trigger] e.cores[i] == a[i]->Int_0 as u64))
            &&& (env.get("qemu"@) matches Some(q) ==> e.qemu matches Some(eq) && {
                &&& eq.kernel_path == str_at(q, "kernel_path"@)
                &&& eq.initrd_path == str_at(q, "initrd_path"@)
                &&& eq.dtb_path == str_at(q, "dtb_path"@)
                &&& eq.bios_path == str_at(q, "bios_path"@)
            })
            &&& (env.get("qemu"@) is None ==> e.qemu is None)
        }),
{
    let env = root.get("env"@)->Some_0;
    match env.get("cores"@) {
        Some(TomlData::Array(a)) => {
            if forall|i: int| 0 <= i < a.len() ==> #[trigger] a[i] is Int {
                lemma_integers_of_all(a);
            }
        },
        _ => {},
    }
}

proof fn lemma_vms_from_entries(entries: Seq<(Seq<char>, TomlData)>)
    requires
        vms_of(entries) is Ok,
    ensures
        forall|i: int|
            0 <= i < vms_of(entries)->Ok_0.len() ==> exists|j: int|
                0 <= j < entries.len() && #[trigger] entries[j].0 == (
                #[trigger] vms_of(entries)->Ok_0[i]).0 && vm_config_of(entries[j].1) == Ok::<
                    VmConfigView,
                    FormatErrorView,
                >(vms_of(entries)->Ok_0[i].1),
    decreases entries.len(),
{
    if entries.len() > 0 {
        let f = entries.drop_last();
        lemma_vms_from_entries(f);
        let vms = vms_of(entries)->Ok_0;
        let fv = vms_of(f)->Ok_0;
        assert forall|i: int| 0 <= i < vms.len() implies exists|j: int|
            0 <= j < entries.len() && #[trigger] entries[j].0 == (#[trigger] vms[i]).0
                && vm_config_of(entries[j].1) == Ok::<VmConfigView, FormatErrorView>(vms[i].1) by {
            if i < fv.len() {
                assert(vms[i] == fv[i]);
                let j = choose|j: int|
                    0 <= j < f.len() && #[trigger] f[j].0 == (#[trigger] fv[i]).0 && vm_config_of(
                        f[j].1,
                    ) == Ok::<VmConfigView, FormatErrorView>(fv[i].1);
                assert(entries[j] == f[j]);
            } else {
                let j = entries.len() - 1;
                assert(entries[j] == entries.last());
            }
        }
    }
}

/// Each virtual machine of an accepted document is the reading of a top-level
/// section of the same name.
pub proof fn law_vms_read_from_sections(root: TomlData)
    requires
        system_config_of(root) is Ok,
        root is Table,
    ensures
        ({
            let vms = system_config_of(root)->Ok_0.vms;
            let entries = root->Table_0;
            forall|i: int|
                0 <= i < vms.len() ==> exists|j: int|
                    0 <= j < entries.len() && #[trigger] entries[j].0 == (#[trigger] vms[i]).0
                        && vm_config_of(entries[j].1) == Ok::<VmConfigView, FormatErrorView>(
                        vms[i].1,
                    )
        }),
{
    lemma_vms_from_entries(root->Table_0);
}

proof fn lemma_vms_error(entries: Seq<(Seq<char>, TomlData)>)
    ensures
        vms_of(entries) is Err ==> vms_of(entries) == Err::<
            Seq<(Seq<char>, VmConfigView)>,
            FormatErrorView,
        >(FormatErrorView::ParseError("cpus section not found"@)),
    decreases entries.len(),
{
    if entries.len() > 0 {
        lemma_vms_error(entries.drop_last());
    }
}

/// A refused document is refused with the first fault in reading order: a
/// `vm_*` section without `cpus` gives `cpus section not found`; otherwise a
/// missing `env` gives `env section not found`, and a missing `env.memory` gives
/// `env.memory section not found`.
pub proof fn law_config_errors(root: TomlData)
    ensures
        !vm_sections_have_cpus(root) ==> system_config_of(root) == Err::<
            SystemConfigView,
            FormatErrorView,
        >(FormatErrorView::ParseError("cpus section not found"@)),
        vm_sections_have_cpus(root) && root.get("env"@) is None ==> system_config_of(root) == Err::<
            SystemConfigView,
            FormatErrorView,
        >(FormatErrorView::ParseError("env section not found"@)),
        (vm_sections_have_cpus(root) && root.get("env"@) is Some && root.get(
            "env"@,
        )->Some_0.get("memory"@) is None) ==> system_config_of(root) == Err::<
            SystemConfigView,
            FormatErrorView,
        >(FormatErrorView::ParseError("env.memory section not found"@)),
{
    match root.as_table() {
        Some(entries) => {
            lemma_vms_of(entries);
            lemma_vms_error(entries);
        },
        None => {},
    }
}

} // verus!
