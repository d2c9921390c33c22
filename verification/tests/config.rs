use vpg::format::toml::parse_container;
use vpg::format::toml::Toml;
use vpg::format::FormatError;
use vpg::format::Parser;
use vpg::format::TraitFormat;
use vpg::param::SystemConfig;
use vpg::value::TomlValue;

const SAMPLE: &str = r#"
version = 0.6
name = "Multi-OS Project"
test = false

[vm_linux]
os = "linux"
os_version = "6.1.0"

[vm_linux.cpus]
num_cpus = 2
pcpu_mapping = [1, 2]

[[vm_linux.memory]]
guest_base = 0x80000000
host_base = 0x80000000
size = 0x8000000

[[vm_linux.vdev]]
device = "vplic"
guest_base = 0x0c000000
size = 0x400000

[vm_linux.vdev.config]
vcpu_mapping = [1, 0]

[vm_freertos]
os = "freertos"
os_version = "10.4.6"

[vm_freertos.cpus]
num_cpus = 1
pcpu_mapping = [3]

[[vm_freertos.memory]]
guest_base = 0x80000000
host_base = 0x90000000
size = 0x1000000

[kernel]
scheduler = "fifo"
heap_size = 0x20000
stack_size = 0x4000

[env]
arch = "rv64"
hext = true
num_of_cpus = 4
cores = [0, 1, 2, 3]
bsp = 0

[env.memory]
base = 0x80000000
size = 0x40000000

[env.qemu]
kernel_path = "/opt/riscv/linux/vmlinux.bin"
initrd_path = "/opt/riscv/busybox/_install"

[[env.device]]
device = "uart"
base = 0x10000000
size = 0x20

[[env.device]]
device = "clint"
base = 0x02000000
size = 0x10000

[[env.device]]
device = "plic"
base = 0x0c000000
size = 0x400000
"#;

fn parse(text: &str) -> Result<SystemConfig, FormatError> {
    Parser::parse::<Toml>(text.to_string())
}

fn parse_error(text: &str) -> String {
    match parse(text) {
        Ok(_) => panic!("expected an error"),
        Err(FormatError::ParseError(m)) => m,
        Err(FormatError::KeyNotFoundError(k)) => panic!("unexpected key error {}", k),
    }
}

#[test]
fn sample_configuration_is_read_in_full() {
    let c = parse(SAMPLE).expect("sample parses");
    assert_eq!(f64::from_bits(c.version_bits), 0.6);
    assert_eq!(c.name, "Multi-OS Project");
    assert_eq!(c.test, Some(false));
    // the TOML crate lists a table's keys in ascending order
    let names: Vec<&str> = c.vms.iter().map(|(n, _)| n.as_str()).collect();
    assert_eq!(names, vec!["vm_freertos", "vm_linux"]);

    let freertos = &c.vms[0].1;
    assert_eq!(freertos.os, "freertos");
    assert_eq!(freertos.os_version.as_deref(), Some("10.4.6"));
    assert_eq!(freertos.cpus.num_cpus, 1);
    assert_eq!(freertos.cpus.pcpu_mapping, vec![3]);
    assert_eq!(freertos.memory.len(), 1);
    assert_eq!(freertos.memory[0].guest_base, 0x8000_0000);
    assert_eq!(freertos.memory[0].host_base, 0x9000_0000);
    assert_eq!(freertos.memory[0].size, 0x100_0000);
    assert!(freertos.vdev.is_empty());

    let linux = &c.vms[1].1;
    assert_eq!(linux.os, "linux");
    assert_eq!(linux.cpus.num_cpus, 2);
    assert_eq!(linux.cpus.pcpu_mapping, vec![1, 2]);
    assert_eq!(linux.vdev.len(), 1);
    assert_eq!(linux.vdev[0].device, "vplic");
    assert_eq!(linux.vdev[0].guest_base, 0x0c00_0000);
    assert_eq!(linux.vdev[0].size, 0x40_0000);
    let config = linux.vdev[0].config.as_ref().expect("config table");
    match config.get("vcpu_mapping") {
        Some(TomlValue::Array(items)) => {
            assert_eq!(items.len(), 2);
            assert!(matches!(items[0], TomlValue::Integer(1)));
            assert!(matches!(items[1], TomlValue::Integer(0)));
        }
        _ => panic!("vcpu_mapping missing"),
    }

    let env = &c.environment;
    assert_eq!(env.arch, "rv64");
    assert!(env.hext);
    assert_eq!(env.num_of_cpus, 4);
    assert_eq!(env.cores, vec![0, 1, 2, 3]);
    assert_eq!(env.bsp, 0);
    assert_eq!(env.memory.base, 0x8000_0000);
    assert_eq!(env.memory.size, 0x4000_0000);
    let devices: Vec<(&str, u64, u64)> =
        env.devices.iter().map(|d| (d.device.as_str(), d.base, d.size)).collect();
    assert_eq!(
        devices,
        vec![("uart", 0x1000_0000, 0x20), ("clint", 0x0200_0000, 0x1_0000), ("plic", 0x0c00_0000, 0x40_0000)]
    );
    let qemu = env.qemu.as_ref().expect("qemu section");
    assert_eq!(qemu.kernel_path.as_deref(), Some("/opt/riscv/linux/vmlinux.bin"));
    assert_eq!(qemu.initrd_path.as_deref(), Some("/opt/riscv/busybox/_install"));
    assert_eq!(qemu.dtb_path, None);
    assert_eq!(qemu.bios_path, None);

    assert_eq!(c.kernel.scheduler.as_deref(), Some("fifo"));
    assert_eq!(c.kernel.dispatcher, None);
    assert_eq!(c.kernel.heap_size, Some(0x2_0000));
    assert_eq!(c.kernel.stack_size, Some(0x4000));
}

#[test]
fn missing_keys_take_their_defaults() {
    let c = parse("[env.memory]\n[vm_a.cpus]\n[[vm_a.memory]]\n[[vm_a.vdev]]\n[[env.device]]\n").expect("parses");
    assert_eq!(c.version_bits, 0.6f64.to_bits());
    assert_eq!(c.name, "Default Project");
    assert_eq!(c.test, None);
    assert_eq!(c.vms.len(), 1);
    let vm = &c.vms[0].1;
    assert_eq!(vm.os, "unknown");
    assert_eq!(vm.os_version, None);
    assert_eq!(vm.cpus.num_cpus, 1);
    assert_eq!(vm.cpus.pcpu_mapping, vec![0]);
    assert_eq!((vm.memory[0].guest_base, vm.memory[0].host_base, vm.memory[0].size), (0, 0, 0));
    assert_eq!(vm.vdev[0].device, "unknown");
    assert_eq!((vm.vdev[0].guest_base, vm.vdev[0].size), (0, 0));
    assert!(vm.vdev[0].config.is_none());
    let env = &c.environment;
    assert_eq!(env.arch, "rv64");
    assert!(!env.hext);
    assert_eq!(env.num_of_cpus, 2);
    assert_eq!(env.cores, vec![0, 1]);
    assert_eq!(env.bsp, 0);
    assert_eq!(env.memory.base, 0x8000_0000);
    assert_eq!(env.memory.size, 0x4000_0000);
    assert_eq!(env.devices[0].device, "unknown");
    assert!(env.qemu.is_none());
    assert_eq!(c.kernel.scheduler, None);
    assert_eq!(c.kernel.heap_size, None);
}

#[test]
fn default_mappings_count_up() {
    let c = parse("[vm_x.cpus]\nnum_cpus = 3\n[env]\nnum_of_cpus = 5\n[env.memory]\n").expect("parses");
    assert_eq!(c.vms[0].1.cpus.pcpu_mapping, vec![0, 1, 2]);
    assert_eq!(c.environment.cores, vec![0, 1, 2, 3, 4]);
}

#[test]
fn mapping_skips_non_integers_and_wraps_negatives() {
    let c = parse("[vm_x.cpus]\npcpu_mapping = [1, \"two\", -1]\n[env]\nbsp = -2\n[env.memory]\n")
        .expect("parses");
    assert_eq!(c.vms[0].1.cpus.pcpu_mapping, vec![1, u64::MAX]);
    assert_eq!(c.environment.bsp, u64::MAX - 1);
}

#[test]
fn wrong_types_fall_back_to_defaults() {
    let c = parse("name = 3\nversion = \"x\"\ntest = 1\n[env]\narch = 64\nhext = \"yes\"\ncores = 3\nmemory = { base = \"low\" }\n")
        .expect("parses");
    assert_eq!(c.name, "Default Project");
    assert_eq!(c.version_bits, 0.6f64.to_bits());
    assert_eq!(c.test, None);
    assert_eq!(c.environment.arch, "rv64");
    assert!(!c.environment.hext);
    assert_eq!(c.environment.cores, vec![0, 1]);
    assert_eq!(c.environment.memory.base, 0x8000_0000);
}

#[test]
fn only_vm_prefixed_sections_are_machines() {
    let c = parse("[vm_]\ncpus = {}\n[vmx.cpus]\n[v.cpus]\n[other]\n[env.memory]\n").expect("parses");
    let names: Vec<&str> = c.vms.iter().map(|(n, _)| n.as_str()).collect();
    assert_eq!(names, vec!["vm_"]);
}

#[test]
fn text_that_is_not_toml_is_refused() {
    assert_eq!(parse_error("this is = = not toml"), "Failed to parse TOML");
}

#[test]
fn missing_env_is_refused() {
    assert_eq!(parse_error("name = \"x\"\n"), "env section not found");
}

#[test]
fn missing_env_memory_is_refused() {
    assert_eq!(parse_error("[env]\narch = \"rv64\"\n"), "env.memory section not found");
}

#[test]
fn machine_without_cpus_is_refused() {
    assert_eq!(parse_error("[vm_a]\nos = \"linux\"\n[env.memory]\n"), "cpus section not found");
}

#[test]
fn machine_error_is_reported_before_env_error() {
    assert_eq!(parse_error("[vm_a]\nos = \"linux\"\n"), "cpus section not found");
}

#[test]
fn toml_format_reads_like_the_parser() {
    let via_trait = Toml::parse(SAMPLE.to_string()).expect("parses");
    let via_parser = parse(SAMPLE).expect("parses");
    assert_eq!(via_trait.name, via_parser.name);
    assert_eq!(via_trait.vms.len(), via_parser.vms.len());
}

#[test]
fn error_messages() {
    assert_eq!(FormatError::ParseError("bad".to_string()).message(), "Parse error: bad");
    assert_eq!(FormatError::KeyNotFoundError("env".to_string()).message(), "Key not found: env");
}

fn table(entries: Vec<(&str, TomlValue)>) -> TomlValue {
    TomlValue::Table(entries.into_iter().map(|(k, v)| (k.to_string(), v)).collect())
}

#[test]
fn container_from_env_table() {
    let doc = table(vec![(
        "env",
        table(vec![("num_of_cpus", TomlValue::Integer(4)), ("bsp", TomlValue::Integer(1))]),
    )]);
    let c = parse_container(1, &doc);
    assert_eq!((c.id, c.num_of_cpus, c.bsp, c.cores), (1, 4, 1, 3));
}

#[test]
fn container_from_dotted_key() {
    let doc = table(vec![("env.bsp", TomlValue::Integer(2)), ("env", table(vec![]))]);
    let c = parse_container(7, &doc);
    assert_eq!((c.id, c.num_of_cpus, c.bsp, c.cores), (7, 0, 2, 3));
}

#[test]
fn a_failed_parse_carries_the_toml_report() {
    let text = "this is = = not toml";
    let (result, report) = Toml::parse_with_report(text.to_string());
    assert!(matches!(result, Err(FormatError::ParseError(ref m)) if m == "Failed to parse TOML"));
    let expected = text.parse::<toml::Value>().unwrap_err().to_string();
    assert_eq!(report, Some(expected));
    let (ok, none) = Toml::parse_with_report(SAMPLE.to_string());
    assert!(ok.is_ok());
    assert_eq!(none, None);
}
