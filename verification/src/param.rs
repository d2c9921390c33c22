//! The system configuration that a configuration file describes, and its model.
use vstd::prelude::*;

use crate::value::TomlData;
use crate::value::TomlValue;
use crate::value::opt_chars;

verus! {

/// The whole configuration: version, project name, test switch, the virtual
/// machines by section name, the physical environment and the kernel settings.
///
/// The version number is held by the bit pattern of its IEEE-754 binary64 value
/// (`f64::to_bits`), as the configuration file gives it.
#[derive(Debug)]
pub struct SystemConfig {
    pub version_bits: u64,
    pub name: String,
    pub test: Option<bool>,
    pub vms: Vec<(String, VmConfig)>,
    pub environment: EnvironmentConfig,
    pub kernel: KernelConfig,
}

/// One virtual machine: guest OS, its version, virtual CPUs, memory mappings and
/// virtual devices.
#[derive(Debug)]
pub struct VmConfig {
    pub os: String,
    pub os_version: Option<String>,
    pub cpus: CpuConfig,
    pub memory: Vec<MemoryMapping>,
    pub vdev: Vec<VDevConfig>,
}

/// The virtual CPUs of a machine; `pcpu_mapping[i]` is the physical CPU of vCPU `i`.
#[derive(Debug, Clone)]
pub struct CpuConfig {
    pub num_cpus: u64,
    pub pcpu_mapping: Vec<u64>,
}

/// A guest-physical to host-physical memory region.
#[derive(Debug, Clone, Copy)]
pub struct MemoryMapping {
    pub guest_base: u64,
    pub host_base: u64,
    pub size: u64,
}

/// A virtual device and its device-specific settings, kept as written.
#[derive(Debug)]
pub struct VDevConfig {
    pub device: String,
    pub guest_base: u64,
    pub size: u64,
    pub config: Option<TomlValue>,
}

/// The physical hardware the hypervisor runs on.
#[derive(Debug, Clone)]
pub struct EnvironmentConfig {
    pub arch: String,
    pub hext: bool,
    pub num_of_cpus: u64,
    pub cores: Vec<u64>,
    pub bsp: u64,
    pub memory: PhysicalMemoryConfig,
    pub devices: Vec<DeviceConfig>,
    pub qemu: Option<QemuConfig>,
}

/// Images handed to QEMU.
#[derive(Debug, Clone)]
pub struct QemuConfig {
    pub kernel_path: Option<String>,
    pub initrd_path: Option<String>,
    pub dtb_path: Option<String>,
    pub bios_path: Option<String>,
}

/// The physical memory range.
#[derive(Debug, Clone, Copy)]
pub struct PhysicalMemoryConfig {
    pub base: u64,
    pub size: u64,
}

/// A physical device.
#[derive(Debug, Clone)]
pub struct DeviceConfig {
    pub device: String,
    pub base: u64,
    pub size: u64,
}

/// Settings of the hypervisor kernel.
#[derive(Debug, Clone)]
pub struct KernelConfig {
    pub scheduler: Option<String>,
    pub dispatcher: Option<String>,
    pub heap_size: Option<u64>,
    pub stack_size: Option<u64>,
}

/// One container of the single-container layout: its number, CPUs, boot CPU and cores.
#[derive(Debug, Clone, Copy)]
pub struct ContainerConfig {
    pub id: u64,
    pub num_of_cpus: u64,
    pub bsp: u64,
    pub cores: u64,
}

// ---------------------------------------------------------------------------
// Models
// ---------------------------------------------------------------------------

pub struct SystemConfigView {
    pub version_bits: u64,
    pub name: Seq<char>,
    pub test: Option<bool>,
    pub vms: Seq<(Seq<char>, VmConfigView)>,
    pub environment: EnvironmentConfigView,
    pub kernel: KernelConfigView,
}

pub struct VmConfigView {
    pub os: Seq<char>,
    pub os_version: Option<Seq<char>>,
    pub cpus: CpuConfigView,
    pub memory: Seq<MemoryMapping>,
    pub vdev: Seq<VDevConfigView>,
}

pub struct CpuConfigView {
    pub num_cpus: u64,
    pub pcpu_mapping: Seq<u64>,
}

pub struct VDevConfigView {
    pub device: Seq<char>,
    pub guest_base: u64,
    pub size: u64,
    pub config: Option<TomlData>,
}

pub struct EnvironmentConfigView {
    pub arch: Seq<char>,
    pub hext: bool,
    pub num_of_cpus: u64,
    pub cores: Seq<u64>,
    pub bsp: u64,
    pub memory: PhysicalMemoryConfig,
    pub devices: Seq<DeviceConfigView>,
    pub qemu: Option<QemuConfigView>,
}

pub struct QemuConfigView {
    pub kernel_path: Option<Seq<char>>,
    pub initrd_path: Option<Seq<char>>,
    pub dtb_path: Option<Seq<char>>,
    pub bios_path: Option<Seq<char>>,
}

pub struct DeviceConfigView {
    pub device: Seq<char>,
    pub base: u64,
    pub size: u64,
}

pub struct KernelConfigView {
    pub scheduler: Option<Seq<char>>,
    pub dispatcher: Option<Seq<char>>,
    pub heap_size: Option<u64>,
    pub stack_size: Option<u64>,
}

pub open spec fn opt_value(o: Option<TomlValue>) -> Option<TomlData> {
    match o {
        Some(v) => Some(v@),
        None => None,
    }
}

impl View for CpuConfig {
    type V = CpuConfigView;

    open spec fn view(&self) -> CpuConfigView {
        CpuConfigView { num_cpus: self.num_cpus, pcpu_mapping: self.pcpu_mapping@ }
    }
}

impl View for VDevConfig {
    type V = VDevConfigView;

    open spec fn view(&self) -> VDevConfigView {
        VDevConfigView {
            device: self.device@,
            guest_base: self.guest_base,
            size: self.size,
            config: opt_value(self.config),
        }
    }
}

impl View for VmConfig {
    type V = VmConfigView;

    open spec fn view(&self) -> VmConfigView {
        VmConfigView {
            os: self.os@,
            os_version: opt_chars(self.os_version),
            cpus: self.cpus@,
            memory: self.memory@,
            vdev: self.vdev@.map_values(|d: VDevConfig| d@),
        }
    }
}

impl View for DeviceConfig {
    type V = DeviceConfigView;

    open spec fn view(&self) -> DeviceConfigView {
        DeviceConfigView { device: self.device@, base: self.base, size: self.size }
    }
}

impl View for QemuConfig {
    type V = QemuConfigView;

    open spec fn view(&self) -> QemuConfigView {
        QemuConfigView {
            kernel_path: opt_chars(self.kernel_path),
            initrd_path: opt_chars(self.initrd_path),
            dtb_path: opt_chars(self.dtb_path),
            bios_path: opt_chars(self.bios_path),
        }
    }
}

pub open spec fn opt_qemu(o: Option<QemuConfig>) -> Option<QemuConfigView> {
    match o {
        Some(q) => Some(q@),
        None => None,
    }
}

impl View for EnvironmentConfig {
    type V = EnvironmentConfigView;

    open spec fn view(&self) -> EnvironmentConfigView {
        EnvironmentConfigView {
            arch: self.arch@,
            hext: self.hext,
            num_of_cpus: self.num_of_cpus,
            cores: self.cores@,
            bsp: self.bsp,
            memory: self.memory,
            devices: self.devices@.map_values(|d: DeviceConfig| d@),
            qemu: opt_qemu(self.qemu),
        }
    }
}

impl View for KernelConfig {
    type V = KernelConfigView;

    open spec fn view(&self) -> KernelConfigView {
        KernelConfigView {
            scheduler: opt_chars(self.scheduler),
            dispatcher: opt_chars(self.dispatcher),
            heap_size: self.heap_size,
            stack_size: self.stack_size,
        }
    }
}

impl View for SystemConfig {
    type V = SystemConfigView;

    open spec fn view(&self) -> SystemConfigView {
        SystemConfigView {
            version_bits: self.version_bits,
            name: self.name@,
            test: self.test,
            vms: self.vms@.map_values(|e: (String, VmConfig)| (e.0@, e.1@)),
            environment: self.environment@,
            kernel: self.kernel@,
        }
    }
}

} // verus!
