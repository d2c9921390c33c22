use vpg::format::toml::Toml;
use vpg::format::Parser;
use vpg::generator::vm::create_vm_module_content;
use vpg::generator::vm::generate_vm_module_file;
use vpg::generator::vm::vm_type;
use vpg::generator::Generator;
use vpg::generator::Step;
use vpg::param::SystemConfig;
use vpg::param::VmConfig;

fn expected_module(vm: &VmConfig, vm_name: &str) -> String {
    let mut content = String::new();
    content.push_str(&generate_vm_imports());
    content.push_str(&generate_vm_trap_handlers(vm, vm_name));
    content.push_str(&generate_vm_boot_function(vm, vm_name));
    content
}

fn generate_vm_imports() -> String {
    let mut imports = String::new();
    
    imports.push_str("use violet::library::vm::vdev::vplic::VPlic;\n");
    imports.push_str("use violet::library::vm::{create_virtual_machine, get_mut_virtual_machine};\n\n");
    
    imports.push_str("use violet::arch::rv64::extension::hypervisor::Hext;\n");
    imports.push_str("use violet::arch::rv64::instruction::load::Load;\n");
    imports.push_str("use violet::arch::rv64::instruction::store::Store;\n");
    imports.push_str("use violet::arch::rv64::instruction::*;\n");
    imports.push_str("use violet::arch::rv64::regs::*;\n");
    imports.push_str("use violet::arch::rv64::sbi;\n");
    imports.push_str("use violet::arch::rv64::trap::int::Interrupt;\n");
    imports.push_str("use violet::arch::rv64::trap::TrapVector;\n");
    imports.push_str("use violet::arch::rv64::vscontext::*;\n");
    imports.push_str("use violet::arch::traits::context::TraitContext;\n\n");
    
    imports.push_str("use violet::environment::resource::{get_resources, BorrowResource, ResourceType};\n\n");
    
    imports
}

fn generate_vm_trap_handlers(vm: &VmConfig, vm_name: &str) -> String {
    let mut handlers = String::new();
    
    let vm_type = vm_name.strip_prefix("vm_").unwrap_or(vm_name);
    
    // ecall handler
    handlers.push_str(&format!(
r#"pub fn do_ecall_from_vsmode_{vm_type}(sp: *mut usize) {{
    let regs = Registers::from(sp);
    let ext: i32 = regs.reg[A7] as i32;
    let fid: i32 = regs.reg[A6] as i32;

    match sbi::Extension::from_ext(ext) {{
        sbi::Extension::SetTimer | sbi::Extension::Timer => {{
            Hext::flush_vsmode_interrupt(Interrupt::bit(
                Interrupt::VIRTUAL_SUPERVISOR_TIMER_INTERRUPT,
            ));
        }}
        sbi::Extension::HartStateManagement => {{
            if fid == 0 {{
                regs.reg[A0] = 0;
                regs.reg[A1] = 0;
                regs.epc = regs.epc + 4;
                return;
            }}
        }}"#, vm_type = vm_type));

    // Add OS-specific handling
    match vm.os.as_str() {
        "linux" => {
            handlers.push_str(r#"
        sbi::Extension::SystemReset => loop {},
        _ => {}
    }

    let ret = Instruction::ecall(
        ext,
        fid,
        regs.reg[A0],
        regs.reg[A1],
        regs.reg[A2],
        regs.reg[A3],
        regs.reg[A4],
        regs.reg[A5],
    );

    regs.reg[A0] = ret.0;
    regs.reg[A1] = ret.1;

    regs.epc = regs.epc + 4;
}
"#);
        }
        _ => {
            handlers.push_str(r#"
        _ => {
            regs.reg[A0] = sbi::SbiError::NotSupported as usize;
            regs.reg[A1] = 0;
        }
    }
    regs.epc = regs.epc + 4;
}
"#);
        }
    }
    
    handlers.push_str("}\n\n");

    // Helper function for Linux
    if vm.os == "linux" {
        handlers.push_str(r#"/* [todo delete] */
fn topaddr(epc: usize) -> usize {
    if epc >= 0x1_0000_0000 {
        (epc & 0x0_ffff_ffff) + 0x1000_0000 + 0x20_0000 //after MMU start in linux
    } else {
        (epc & 0x0_ffff_ffff) + 0x1000_0000 //before MMU start in linux
    }
}

"#);
    }

    // Store page fault handler
    handlers.push_str(&format!(
r#"pub fn do_guest_store_page_fault_{vm_type}(sp: *mut usize) {{
    let regs = Registers::from(sp);
    let vm = get_mut_virtual_machine();
    let fault_paddr = Hext::get_vs_fault_paddr() as usize;
"#, vm_type = vm_type));

    if vm.os == "linux" {
        handlers.push_str(r#"    let inst = Instruction::fetch(topaddr(regs.epc));
    let val = Store::from_val(inst).store_value(regs);

    match vm.dev.write(fault_paddr, val) {
        None => {
            vm.map_guest_page(Hext::get_vs_fault_paddr() as usize);
        },
        Some(()) => {
            regs.epc = regs.epc + Instruction::len(inst);
            Hext::flush_vsmode_interrupt(Interrupt::bit(
                Interrupt::VIRTUAL_SUPERVISOR_EXTERNAL_INTERRUPT,
            ));
        }
    }
"#);
    } else {
        handlers.push_str(r#"    let inst = Instruction::fetch(regs.epc);

    match vm.dev.write(fault_paddr, regs.reg[Store::from_val(inst).src()]) {
        false => {
            vm.map_guest_page(Hext::get_vs_fault_paddr() as usize);
        },
        true => {
            regs.epc = regs.epc + Instruction::len(inst);
            Hext::assert_vsmode_interrupt(Interrupt::bit(
                Interrupt::VIRTUAL_SUPERVISOR_EXTERNAL_INTERRUPT,
            ));
        }
    }
"#);
    }
    
    handlers.push_str("}\n\n");

    // Load page fault handler
    handlers.push_str(&format!(
r#"pub fn do_guest_load_page_fault_{vm_type}(sp: *mut usize) {{
    let regs = Registers::from(sp);
    let vm = get_mut_virtual_machine();
    let fault_paddr = Hext::get_vs_fault_paddr() as usize;
"#, vm_type = vm_type));

    if vm.os == "linux" {
        handlers.push_str(r#"    let inst = Instruction::fetch(topaddr(regs.epc));

    match vm.dev.read(fault_paddr) {
        None => {
            vm.map_guest_page(Hext::get_vs_fault_paddr() as usize);
        },
        Some(x) => {
            regs.reg[Load::from_val(inst).dst()] = x;
            regs.epc = regs.epc + Instruction::len(inst);
        }
    }
"#);
    } else {
        handlers.push_str(r#"    let inst = Instruction::fetch(regs.epc);

    match vm.dev.read(fault_paddr) {
        None => {
            vm.map_guest_page(Hext::get_vs_fault_paddr() as usize);
        },
        Some(x) => {
            regs.reg[Load::from_val(inst).dst()] = x;
            regs.epc = regs.epc + Instruction::len(inst);
        }
    }
"#);
    }
    
    handlers.push_str("}\n\n");

    // Instruction page fault handler
    handlers.push_str(&format!(
r#"pub fn do_guest_instruction_page_fault_{vm_type}(_sp: *mut usize) {{
    let vm = get_mut_virtual_machine();
    vm.map_guest_page(Hext::get_vs_fault_paddr() as usize);
}}

"#, vm_type = vm_type));

    // External interrupt handler
    handlers.push_str(&format!(
r#"pub fn do_supervisor_external_interrupt_{vm_type}(_sp: *mut usize) {{
    let vm = get_mut_virtual_machine();
    // Read and clear the pending bit from the physical PLIC
    let int_id = if let BorrowResource::Intc(i) = get_resources().get(ResourceType::Intc, 0) {{
        i.get_pend_int()
    }} else {{
        0
    }};

    // write to virtual plic
    match vm.dev.get_mut(0x0c20_1000) {{
        None => (),
        Some(d) => {{
            d.interrupt(int_id as usize);
        }}
    }}

    // Raise a virtual external interrupt 
    Hext::assert_vsmode_interrupt(Interrupt::bit(
        Interrupt::VIRTUAL_SUPERVISOR_EXTERNAL_INTERRUPT,
    ));
"#, vm_type = vm_type));

    if vm.os == "linux" {
        handlers.push_str(r#"
    // Clear the pending bit in the PLIC 
    if let BorrowResource::Intc(i) = get_resources().get(ResourceType::Intc, 0) {
        i.set_comp_int(int_id);
    }
"#);
    }

    handlers.push_str("}\n\n");

    // Timer interrupt handler
    handlers.push_str(&format!(
r#"pub fn do_supervisor_timer_interrupt_{vm_type}(_sp: *mut usize) {{
"#, vm_type = vm_type));

    if vm.os == "linux" {
        handlers.push_str(r#"    // Disable the timer
    sbi::sbi_set_timer(0xffff_ffff_ffff_ffff);

    // Raise a timer interrupt to the guest
    Hext::assert_vsmode_interrupt(Interrupt::bit(
        Interrupt::VIRTUAL_SUPERVISOR_TIMER_INTERRUPT,
    ));
"#);
    } else {
        handlers.push_str(r#"    Hext::assert_vsmode_interrupt(Interrupt::bit(
        Interrupt::VIRTUAL_SUPERVISOR_TIMER_INTERRUPT,
    ));
"#);
    }

    handlers.push_str("}\n\n");

    handlers
}


fn generate_vm_boot_function(vm: &VmConfig, vm_name: &str) -> String {
    let mut content = String::new();
    
    let vm_type = vm_name.strip_prefix("vm_").unwrap_or(vm_name);
    
    // Determine boot core from CPU mappings or use default
    let boot_core = if !vm.cpus.pcpu_mapping.is_empty() {
        vm.cpus.pcpu_mapping[0]
    } else {
        0
    };

    // Determine kernel entry point based on OS
    let (kernel_entry, kernel_args) = match vm.os.as_str() {
        "linux" => ("0x8020_0000", "0x8220_0000"), // Linux kernel entry with FDT
        "freertos" => ("0x8000_0000", "0"),         // FreeRTOS entry point
        _ => ("0x8000_0000", "0"),                  // Default entry point
    };

    content.push_str(&format!(
r#"pub fn boot_{vm_type}() {{
    let boot_core = {boot_core};
    
    /* Setup virtual machine */
    create_virtual_machine();
    let vm = get_mut_virtual_machine();
    vm.reset();

    /* CPU */
    vm.cpu.register(0, boot_core); /* vcpu0 ... pcpu{boot_core} */
    match vm.cpu.get_mut(0) {{
        None => (),
        Some(v) => {{
            v.context.set(JUMP_ADDR, {kernel_entry});
            v.context.set(ARG0, 0);
            v.context.set(ARG1, {kernel_args});
        }}
    }}

    /* RAM */
"#, 
        vm_type = vm_type,
        boot_core = boot_core,
        kernel_entry = kernel_entry,
        kernel_args = kernel_args
    ));

    // Generate memory mappings
    if vm.memory.is_empty() {
        match vm.os.as_str() {
            "linux" => {
                content.push_str("    vm.mem.register(0x8020_0000, 0x9020_0000, 0x1000_0000);\n");
                content.push_str("    vm.mem.register(0x8220_0000, 0x8220_0000, 0x2_0000);    // FDT is mapped to physical memory.\n");
                content.push_str("    vm.mem.register(0x8810_0000, 0x8810_0000, 0x20_0000);    // initrd is also mapped to physical memory. The size is estimated from rootfs.img\n");
            }
            "freertos" => {
                content.push_str("    vm.mem.register(0x80000000, 0x80000000, 0x20000000);\n");
            }
            _ => {
                content.push_str("    vm.mem.register(0x80000000, 0x80000000, 0x20000000);\n");
            }
        }
    } else {
        for memory in &vm.memory {
            content.push_str(&format!(
                "    vm.mem.register(0x{:x}, 0x{:x}, 0x{:x});\n",
                memory.guest_base, memory.host_base, memory.size
            ));
        }
    }
    
    content.push_str("    vm.mmu_enable();\n\n");

    // Generate virtual devices
    content.push_str("    /* MMIO */\n");
    if vm.vdev.is_empty() {
        content.push_str(&format!(
r#"    let mut vplic = VPlic::new();
    vplic.set_vcpu_config([boot_core, 0]); /* vcpu0 ... pcpu{boot_core} */
    vm.dev.register(0x0c00_0000, 0x0400_0000, vplic);
"#,
            boot_core = boot_core
        ));
    } else {
        for vdev in &vm.vdev {
            match vdev.device.as_str() {
                "vplic" | "plic" => {
                    content.push_str(&format!(
r#"    let mut vplic = VPlic::new();
    vplic.set_vcpu_config([{boot_core}, 0]); /* vcpu0 ... pcpu{boot_core} */
    vm.dev.register(0x{guest_base:x}, 0x{size:x}, vplic);
"#,
                        boot_core = boot_core,
                        guest_base = vdev.guest_base,
                        size = vdev.size
                    ));
                }
                _ => {
                    content.push_str(&format!(
                        "    // TODO: Implement {} device at 0x{:x}\n",
                        vdev.device, vdev.guest_base
                    ));
                }
            }
        }
    }

    // Register trap handlers
    content.push_str(&format!(
r#"    
    /* Register interrupt/exception handler */
    if vm.trap.register_traps(
        &[
            (TrapVector::SUPERVISOR_TIMER_INTERRUPT, do_supervisor_timer_interrupt_{vm_type}),
            (TrapVector::SUPERVISOR_EXTERNAL_INTERRUPT, do_supervisor_external_interrupt_{vm_type}),
            (TrapVector::ENVIRONMENT_CALL_FROM_VSMODE, do_ecall_from_vsmode_{vm_type}),
            (TrapVector::LOAD_GUEST_PAGE_FAULT, do_guest_load_page_fault_{vm_type}),
            (TrapVector::STORE_AMO_GUEST_PAGE_FAULT, do_guest_store_page_fault_{vm_type}),
            (TrapVector::INSTRUCTION_GUEST_PAGE_FAULT, do_guest_instruction_page_fault_{vm_type}),
        ]
    ) == Err(()) {{ panic!("Fail to register trap"); }}

    /* Run */
    vm.run();
}}
"#,
        vm_type = vm_type
    ));

    content
}


const CONFIG: &str = r#"
[vm_linux]
os = "linux"
[vm_linux.cpus]
num_cpus = 2
pcpu_mapping = [1, 2]
[[vm_linux.memory]]
guest_base = 0x80000000
host_base = 0x80000000
size = 0x8000000
[[vm_linux.vdev]]
device = "vplic"
guest_base = 0x0c000000
size = 0x400000
[[vm_linux.vdev]]
device = "vuart"
guest_base = 0x10000000
size = 0x20

[vm_freertos]
os = "freertos"
[vm_freertos.cpus]
num_cpus = 1
pcpu_mapping = [3]

[vm_bare]
os = "bare-metal"
[vm_bare.cpus]
pcpu_mapping = []
[[vm_bare.memory]]
guest_base = 0xABCDEF
host_base = 0
size = 0x1F
[[vm_bare.vdev]]
device = "plic"
guest_base = 0
size = 0xFFFFFFFF

[vm_quiet]
os = "linux"
[vm_quiet.cpus]
num_cpus = 1

[env]
num_of_cpus = 4
[env.memory]
"#;

fn system() -> SystemConfig {
    Parser::parse::<Toml>(CONFIG.to_string()).expect("parses")
}

#[test]
fn machine_modules_match_the_templates() {
    let s = system();
    assert_eq!(s.vms.len(), 4);
    for (name, vm) in &s.vms {
        assert_eq!(create_vm_module_content(vm, name), expected_module(vm, name), "{}", name);
    }
}

#[test]
fn machine_type_drops_the_prefix() {
    assert_eq!(vm_type(&"vm_linux".to_string()), "linux");
    assert_eq!(vm_type(&"vm_".to_string()), "");
    assert_eq!(vm_type(&"linux".to_string()), "linux");
}

#[test]
fn linux_module_details() {
    let s = system();
    let (name, vm) = s.vms.iter().find(|(n, _)| n == "vm_linux").unwrap();
    let text = create_vm_module_content(vm, name);
    assert!(text.contains("pub fn boot_linux() {\n    let boot_core = 1;"));
    assert!(text.contains("v.context.set(JUMP_ADDR, 0x8020_0000);"));
    assert!(text.contains("    vm.mem.register(0x80000000, 0x80000000, 0x8000000);\n"));
    assert!(text.contains("    vm.dev.register(0xc000000, 0x400000, vplic);\n"));
    assert!(text.contains("    // TODO: Implement vuart device at 0x10000000\n"));
    assert!(text.contains("fn topaddr(epc: usize)"));
}

#[test]
fn default_memory_and_devices() {
    let s = system();
    let (name, vm) = s.vms.iter().find(|(n, _)| n == "vm_quiet").unwrap();
    let text = create_vm_module_content(vm, name);
    assert!(text.contains("    vm.mem.register(0x8220_0000, 0x8220_0000, 0x2_0000);"));
    assert!(text.contains("vplic.set_vcpu_config([boot_core, 0]); /* vcpu0 ... pcpu0 */"));
    let (name, vm) = s.vms.iter().find(|(n, _)| n == "vm_freertos").unwrap();
    let text = create_vm_module_content(vm, name);
    assert!(text.contains("    vm.mem.register(0x80000000, 0x80000000, 0x20000000);\n"));
    assert!(!text.contains("topaddr"));
}

#[test]
fn module_file_goes_under_src() {
    let s = system();
    let (name, vm) = &s.vms[0];
    match generate_vm_module_file("../../proj/demo", vm, name) {
        Step::WriteFile { path, content } => {
            assert_eq!(path, "../../proj/demo/src/bare.rs");
            assert_eq!(content, expected_module(vm, name));
        }
        _ => panic!("expected a file"),
    }
}

#[test]
fn each_machine_gets_a_module_before_the_setup_file() {
    let s = system();
    let steps = Generator::steps("p", &s, false);
    let written: Vec<String> = steps
        .iter()
        .filter_map(|st| match st {
            Step::WriteFile { path, .. } => Some(path.clone()),
            _ => None,
        })
        .collect();
    assert_eq!(written, vec!["p/src/bare.rs", "p/src/freertos.rs", "p/src/linux.rs", "p/src/quiet.rs"]);
    assert!(matches!(steps[0], Step::CreateProject(_)));
    assert!(matches!(steps[1], Step::CopyFile { .. }));
    assert!(matches!(steps[6], Step::FillTemplate { .. }));
    assert_eq!(steps.len(), 12);
}

#[test]
fn absolute_machine_type_replaces_the_directory() {
    let s = system();
    let (_, vm) = &s.vms[0];
    match generate_vm_module_file("../proj/demo", vm, &"vm_/x".to_string()) {
        Step::WriteFile { path, .. } => assert_eq!(path, "/x.rs"),
        _ => panic!("expected a file"),
    }
}
