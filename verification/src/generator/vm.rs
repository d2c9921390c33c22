//! The module file generated for each virtual machine: its imports, its trap
//! handlers and its boot function, with variants for Linux guests.
use vstd::prelude::*;

use crate::format::toml::is_vm_key;
use crate::format::toml::is_vm_section;
use super::Step;
use super::StepView;
use crate::text::join;
use crate::text::join_path;
use crate::param::MemoryMapping;
use crate::param::VDevConfig;
use crate::param::VDevConfigView;
use crate::param::VmConfig;
use crate::param::VmConfigView;
use crate::text::append_decimal;
use crate::text::append_hex;
use crate::text::decimal;
use crate::text::hex;

verus! {

// ---------------------------------------------------------------------------
// The fixed parts of a module
// ---------------------------------------------------------------------------

/// The `use` lines at the top of a machine module.
pub const IMPORTS: &'static str = "use violet::library::vm::vdev::vplic::VPlic;\nuse violet::library::vm::{create_virtual_machine, get_mut_virtual_machine};\n\nuse violet::arch::rv64::extension::hypervisor::Hext;\nuse violet::arch::rv64::instruction::load::Load;\nuse violet::arch::rv64::instruction::store::Store;\nuse violet::arch::rv64::instruction::*;\nuse violet::arch::rv64::regs::*;\nuse violet::arch::rv64::sbi;\nuse violet::arch::rv64::trap::int::Interrupt;\nuse violet::arch::rv64::trap::TrapVector;\nuse violet::arch::rv64::vscontext::*;\nuse violet::arch::traits::context::TraitContext;\n\nuse violet::environment::resource::{get_resources, BorrowResource, ResourceType};\n\n";

/// The environment-call handler: its name, up to the machine type ...
pub const ECALL_0: &'static str = "pub fn do_ecall_from_vsmode_";

/// ... and its common part.
pub const ECALL_1: &'static str = "(sp: *mut usize) {\n    let regs = Registers::from(sp);\n    let ext: i32 = regs.reg[A7] as i32;\n    let fid: i32 = regs.reg[A6] as i32;\n\n    match sbi::Extension::from_ext(ext) {\n        sbi::Extension::SetTimer | sbi::Extension::Timer => {\n            Hext::flush_vsmode_interrupt(Interrupt::bit(\n                Interrupt::VIRTUAL_SUPERVISOR_TIMER_INTERRUPT,\n            ));\n        }\n        sbi::Extension::HartStateManagement => {\n            if fid == 0 {\n                regs.reg[A0] = 0;\n                regs.reg[A1] = 0;\n                regs.epc = regs.epc + 4;\n                return;\n            }\n        }";

/// The rest of the environment-call handler of a Linux guest.
pub const ECALL_LINUX: &'static str = "\n        sbi::Extension::SystemReset => loop {},\n        _ => {}\n    }\n\n    let ret = Instruction::ecall(\n        ext,\n        fid,\n        regs.reg[A0],\n        regs.reg[A1],\n        regs.reg[A2],\n        regs.reg[A3],\n        regs.reg[A4],\n        regs.reg[A5],\n    );\n\n    regs.reg[A0] = ret.0;\n    regs.reg[A1] = ret.1;\n\n    regs.epc = regs.epc + 4;\n}\n";

/// The rest of the environment-call handler of any other guest.
pub const ECALL_OTHER: &'static str = "\n        _ => {\n            regs.reg[A0] = sbi::SbiError::NotSupported as usize;\n            regs.reg[A1] = 0;\n        }\n    }\n    regs.epc = regs.epc + 4;\n}\n";

/// What closes each handler.
pub const HANDLER_END: &'static str = "}\n\n";

/// The address helper that Linux guests get.
pub const TOPADDR: &'static str = "/* [todo delete] */\nfn topaddr(epc: usize) -> usize {\n    if epc >= 0x1_0000_0000 {\n        (epc & 0x0_ffff_ffff) + 0x1000_0000 + 0x20_0000 //after MMU start in linux\n    } else {\n        (epc & 0x0_ffff_ffff) + 0x1000_0000 //before MMU start in linux\n    }\n}\n\n";

/// The store page fault handler: its name ...
pub const STORE_0: &'static str = "pub fn do_guest_store_page_fault_";

/// ... and its common part.
pub const STORE_1: &'static str = "(sp: *mut usize) {\n    let regs = Registers::from(sp);\n    let vm = get_mut_virtual_machine();\n    let fault_paddr = Hext::get_vs_fault_paddr() as usize;\n";

pub const STORE_LINUX: &'static str = "    let inst = Instruction::fetch(topaddr(regs.epc));\n    let val = Store::from_val(inst).store_value(regs);\n\n    match vm.dev.write(fault_paddr, val) {\n        None => {\n            vm.map_guest_page(Hext::get_vs_fault_paddr() as usize);\n        },\n        Some(()) => {\n            regs.epc = regs.epc + Instruction::len(inst);\n            Hext::flush_vsmode_interrupt(Interrupt::bit(\n                Interrupt::VIRTUAL_SUPERVISOR_EXTERNAL_INTERRUPT,\n            ));\n        }\n    }\n";

pub const STORE_OTHER: &'static str = "    let inst = Instruction::fetch(regs.epc);\n\n    match vm.dev.write(fault_paddr, regs.reg[Store::from_val(inst).src()]) {\n        false => {\n            vm.map_guest_page(Hext::get_vs_fault_paddr() as usize);\n        },\n        true => {\n            regs.epc = regs.epc + Instruction::len(inst);\n            Hext::assert_vsmode_interrupt(Interrupt::bit(\n                Interrupt::VIRTUAL_SUPERVISOR_EXTERNAL_INTERRUPT,\n            ));\n        }\n    }\n";

/// The load page fault handler: its name ...
pub const LOAD_0: &'static str = "pub fn do_guest_load_page_fault_";

/// ... and its common part.
pub const LOAD_1: &'static str = "(sp: *mut usize) {\n    let regs = Registers::from(sp);\n    let vm = get_mut_virtual_machine();\n    let fault_paddr = Hext::get_vs_fault_paddr() as usize;\n";

pub const LOAD_LINUX: &'static str = "    let inst = Instruction::fetch(topaddr(regs.epc));\n\n    match vm.dev.read(fault_paddr) {\n        None => {\n            vm.map_guest_page(Hext::get_vs_fault_paddr() as usize);\n        },\n        Some(x) => {\n            regs.reg[Load::from_val(inst).dst()] = x;\n            regs.epc = regs.epc + Instruction::len(inst);\n        }\n    }\n";

pub const LOAD_OTHER: &'static str = "    let inst = Instruction::fetch(regs.epc);\n\n    match vm.dev.read(fault_paddr) {\n        None => {\n            vm.map_guest_page(Hext::get_vs_fault_paddr() as usize);\n        },\n        Some(x) => {\n            regs.reg[Load::from_val(inst).dst()] = x;\n            regs.epc = regs.epc + Instruction::len(inst);\n        }\n    }\n";

/// The instruction page fault handler, around the machine type.
pub const INSTR_0: &'static str = "pub fn do_guest_instruction_page_fault_";

pub const INSTR_1: &'static str = "(_sp: *mut usize) {\n    let vm = get_mut_virtual_machine();\n    vm.map_guest_page(Hext::get_vs_fault_paddr() as usize);\n}\n\n";

/// The external interrupt handler, around the machine type.
pub const EXT_0: &'static str = "pub fn do_supervisor_external_interrupt_";

pub const EXT_1: &'static str = "(_sp: *mut usize) {\n    let vm = get_mut_virtual_machine();\n    // Read and clear the pending bit from the physical PLIC\n    let int_id = if let BorrowResource::Intc(i) = get_resources().get(ResourceType::Intc, 0) {\n        i.get_pend_int()\n    } else {\n        0\n    };\n\n    // write to virtual plic\n    match vm.dev.get_mut(0x0c20_1000) {\n        None => (),\n        Some(d) => {\n            d.interrupt(int_id as usize);\n        }\n    }\n\n    // Raise a virtual external interrupt \n    Hext::assert_vsmode_interrupt(Interrupt::bit(\n        Interrupt::VIRTUAL_SUPERVISOR_EXTERNAL_INTERRUPT,\n    ));\n";

/// What a Linux guest adds to it.
pub const EXT_LINUX: &'static str = "\n    // Clear the pending bit in the PLIC \n    if let BorrowResource::Intc(i) = get_resources().get(ResourceType::Intc, 0) {\n        i.set_comp_int(int_id);\n    }\n";

/// The timer interrupt handler: its name ...
pub const TIMER_0: &'static str = "pub fn do_supervisor_timer_interrupt_";

/// ... and its opening.
pub const TIMER_1: &'static str = "(_sp: *mut usize) {\n";

pub const TIMER_LINUX: &'static str = "    // Disable the timer\n    sbi::sbi_set_timer(0xffff_ffff_ffff_ffff);\n\n    // Raise a timer interrupt to the guest\n    Hext::assert_vsmode_interrupt(Interrupt::bit(\n        Interrupt::VIRTUAL_SUPERVISOR_TIMER_INTERRUPT,\n    ));\n";

pub const TIMER_OTHER: &'static str = "    Hext::assert_vsmode_interrupt(Interrupt::bit(\n        Interrupt::VIRTUAL_SUPERVISOR_TIMER_INTERRUPT,\n    ));\n";

/// The opening of the boot function, between machine type, boot core, entry and argument.
pub const BOOT_0: &'static str = "pub fn boot_";

pub const BOOT_1: &'static str = "() {\n    let boot_core = ";

pub const BOOT_2: &'static str = ";\n    \n    /* Setup virtual machine */\n    create_virtual_machine();\n    let vm = get_mut_virtual_machine();\n    vm.reset();\n\n    /* CPU */\n    vm.cpu.register(0, boot_core); /* vcpu0 ... pcpu";

pub const BOOT_3: &'static str = " */\n    match vm.cpu.get_mut(0) {\n        None => (),\n        Some(v) => {\n            v.context.set(JUMP_ADDR, ";

pub const BOOT_4: &'static str = ");\n            v.context.set(ARG0, 0);\n            v.context.set(ARG1, ";

pub const BOOT_5: &'static str = ");\n        }\n    }\n\n    /* RAM */\n";

/// Where a Linux kernel starts ...
pub const ENTRY_LINUX: &'static str = "0x8020_0000";

/// ... and where its device tree lies.
pub const ARGS_LINUX: &'static str = "0x8220_0000";

/// Where any other guest starts ...
pub const ENTRY_DEFAULT: &'static str = "0x8000_0000";

/// ... and its argument.
pub const ARGS_DEFAULT: &'static str = "0";

/// The memory a Linux guest gets when none is configured.
pub const MEM_LINUX_0: &'static str = "    vm.mem.register(0x8020_0000, 0x9020_0000, 0x1000_0000);\n";

pub const MEM_LINUX_1: &'static str = "    vm.mem.register(0x8220_0000, 0x8220_0000, 0x2_0000);    // FDT is mapped to physical memory.\n";

pub const MEM_LINUX_2: &'static str = "    vm.mem.register(0x8810_0000, 0x8810_0000, 0x20_0000);    // initrd is also mapped to physical memory. The size is estimated from rootfs.img\n";

/// The memory any other guest gets when none is configured.
pub const MEM_DEFAULT: &'static str = "    vm.mem.register(0x80000000, 0x80000000, 0x20000000);\n";

/// A configured memory region: `vm.mem.register(0x<guest>, 0x<host>, 0x<size>);`.
pub const MEM_LINE_0: &'static str = "    vm.mem.register(0x";

pub const MEM_LINE_SEP: &'static str = ", 0x";

pub const MEM_LINE_END: &'static str = ");\n";

pub const MMU: &'static str = "    vm.mmu_enable();\n\n";

pub const MMIO: &'static str = "    /* MMIO */\n";

/// The interrupt controller a guest gets when no device is configured.
pub const VPLIC_DEFAULT_0: &'static str = "    let mut vplic = VPlic::new();\n    vplic.set_vcpu_config([boot_core, 0]); /* vcpu0 ... pcpu";

pub const VPLIC_DEFAULT_1: &'static str = " */\n    vm.dev.register(0x0c00_0000, 0x0400_0000, vplic);\n";

/// A configured interrupt controller, between boot core, boot core, base and size.
pub const VPLIC_0: &'static str = "    let mut vplic = VPlic::new();\n    vplic.set_vcpu_config([";

pub const VPLIC_1: &'static str = ", 0]); /* vcpu0 ... pcpu";

pub const VPLIC_2: &'static str = " */\n    vm.dev.register(0x";

pub const VPLIC_3: &'static str = ", 0x";

pub const VPLIC_4: &'static str = ", vplic);\n";

/// A configured device of another kind: a note naming it and its base.
pub const TODO_0: &'static str = "    // TODO: Implement ";

pub const TODO_1: &'static str = " device at 0x";

pub const TODO_2: &'static str = "\n";

/// The handler registration and the run, between the six mentions of the machine type.
pub const TRAPS_0: &'static str = "    \n    /* Register interrupt/exception handler */\n    if vm.trap.register_traps(\n        &[\n            (TrapVector::SUPERVISOR_TIMER_INTERRUPT, do_supervisor_timer_interrupt_";

pub const TRAPS_1: &'static str = "),\n            (TrapVector::SUPERVISOR_EXTERNAL_INTERRUPT, do_supervisor_external_interrupt_";

pub const TRAPS_2: &'static str = "),\n            (TrapVector::ENVIRONMENT_CALL_FROM_VSMODE, do_ecall_from_vsmode_";

pub const TRAPS_3: &'static str = "),\n            (TrapVector::LOAD_GUEST_PAGE_FAULT, do_guest_load_page_fault_";

pub const TRAPS_4: &'static str = "),\n            (TrapVector::STORE_AMO_GUEST_PAGE_FAULT, do_guest_store_page_fault_";

pub const TRAPS_5: &'static str = "),\n            (TrapVector::INSTRUCTION_GUEST_PAGE_FAULT, do_guest_instruction_page_fault_";

pub const TRAPS_6: &'static str = "),\n        ]\n    ) == Err(()) { panic!(\"Fail to register trap\"); }\n\n    /* Run */\n    vm.run();\n}\n";

/// Nothing, for the parts that only some guests get.
pub const NOTHING: &'static str = "";

/// The OS name that selects the Linux variants.
pub const LINUX: &'static str = "linux";

/// The device names that stand for an interrupt controller.
pub const VPLIC_NAME: &'static str = "vplic";

pub const PLIC_NAME: &'static str = "plic";

/// The extension of a machine module file.
pub const MODULE_EXT: &'static str = ".rs";

// ---------------------------------------------------------------------------
// What a module holds
// ---------------------------------------------------------------------------

/// The machine type: the section name without its `vm_` prefix.
pub open spec fn vm_type_of(vm_name: Seq<char>) -> Seq<char> {
    if is_vm_key(vm_name) {
        vm_name.skip(3)
    } else {
        vm_name
    }
}

/// Whether the guest is Linux.
pub open spec fn is_linux(vm: VmConfigView) -> bool {
    vm.os == LINUX@
}

/// One of two texts.
pub open spec fn pick(cond: bool, yes: Seq<char>, no: Seq<char>) -> Seq<char> {
    if cond {
        yes
    } else {
        no
    }
}

/// The physical CPU of vCPU 0, or 0 where the machine maps none.
pub open spec fn boot_core_of(vm: VmConfigView) -> u64 {
    if vm.cpus.pcpu_mapping.len() > 0 {
        vm.cpus.pcpu_mapping[0]
    } else {
        0
    }
}

/// `before` followed by the trap handlers of a machine of type `t`.
pub open spec fn with_trap_handlers(before: Seq<char>, linux: bool, t: Seq<char>) -> Seq<char> {
    before + ECALL_0@ + t + ECALL_1@ + pick(linux, ECALL_LINUX@, ECALL_OTHER@) + HANDLER_END@
        + pick(linux, TOPADDR@, NOTHING@) + STORE_0@ + t + STORE_1@ + pick(
        linux,
        STORE_LINUX@,
        STORE_OTHER@,
    ) + HANDLER_END@ + LOAD_0@ + t + LOAD_1@ + pick(linux, LOAD_LINUX@, LOAD_OTHER@)
        + HANDLER_END@ + INSTR_0@ + t + INSTR_1@ + EXT_0@ + t + EXT_1@ + pick(
        linux,
        EXT_LINUX@,
        NOTHING@,
    ) + HANDLER_END@ + TIMER_0@ + t + TIMER_1@ + pick(linux, TIMER_LINUX@, TIMER_OTHER@)
        + HANDLER_END@
}

/// One configured memory region.
pub open spec fn memory_line(m: MemoryMapping) -> Seq<char> {
    MEM_LINE_0@ + hex(m.guest_base as nat) + MEM_LINE_SEP@ + hex(m.host_base as nat)
        + MEM_LINE_SEP@ + hex(m.size as nat) + MEM_LINE_END@
}

/// The configured memory regions, in order.
pub open spec fn memory_lines(ms: Seq<MemoryMapping>) -> Seq<char>
    decreases ms.len(),
{
    if ms.len() == 0 {
        Seq::empty()
    } else {
        memory_lines(ms.drop_last()) + memory_line(ms.last())
    }
}

/// The guest memory: the configured regions, or the guest's default ones.
pub open spec fn memory_text(linux: bool, ms: Seq<MemoryMapping>) -> Seq<char> {
    if ms.len() == 0 {
        pick(linux, MEM_LINUX_0@ + MEM_LINUX_1@ + MEM_LINUX_2@, MEM_DEFAULT@)
    } else {
        memory_lines(ms)
    }
}

/// Whether a device name stands for an interrupt controller.
pub open spec fn is_plic(device: Seq<char>) -> bool {
    device == VPLIC_NAME@ || device == PLIC_NAME@
}

/// One configured device.
pub open spec fn device_line(boot_core: u64, d: VDevConfigView) -> Seq<char> {
    if is_plic(d.device) {
        VPLIC_0@ + decimal(boot_core as nat) + VPLIC_1@ + decimal(boot_core as nat) + VPLIC_2@
            + hex(d.guest_base as nat) + VPLIC_3@ + hex(d.size as nat) + VPLIC_4@
    } else {
        TODO_0@ + d.device + TODO_1@ + hex(d.guest_base as nat) + TODO_2@
    }
}

/// The configured devices, in order.
pub open spec fn device_lines(boot_core: u64, ds: Seq<VDevConfigView>) -> Seq<char>
    decreases ds.len(),
{
    if ds.len() == 0 {
        Seq::empty()
    } else {
        device_lines(boot_core, ds.drop_last()) + device_line(boot_core, ds.last())
    }
}

/// The guest devices: the configured ones, or an interrupt controller at its
/// usual place.
pub open spec fn device_text(boot_core: u64, ds: Seq<VDevConfigView>) -> Seq<char> {
    if ds.len() == 0 {
        VPLIC_DEFAULT_0@ + decimal(boot_core as nat) + VPLIC_DEFAULT_1@
    } else {
        device_lines(boot_core, ds)
    }
}

/// `before` followed by the boot function of a machine of type `t`.
pub open spec fn with_boot_function(before: Seq<char>, vm: VmConfigView, t: Seq<char>) -> Seq<char> {
    let linux = is_linux(vm);
    let core = decimal(boot_core_of(vm) as nat);
    before + BOOT_0@ + t + BOOT_1@ + core + BOOT_2@ + core + BOOT_3@ + pick(
        linux,
        ENTRY_LINUX@,
        ENTRY_DEFAULT@,
    ) + BOOT_4@ + pick(linux, ARGS_LINUX@, ARGS_DEFAULT@) + BOOT_5@ + memory_text(linux, vm.memory)
        + MMU@ + MMIO@ + device_text(boot_core_of(vm), vm.vdev) + TRAPS_0@ + t + TRAPS_1@ + t
        + TRAPS_2@ + t + TRAPS_3@ + t + TRAPS_4@ + t + TRAPS_5@ + t + TRAPS_6@
}

/// The module of the machine in section `vm_name`: the imports, the trap
/// handlers, then the boot function.
pub open spec fn vm_module_text(vm: VmConfigView, vm_name: Seq<char>) -> Seq<char> {
    with_boot_function(
        with_trap_handlers(IMPORTS@, is_linux(vm), vm_type_of(vm_name)),
        vm,
        vm_type_of(vm_name),
    )
}

// ---------------------------------------------------------------------------
// Writing a module
// ---------------------------------------------------------------------------

/// One of two texts.
fn pick_text(cond: bool, yes: &'static str, no: &'static str) -> (r: &'static str)
    ensures
        r@ == pick(cond, yes@, no@),
{
    if cond {
        yes
    } else {
        no
    }
}

/// Whether a string is the given text.
fn text_is(s: &String, text: &str) -> (r: bool)
    ensures
        r == (s@ == text@),
{
    *s == String::from_str(text)
}

/// The machine type: the section name without its `vm_` prefix.
pub fn vm_type(vm_name: &String) -> (r: String)
    ensures
        r@ == vm_type_of(vm_name@),
{
    if is_vm_section(vm_name) {
        let s = vm_name.as_str();
        let rest = s.substring_char(3, s.unicode_len());
        proof {
            assert(vm_name@.subrange(3, vm_name@.len() as int) =~= vm_name@.skip(3));
        }
        String::from_str(rest)
    } else {
        vm_name.clone()
    }
}

/// Appends the trap handlers of a machine of type `t`.
fn append_trap_handlers(out: &mut String, linux: bool, t: &str)
    ensures
        final(out)@ == with_trap_handlers(old(out)@, linux, t@),
{
    out.append(ECALL_0);
    out.append(t);
    out.append(ECALL_1);
    out.append(pick_text(linux, ECALL_LINUX, ECALL_OTHER));
    out.append(HANDLER_END);
    out.append(pick_text(linux, TOPADDR, NOTHING));
    out.append(STORE_0);
    out.append(t);
    out.append(STORE_1);
    out.append(pick_text(linux, STORE_LINUX, STORE_OTHER));
    out.append(HANDLER_END);
    out.append(LOAD_0);
    out.append(t);
    out.append(LOAD_1);
    out.append(pick_text(linux, LOAD_LINUX, LOAD_OTHER));
    out.append(HANDLER_END);
    out.append(INSTR_0);
    out.append(t);
    out.append(INSTR_1);
    out.append(EXT_0);
    out.append(t);
    out.append(EXT_1);
    out.append(pick_text(linux, EXT_LINUX, NOTHING));
    out.append(HANDLER_END);
    out.append(TIMER_0);
    out.append(t);
    out.append(TIMER_1);
    out.append(pick_text(linux, TIMER_LINUX, TIMER_OTHER));
    out.append(HANDLER_END);
}

/// Appends the guest memory.
fn append_memory(out: &mut String, linux: bool, memory: &Vec<MemoryMapping>)
    ensures
        final(out)@ == old(out)@ + memory_text(linux, memory@),
{
    if memory.len() == 0 {
        if linux {
            out.append(MEM_LINUX_0);
            out.append(MEM_LINUX_1);
            out.append(MEM_LINUX_2);
            proof {
                assert(final(out)@ =~= old(out)@ + (MEM_LINUX_0@ + MEM_LINUX_1@ + MEM_LINUX_2@));
            }
        } else {
            out.append(MEM_DEFAULT);
        }
        return;
    }
    let mut i: usize = 0;
    proof {
        assert(memory@.take(0) =~= Seq::<MemoryMapping>::empty());
        assert(old(out)@ + memory_lines(memory@.take(0)) =~= old(out)@);
    }
    while i < memory.len()
        invariant
            0 <= i <= memory@.len(),
            out@ == old(out)@ + memory_lines(memory@.take(i as int)),
        decreases memory@.len() - i,
    {
        let m = memory[i];
        let ghost before = out@;
        out.append(MEM_LINE_0);
        append_hex(out, m.guest_base);
        out.append(MEM_LINE_SEP);
        append_hex(out, m.host_base);
        out.append(MEM_LINE_SEP);
        append_hex(out, m.size);
        out.append(MEM_LINE_END);
        proof {
            assert(memory@.take(i + 1).drop_last() =~= memory@.take(i as int));
            assert(out@ =~= before + memory_line(m));
        }
        i = i + 1;
    }
    proof {
        assert(memory@.take(i as int) =~= memory@);
    }
}

/// Appends one configured device.
fn append_device(out: &mut String, boot_core: u64, d: &VDevConfig)
    ensures
        final(out)@ == old(out)@ + device_line(boot_core, d@),
{
    if text_is(&d.device, VPLIC_NAME) || text_is(&d.device, PLIC_NAME) {
        out.append(VPLIC_0);
        append_decimal(out, boot_core);
        out.append(VPLIC_1);
        append_decimal(out, boot_core);
        out.append(VPLIC_2);
        append_hex(out, d.guest_base);
        out.append(VPLIC_3);
        append_hex(out, d.size);
        out.append(VPLIC_4);
        proof {
            assert(final(out)@ =~= old(out)@ + device_line(boot_core, d@));
        }
    } else {
        out.append(TODO_0);
        out.append(d.device.as_str());
        out.append(TODO_1);
        append_hex(out, d.guest_base);
        out.append(TODO_2);
        proof {
            assert(final(out)@ =~= old(out)@ + device_line(boot_core, d@));
        }
    }
}

/// Appends the guest devices.
fn append_devices(out: &mut String, boot_core: u64, vdev: &Vec<VDevConfig>)
    ensures
        final(out)@ == old(out)@ + device_text(boot_core, vdev@.map_values(|d: VDevConfig| d@)),
{
    let ghost ds = vdev@.map_values(|d: VDevConfig| d@);
    if vdev.len() == 0 {
        out.append(VPLIC_DEFAULT_0);
        append_decimal(out, boot_core);
        out.append(VPLIC_DEFAULT_1);
        return;
    }
    let mut i: usize = 0;
    proof {
        assert(ds.take(0) =~= Seq::<VDevConfigView>::empty());
        assert(old(out)@ + device_lines(boot_core, ds.take(0)) =~= old(out)@);
    }
    while i < vdev.len()
        invariant
            0 <= i <= vdev@.len(),
            ds == vdev@.map_values(|d: VDevConfig| d@),
            out@ == old(out)@ + device_lines(boot_core, ds.take(i as int)),
        decreases vdev@.len() - i,
    {
        let ghost before = out@;
        append_device(out, boot_core, &vdev[i]);
        proof {
            assert(ds.take(i + 1).drop_last() =~= ds.take(i as int));
            assert(ds.take(i + 1).last() == vdev@[i as int]@);
            assert(out@ =~= before + device_line(boot_core, ds.take(i + 1).last()));
        }
        i = i + 1;
    }
    proof {
        assert(ds.take(i as int) =~= ds);
    }
}

/// Appends the boot function of a machine of type `t`.
fn append_boot_function(out: &mut String, vm: &VmConfig, t: &str)
    ensures
        final(out)@ == with_boot_function(old(out)@, vm@, t@),
{
    let linux = text_is(&vm.os, LINUX);
    let boot_core: u64 = if vm.cpus.pcpu_mapping.len() > 0 {
        vm.cpus.pcpu_mapping[0]
    } else {
        0
    };
    out.append(BOOT_0);
    out.append(t);
    out.append(BOOT_1);
    append_decimal(out, boot_core);
    out.append(BOOT_2);
    append_decimal(out, boot_core);
    out.append(BOOT_3);
    out.append(pick_text(linux, ENTRY_LINUX, ENTRY_DEFAULT));
    out.append(BOOT_4);
    out.append(pick_text(linux, ARGS_LINUX, ARGS_DEFAULT));
    out.append(BOOT_5);
    append_memory(out, linux, &vm.memory);
    out.append(MMU);
    out.append(MMIO);
    append_devices(out, boot_core, &vm.vdev);
    out.append(TRAPS_0);
    out.append(t);
    out.append(TRAPS_1);
    out.append(t);
    out.append(TRAPS_2);
    out.append(t);
    out.append(TRAPS_3);
    out.append(t);
    out.append(TRAPS_4);
    out.append(t);
    out.append(TRAPS_5);
    out.append(t);
    out.append(TRAPS_6);
}

/// The module of the machine in section `vm_name`: its imports, its trap
/// handlers and its boot function.
pub fn create_vm_module_content(vm: &VmConfig, vm_name: &String) -> (r: String)
    ensures
        r@ == vm_module_text(vm@, vm_name@),
{
    let t = vm_type(vm_name);
    let linux = text_is(&vm.os, LINUX);
    let mut content = String::from_str(IMPORTS);
    append_trap_handlers(&mut content, linux, t.as_str());
    append_boot_function(&mut content, vm, t.as_str());
    proof {
        assert(content@ =~= vm_module_text(vm@, vm_name@));
    }
    content
}

/// The step that writes the module of the machine in section `vm_name`.
pub open spec fn vm_module_step(path: Seq<char>, vm_name: Seq<char>, vm: VmConfigView) -> StepView {
    StepView::WriteFile {
        path: join(join(path, "src"@), vm_type_of(vm_name) + MODULE_EXT@),
        content: vm_module_text(vm, vm_name),
    }
}

/// The step that writes the module of the machine in section `vm_name` into
/// the project at `path`: `src/<machine type>.rs`.
pub fn generate_vm_module_file(path: &str, vm: &VmConfig, vm_name: &String) -> (r: Step)
    ensures
        r@ == vm_module_step(path@, vm_name@, vm@),
{
    let content = create_vm_module_content(vm, vm_name);
    let file_name = vm_type(vm_name).concat(MODULE_EXT);
    let src_dir = join_path(path, "src");
    let module_file = join_path(src_dir.as_str(), file_name.as_str());
    Step::WriteFile { path: module_file, content }
}

// ---------------------------------------------------------------------------
// Laws
// ---------------------------------------------------------------------------

proof fn lemma_memory_lines_concat(a: Seq<MemoryMapping>, b: Seq<MemoryMapping>)
    ensures
        memory_lines(a + b) == memory_lines(a) + memory_lines(b),
    decreases b.len(),
{
    if b.len() == 0 {
        assert(a + b =~= a);
        assert(memory_lines(a) + memory_lines(b) =~= memory_lines(a));
    } else {
        lemma_memory_lines_concat(a, b.drop_last());
        assert((a + b).drop_last() =~= a + b.drop_last());
        assert((a + b).last() == b.last());
        assert(memory_lines(a + b) =~= memory_lines(a) + memory_lines(b));
    }
}

/// With configured memory regions, the memory part of a machine's boot function
/// registers every region once, in order: the text is the lines of the regions
/// before region `i`, then the line of region `i`, which registers its guest
/// base, host base and size in hexadecimal, then the lines of the regions after it.
pub proof fn law_memory_regions_in_order(linux: bool, ms: Seq<MemoryMapping>, i: int)
    requires
        0 <= i < ms.len(),
    ensures
        memory_text(linux, ms) == memory_lines(ms.take(i)) + ("    vm.mem.register(0x"@ + hex(
            ms[i].guest_base as nat,
        ) + ", 0x"@ + hex(ms[i].host_base as nat) + ", 0x"@ + hex(ms[i].size as nat) + ");\n"@)
            + memory_lines(ms.skip(i + 1)),
{
    let before = ms.take(i);
    let after = ms.skip(i + 1);
    assert(ms =~= before + seq![ms[i]] + after);
    lemma_memory_lines_concat(before + seq![ms[i]], after);
    lemma_memory_lines_concat(before, seq![ms[i]]);
    assert(seq![ms[i]].drop_last() =~= Seq::<MemoryMapping>::empty());
    let one = seq![ms[i]];
    assert(one.drop_last() =~= Seq::<MemoryMapping>::empty());
    assert(memory_lines(one.drop_last()) == Seq::<char>::empty());
    assert(one.last() == ms[i]);
    assert(memory_lines(one) == memory_lines(one.drop_last()) + memory_line(one.last()));
    assert(memory_lines(one) =~= memory_line(ms[i]));
    assert(MEM_LINE_0@ == "    vm.mem.register(0x"@);
    assert(MEM_LINE_SEP@ == ", 0x"@);
    assert(MEM_LINE_END@ == ");\n"@);
    assert(memory_lines(ms) =~= memory_lines(before) + memory_line(ms[i]) + memory_lines(after));
}

proof fn lemma_device_lines_concat(core: u64, a: Seq<VDevConfigView>, b: Seq<VDevConfigView>)
    ensures
        device_lines(core, a + b) == device_lines(core, a) + device_lines(core, b),
    decreases b.len(),
{
    if b.len() == 0 {
        assert(a + b =~= a);
        assert(device_lines(core, a) + device_lines(core, b) =~= device_lines(core, a));
    } else {
        lemma_device_lines_concat(core, a, b.drop_last());
        assert((a + b).drop_last() =~= a + b.drop_last());
        assert((a + b).last() == b.last());
        assert(device_lines(core, a + b) =~= device_lines(core, a) + device_lines(core, b));
    }
}

/// With configured devices, the device part of a machine's boot function treats
/// every device once, in order: the text is the lines of the devices before
/// device `i`, then device `i`'s own lines, then the lines of those after it.
/// An interrupt controller (`vplic` or `plic`) is created with the boot core and
/// registered at its guest base and size; any other device gets a note naming it
/// and its guest base.
pub proof fn law_devices_in_order(core: u64, ds: Seq<VDevConfigView>, i: int)
    requires
        0 <= i < ds.len(),
    ensures
        device_text(core, ds) == device_lines(core, ds.take(i)) + (if ds[i].device == "vplic"@
            || ds[i].device == "plic"@ {
            "    let mut vplic = VPlic::new();\n    vplic.set_vcpu_config(["@ + decimal(core as nat)
                + ", 0]); /* vcpu0 ... pcpu"@ + decimal(core as nat)
                + " */\n    vm.dev.register(0x"@ + hex(ds[i].guest_base as nat) + ", 0x"@ + hex(
                ds[i].size as nat,
            ) + ", vplic);\n"@
        } else {
            "    // TODO: Implement "@ + ds[i].device + " device at 0x"@ + hex(
                ds[i].guest_base as nat,
            ) + "\n"@
        }) + device_lines(core, ds.skip(i + 1)),
{
    let before = ds.take(i);
    let after = ds.skip(i + 1);
    assert(ds =~= before + seq![ds[i]] + after);
    lemma_device_lines_concat(core, before + seq![ds[i]], after);
    lemma_device_lines_concat(core, before, seq![ds[i]]);
    let one = seq![ds[i]];
    assert(one.drop_last() =~= Seq::<VDevConfigView>::empty());
    assert(device_lines(core, one.drop_last()) == Seq::<char>::empty());
    assert(one.last() == ds[i]);
    assert(device_lines(core, one) == device_lines(core, one.drop_last()) + device_line(
        core,
        one.last(),
    ));
    assert(device_lines(core, one) =~= device_line(core, ds[i]));
    assert(VPLIC_NAME@ == "vplic"@);
    assert(PLIC_NAME@ == "plic"@);
    assert(VPLIC_0@ == "    let mut vplic = VPlic::new();\n    vplic.set_vcpu_config(["@);
    assert(VPLIC_1@ == ", 0]); /* vcpu0 ... pcpu"@);
    assert(VPLIC_2@ == " */\n    vm.dev.register(0x"@);
    assert(VPLIC_3@ == ", 0x"@);
    assert(VPLIC_4@ == ", vplic);\n"@);
    assert(TODO_0@ == "    // TODO: Implement "@);
    assert(TODO_1@ == " device at 0x"@);
    assert(TODO_2@ == "\n"@);
    assert(device_lines(core, ds) =~= device_lines(core, before) + device_line(core, ds[i])
        + device_lines(core, after));
}

/// The machine type of section `vm_<t>` is `t`; a name that does not begin with
/// `vm_` is its own machine type.
pub proof fn law_vm_type(t: Seq<char>, name: Seq<char>)
    ensures
        vm_type_of("vm_"@ + t) == t,
        !(name.len() >= 3 && name[0] == 'v' && name[1] == 'm' && name[2] == '_')
            ==> vm_type_of(name) == name,
{
    reveal_strlit("vm_");
    assert(("vm_"@ + t).skip(3) =~= t);
}

} // verus!
