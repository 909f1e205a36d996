use sgx_panic_unwind::registers::{unwind_data_reg, Arch, RegisterPair};

#[test]
fn x86_uses_eax_and_edx() {
    assert_eq!(unwind_data_reg(Arch::X86), RegisterPair { primary: 0, secondary: 2 });
}

#[test]
fn x86_64_uses_rax_and_rdx() {
    assert_eq!(unwind_data_reg(Arch::X86_64), RegisterPair { primary: 0, secondary: 1 });
}

#[test]
fn every_architecture_matches_the_table() {
    let table = [(Arch::X86, 0, 2), (Arch::X86_64, 0, 1)];
    for (arch, primary, secondary) in table {
        let pair = unwind_data_reg(arch);
        assert_eq!(pair.primary, primary);
        assert_eq!(pair.secondary, secondary);
        assert_ne!(pair.primary, pair.secondary);
    }
}
