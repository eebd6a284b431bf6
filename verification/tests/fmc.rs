use fmc_hal::fmc::{Fmc, FmcBlock};
use fmc_hal::pins::{
    certified_pin, is_certified, is_required, role_of_index, BankConfig, Pin, PinAssignment,
    PinSet, Port, SignalRole, TargetBank, FMC_ALTERNATE_FUNCTION, MAX_ADDRESS_WIDTH, ROLE_COUNT,
};
use fmc_hal::rcc::{ClockControl, Clocks, FMC_CLOCK_ENABLE_BIT};
use fmc_hal::time::Hertz;

fn pin(port: Port, index: u8) -> Pin {
    Pin { port, index }
}

/// One certified assignment per role the configuration requires.
fn full_choices(cfg: BankConfig) -> Vec<PinAssignment> {
    let mut choices = Vec::new();
    let mut i = 0;
    while i < ROLE_COUNT {
        let role = role_of_index(i);
        if is_required(cfg, role) {
            choices.push(PinAssignment {
                role,
                pin: certified_pin(role),
                af: FMC_ALTERNATE_FUNCTION,
            });
        }
        i += 1;
    }
    choices
}

fn adapter(ahb3enr: u32, hz: u32) -> Fmc {
    Fmc::new(
        FmcBlock::new(),
        ClockControl::new(ahb3enr),
        Clocks::new(Hertz::from_raw(hz)),
    )
}

#[test]
fn registry_matches_device_table() {
    let table = [
        (SignalRole::A0, Port::F, 0),
        (SignalRole::A1, Port::F, 1),
        (SignalRole::A2, Port::F, 2),
        (SignalRole::A3, Port::F, 3),
        (SignalRole::A4, Port::F, 4),
        (SignalRole::A5, Port::F, 5),
        (SignalRole::A6, Port::F, 12),
        (SignalRole::A7, Port::F, 13),
        (SignalRole::A8, Port::F, 14),
        (SignalRole::A9, Port::F, 15),
        (SignalRole::A10, Port::G, 0),
        (SignalRole::A11, Port::G, 1),
        (SignalRole::D0, Port::D, 14),
        (SignalRole::D1, Port::D, 15),
        (SignalRole::D2, Port::D, 0),
        (SignalRole::D3, Port::D, 1),
        (SignalRole::D4, Port::E, 7),
        (SignalRole::D5, Port::E, 8),
        (SignalRole::D6, Port::E, 9),
        (SignalRole::D7, Port::E, 10),
        (SignalRole::D8, Port::E, 11),
        (SignalRole::D9, Port::E, 12),
        (SignalRole::D10, Port::E, 13),
        (SignalRole::D11, Port::E, 14),
        (SignalRole::D12, Port::E, 15),
        (SignalRole::D13, Port::D, 8),
        (SignalRole::D14, Port::D, 9),
        (SignalRole::D15, Port::D, 10),
        (SignalRole::NBL0, Port::E, 0),
        (SignalRole::NBL1, Port::E, 1),
        (SignalRole::NE1, Port::D, 7),
        (SignalRole::NE2, Port::G, 9),
        (SignalRole::NE3, Port::G, 10),
        (SignalRole::NOE, Port::D, 4),
        (SignalRole::NWE, Port::D, 5),
        (SignalRole::NWAIT, Port::D, 6),
        (SignalRole::CLK, Port::D, 3),
    ];
    assert_eq!(table.len(), ROLE_COUNT);
    for (role, port, index) in table {
        assert_eq!(certified_pin(role), pin(port, index));
        assert!(is_certified(role, pin(port, index), FMC_ALTERNATE_FUNCTION));
    }
}

#[test]
fn every_required_role_has_a_certified_pin() {
    for bank in [TargetBank::Bank1, TargetBank::Bank2, TargetBank::Bank3] {
        for width in 1..=MAX_ADDRESS_WIDTH {
            let cfg = BankConfig {
                bank,
                address_width: width,
            };
            let mut required = 0;
            let mut i = 0;
            while i < ROLE_COUNT {
                let role = role_of_index(i);
                if is_required(cfg, role) {
                    required += 1;
                    assert!(is_certified(role, certified_pin(role), FMC_ALTERNATE_FUNCTION));
                }
                i += 1;
            }
            // 16 data lines, 2 byte-lane enables, 1 chip select, NOE, NWE,
            // CLK, plus the used address lines.
            assert_eq!(required, 22 + width as usize);
        }
    }
}

#[test]
fn no_pin_certified_for_two_roles() {
    let mut i = 0;
    while i < ROLE_COUNT {
        let mut j = i + 1;
        while j < ROLE_COUNT {
            assert_ne!(
                certified_pin(role_of_index(i)),
                certified_pin(role_of_index(j))
            );
            j += 1;
        }
        i += 1;
    }
}

#[test]
fn enable_sets_only_the_enable_bit() {
    let mut fmc = adapter(0b1010_0000, 48_000_000);
    fmc.enable();
    assert_eq!(fmc.rcc.ahb3enr, 0b1010_0001);
    assert_eq!(fmc.rcc.ahb3enr & FMC_CLOCK_ENABLE_BIT, FMC_CLOCK_ENABLE_BIT);
    assert_eq!(fmc.rcc.ahb3enr & !FMC_CLOCK_ENABLE_BIT, 0b1010_0000);
}

#[test]
fn enable_twice_is_idempotent() {
    let mut fmc = adapter(0xFFFF_FF00, 48_000_000);
    fmc.enable();
    let once = fmc.rcc.ahb3enr;
    fmc.enable();
    assert_eq!(fmc.rcc.ahb3enr, once);
    assert_eq!(fmc.rcc.ahb3enr, 0xFFFF_FF01);
}

#[test]
fn memory_controller_enable_has_no_register_effect() {
    let mut fmc = adapter(0x42, 48_000_000);
    let before = fmc.rcc.ahb3enr;
    let hz_before = fmc.source_clock_hz();
    fmc.memory_controller_enable();
    fmc.memory_controller_enable();
    assert_eq!(fmc.rcc.ahb3enr, before);
    assert_eq!(fmc.source_clock_hz(), hz_before);
}

#[test]
fn source_clock_reads_the_snapshot_only() {
    let mut live_hclk: u32 = 123_456_789;
    let clocks = Clocks::new(Hertz::from_raw(live_hclk));
    let fmc = Fmc::new(FmcBlock::new(), ClockControl::new(0), clocks);
    // A later change of the live clock source must not show through the
    // snapshot taken at construction.
    live_hclk = 1_000_000;
    assert_eq!(fmc.source_clock_hz(), 123_456_789);
    assert_ne!(fmc.source_clock_hz(), live_hclk);
}

#[test]
fn adapter_reports_exact_bus_frequency() {
    let clocks = Clocks::new(Hertz::from_raw(200_000_000));
    let fmc = Fmc::new(FmcBlock::new(), ClockControl::new(0), clocks);
    assert_eq!(fmc.source_clock_hz(), 200_000_000);
}

#[test]
fn assemble_accepts_documented_wiring() {
    let cfg = BankConfig {
        bank: TargetBank::Bank1,
        address_width: 12,
    };
    let pin_set = PinSet::assemble(cfg, full_choices(cfg)).expect("documented wiring");
    assert!(pin_set.is_certified_set());
    assert_eq!(pin_set.bank(), TargetBank::Bank1);
    assert_eq!(pin_set.address_width(), 12);

    let setup = Fmc::sdram(
        FmcBlock::new(),
        pin_set,
        Clocks::new(Hertz::from_raw(200_000_000)),
        ClockControl::new(0),
    );
    assert_eq!(setup.bank, TargetBank::Bank1);
    assert_eq!(setup.fmc.source_clock_hz(), 200_000_000);
}

#[test]
fn uncertified_clock_pin_is_rejected() {
    let cfg = BankConfig {
        bank: TargetBank::Bank1,
        address_width: 12,
    };
    let mut choices = full_choices(cfg);
    for a in choices.iter_mut() {
        if a.role == SignalRole::CLK {
            a.pin = pin(Port::A, 0);
        }
    }
    // The substituted clock pin is not in the registry: no pin set, and so no
    // adapter, can come out of the checked path.
    assert!(PinSet::assemble(cfg, choices).is_none());
}

#[test]
fn wrong_alternate_function_is_rejected() {
    let cfg = BankConfig {
        bank: TargetBank::Bank2,
        address_width: 11,
    };
    let mut choices = full_choices(cfg);
    choices[0].af = 11;
    assert!(PinSet::assemble(cfg, choices).is_none());
}

#[test]
fn doubly_claimed_role_is_rejected() {
    let cfg = BankConfig {
        bank: TargetBank::Bank1,
        address_width: 2,
    };
    let mut choices = full_choices(cfg);
    choices.push(PinAssignment {
        role: SignalRole::D0,
        pin: certified_pin(SignalRole::D0),
        af: FMC_ALTERNATE_FUNCTION,
    });
    assert!(PinSet::assemble(cfg, choices).is_none());
}

#[test]
fn missing_required_role_is_rejected() {
    let cfg = BankConfig {
        bank: TargetBank::Bank1,
        address_width: 2,
    };
    let choices: Vec<PinAssignment> = full_choices(cfg)
        .into_iter()
        .filter(|a| a.role != SignalRole::NWE)
        .collect();
    assert!(PinSet::assemble(cfg, choices).is_none());
}

#[test]
fn wait_line_is_optional_but_accepted() {
    let cfg = BankConfig {
        bank: TargetBank::Bank3,
        address_width: 1,
    };
    let mut choices = full_choices(cfg);
    assert!(choices.iter().all(|a| a.role != SignalRole::NWAIT));
    choices.push(PinAssignment {
        role: SignalRole::NWAIT,
        pin: certified_pin(SignalRole::NWAIT),
        af: FMC_ALTERNATE_FUNCTION,
    });
    assert!(PinSet::assemble(cfg, choices).is_some());
}

#[test]
fn out_of_range_address_width_is_rejected() {
    for width in [0, MAX_ADDRESS_WIDTH + 1] {
        let cfg = BankConfig {
            bank: TargetBank::Bank1,
            address_width: width,
        };
        let choices = full_choices(cfg);
        assert!(PinSet::assemble(cfg, choices).is_none());
    }
}

#[test]
fn unchecked_path_carries_the_raw_bank() {
    let setup = Fmc::sdram_unchecked(
        FmcBlock::new(),
        TargetBank::Bank2,
        Clocks::new(Hertz::from_raw(100_000_000)),
        ClockControl::new(0x8),
    );
    assert_eq!(setup.bank, TargetBank::Bank2);
    assert_eq!(setup.fmc.source_clock_hz(), 100_000_000);
    assert_eq!(setup.fmc.rcc.ahb3enr, 0x8);
}
