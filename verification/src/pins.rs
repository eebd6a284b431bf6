//! The pin-capability registry.
//!
//! The device's documentation fixes, for every FMC signal role, which physical
//! pin may carry it and in which alternate-function configuration. This module
//! states that table once, as a total map from role to certified pin, and
//! offers a checked way to assemble a pin set for a chosen bank /
//! address-width configuration. A pin set is accepted only when every role the
//! configuration requires is covered by exactly one certified assignment.

use vstd::prelude::*;

verus! {

/// The alternate-function multiplexer setting every FMC pin must be placed in.
pub const FMC_ALTERNATE_FUNCTION: u8 = 12;

/// How many signal roles the registry declares.
pub const ROLE_COUNT: usize = 37;

/// The widest address bus the registry has pins for.
pub const MAX_ADDRESS_WIDTH: u8 = 12;

/// A GPIO port of the device.
#[derive(Clone, Copy, PartialEq, Eq, Structural, Debug)]
pub enum Port {
    A,
    B,
    C,
    D,
    E,
    F,
    G,
    H,
}

/// A physical pin, identified by port and pin number.
#[derive(Clone, Copy, PartialEq, Eq, Structural, Debug)]
pub struct Pin {
    pub port: Port,
    pub index: u8,
}

/// One logical FMC signal: an address bit, a data bit, a byte-lane enable, a
/// chip select, output enable, write enable, the wait input or the clock
/// output.
#[derive(Clone, Copy, PartialEq, Eq, Structural, Debug)]
pub enum SignalRole {
    A0,
    A1,
    A2,
    A3,
    A4,
    A5,
    A6,
    A7,
    A8,
    A9,
    A10,
    A11,
    D0,
    D1,
    D2,
    D3,
    D4,
    D5,
    D6,
    D7,
    D8,
    D9,
    D10,
    D11,
    D12,
    D13,
    D14,
    D15,
    NBL0,
    NBL1,
    NE1,
    NE2,
    NE3,
    NOE,
    NWE,
    NWAIT,
    CLK,
}

/// Which external memory bank a configuration drives; bank `k` is selected
/// through chip-select line `NEk`.
#[derive(Clone, Copy, PartialEq, Eq, Structural, Debug)]
pub enum TargetBank {
    Bank1,
    Bank2,
    Bank3,
}

/// A bank / address-width configuration chosen by the caller. Address lines
/// `A0 .. A(address_width - 1)` are used; the rest stay unwired.
#[derive(Clone, Copy, PartialEq, Eq, Structural, Debug)]
pub struct BankConfig {
    pub bank: TargetBank,
    pub address_width: u8,
}

impl BankConfig {
    /// A configuration is meaningful when it uses at least one and at most
    /// `MAX_ADDRESS_WIDTH` address lines.
    pub open spec fn wf(&self) -> bool {
        1 <= self.address_width <= MAX_ADDRESS_WIDTH
    }

    /// Runtime check of [`BankConfig::wf`].
    pub fn is_wf(&self) -> (r: bool)
        ensures
            r == self.wf(),
    {
        1 <= self.address_width && self.address_width <= MAX_ADDRESS_WIDTH
    }
}

/// The device pinout table: the one pin certified to carry each signal role.
pub open spec fn spec_certified_pin(role: SignalRole) -> Pin {
    match role {
        SignalRole::A0 => Pin { port: Port::F, index: 0 },
        SignalRole::A1 => Pin { port: Port::F, index: 1 },
        SignalRole::A2 => Pin { port: Port::F, index: 2 },
        SignalRole::A3 => Pin { port: Port::F, index: 3 },
        SignalRole::A4 => Pin { port: Port::F, index: 4 },
        SignalRole::A5 => Pin { port: Port::F, index: 5 },
        SignalRole::A6 => Pin { port: Port::F, index: 12 },
        SignalRole::A7 => Pin { port: Port::F, index: 13 },
        SignalRole::A8 => Pin { port: Port::F, index: 14 },
        SignalRole::A9 => Pin { port: Port::F, index: 15 },
        SignalRole::A10 => Pin { port: Port::G, index: 0 },
        SignalRole::A11 => Pin { port: Port::G, index: 1 },
        SignalRole::D0 => Pin { port: Port::D, index: 14 },
        SignalRole::D1 => Pin { port: Port::D, index: 15 },
        SignalRole::D2 => Pin { port: Port::D, index: 0 },
        SignalRole::D3 => Pin { port: Port::D, index: 1 },
        SignalRole::D4 => Pin { port: Port::E, index: 7 },
        SignalRole::D5 => Pin { port: Port::E, index: 8 },
        SignalRole::D6 => Pin { port: Port::E, index: 9 },
        SignalRole::D7 => Pin { port: Port::E, index: 10 },
        SignalRole::D8 => Pin { port: Port::E, index: 11 },
        SignalRole::D9 => Pin { port: Port::E, index: 12 },
        SignalRole::D10 => Pin { port: Port::E, index: 13 },
        SignalRole::D11 => Pin { port: Port::E, index: 14 },
        SignalRole::D12 => Pin { port: Port::E, index: 15 },
        SignalRole::D13 => Pin { port: Port::D, index: 8 },
        SignalRole::D14 => Pin { port: Port::D, index: 9 },
        SignalRole::D15 => Pin { port: Port::D, index: 10 },
        SignalRole::NBL0 => Pin { port: Port::E, index: 0 },
        SignalRole::NBL1 => Pin { port: Port::E, index: 1 },
        SignalRole::NE1 => Pin { port: Port::D, index: 7 },
        SignalRole::NE2 => Pin { port: Port::G, index: 9 },
        SignalRole::NE3 => Pin { port: Port::G, index: 10 },
        SignalRole::NOE => Pin { port: Port::D, index: 4 },
        SignalRole::NWE => Pin { port: Port::D, index: 5 },
        SignalRole::NWAIT => Pin { port: Port::D, index: 6 },
        SignalRole::CLK => Pin { port: Port::D, index: 3 },
    }
}

/// Runtime lookup of the certified pin for a role.
pub fn certified_pin(role: SignalRole) -> (r: Pin)
    ensures
        r == spec_certified_pin(role),
{
    match role {
        SignalRole::A0 => Pin { port: Port::F, index: 0 },
        SignalRole::A1 => Pin { port: Port::F, index: 1 },
        SignalRole::A2 => Pin { port: Port::F, index: 2 },
        SignalRole::A3 => Pin { port: Port::F, index: 3 },
        SignalRole::A4 => Pin { port: Port::F, index: 4 },
        SignalRole::A5 => Pin { port: Port::F, index: 5 },
        SignalRole::A6 => Pin { port: Port::F, index: 12 },
        SignalRole::A7 => Pin { port: Port::F, index: 13 },
        SignalRole::A8 => Pin { port: Port::F, index: 14 },
        SignalRole::A9 => Pin { port: Port::F, index: 15 },
        SignalRole::A10 => Pin { port: Port::G, index: 0 },
        SignalRole::A11 => Pin { port: Port::G, index: 1 },
        SignalRole::D0 => Pin { port: Port::D, index: 14 },
        SignalRole::D1 => Pin { port: Port::D, index: 15 },
        SignalRole::D2 => Pin { port: Port::D, index: 0 },
        SignalRole::D3 => Pin { port: Port::D, index: 1 },
        SignalRole::D4 => Pin { port: Port::E, index: 7 },
        SignalRole::D5 => Pin { port: Port::E, index: 8 },
        SignalRole::D6 => Pin { port: Port::E, index: 9 },
        SignalRole::D7 => Pin { port: Port::E, index: 10 },
        SignalRole::D8 => Pin { port: Port::E, index: 11 },
        SignalRole::D9 => Pin { port: Port::E, index: 12 },
        SignalRole::D10 => Pin { port: Port::E, index: 13 },
        SignalRole::D11 => Pin { port: Port::E, index: 14 },
        SignalRole::D12 => Pin { port: Port::E, index: 15 },
        SignalRole::D13 => Pin { port: Port::D, index: 8 },
        SignalRole::D14 => Pin { port: Port::D, index: 9 },
        SignalRole::D15 => Pin { port: Port::D, index: 10 },
        SignalRole::NBL0 => Pin { port: Port::E, index: 0 },
        SignalRole::NBL1 => Pin { port: Port::E, index: 1 },
        SignalRole::NE1 => Pin { port: Port::D, index: 7 },
        SignalRole::NE2 => Pin { port: Port::G, index: 9 },
        SignalRole::NE3 => Pin { port: Port::G, index: 10 },
        SignalRole::NOE => Pin { port: Port::D, index: 4 },
        SignalRole::NWE => Pin { port: Port::D, index: 5 },
        SignalRole::NWAIT => Pin { port: Port::D, index: 6 },
        SignalRole::CLK => Pin { port: Port::D, index: 3 },
    }
}

/// Whether the registry certifies `pin`, in configuration `af`, for `role`.
pub open spec fn spec_certifies(role: SignalRole, pin: Pin, af: u8) -> bool {
    pin == spec_certified_pin(role) && af == FMC_ALTERNATE_FUNCTION
}

/// Runtime check of [`spec_certifies`].
pub fn is_certified(role: SignalRole, pin: Pin, af: u8) -> (r: bool)
    ensures
        r == spec_certifies(role, pin, af),
{
    let cp = certified_pin(role);
    pin == cp && af == FMC_ALTERNATE_FUNCTION
}

/// Which roles a configuration requires: the used address lines, the full
/// 16-bit data bus, both byte-lane enables, the chip select of the chosen
/// bank, output enable, write enable and the clock output. The wait input is
/// never mandatory.
pub open spec fn spec_required(cfg: BankConfig, role: SignalRole) -> bool {
    match role {
        SignalRole::A0 => 0 < cfg.address_width,
        SignalRole::A1 => 1 < cfg.address_width,
        SignalRole::A2 => 2 < cfg.address_width,
        SignalRole::A3 => 3 < cfg.address_width,
        SignalRole::A4 => 4 < cfg.address_width,
        SignalRole::A5 => 5 < cfg.address_width,
        SignalRole::A6 => 6 < cfg.address_width,
        SignalRole::A7 => 7 < cfg.address_width,
        SignalRole::A8 => 8 < cfg.address_width,
        SignalRole::A9 => 9 < cfg.address_width,
        SignalRole::A10 => 10 < cfg.address_width,
        SignalRole::A11 => 11 < cfg.address_width,
        SignalRole::D0 => true,
        SignalRole::D1 => true,
        SignalRole::D2 => true,
        SignalRole::D3 => true,
        SignalRole::D4 => true,
        SignalRole::D5 => true,
        SignalRole::D6 => true,
        SignalRole::D7 => true,
        SignalRole::D8 => true,
        SignalRole::D9 => true,
        SignalRole::D10 => true,
        SignalRole::D11 => true,
        SignalRole::D12 => true,
        SignalRole::D13 => true,
        SignalRole::D14 => true,
        SignalRole::D15 => true,
        SignalRole::NBL0 => true,
        SignalRole::NBL1 => true,
        SignalRole::NE1 => cfg.bank == TargetBank::Bank1,
        SignalRole::NE2 => cfg.bank == TargetBank::Bank2,
        SignalRole::NE3 => cfg.bank == TargetBank::Bank3,
        SignalRole::NOE => true,
        SignalRole::NWE => true,
        SignalRole::NWAIT => false,
        SignalRole::CLK => true,
    }
}

/// Runtime check of [`spec_required`].
pub fn is_required(cfg: BankConfig, role: SignalRole) -> (r: bool)
    ensures
        r == spec_required(cfg, role),
{
    match role {
        SignalRole::A0 => 0 < cfg.address_width,
        SignalRole::A1 => 1 < cfg.address_width,
        SignalRole::A2 => 2 < cfg.address_width,
        SignalRole::A3 => 3 < cfg.address_width,
        SignalRole::A4 => 4 < cfg.address_width,
        SignalRole::A5 => 5 < cfg.address_width,
        SignalRole::A6 => 6 < cfg.address_width,
        SignalRole::A7 => 7 < cfg.address_width,
        SignalRole::A8 => 8 < cfg.address_width,
        SignalRole::A9 => 9 < cfg.address_width,
        SignalRole::A10 => 10 < cfg.address_width,
        SignalRole::A11 => 11 < cfg.address_width,
        SignalRole::D0 => true,
        SignalRole::D1 => true,
        SignalRole::D2 => true,
        SignalRole::D3 => true,
        SignalRole::D4 => true,
        SignalRole::D5 => true,
        SignalRole::D6 => true,
        SignalRole::D7 => true,
        SignalRole::D8 => true,
        SignalRole::D9 => true,
        SignalRole::D10 => true,
        SignalRole::D11 => true,
        SignalRole::D12 => true,
        SignalRole::D13 => true,
        SignalRole::D14 => true,
        SignalRole::D15 => true,
        SignalRole::NBL0 => true,
        SignalRole::NBL1 => true,
        SignalRole::NE1 => cfg.bank == TargetBank::Bank1,
        SignalRole::NE2 => cfg.bank == TargetBank::Bank2,
        SignalRole::NE3 => cfg.bank == TargetBank::Bank3,
        SignalRole::NOE => true,
        SignalRole::NWE => true,
        SignalRole::NWAIT => false,
        SignalRole::CLK => true,
    }
}

/// A fixed numbering of the signal roles, used to walk the whole registry.
pub open spec fn spec_role_index(role: SignalRole) -> int {
    match role {
        SignalRole::A0 => 0,
        SignalRole::A1 => 1,
        SignalRole::A2 => 2,
        SignalRole::A3 => 3,
        SignalRole::A4 => 4,
        SignalRole::A5 => 5,
        SignalRole::A6 => 6,
        SignalRole::A7 => 7,
        SignalRole::A8 => 8,
        SignalRole::A9 => 9,
        SignalRole::A10 => 10,
        SignalRole::A11 => 11,
        SignalRole::D0 => 12,
        SignalRole::D1 => 13,
        SignalRole::D2 => 14,
        SignalRole::D3 => 15,
        SignalRole::D4 => 16,
        SignalRole::D5 => 17,
        SignalRole::D6 => 18,
        SignalRole::D7 => 19,
        SignalRole::D8 => 20,
        SignalRole::D9 => 21,
        SignalRole::D10 => 22,
        SignalRole::D11 => 23,
        SignalRole::D12 => 24,
        SignalRole::D13 => 25,
        SignalRole::D14 => 26,
        SignalRole::D15 => 27,
        SignalRole::NBL0 => 28,
        SignalRole::NBL1 => 29,
        SignalRole::NE1 => 30,
        SignalRole::NE2 => 31,
        SignalRole::NE3 => 32,
        SignalRole::NOE => 33,
        SignalRole::NWE => 34,
        SignalRole::NWAIT => 35,
        SignalRole::CLK => 36,
    }
}

/// The inverse of [`spec_role_index`].
pub open spec fn spec_role_of_index(i: int) -> SignalRole {
    if i == 0 {
        SignalRole::A0
    } else if i == 1 {
        SignalRole::A1
    } else if i == 2 {
        SignalRole::A2
    } else if i == 3 {
        SignalRole::A3
    } else if i == 4 {
        SignalRole::A4
    } else if i == 5 {
        SignalRole::A5
    } else if i == 6 {
        SignalRole::A6
    } else if i == 7 {
        SignalRole::A7
    } else if i == 8 {
        SignalRole::A8
    } else if i == 9 {
        SignalRole::A9
    } else if i == 10 {
        SignalRole::A10
    } else if i == 11 {
        SignalRole::A11
    } else if i == 12 {
        SignalRole::D0
    } else if i == 13 {
        SignalRole::D1
    } else if i == 14 {
        SignalRole::D2
    } else if i == 15 {
        SignalRole::D3
    } else if i == 16 {
        SignalRole::D4
    } else if i == 17 {
        SignalRole::D5
    } else if i == 18 {
        SignalRole::D6
    } else if i == 19 {
        SignalRole::D7
    } else if i == 20 {
        SignalRole::D8
    } else if i == 21 {
        SignalRole::D9
    } else if i == 22 {
        SignalRole::D10
    } else if i == 23 {
        SignalRole::D11
    } else if i == 24 {
        SignalRole::D12
    } else if i == 25 {
        SignalRole::D13
    } else if i == 26 {
        SignalRole::D14
    } else if i == 27 {
        SignalRole::D15
    } else if i == 28 {
        SignalRole::NBL0
    } else if i == 29 {
        SignalRole::NBL1
    } else if i == 30 {
        SignalRole::NE1
    } else if i == 31 {
        SignalRole::NE2
    } else if i == 32 {
        SignalRole::NE3
    } else if i == 33 {
        SignalRole::NOE
    } else if i == 34 {
        SignalRole::NWE
    } else if i == 35 {
        SignalRole::NWAIT
    } else {
        SignalRole::CLK
    }
}

/// Runtime lookup of the role with a given number.
pub fn role_of_index(i: usize) -> (r: SignalRole)
    requires
        i < ROLE_COUNT,
    ensures
        r == spec_role_of_index(i as int),
{
    match i {
        0 => SignalRole::A0,
        1 => SignalRole::A1,
        2 => SignalRole::A2,
        3 => SignalRole::A3,
        4 => SignalRole::A4,
        5 => SignalRole::A5,
        6 => SignalRole::A6,
        7 => SignalRole::A7,
        8 => SignalRole::A8,
        9 => SignalRole::A9,
        10 => SignalRole::A10,
        11 => SignalRole::A11,
        12 => SignalRole::D0,
        13 => SignalRole::D1,
        14 => SignalRole::D2,
        15 => SignalRole::D3,
        16 => SignalRole::D4,
        17 => SignalRole::D5,
        18 => SignalRole::D6,
        19 => SignalRole::D7,
        20 => SignalRole::D8,
        21 => SignalRole::D9,
        22 => SignalRole::D10,
        23 => SignalRole::D11,
        24 => SignalRole::D12,
        25 => SignalRole::D13,
        26 => SignalRole::D14,
        27 => SignalRole::D15,
        28 => SignalRole::NBL0,
        29 => SignalRole::NBL1,
        30 => SignalRole::NE1,
        31 => SignalRole::NE2,
        32 => SignalRole::NE3,
        33 => SignalRole::NOE,
        34 => SignalRole::NWE,
        35 => SignalRole::NWAIT,
        _ => SignalRole::CLK,
    }
}

/// Every role sits below `ROLE_COUNT` in the numbering, and the numbering is
/// invertible.
pub proof fn lemma_role_index_inverse(role: SignalRole)
    ensures
        0 <= spec_role_index(role) < ROLE_COUNT as int,
        spec_role_of_index(spec_role_index(role)) == role,
{
}

/// Every role required by a well-formed configuration has a certified
/// realization in the registry: its table pin, in the FMC alternate function.
pub proof fn lemma_required_role_realizable(cfg: BankConfig, role: SignalRole)
    requires
        cfg.wf(),
        spec_required(cfg, role),
    ensures
        spec_certifies(role, spec_certified_pin(role), FMC_ALTERNATE_FUNCTION),
{
}

/// No pin is certified for two different roles: the registry table is
/// injective, so one physical pin can never serve two signals at once.
pub proof fn lemma_no_role_overlap(r1: SignalRole, r2: SignalRole)
    requires
        r1 != r2,
    ensures
        spec_certified_pin(r1) != spec_certified_pin(r2),
{
}

/// One caller-chosen assignment: this pin, in this alternate-function
/// configuration, shall carry this role.
#[derive(Clone, Copy, PartialEq, Eq, Structural, Debug)]
pub struct PinAssignment {
    pub role: SignalRole,
    pub pin: Pin,
    pub af: u8,
}

/// Whether some assignment in `s` covers `role`.
pub open spec fn spec_has_role(s: Seq<PinAssignment>, role: SignalRole) -> bool {
    exists|i: int| 0 <= i < s.len() && s[i].role == role
}

/// Whether two assignments in `s` claim the same role.
pub open spec fn spec_has_duplicate(s: Seq<PinAssignment>) -> bool {
    exists|i: int, j: int| 0 <= i < j < s.len() && s[i].role == s[j].role
}

/// A sequence of assignments realizes `cfg` when the configuration is
/// well-formed, every assignment is certified by the registry, no role is
/// claimed twice, and every role the configuration requires is covered.
pub open spec fn spec_valid_choices(cfg: BankConfig, s: Seq<PinAssignment>) -> bool {
    &&& cfg.wf()
    &&& forall|i: int|
        0 <= i < s.len() ==> #[trigger] spec_certifies(s[i].role, s[i].pin, s[i].af)
    &&& !spec_has_duplicate(s)
    &&& forall|role: SignalRole| spec_required(cfg, role) ==> #[trigger] spec_has_role(s, role)
}

/// Runtime check whether some assignment covers `role`.
fn contains_role(choices: &Vec<PinAssignment>, role: SignalRole) -> (r: bool)
    ensures
        r == spec_has_role(choices@, role),
{
    let mut k: usize = 0;
    while k < choices.len()
        invariant
            k <= choices@.len(),
            forall|j: int| 0 <= j < k ==> choices@[j].role != role,
        decreases choices@.len() - k,
    {
        if choices[k].role == role {
            return true;
        }
        k += 1;
    }
    false
}

/// Runtime check whether two assignments claim the same role.
fn has_duplicate_role(choices: &Vec<PinAssignment>) -> (r: bool)
    ensures
        r == spec_has_duplicate(choices@),
{
    let mut k: usize = 0;
    while k < choices.len()
        invariant
            k <= choices@.len(),
            forall|i: int, j: int|
                0 <= i < j < choices@.len() && i < k ==> choices@[i].role != choices@[j].role,
        decreases choices@.len() - k,
    {
        let mut m: usize = k + 1;
        while m < choices.len()
            invariant
                k < m,
                m <= choices@.len(),
                k < choices@.len(),
                forall|j: int| k < j < m ==> choices@[k as int].role != choices@[j].role,
            decreases choices@.len() - m,
        {
            if choices[k].role == choices[m].role {
                return true;
            }
            m += 1;
        }
        k += 1;
    }
    false
}

/// Runtime check of [`spec_valid_choices`].
fn choices_valid(cfg: BankConfig, choices: &Vec<PinAssignment>) -> (r: bool)
    ensures
        r == spec_valid_choices(cfg, choices@),
{
    if !cfg.is_wf() {
        return false;
    }
    let mut k: usize = 0;
    while k < choices.len()
        invariant
            k <= choices@.len(),
            forall|j: int|
                0 <= j < k ==> #[trigger] spec_certifies(
                    choices@[j].role,
                    choices@[j].pin,
                    choices@[j].af,
                ),
        decreases choices@.len() - k,
    {
        let a = choices[k];
        if !is_certified(a.role, a.pin, a.af) {
            return false;
        }
        k += 1;
    }
    if has_duplicate_role(choices) {
        return false;
    }
    let mut i: usize = 0;
    while i < ROLE_COUNT
        invariant
            i <= ROLE_COUNT,
            forall|j: int|
                0 <= j < i ==> (spec_required(cfg, #[trigger] spec_role_of_index(j))
                    ==> spec_has_role(choices@, spec_role_of_index(j))),
        decreases ROLE_COUNT - i,
    {
        let role = role_of_index(i);
        if is_required(cfg, role) && !contains_role(choices, role) {
            return false;
        }
        i += 1;
    }
    proof {
        assert forall|role: SignalRole|
            spec_required(cfg, role) implies #[trigger] spec_has_role(choices@, role) by {
            lemma_role_index_inverse(role);
        };
    }
    true
}

/// A set of pin assignments that the registry has accepted for one
/// configuration. Assembling it through [`PinSet::assemble`] is the only way
/// to obtain a well-formed value, so an uncertified wiring never reaches the
/// adapter's checked construction path.
pub struct PinSet {
    pub cfg: BankConfig,
    pub assignments: Vec<PinAssignment>,
}

impl PinSet {
    /// The assignments realize the configuration, per [`spec_valid_choices`].
    pub open spec fn wf(&self) -> bool {
        spec_valid_choices(self.cfg, self.assignments@)
    }

    /// Certifies a caller-assembled wiring against the registry. Returns the
    /// finished pin set exactly when the choices realize the configuration;
    /// any uncertified pin, wrong alternate function, doubly claimed role or
    /// missing required role is rejected here, before any device access.
    pub fn assemble(cfg: BankConfig, choices: Vec<PinAssignment>) -> (r: Option<PinSet>)
        ensures
            (r is Some) <==> spec_valid_choices(cfg, choices@),
            r matches Some(ps) ==> ps.cfg == cfg && ps.assignments@ == choices@ && ps.wf(),
    {
        if choices_valid(cfg, &choices) {
            Some(PinSet { cfg, assignments: choices })
        } else {
            None
        }
    }

    /// Runtime check of [`PinSet::wf`], for unverified callers that must
    /// establish it before the checked construction path.
    pub fn is_certified_set(&self) -> (r: bool)
        ensures
            r == self.wf(),
    {
        choices_valid(self.cfg, &self.assignments)
    }

    /// The bank this pin set drives.
    pub fn bank(&self) -> (r: TargetBank)
        ensures
            r == self.cfg.bank,
    {
        self.cfg.bank
    }

    /// How many address lines this pin set wires.
    pub fn address_width(&self) -> (r: u8)
        ensures
            r == self.cfg.address_width,
    {
        self.cfg.address_width
    }
}

/// In any accepted pin set, distinct assignments use distinct physical pins:
/// certification fixes each role's pin, roles are claimed at most once, and
/// the registry table is injective.
pub proof fn lemma_pin_exclusive(cfg: BankConfig, s: Seq<PinAssignment>)
    requires
        spec_valid_choices(cfg, s),
    ensures
        forall|i: int, j: int| 0 <= i < j < s.len() ==> s[i].pin != s[j].pin,
{
    assert forall|i: int, j: int| 0 <= i < j < s.len() implies s[i].pin != s[j].pin by {
        assert(spec_certifies(s[i].role, s[i].pin, s[i].af));
        assert(spec_certifies(s[j].role, s[j].pin, s[j].af));
        if s[i].role == s[j].role {
            assert(spec_has_duplicate(s));
        }
        lemma_no_role_overlap(s[i].role, s[j].role);
    };
}

} // verus!
