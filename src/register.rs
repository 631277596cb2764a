use vstd::prelude::*;

verus! {

/// The named holding registers of the power supply, by firmware address.
///
/// A name ending in `_H` is the high word of a pair whose low word ends in `_L`; a name
/// ending in `_S` is the high (sign) word of a pair whose low word carries the same name
/// without the suffix.
#[allow(non_camel_case_types)]
#[derive(Clone, Copy, Debug, PartialEq, Eq, Structural)]
pub enum Register {
    ID,
    SN_H,
    SN_L,
    FW,
    INT_C_S,
    INT_C,
    INT_F_S,
    INT_F,
    V_SET,
    I_SET,
    V_OUT,
    I_OUT,
    AH,
    P_OUT,
    V_IN,
    KEYPAD,
    OVP_OCP,
    OUTPUT,
    PRESET,
    I_RANGE,
    BAT_MODE,
    V_BAT,
    EXT_C_S,
    EXT_C,
    EXT_F_S,
    EXT_F,
    AH_H,
    AH_L,
    WH_H,
    WH_L,
}

impl Register {
    /// The register's address in the holding-register space.
    pub open spec fn spec_address(self) -> u16 {
        match self {
            Register::ID => 0,
            Register::SN_H => 1,
            Register::SN_L => 2,
            Register::FW => 3,
            Register::INT_C_S => 4,
            Register::INT_C => 5,
            Register::INT_F_S => 6,
            Register::INT_F => 7,
            Register::V_SET => 8,
            Register::I_SET => 9,
            Register::V_OUT => 10,
            Register::I_OUT => 11,
            Register::AH => 12,
            Register::P_OUT => 13,
            Register::V_IN => 14,
            Register::KEYPAD => 15,
            Register::OVP_OCP => 16,
            Register::OUTPUT => 18,
            Register::PRESET => 19,
            Register::I_RANGE => 20,
            Register::BAT_MODE => 32,
            Register::V_BAT => 33,
            Register::EXT_C_S => 34,
            Register::EXT_C => 35,
            Register::EXT_F_S => 36,
            Register::EXT_F => 37,
            Register::AH_H => 38,
            Register::AH_L => 39,
            Register::WH_H => 40,
            Register::WH_L => 41,
        }
    }

    /// The register's address in the holding-register space.
    pub fn address(self) -> (r: u16)
        ensures
            r == self.spec_address(),
    {
        match self {
            Register::ID => 0,
            Register::SN_H => 1,
            Register::SN_L => 2,
            Register::FW => 3,
            Register::INT_C_S => 4,
            Register::INT_C => 5,
            Register::INT_F_S => 6,
            Register::INT_F => 7,
            Register::V_SET => 8,
            Register::I_SET => 9,
            Register::V_OUT => 10,
            Register::I_OUT => 11,
            Register::AH => 12,
            Register::P_OUT => 13,
            Register::V_IN => 14,
            Register::KEYPAD => 15,
            Register::OVP_OCP => 16,
            Register::OUTPUT => 18,
            Register::PRESET => 19,
            Register::I_RANGE => 20,
            Register::BAT_MODE => 32,
            Register::V_BAT => 33,
            Register::EXT_C_S => 34,
            Register::EXT_C => 35,
            Register::EXT_F_S => 36,
            Register::EXT_F => 37,
            Register::AH_H => 38,
            Register::AH_L => 39,
            Register::WH_H => 40,
            Register::WH_L => 41,
        }
    }

    /// For the high word of a pair, the register that holds its low word.
    pub open spec fn low_partner(self) -> Option<Register> {
        match self {
            Register::SN_H => Some(Register::SN_L),
            Register::INT_C_S => Some(Register::INT_C),
            Register::INT_F_S => Some(Register::INT_F),
            Register::EXT_C_S => Some(Register::EXT_C),
            Register::EXT_F_S => Some(Register::EXT_F),
            Register::AH_H => Some(Register::AH_L),
            Register::WH_H => Some(Register::WH_L),
            _ => None,
        }
    }
}

/// No two registers share an address.
pub proof fn lemma_addresses_unique(a: Register, b: Register)
    ensures
        a.spec_address() == b.spec_address() ==> a == b,
{
}

/// The two registers of a pair are adjacent, the high word at the lower address.
pub proof fn lemma_pairs_adjacent(high: Register)
    ensures
        high.low_partner() matches Some(low) ==> low.spec_address() == high.spec_address() + 1,
{
}

} // verus!
