use vstd::prelude::*;

verus! {

/// The identity register value of an RD6018.
pub const RD6018_IDENTITY: u16 = 60181;

/// The device variants, and `Unknown` for an identity outside the table.
#[derive(Clone, Copy, Debug, PartialEq, Eq, Structural)]
pub enum ID {
    Unknown,
    RD6006,
    RD6006P,
    RD6012,
    RD6012P,
    RD6018,
    RD6024,
}

impl Default for ID {
    fn default() -> (r: ID)
        ensures
            r == ID::Unknown,
    {
        ID::Unknown
    }
}

/// The variant that an identity register value stands for.
pub open spec fn model_of(identity: u16) -> ID {
    if identity == RD6018_IDENTITY {
        ID::RD6018
    } else {
        ID::Unknown
    }
}

impl ID {
    /// Divisor from a raw voltage word to volts; zero where the model is not known.
    pub open spec fn spec_v_mul(self) -> u32 {
        match self {
            ID::RD6006 | ID::RD6012 | ID::RD6018 | ID::RD6024 => 100,
            ID::RD6006P | ID::RD6012P => 1000,
            ID::Unknown => 0,
        }
    }

    /// Divisor from a raw current word to amperes; zero where the model is not known.
    pub open spec fn spec_i_mul(self) -> u32 {
        match self {
            ID::RD6012 | ID::RD6012P | ID::RD6018 | ID::RD6024 => 100,
            ID::RD6006 => 1000,
            ID::RD6006P => 10000,
            ID::Unknown => 0,
        }
    }

    /// The variant that an identity register value stands for.
    pub fn from_identity(identity: u16) -> (r: ID)
        ensures
            r == model_of(identity),
    {
        if identity == RD6018_IDENTITY {
            ID::RD6018
        } else {
            ID::Unknown
        }
    }

    /// Divisor from a raw voltage word to volts; zero where the model is not known.
    pub fn v_mul(&self) -> (r: u32)
        ensures
            r == self.spec_v_mul(),
    {
        match self {
            ID::RD6006 | ID::RD6012 | ID::RD6018 | ID::RD6024 => 100,
            ID::RD6006P | ID::RD6012P => 1000,
            ID::Unknown => 0,
        }
    }

    /// Divisor from a raw current word to amperes; zero where the model is not known.
    pub fn i_mul(&self) -> (r: u32)
        ensures
            r == self.spec_i_mul(),
    {
        match self {
            ID::RD6012 | ID::RD6012P | ID::RD6018 | ID::RD6024 => 100,
            ID::RD6006 => 1000,
            ID::RD6006P => 10000,
            ID::Unknown => 0,
        }
    }
}

/// Resolves an identity register value to its model and its voltage and current divisors.
/// Only a value outside the table gives `Unknown`, and only `Unknown` has zero divisors.
pub fn resolve(identity: u16) -> (r: (ID, u32, u32))
    ensures
        r == (model_of(identity), model_of(identity).spec_v_mul(), model_of(identity).spec_i_mul()),
        identity == RD6018_IDENTITY ==> r == (ID::RD6018, 100u32, 100u32),
        identity != RD6018_IDENTITY ==> r == (ID::Unknown, 0u32, 0u32),
        r.1 == 0 <==> r.0 == ID::Unknown,
        r.2 == 0 <==> r.0 == ID::Unknown,
{
    let id = ID::from_identity(identity);
    (id, id.v_mul(), id.i_mul())
}

/// Every known model has nonzero divisors; only `Unknown` has zero ones.
pub proof fn lemma_multipliers_zero_only_unknown(id: ID)
    ensures
        id.spec_v_mul() == 0 <==> id == ID::Unknown,
        id.spec_i_mul() == 0 <==> id == ID::Unknown,
{
}

} // verus!
