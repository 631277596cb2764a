use vstd::prelude::*;

use crate::codec::{combine_pair, digits_value, format_serial, is_digit, pair_value, serial_text};
use crate::error::DecodeError;
use crate::model::{model_of, ID};
use crate::register::Register;
use crate::{Word, WordPair};

verus! {

/// A word pair read as one 32-bit value, high word first.
#[derive(Clone, Copy, Debug, PartialEq, Eq, Structural)]
pub struct HighLowPair(pub u32);

impl From<WordPair> for HighLowPair {
    fn from(pair: WordPair) -> (r: HighLowPair)
        ensures
            r == (HighLowPair(pair_value(pair[0], pair[1]))),
    {
        HighLowPair(combine_pair(pair[0], pair[1]))
    }
}

impl vstd::std_specs::convert::FromSpecImpl<WordPair> for HighLowPair {
    open spec fn obeys_from_spec() -> bool {
        true
    }

    open spec fn from_spec(pair: WordPair) -> HighLowPair {
        HighLowPair(pair_value(pair[0], pair[1]))
    }
}

/// A serial number as zero-padded decimal text.
#[derive(Clone, Debug, PartialEq, Eq)]
pub struct SerialNumber(pub String);

impl SerialNumber {
    /// The serial number held in one word.
    pub fn from_word(word: Word) -> (r: SerialNumber)
        ensures
            r.0@ == serial_text(word as u32),
            r.0@.len() == 8,
            forall|i: int| 0 <= i < r.0@.len() ==> is_digit(#[trigger] r.0@[i]),
            digits_value(r.0@) == word,
    {
        SerialNumber(format_serial(word as u32))
    }

    /// The serial number held in a word pair, high word first.
    pub fn from_pair(pair: WordPair) -> (r: SerialNumber)
        ensures
            r.0@ == serial_text(pair_value(pair[0], pair[1])),
            r.0@.len() >= 8,
            pair_value(pair[0], pair[1]) <= 99_999_999 ==> r.0@.len() == 8,
            forall|i: int| 0 <= i < r.0@.len() ==> is_digit(#[trigger] r.0@[i]),
            digits_value(r.0@) == pair_value(pair[0], pair[1]),
    {
        let value = HighLowPair::from(pair);
        SerialNumber(format_serial(value.0))
    }
}

/// A raw register word and the divisor that turns it into a physical quantity
/// (volts or amperes): the quantity is `raw / mul`. The decoders of this crate
/// make one only for a nonzero `mul`.
#[derive(Clone, Copy, Debug, PartialEq, Eq, Structural)]
pub struct Scaled {
    pub raw: u16,
    pub mul: u32,
}

/// A scaled field of a raw word, or nothing where the divisor is zero.
pub open spec fn scaled_of(raw: u16, mul: u32) -> Option<Scaled> {
    if mul == 0 {
        None
    } else {
        Some(Scaled { raw, mul })
    }
}

/// Pairs a raw word with its divisor; a zero divisor is refused, so that no
/// undefined quotient reaches a caller.
pub fn decode_scaled(raw: u16, mul: u32) -> (r: Result<Scaled, DecodeError>)
    ensures
        mul == 0 ==> r == Err::<Scaled, DecodeError>(DecodeError::ZeroMultiplier),
        mul != 0 ==> r == Ok::<Scaled, DecodeError>(Scaled { raw, mul }),
{
    if mul == 0 {
        Err(DecodeError::ZeroMultiplier)
    } else {
        Ok(Scaled { raw, mul })
    }
}

/// A scaled field of a raw word, or `None` where the divisor is zero.
fn scaled_field(raw: u16, mul: u32) -> (r: Option<Scaled>)
    ensures
        r == scaled_of(raw, mul),
{
    match decode_scaled(raw, mul) {
        Ok(s) => Some(s),
        Err(_) => None,
    }
}

/// The error for a block of `actual` words where `expected` were needed.
pub open spec fn length_error(expected: usize, actual: usize) -> DecodeError {
    DecodeError::Length { expected, actual }
}

/// Takes a word slice that must hold exactly one pair.
pub fn word_pair(words: &[Word]) -> (r: Result<WordPair, DecodeError>)
    ensures
        words@.len() == 2 ==> (r matches Ok(p) && p@ == words@),
        words@.len() != 2 ==> r == Err::<WordPair, DecodeError>(length_error(2, words@.len() as usize)),
{
    if words.len() != 2 {
        return Err(DecodeError::Length { expected: 2, actual: words.len() });
    }
    let pair: WordPair = [words[0], words[1]];
    assert(pair@ =~= words@);
    Ok(pair)
}

/// Decodes one word read on its own.
pub fn decode_one(words: &[Word]) -> (r: Result<Word, DecodeError>)
    ensures
        words@.len() == 1 ==> r == Ok::<Word, DecodeError>(words@[0]),
        words@.len() != 1 ==> r == Err::<Word, DecodeError>(length_error(1, words@.len() as usize)),
{
    if words.len() != 1 {
        return Err(DecodeError::Length { expected: 1, actual: words.len() });
    }
    Ok(words[0])
}

/// Decodes a word pair read on its own into its 32-bit value.
pub fn decode_pair(words: &[Word]) -> (r: Result<u32, DecodeError>)
    ensures
        words@.len() == 2 ==> r == Ok::<u32, DecodeError>(pair_value(words@[0], words@[1])),
        words@.len() != 2 ==> r == Err::<u32, DecodeError>(length_error(2, words@.len() as usize)),
{
    let pair = word_pair(words)?;
    Ok(HighLowPair::from(pair).0)
}

/// Decodes a serial-number pair read on its own into its text.
pub fn decode_serial(words: &[Word]) -> (r: Result<String, DecodeError>)
    ensures
        words@.len() == 2 ==> (r matches Ok(s) && s@ == serial_text(pair_value(words@[0], words@[1]))),
        words@.len() != 2 ==> r == Err::<String, DecodeError>(length_error(2, words@.len() as usize)),
{
    match word_pair(words) {
        Ok(pair) => Ok(SerialNumber::from_pair(pair).0),
        Err(e) => Err(e),
    }
}

/// Number of words in the identity block: `ID` through `FW`.
pub const IDENTITY_BLOCK_LEN: usize = 4;

/// Number of words in the telemetry block: `INT_C_S` through `EXT_F`.
pub const TELEMETRY_BLOCK_LEN: usize = 34;

/// The word of register `r` in a block that starts at register `first`.
pub open spec fn word_at(words: Seq<Word>, first: Register, r: Register) -> Word {
    words[r.spec_address() - first.spec_address()]
}

/// The word of register `r` in a block that starts at register `first`.
fn read_word(words: &[Word], first: Register, r: Register) -> (w: Word)
    requires
        first.spec_address() <= r.spec_address(),
        r.spec_address() - first.spec_address() < words@.len(),
    ensures
        w == word_at(words@, first, r),
{
    words[(r.address() - first.address()) as usize]
}

/// The 32-bit value of the pair `high`, `low` in a block that starts at register `first`.
pub open spec fn pair_at(words: Seq<Word>, first: Register, high: Register, low: Register) -> u32 {
    pair_value(word_at(words, first, high), word_at(words, first, low))
}

/// The 32-bit value of the pair `high`, `low` in a block that starts at register `first`.
fn read_pair_value(words: &[Word], first: Register, high: Register, low: Register) -> (v: u32)
    requires
        first.spec_address() <= high.spec_address(),
        first.spec_address() <= low.spec_address(),
        high.spec_address() - first.spec_address() < words@.len(),
        low.spec_address() - first.spec_address() < words@.len(),
    ensures
        v == pair_at(words@, first, high, low),
{
    let pair: WordPair = [read_word(words, first, high), read_word(words, first, low)];
    HighLowPair::from(pair).0
}

/// The decoded identity block: identity register value, serial number, firmware version.
#[derive(Clone, Debug, PartialEq, Eq)]
pub struct Initialization {
    pub id: u16,
    pub sn: String,
    pub fw: u16,
}

/// What an `Initialization` holds, with the serial number as characters.
pub struct InitializationView {
    pub id: u16,
    pub sn: Seq<char>,
    pub fw: u16,
}

impl View for Initialization {
    type V = InitializationView;

    open spec fn view(&self) -> InitializationView {
        InitializationView { id: self.id, sn: self.sn@, fw: self.fw }
    }
}

impl Default for Initialization {
    fn default() -> (r: Initialization)
        ensures
            r@ == (InitializationView { id: 0, sn: Seq::empty(), fw: 0 }),
    {
        Initialization { id: 0, sn: String::new(), fw: 0 }
    }
}

/// The identity snapshot that an identity block of words decodes to.
pub open spec fn initialization_of(words: Seq<Word>) -> InitializationView {
    InitializationView {
        id: word_at(words, Register::ID, Register::ID),
        sn: serial_text(pair_at(words, Register::ID, Register::SN_H, Register::SN_L)),
        fw: word_at(words, Register::ID, Register::FW),
    }
}

impl Initialization {
    /// Decodes an identity block; it must hold exactly `IDENTITY_BLOCK_LEN` words.
    pub fn decode(words: &[Word]) -> (r: Result<Initialization, DecodeError>)
        ensures
            words@.len() == IDENTITY_BLOCK_LEN ==> (r matches Ok(i) && i@ == initialization_of(words@)),
            words@.len() != IDENTITY_BLOCK_LEN ==> r == Err::<Initialization, DecodeError>(
                length_error(IDENTITY_BLOCK_LEN, words@.len() as usize),
            ),
    {
        if words.len() != IDENTITY_BLOCK_LEN {
            return Err(DecodeError::Length { expected: IDENTITY_BLOCK_LEN, actual: words.len() });
        }
        let first = Register::ID;
        let sn = read_pair_value(words, first, Register::SN_H, Register::SN_L);
        Ok(Initialization {
            id: read_word(words, first, Register::ID),
            sn: format_serial(sn),
            fw: read_word(words, first, Register::FW),
        })
    }
}

/// The decoded telemetry snapshot: the identity it was scaled for, the temperature
/// pairs, the divisors of the model, and the scaled setpoints and outputs. A scaled
/// field is `None` where the model, and so its divisor, is not known.
#[derive(Clone, Debug, PartialEq, Eq)]
pub struct Information {
    pub id: ID,
    pub sn: String,
    pub fw: u16,
    pub int_c: u32,
    pub int_f: u32,
    pub ext_c: u32,
    pub ext_f: u32,
    pub v_mul: u32,
    pub v_set: Option<Scaled>,
    pub i_mul: u32,
    pub i_set: Option<Scaled>,
    pub v_out: Option<Scaled>,
    pub i_out: Option<Scaled>,
}

/// What an `Information` holds, with the serial number as characters.
pub struct InformationView {
    pub id: ID,
    pub sn: Seq<char>,
    pub fw: u16,
    pub int_c: u32,
    pub int_f: u32,
    pub ext_c: u32,
    pub ext_f: u32,
    pub v_mul: u32,
    pub v_set: Option<Scaled>,
    pub i_mul: u32,
    pub i_set: Option<Scaled>,
    pub v_out: Option<Scaled>,
    pub i_out: Option<Scaled>,
}

impl View for Information {
    type V = InformationView;

    open spec fn view(&self) -> InformationView {
        InformationView {
            id: self.id,
            sn: self.sn@,
            fw: self.fw,
            int_c: self.int_c,
            int_f: self.int_f,
            ext_c: self.ext_c,
            ext_f: self.ext_f,
            v_mul: self.v_mul,
            v_set: self.v_set,
            i_mul: self.i_mul,
            i_set: self.i_set,
            v_out: self.v_out,
            i_out: self.i_out,
        }
    }
}

/// The telemetry snapshot before anything was read.
pub open spec fn empty_information() -> InformationView {
    InformationView {
        id: ID::Unknown,
        sn: Seq::empty(),
        fw: 0,
        int_c: 0,
        int_f: 0,
        ext_c: 0,
        ext_f: 0,
        v_mul: 0,
        v_set: None,
        i_mul: 0,
        i_set: None,
        v_out: None,
        i_out: None,
    }
}

impl Default for Information {
    fn default() -> (r: Information)
        ensures
            r@ == empty_information(),
    {
        Information {
            id: ID::Unknown,
            sn: String::new(),
            fw: 0,
            int_c: 0,
            int_f: 0,
            ext_c: 0,
            ext_f: 0,
            v_mul: 0,
            v_set: None,
            i_mul: 0,
            i_set: None,
            v_out: None,
            i_out: None,
        }
    }
}

/// The telemetry snapshot that a telemetry block decodes to, for the device whose
/// identity snapshot is `init`.
pub open spec fn information_of(init: InitializationView, words: Seq<Word>) -> InformationView {
    let first = Register::INT_C_S;
    let id = model_of(init.id);
    InformationView {
        id,
        sn: init.sn,
        fw: init.fw,
        int_c: pair_at(words, first, Register::INT_C_S, Register::INT_C),
        int_f: pair_at(words, first, Register::INT_F_S, Register::INT_F),
        ext_c: pair_at(words, first, Register::EXT_C_S, Register::EXT_C),
        ext_f: pair_at(words, first, Register::EXT_F_S, Register::EXT_F),
        v_mul: id.spec_v_mul(),
        v_set: scaled_of(word_at(words, first, Register::V_SET), id.spec_v_mul()),
        i_mul: id.spec_i_mul(),
        i_set: scaled_of(word_at(words, first, Register::I_SET), id.spec_i_mul()),
        v_out: scaled_of(word_at(words, first, Register::V_OUT), id.spec_v_mul()),
        i_out: scaled_of(word_at(words, first, Register::I_OUT), id.spec_i_mul()),
    }
}

impl Information {
    /// Decodes a telemetry block for the device whose identity snapshot is `init`;
    /// the block must hold exactly `TELEMETRY_BLOCK_LEN` words.
    pub fn decode(init: &Initialization, words: &[Word]) -> (r: Result<Information, DecodeError>)
        ensures
            words@.len() == TELEMETRY_BLOCK_LEN ==> (r matches Ok(i) && i@ == information_of(
                init@,
                words@,
            )),
            words@.len() != TELEMETRY_BLOCK_LEN ==> r == Err::<Information, DecodeError>(
                length_error(TELEMETRY_BLOCK_LEN, words@.len() as usize),
            ),
    {
        if words.len() != TELEMETRY_BLOCK_LEN {
            return Err(DecodeError::Length { expected: TELEMETRY_BLOCK_LEN, actual: words.len() });
        }
        let first = Register::INT_C_S;
        let id = ID::from_identity(init.id);
        let v_mul = id.v_mul();
        let i_mul = id.i_mul();
        Ok(Information {
            id,
            sn: init.sn.clone(),
            fw: init.fw,
            int_c: read_pair_value(words, first, Register::INT_C_S, Register::INT_C),
            int_f: read_pair_value(words, first, Register::INT_F_S, Register::INT_F),
            ext_c: read_pair_value(words, first, Register::EXT_C_S, Register::EXT_C),
            ext_f: read_pair_value(words, first, Register::EXT_F_S, Register::EXT_F),
            v_mul,
            v_set: scaled_field(read_word(words, first, Register::V_SET), v_mul),
            i_mul,
            i_set: scaled_field(read_word(words, first, Register::I_SET), i_mul),
            v_out: scaled_field(read_word(words, first, Register::V_OUT), v_mul),
            i_out: scaled_field(read_word(words, first, Register::I_OUT), i_mul),
        })
    }
}

} // verus!
