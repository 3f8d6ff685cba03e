//! The parameter store: normalized, automatable values addressed by index.
//!
//! A value is held as the bit pattern of a single-precision number. For
//! numbers that are not negative the patterns are ordered as the numbers are,
//! so the unit interval is the range of patterns from zero to `UNIT_BITS`.

use vstd::prelude::*;

verus! {

/// Bit pattern of the number one.
pub const UNIT_BITS: u32 = 0x3F80_0000;

/// Bit pattern of positive infinity, the largest pattern that is a number and
/// not negative.
pub const INFINITY_BITS: u32 = 0x7F80_0000;

/// Bit pattern of the frequency parameter's initial value, forty-four
/// hundredths.
pub const DEFAULT_FREQ_BITS: u32 = 0x3EE1_47AE;

/// Bit pattern of the modulation parameter's initial value, one.
pub const DEFAULT_MODULATION_BITS: u32 = 0x3F80_0000;

/// Whether `bits` encodes a number of the unit interval.
pub open spec fn is_normalized(bits: u32) -> bool {
    bits <= UNIT_BITS
}

/// The pattern that a written value is stored as: a number of the unit
/// interval is kept, a larger one (infinity included) becomes one, and a
/// negative one, negative zero or a pattern that is no number becomes zero.
pub open spec fn spec_clamp_unit(bits: u32) -> u32 {
    if bits <= UNIT_BITS {
        bits
    } else if bits <= INFINITY_BITS {
        UNIT_BITS
    } else {
        0
    }
}

/// Clamps the encoded value `bits` to the unit interval.
pub fn clamp_unit(bits: u32) -> (r: u32)
    ensures
        r == spec_clamp_unit(bits),
        is_normalized(r),
        is_normalized(bits) ==> r == bits,
{
    if bits <= UNIT_BITS {
        bits
    } else if bits <= INFINITY_BITS {
        UNIT_BITS
    } else {
        0
    }
}

/// The automatable parameters, a closed set.
#[derive(Clone, Copy, Debug, PartialEq, Eq, Structural)]
pub enum Parameter {
    Freq,
    Modulation,
}

impl Parameter {
    /// The index by which a host addresses the parameter.
    pub open spec fn spec_index(self) -> int {
        match self {
            Parameter::Freq => 0,
            Parameter::Modulation => 1,
        }
    }

    /// The parameter that `index` addresses, if any.
    pub open spec fn spec_from_i32(index: int) -> Option<Parameter> {
        if index == 0 {
            Some(Parameter::Freq)
        } else if index == 1 {
            Some(Parameter::Modulation)
        } else {
            None
        }
    }

    /// The human-readable name.
    pub open spec fn spec_name(self) -> Seq<char> {
        match self {
            Parameter::Freq => "frequency"@,
            Parameter::Modulation => "modulation"@,
        }
    }

    pub fn index(self) -> (r: i32)
        ensures
            r == self.spec_index(),
    {
        match self {
            Parameter::Freq => 0,
            Parameter::Modulation => 1,
        }
    }

    pub fn from_i32(index: i32) -> (r: Option<Parameter>)
        ensures
            r == Self::spec_from_i32(index as int),
    {
        if index == 0 {
            Some(Parameter::Freq)
        } else if index == 1 {
            Some(Parameter::Modulation)
        } else {
            None
        }
    }

    /// The name as an owned string.
    pub fn to_string(&self) -> (r: String)
        ensures
            r@ == self.spec_name(),
    {
        match self {
            Parameter::Freq => "frequency".to_string(),
            Parameter::Modulation => "modulation".to_string(),
        }
    }
}

/// The stored value of each parameter, as a bit pattern.
#[derive(Clone, Copy, Debug, PartialEq, Eq, Structural)]
pub struct Parameters {
    pub freq: u32,
    pub modulation: u32,
}

impl Parameters {
    /// Every stored value lies in the unit interval.
    pub open spec fn wf(self) -> bool {
        is_normalized(self.freq) && is_normalized(self.modulation)
    }

    /// The stored value of `param`.
    pub open spec fn value(self, param: Parameter) -> u32 {
        match param {
            Parameter::Freq => self.freq,
            Parameter::Modulation => self.modulation,
        }
    }

    /// The store with the value of `param` replaced by `bits`.
    pub open spec fn with_value(self, param: Parameter, bits: u32) -> Parameters {
        match param {
            Parameter::Freq => Parameters { freq: bits, ..self },
            Parameter::Modulation => Parameters { modulation: bits, ..self },
        }
    }

    /// What a read of `index` returns: the stored value, or zero where the
    /// index addresses nothing.
    pub open spec fn spec_get(self, index: int) -> u32 {
        match Parameter::spec_from_i32(index) {
            Some(param) => self.value(param),
            None => 0,
        }
    }

    /// The store after a write of `bits` to `index`: the addressed value
    /// becomes the clamped `bits`; an index that addresses nothing changes
    /// nothing.
    pub open spec fn spec_set(self, index: int, bits: u32) -> Parameters {
        match Parameter::spec_from_i32(index) {
            Some(param) => self.with_value(param, spec_clamp_unit(bits)),
            None => self,
        }
    }

    /// The name reported for `index`.
    pub open spec fn spec_name(index: int) -> Seq<char> {
        match Parameter::spec_from_i32(index) {
            Some(param) => param.spec_name(),
            None => "unknown"@,
        }
    }

    pub fn get_parameter(&self, index: i32) -> (r: u32)
        ensures
            r == self.spec_get(index as int),
            self.wf() ==> is_normalized(r),
    {
        match Parameter::from_i32(index) {
            Some(Parameter::Freq) => self.freq,
            Some(Parameter::Modulation) => self.modulation,
            None => 0,
        }
    }

    pub fn set_parameter(&mut self, index: i32, value: u32)
        ensures
            *final(self) == old(self).spec_set(index as int, value),
            old(self).wf() ==> final(self).wf(),
    {
        match Parameter::from_i32(index) {
            Some(Parameter::Freq) => {
                self.freq = clamp_unit(value);
            },
            Some(Parameter::Modulation) => {
                self.modulation = clamp_unit(value);
            },
            None => {},
        }
    }

    pub fn get_parameter_name(&self, index: i32) -> (r: String)
        ensures
            r@ == Self::spec_name(index as int),
    {
        match Parameter::from_i32(index) {
            Some(param) => param.to_string(),
            None => "unknown".to_string(),
        }
    }
}

impl Default for Parameters {
    fn default() -> (r: Self)
        ensures
            r == (Parameters { freq: DEFAULT_FREQ_BITS, modulation: DEFAULT_MODULATION_BITS }),
            r.wf(),
    {
        Parameters { freq: DEFAULT_FREQ_BITS, modulation: DEFAULT_MODULATION_BITS }
    }
}

/// A value of the unit interval that is written to a valid index is read back
/// unchanged, and no other parameter is touched.
pub proof fn lemma_write_then_read(store: Parameters, param: Parameter, bits: u32)
    requires
        is_normalized(bits),
    ensures
        store.spec_set(param.spec_index(), bits).spec_get(param.spec_index()) == bits,
        forall|other: Parameter|
            other != param ==> #[trigger] store.spec_set(param.spec_index(), bits).value(other)
                == store.value(other),
{
}

/// Whatever is written, what is read back lies in the unit interval, and the
/// store stays well formed.
pub proof fn lemma_write_is_clamped(store: Parameters, index: int, bits: u32)
    requires
        store.wf(),
    ensures
        store.spec_set(index, bits).wf(),
        is_normalized(store.spec_set(index, bits).spec_get(index)),
{
}

/// An index that addresses no parameter: a write leaves the store as it was,
/// a read gives zero, and the name is the sentinel.
pub proof fn lemma_unknown_index(store: Parameters, index: int, bits: u32)
    requires
        index != 0,
        index != 1,
    ensures
        store.spec_set(index, bits) == store,
        store.spec_get(index) == 0,
        Parameters::spec_name(index) == "unknown"@,
{
}

} // verus!
