//! The parameter model: the gain parameter's default, its descriptor as the
//! host sees it, and the dispatch of parameter-change notifications by name.
//!
//! The gain is kept as a linear amplitude coefficient (1.0 is unity), stored
//! as its 32-bit pattern; the producer converts from decibels and clamps to
//! the advertised range before storing.

use vstd::prelude::*;
use vstd::string::StrSliceExecFns;

use crate::bridge::ParamCell;

verus! {

/// Bit pattern of the unity coefficient, the IEEE 754 single-precision 1.0
/// that 0 dB converts to exactly.
pub const UNITY_GAIN_BITS: u32 = 0x3F80_0000;

/// Lower end of the gain range shown to the host and the UI, in decibels.
pub const MIN_DB: i32 = -90;

/// Upper end of the gain range shown to the host and the UI, in decibels.
pub const MAX_DB: i32 = 3;

/// The plugin's whole persistent state: the gain coefficient.
pub struct GainModel {
    /// Bit pattern of the linear amplitude coefficient.
    pub gain_bits: u32,
}

impl Default for GainModel {
    /// A fresh instance sits at unity gain (0 dB).
    fn default() -> (model: GainModel)
        ensures
            model.gain_bits == UNITY_GAIN_BITS,
    {
        GainModel { gain_bits: UNITY_GAIN_BITS }
    }
}

/// The parameters this plugin exposes, as a typed set rather than bare
/// strings: notifications are matched by name once, here, and handled by
/// identifier everywhere else.
#[derive(Clone, Copy, PartialEq, Eq, Structural, Debug)]
pub enum ParamId {
    Gain,
}

/// Decide whether `name` is exactly the gain parameter's name.
pub fn is_gain_name(name: &str) -> (r: bool)
    ensures
        r == (name@ == "gain"@),
{
    proof {
        reveal_strlit("gain");
    }
    let len: usize = name.unicode_len();
    if len != 4 {
        return false;
    }
    let c0 = name.get_char(0);
    let c1 = name.get_char(1);
    let c2 = name.get_char(2);
    let c3 = name.get_char(3);
    let eq = c0 == 'g' && c1 == 'a' && c2 == 'i' && c3 == 'n';
    proof {
        if eq {
            assert(name@ =~= "gain"@);
        }
    }
    eq
}

/// Look a parameter up by the name the host passes along.
pub fn param_id(name: &str) -> (r: Option<ParamId>)
    ensures
        name@ == "gain"@ ==> r == Some(ParamId::Gain),
        name@ != "gain"@ ==> r == None::<ParamId>,
{
    if is_gain_name(name) {
        Some(ParamId::Gain)
    } else {
        None
    }
}

/// Handle a parameter-change notification: a matching name stores the new
/// value in the bridge, an unrecognized name is ignored without error.
pub fn notify(cell: &mut ParamCell, name: &str, value_bits: u32)
    ensures
        name@ == "gain"@ ==> final(cell)@ == value_bits,
        name@ != "gain"@ ==> *final(cell) == *old(cell),
{
    match param_id(name) {
        Some(ParamId::Gain) => cell.set(value_bits),
        None => (),
    }
}

} // verus!
