//! Tables of the fader curves and of the waveforms.
use vstd::prelude::*;

use crate::types::{Curve, Waveform};

verus! {

/// Whether a table maps 12 bits to 12 bits.
pub open spec fn is_12bit_table(table: Seq<u16>) -> bool {
    &&& table.len() == 4096
    &&& forall|i: int| 0 <= i < 4096 ==> #[trigger] table[i] <= 4095
}

/// One table per curve and per waveform.
pub struct Tables {
    pub linear: Vec<u16>,
    pub logarithmic: Vec<u16>,
    pub exponential: Vec<u16>,
    pub triangle: Vec<u16>,
    pub saw: Vec<u16>,
    pub saw_inv: Vec<u16>,
    pub square: Vec<u16>,
    pub sine: Vec<u16>,
}

impl Tables {
    pub open spec fn wf(self) -> bool {
        &&& is_12bit_table(self.linear@)
        &&& is_12bit_table(self.logarithmic@)
        &&& is_12bit_table(self.exponential@)
        &&& is_12bit_table(self.triangle@)
        &&& is_12bit_table(self.saw@)
        &&& is_12bit_table(self.saw_inv@)
        &&& is_12bit_table(self.square@)
        &&& is_12bit_table(self.sine@)
    }

    /// The table of a curve.
    pub open spec fn of_curve(self, curve: Curve) -> Seq<u16> {
        match curve {
            Curve::Linear => self.linear@,
            Curve::Logarithmic => self.logarithmic@,
            Curve::Exponential => self.exponential@,
        }
    }

    /// The table of a waveform.
    pub open spec fn of_wave(self, wave: Waveform) -> Seq<u16> {
        match wave {
            Waveform::Triangle => self.triangle@,
            Waveform::Saw => self.saw@,
            Waveform::SawInv => self.saw_inv@,
            Waveform::Square => self.square@,
            Waveform::Sine => self.sine@,
        }
    }

    /// The value of a curve at a 12-bit position; positions beyond the last count
    /// as the last.
    pub open spec fn curve(self, curve: Curve, at: int) -> u16 {
        self.of_curve(curve)[if at < 4095 {
            at
        } else {
            4095
        }]
    }

    /// The value of a waveform at a 12-bit position.
    pub open spec fn wave(self, wave: Waveform, at: int) -> u16 {
        self.of_wave(wave)[at]
    }

    /// The value of a curve at a 12-bit position; positions beyond the last count
    /// as the last.
    pub fn curve_at(&self, curve: Curve, at: u16) -> (r: u16)
        requires
            self.wf(),
        ensures
            r == self.curve(curve, at as int),
            r <= 4095,
    {
        let index: usize = if at < 4095 {
            at as usize
        } else {
            4095
        };
        match curve {
            Curve::Linear => self.linear[index],
            Curve::Logarithmic => self.logarithmic[index],
            Curve::Exponential => self.exponential[index],
        }
    }

    /// The value of a waveform at a 12-bit position.
    pub fn wave_at(&self, wave: Waveform, at: usize) -> (r: u16)
        requires
            self.wf(),
            at <= 4095,
        ensures
            r == self.wave(wave, at as int),
            r <= 4095,
    {
        match wave {
            Waveform::Triangle => self.triangle[at],
            Waveform::Saw => self.saw[at],
            Waveform::SawInv => self.saw_inv[at],
            Waveform::Square => self.square[at],
            Waveform::Sine => self.sine[at],
        }
    }
}

/// A curve reads its own table at the position, and its last entry beyond it; a
/// waveform reads its own table.
pub proof fn law_tables_are_read_in_place(tables: Tables, at: int)
    requires
        tables.wf(),
        0 <= at,
    ensures
        at <= 4095 ==> tables.curve(Curve::Linear, at) == tables.linear@[at]
            && tables.curve(Curve::Logarithmic, at) == tables.logarithmic@[at]
            && tables.curve(Curve::Exponential, at) == tables.exponential@[at],
        at > 4095 ==> tables.curve(Curve::Linear, at) == tables.linear@[4095]
            && tables.curve(Curve::Logarithmic, at) == tables.logarithmic@[4095]
            && tables.curve(Curve::Exponential, at) == tables.exponential@[4095],
        at <= 4095 ==> tables.wave(Waveform::Triangle, at) == tables.triangle@[at]
            && tables.wave(Waveform::Saw, at) == tables.saw@[at]
            && tables.wave(Waveform::SawInv, at) == tables.saw_inv@[at]
            && tables.wave(Waveform::Square, at) == tables.square@[at]
            && tables.wave(Waveform::Sine, at) == tables.sine@[at],
{
}

} // verus!
