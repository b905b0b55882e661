//! Plain data shared by the tasks and the apps.
use vstd::prelude::*;

use crate::utils::seven_bits;

verus! {

/// The number of channels of the unit.
pub const GLOBAL_CHANNELS: usize = 16;

/// The most parameters that an app can have.
pub const APP_MAX_PARAMS: usize = 16;

/// The colors of the LEDs.
#[derive(Clone, Copy, Debug, PartialEq, Eq, Structural)]
pub enum Color {
    White,
    Red,
    Orange,
    Yellow,
    Green,
    Cyan,
    Blue,
    Violet,
    Pink,
    Rose,
    Custom(u8, u8, u8),
}

/// How bright an LED is lit.
#[derive(Clone, Copy, Debug, PartialEq, Eq, Structural)]
pub enum Brightness {
    Off,
    Low,
    Mid,
    High,
    Custom(u8),
}

/// The voltage range of a jack.
#[derive(Clone, Copy, Debug, PartialEq, Eq, Structural)]
#[allow(non_camel_case_types)]
pub enum Range {
    _0_10V,
    _0_5V,
    _Neg5_5V,
}

/// The response of a fader.
#[derive(Clone, Copy, Debug, PartialEq, Eq, Structural)]
pub enum Curve {
    Linear,
    Logarithmic,
    Exponential,
}

/// The shapes of an oscillator.
#[derive(Clone, Copy, Debug, PartialEq, Eq, Structural)]
pub enum Waveform {
    Triangle,
    Saw,
    SawInv,
    Square,
    Sine,
}

impl Range {
    /// Whether the range reaches below 0 V.
    pub open spec fn bipolar(self) -> bool {
        self == Range::_Neg5_5V
    }

    /// Whether the range reaches below 0 V.
    pub fn is_bipolar(&self) -> (r: bool)
        ensures
            r == self.bipolar(),
    {
        match *self {
            Range::_Neg5_5V => true,
            _ => false,
        }
    }
}

impl Curve {
    /// The place of the curve in its cycle.
    pub open spec fn index(self) -> int {
        match self {
            Curve::Linear => 0,
            Curve::Logarithmic => 1,
            Curve::Exponential => 2,
        }
    }

    /// The curve after this one.
    pub open spec fn next(self) -> Curve {
        match self {
            Curve::Linear => Curve::Logarithmic,
            Curve::Logarithmic => Curve::Exponential,
            Curve::Exponential => Curve::Linear,
        }
    }

    /// The place of the curve in its cycle.
    pub fn to_index(&self) -> (r: usize)
        ensures
            r == self.index(),
            r < 3,
    {
        match *self {
            Curve::Linear => 0,
            Curve::Logarithmic => 1,
            Curve::Exponential => 2,
        }
    }

    /// The curve after this one.
    pub fn cycle(&self) -> (r: Curve)
        ensures
            r == self.next(),
    {
        match *self {
            Curve::Linear => Curve::Logarithmic,
            Curve::Logarithmic => Curve::Exponential,
            Curve::Exponential => Curve::Linear,
        }
    }
}

/// Cycling through the curves comes back after three steps.
pub proof fn law_curves_cycle(curve: Curve)
    ensures
        curve.next().next().next() == curve,
{
}

impl Waveform {
    /// The waveform after this one.
    pub open spec fn next(self) -> Waveform {
        match self {
            Waveform::Sine => Waveform::Triangle,
            Waveform::Triangle => Waveform::Saw,
            Waveform::Saw => Waveform::SawInv,
            Waveform::SawInv => Waveform::Square,
            Waveform::Square => Waveform::Sine,
        }
    }

    /// The waveform after this one.
    pub fn cycle(&self) -> (r: Waveform)
        ensures
            r == self.next(),
    {
        match *self {
            Waveform::Sine => Waveform::Triangle,
            Waveform::Triangle => Waveform::Saw,
            Waveform::Saw => Waveform::SawInv,
            Waveform::SawInv => Waveform::Square,
            Waveform::Square => Waveform::Sine,
        }
    }
}

/// Cycling through the waveforms comes back after five steps.
pub proof fn law_waveforms_cycle(wave: Waveform)
    ensures
        wave.next().next().next().next().next() == wave,
{
}

/// What an app sends over MIDI.
#[derive(Clone, Copy, Debug, PartialEq, Eq, Structural)]
pub enum MidiMode {
    Note,
    Cc,
}

/// A MIDI channel, counted from one.
#[derive(Clone, Copy, Debug, PartialEq, Eq, Structural)]
pub struct MidiChannel(pub u8);

/// A controller number, or a parameter number where parameters are 14 bits wide.
#[derive(Clone, Copy, Debug, PartialEq, Eq, Structural)]
pub struct MidiCc(pub u16);

/// A note number.
#[derive(Clone, Copy, Debug, PartialEq, Eq, Structural)]
pub struct MidiNote(pub u8);

/// The outputs that a MIDI message goes to.
#[derive(Clone, Copy, Debug, PartialEq, Eq, Structural)]
pub struct MidiOut {
    pub usb: bool,
    pub out1: bool,
    pub out2: bool,
}

impl MidiOut {
    /// Whether there is an output.
    pub open spec fn any(self) -> bool {
        self.usb || self.out1 || self.out2
    }

    /// Whether there is an output.
    pub fn is_some(&self) -> (r: bool)
        ensures
            r == self.any(),
    {
        self.usb || self.out1 || self.out2
    }
}

/// The inputs that MIDI messages are taken from.
#[derive(Clone, Copy, Debug, PartialEq, Eq, Structural)]
pub struct MidiIn {
    pub usb: bool,
    pub din: bool,
}

/// What a MIDI output sends.
#[derive(Clone, Copy, Debug, PartialEq, Eq, Structural)]
pub enum MidiOutMode {
    /// Nothing.
    Silent,
    /// The messages of the apps.
    Local,
    /// The messages of the given inputs.
    MidiThru { sources: MidiIn },
    /// The messages of the apps and of the given inputs.
    MidiMerge { sources: MidiIn },
}

/// The settings of one MIDI output.
#[derive(Clone, Copy, Debug, PartialEq, Eq, Structural)]
pub struct MidiOutConfig {
    pub mode: MidiOutMode,
}

/// Where a clock message came from.
#[derive(Clone, Copy, Debug, PartialEq, Eq, Structural)]
pub enum ClockSrc {
    MidiIn,
    MidiUsb,
}

/// A clock message from outside.
#[derive(Clone, Copy, Debug, PartialEq, Eq, Structural)]
pub enum ClockInEvent {
    Tick(ClockSrc),
    Start(ClockSrc),
    Stop(ClockSrc),
    Continue(ClockSrc),
    Reset(ClockSrc),
}

/// A message of the internal clock.
#[derive(Clone, Copy, Debug, PartialEq, Eq, Structural)]
pub enum ClockEvent {
    Tick,
    Start,
    Stop,
    Reset,
}

/// The command that the buttons give to the transport.
#[derive(Clone, Copy, Debug, PartialEq, Eq, Structural)]
pub enum TransportCmd {
    Toggle,
}

/// What the user does, and the scene changes that follow.
#[derive(Clone, Copy, Debug, PartialEq, Eq, Structural)]
pub enum InputEvent {
    ButtonDown(usize),
    ButtonUp(usize),
    ButtonLongPress(usize),
    FaderChange(usize),
    LoadSceneFromButton(u8),
    LoadSceneFromMidi(u8),
    SaveScene(u8),
    SceneButtonDown,
    SceneButtonUp,
    ShiftButtonDown,
    ShiftButtonUp,
}

impl MidiChannel {
    /// The channel as it stands on the wire, counted from zero.
    pub open spec fn wire(self) -> u8 {
        if self.0 == 0 {
            0
        } else {
            ((self.0 - 1) % 16) as u8
        }
    }

    /// The channel as it stands on the wire, counted from zero.
    pub fn to_wire(self) -> (r: u8)
        ensures
            r == self.wire(),
            r < 16,
    {
        if self.0 == 0 {
            0
        } else {
            (self.0 - 1) % 16
        }
    }
}

impl MidiCc {
    /// The parameter number.
    pub fn as_u16(self) -> (r: u16)
        ensures
            r == self.0,
    {
        self.0
    }

    /// The controller number as it stands on the wire.
    pub fn to_wire(self) -> (r: u8)
        ensures
            r == self.0 % 128,
    {
        seven_bits((self.0 % 256) as u8)
    }

    /// The controller `base` of the first channel, for the channel `channel`.
    pub open spec fn for_channel(base: u8, channel: usize) -> MidiCc {
        let sum = base + channel % 256;
        MidiCc(
            if sum > 255 {
                255
            } else {
                sum as u16
            },
        )
    }

    /// The controller that belongs to a channel, counted up from `base`.
    pub fn of_channel(base: u8, channel: usize) -> (r: MidiCc)
        ensures
            r == MidiCc::for_channel(base, channel),
    {
        MidiCc(base.saturating_add((channel % 256) as u8) as u16)
    }
}

impl MidiNote {
    /// The note number as it stands on the wire.
    pub fn to_wire(self) -> (r: u8)
        ensures
            r == self.0 % 128,
    {
        seven_bits(self.0)
    }
}

/// The value of a parameter.
#[derive(Clone, Copy, Debug, PartialEq, Eq, Structural)]
pub enum Value {
    Int(i32),
    Flag(bool),
    Choice(usize),
    Color(Color),
    Curve(Curve),
    Range(Range),
    MidiChannel(MidiChannel),
    MidiCc(MidiCc),
    MidiIn(MidiIn),
    MidiOut(MidiOut),
    MidiMode(MidiMode),
    MidiNote(MidiNote),
    MidiNrpn(bool),
}

/// What can be stored as the value of a parameter. A value of another type reads
/// as the type's default.
pub trait ParamValue: Sized {
    spec fn reads(value: Value) -> Self;

    spec fn stored(self) -> Value;

    fn from_value(value: Value) -> (r: Self)
        ensures
            r == Self::reads(value),
    ;

    fn into_value(self) -> (r: Value)
        ensures
            r == self.stored(),
    ;

    /// A stored value reads back as it was.
    proof fn law_value_round_trip(self)
        ensures
            Self::reads(self.stored()) == self,
    ;
}

impl ParamValue for i32 {
    open spec fn reads(value: Value) -> Self {
        match value {
            Value::Int(v) => v,
            _ => 0,
        }
    }

    open spec fn stored(self) -> Value {
        Value::Int(self)
    }

    fn from_value(value: Value) -> (r: Self) {
        match value {
            Value::Int(v) => v,
            _ => 0,
        }
    }

    fn into_value(self) -> (r: Value) {
        Value::Int(self)
    }

    proof fn law_value_round_trip(self) {
    }
}

impl ParamValue for bool {
    open spec fn reads(value: Value) -> Self {
        match value {
            Value::Flag(v) => v,
            Value::MidiNrpn(v) => v,
            _ => false,
        }
    }

    open spec fn stored(self) -> Value {
        Value::Flag(self)
    }

    fn from_value(value: Value) -> (r: Self) {
        match value {
            Value::Flag(v) => v,
            Value::MidiNrpn(v) => v,
            _ => false,
        }
    }

    fn into_value(self) -> (r: Value) {
        Value::Flag(self)
    }

    proof fn law_value_round_trip(self) {
    }
}

impl ParamValue for usize {
    open spec fn reads(value: Value) -> Self {
        match value {
            Value::Choice(v) => v,
            _ => 0,
        }
    }

    open spec fn stored(self) -> Value {
        Value::Choice(self)
    }

    fn from_value(value: Value) -> (r: Self) {
        match value {
            Value::Choice(v) => v,
            _ => 0,
        }
    }

    fn into_value(self) -> (r: Value) {
        Value::Choice(self)
    }

    proof fn law_value_round_trip(self) {
    }
}

/// White is the default color.
impl Default for Color {
    fn default() -> (r: Self)
        ensures
            r == Color::White,
    {
        Color::White
    }
}

impl ParamValue for Color {
    open spec fn reads(value: Value) -> Self {
        match value {
            Value::Color(v) => v,
            _ => Color::White,
        }
    }

    open spec fn stored(self) -> Value {
        Value::Color(self)
    }

    fn from_value(value: Value) -> (r: Self) {
        match value {
            Value::Color(v) => v,
            _ => Color::White,
        }
    }

    fn into_value(self) -> (r: Value) {
        Value::Color(self)
    }

    proof fn law_value_round_trip(self) {
    }
}

/// The default response is linear.
impl Default for Curve {
    fn default() -> (r: Self)
        ensures
            r == Curve::Linear,
    {
        Curve::Linear
    }
}

impl ParamValue for Curve {
    open spec fn reads(value: Value) -> Self {
        match value {
            Value::Curve(v) => v,
            _ => Curve::Linear,
        }
    }

    open spec fn stored(self) -> Value {
        Value::Curve(self)
    }

    fn from_value(value: Value) -> (r: Self) {
        match value {
            Value::Curve(v) => v,
            _ => Curve::Linear,
        }
    }

    fn into_value(self) -> (r: Value) {
        Value::Curve(self)
    }

    proof fn law_value_round_trip(self) {
    }
}

/// The default range is 0 to 10 V.
impl Default for Range {
    fn default() -> (r: Self)
        ensures
            r == Range::_0_10V,
    {
        Range::_0_10V
    }
}

impl ParamValue for Range {
    open spec fn reads(value: Value) -> Self {
        match value {
            Value::Range(v) => v,
            _ => Range::_0_10V,
        }
    }

    open spec fn stored(self) -> Value {
        Value::Range(self)
    }

    fn from_value(value: Value) -> (r: Self) {
        match value {
            Value::Range(v) => v,
            _ => Range::_0_10V,
        }
    }

    fn into_value(self) -> (r: Value) {
        Value::Range(self)
    }

    proof fn law_value_round_trip(self) {
    }
}

/// The default channel is the first.
impl Default for MidiChannel {
    fn default() -> (r: Self)
        ensures
            r == MidiChannel(1),
    {
        MidiChannel(1)
    }
}

impl ParamValue for MidiChannel {
    open spec fn reads(value: Value) -> Self {
        match value {
            Value::MidiChannel(v) => v,
            _ => MidiChannel(1),
        }
    }

    open spec fn stored(self) -> Value {
        Value::MidiChannel(self)
    }

    fn from_value(value: Value) -> (r: Self) {
        match value {
            Value::MidiChannel(v) => v,
            _ => MidiChannel(1),
        }
    }

    fn into_value(self) -> (r: Value) {
        Value::MidiChannel(self)
    }

    proof fn law_value_round_trip(self) {
    }
}

/// The default controller is the first.
impl Default for MidiCc {
    fn default() -> (r: Self)
        ensures
            r == MidiCc(0),
    {
        MidiCc(0)
    }
}

impl ParamValue for MidiCc {
    open spec fn reads(value: Value) -> Self {
        match value {
            Value::MidiCc(v) => v,
            _ => MidiCc(0),
        }
    }

    open spec fn stored(self) -> Value {
        Value::MidiCc(self)
    }

    fn from_value(value: Value) -> (r: Self) {
        match value {
            Value::MidiCc(v) => v,
            _ => MidiCc(0),
        }
    }

    fn into_value(self) -> (r: Value) {
        Value::MidiCc(self)
    }

    proof fn law_value_round_trip(self) {
    }
}

/// The default note is the lowest.
impl Default for MidiNote {
    fn default() -> (r: Self)
        ensures
            r == MidiNote(0),
    {
        MidiNote(0)
    }
}

impl ParamValue for MidiNote {
    open spec fn reads(value: Value) -> Self {
        match value {
            Value::MidiNote(v) => v,
            _ => MidiNote(0),
        }
    }

    open spec fn stored(self) -> Value {
        Value::MidiNote(self)
    }

    fn from_value(value: Value) -> (r: Self) {
        match value {
            Value::MidiNote(v) => v,
            _ => MidiNote(0),
        }
    }

    fn into_value(self) -> (r: Value) {
        Value::MidiNote(self)
    }

    proof fn law_value_round_trip(self) {
    }
}

/// Notes are the default.
impl Default for MidiMode {
    fn default() -> (r: Self)
        ensures
            r == MidiMode::Note,
    {
        MidiMode::Note
    }
}

impl ParamValue for MidiMode {
    open spec fn reads(value: Value) -> Self {
        match value {
            Value::MidiMode(v) => v,
            _ => MidiMode::Note,
        }
    }

    open spec fn stored(self) -> Value {
        Value::MidiMode(self)
    }

    fn from_value(value: Value) -> (r: Self) {
        match value {
            Value::MidiMode(v) => v,
            _ => MidiMode::Note,
        }
    }

    fn into_value(self) -> (r: Value) {
        Value::MidiMode(self)
    }

    proof fn law_value_round_trip(self) {
    }
}

/// All inputs are the default.
impl Default for MidiIn {
    fn default() -> (r: Self)
        ensures
            r == (MidiIn { usb: true, din: true }),
    {
        MidiIn { usb: true, din: true }
    }
}

impl ParamValue for MidiIn {
    open spec fn reads(value: Value) -> Self {
        match value {
            Value::MidiIn(v) => v,
            _ => MidiIn { usb: true, din: true },
        }
    }

    open spec fn stored(self) -> Value {
        Value::MidiIn(self)
    }

    fn from_value(value: Value) -> (r: Self) {
        match value {
            Value::MidiIn(v) => v,
            _ => MidiIn { usb: true, din: true },
        }
    }

    fn into_value(self) -> (r: Value) {
        Value::MidiIn(self)
    }

    proof fn law_value_round_trip(self) {
    }
}

/// All outputs are the default.
impl Default for MidiOut {
    fn default() -> (r: Self)
        ensures
            r == (MidiOut { usb: true, out1: true, out2: true }),
    {
        MidiOut { usb: true, out1: true, out2: true }
    }
}

impl ParamValue for MidiOut {
    open spec fn reads(value: Value) -> Self {
        match value {
            Value::MidiOut(v) => v,
            _ => MidiOut { usb: true, out1: true, out2: true },
        }
    }

    open spec fn stored(self) -> Value {
        Value::MidiOut(self)
    }

    fn from_value(value: Value) -> (r: Self) {
        match value {
            Value::MidiOut(v) => v,
            _ => MidiOut { usb: true, out1: true, out2: true },
        }
    }

    fn into_value(self) -> (r: Value) {
        Value::MidiOut(self)
    }

    proof fn law_value_round_trip(self) {
    }
}

/// The curves and the waveforms that a cycle passes through are all different, so
/// pressing on reaches each of them; the place of a curve goes up with it.
pub proof fn law_cycles_reach_all(curve: Curve, wave: Waveform)
    ensures
        curve.next() != curve,
        curve.next().next() != curve,
        curve.next().index() == (curve.index() + 1) % 3,
        Curve::Linear.index() == 0,
        wave.next() != wave,
        wave.next().next() != wave,
        wave.next().next().next() != wave,
        wave.next().next().next().next() != wave,
        Waveform::Sine.next() == Waveform::Triangle,
        Waveform::Saw.next() == Waveform::SawInv,
        Waveform::SawInv.next() == Waveform::Square,
{
}

/// The channels 1 to 16 stand on the wire as 0 to 15, and start over beyond; a
/// channel of 0 counts as the first.
pub proof fn law_channels_on_the_wire(channel: MidiChannel)
    ensures
        channel.wire() < 16,
        1 <= channel.0 <= 16 ==> channel.wire() + 1 == channel.0,
        channel.0 > 16 ==> channel.wire() == MidiChannel((channel.0 - 16) as u8).wire(),
        channel.0 == 0 ==> channel.wire() == 0,
{
}

/// The controllers of the channels count up one by one from the base, to 255.
pub proof fn law_controllers_count_up(base: u8, channel: usize)
    requires
        channel < 16,
    ensures
        MidiCc::for_channel(base, 0).0 == base,
        base + channel <= 255 ==> MidiCc::for_channel(base, channel).0 == base + channel,
        base + channel > 255 ==> MidiCc::for_channel(base, channel).0 == 255,
{
}

/// Only the range from -5 V to 5 V reaches below 0 V, and a message goes out where
/// at least one output is chosen.
pub proof fn law_ranges_and_outputs(out: MidiOut)
    ensures
        Range::_Neg5_5V.bipolar(),
        !Range::_0_10V.bipolar(),
        !Range::_0_5V.bipolar(),
        !out.any() <==> !out.usb && !out.out1 && !out.out2,
{
}

/// Every parameter is stored as a value of its own kind.
pub proof fn law_values_have_their_kind(
    number: i32,
    flag: bool,
    choice: usize,
    color: Color,
    curve: Curve,
    range: Range,
    channel: MidiChannel,
    cc: MidiCc,
    note: MidiNote,
    mode: MidiMode,
    input: MidiIn,
    output: MidiOut,
)
    ensures
        number.stored() == Value::Int(number),
        flag.stored() == Value::Flag(flag),
        choice.stored() == Value::Choice(choice),
        color.stored() == Value::Color(color),
        curve.stored() == Value::Curve(curve),
        range.stored() == Value::Range(range),
        channel.stored() == Value::MidiChannel(channel),
        cc.stored() == Value::MidiCc(cc),
        note.stored() == Value::MidiNote(note),
        mode.stored() == Value::MidiMode(mode),
        input.stored() == Value::MidiIn(input),
        output.stored() == Value::MidiOut(output),
        bool::reads(Value::MidiNrpn(flag)) == flag,
{
}

/// A value of another kind reads as zero, as false, as the first of a list, or as
/// the whole: white, a linear curve, ten volts, the first channel, all ports.
pub proof fn law_misfits_read_as_defaults(value: Value)
    ensures
        !(value is Int) ==> i32::reads(value) == 0,
        !(value is Flag || value is MidiNrpn) ==> !bool::reads(value),
        !(value is Choice) ==> usize::reads(value) == 0,
        !(value is Color) ==> Color::reads(value) == Color::White,
        !(value is Curve) ==> Curve::reads(value) == Curve::Linear,
        !(value is Range) ==> Range::reads(value) == Range::_0_10V,
        !(value is MidiChannel) ==> MidiChannel::reads(value) == MidiChannel(1),
        !(value is MidiCc) ==> MidiCc::reads(value) == MidiCc(0),
        !(value is MidiNote) ==> MidiNote::reads(value) == MidiNote(0),
        !(value is MidiMode) ==> MidiMode::reads(value) == MidiMode::Note,
        !(value is MidiIn) ==> MidiIn::reads(value) == (MidiIn { usb: true, din: true }),
        !(value is MidiOut) ==> MidiOut::reads(value) == (MidiOut {
            usb: true,
            out1: true,
            out2: true,
        }),
{
}

/// Controllers and notes go out as their numbers, of which seven bits stay.
pub proof fn law_numbers_on_the_wire(cc: MidiCc, note: MidiNote, number: u8, key: u8)
    requires
        call_ensures(MidiCc::to_wire, (cc,), number),
        call_ensures(MidiNote::to_wire, (note,), key),
    ensures
        number < 128,
        key < 128,
        cc.0 < 128 ==> number == cc.0,
        note.0 < 128 ==> key == note.0,
        exists|k: int| cc.0 == number + #[trigger] (128 * k),
        exists|k: int| note.0 == key + #[trigger] (128 * k),
{
    assert(cc.0 == number + 128 * (cc.0 as int / 128));
    assert(note.0 == key + 128 * (note.0 as int / 128));
}

/// What every kind of parameter is before it is set: what a value of another kind
/// reads as.
pub proof fn law_defaults_are_misfits(
    color: Color,
    curve: Curve,
    range: Range,
    channel: MidiChannel,
    cc: MidiCc,
    note: MidiNote,
    mode: MidiMode,
    input: MidiIn,
    output: MidiOut,
    misfit: Value,
)
    requires
        misfit is Int,
        call_ensures(Color::default, (), color),
        call_ensures(Curve::default, (), curve),
        call_ensures(Range::default, (), range),
        call_ensures(MidiChannel::default, (), channel),
        call_ensures(MidiCc::default, (), cc),
        call_ensures(MidiNote::default, (), note),
        call_ensures(MidiMode::default, (), mode),
        call_ensures(MidiIn::default, (), input),
        call_ensures(MidiOut::default, (), output),
    ensures
        color == Color::reads(misfit),
        curve == Curve::reads(misfit),
        range == Range::reads(misfit),
        channel == MidiChannel::reads(misfit),
        cc == MidiCc::reads(misfit),
        note == MidiNote::reads(misfit),
        mode == MidiMode::reads(misfit),
        input == MidiIn::reads(misfit),
        output == MidiOut::reads(misfit),
{
}

} // verus!
