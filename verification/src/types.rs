//! Typed byte codes and state models of the CN105 protocol.
//!
//! Temperatures are held in half degrees Celsius (`21.5 °C` is `43`), the
//! resolution in which the protocol carries them; energy in tenths of a kWh
//! and runtime in minutes, as the unit reports them.

use vstd::prelude::*;

verus! {

/// Operating power state.
#[derive(Debug, Clone, Copy, PartialEq, Eq, Structural)]
pub enum Power {
    Off,
    On,
}

impl Power {
    /// Wire code of each power state.
    pub open spec fn code(self) -> u8 {
        match self {
            Power::Off => 0x00,
            Power::On => 0x01,
        }
    }

    /// The power state a wire byte stands for, if any.
    pub open spec fn decode(b: u8) -> Option<Power> {
        if b == 0x00 {
            Some(Power::Off)
        } else if b == 0x01 {
            Some(Power::On)
        } else {
            None
        }
    }

    pub fn from_byte(b: u8) -> (r: Option<Power>)
        ensures
            r == Power::decode(b),
    {
        match b {
            0x00 => Some(Power::Off),
            0x01 => Some(Power::On),
            _ => None,
        }
    }

    pub fn to_byte(self) -> (b: u8)
        ensures
            b == self.code(),
    {
        match self {
            Power::Off => 0x00,
            Power::On => 0x01,
        }
    }
}

/// HVAC operating mode.
#[derive(Debug, Clone, Copy, PartialEq, Eq, Structural)]
pub enum Mode {
    Heat,
    Dry,
    Cool,
    Fan,
    Auto,
}

impl Mode {
    pub open spec fn code(self) -> u8 {
        match self {
            Mode::Heat => 0x01,
            Mode::Dry => 0x02,
            Mode::Cool => 0x03,
            Mode::Fan => 0x07,
            Mode::Auto => 0x08,
        }
    }

    pub open spec fn decode(b: u8) -> Option<Mode> {
        if b == 0x01 {
            Some(Mode::Heat)
        } else if b == 0x02 {
            Some(Mode::Dry)
        } else if b == 0x03 {
            Some(Mode::Cool)
        } else if b == 0x07 {
            Some(Mode::Fan)
        } else if b == 0x08 {
            Some(Mode::Auto)
        } else {
            None
        }
    }

    pub fn from_byte(b: u8) -> (r: Option<Mode>)
        ensures
            r == Mode::decode(b),
    {
        match b {
            0x01 => Some(Mode::Heat),
            0x02 => Some(Mode::Dry),
            0x03 => Some(Mode::Cool),
            0x07 => Some(Mode::Fan),
            0x08 => Some(Mode::Auto),
            _ => None,
        }
    }

    pub fn to_byte(self) -> (b: u8)
        ensures
            b == self.code(),
    {
        match self {
            Mode::Heat => 0x01,
            Mode::Dry => 0x02,
            Mode::Cool => 0x03,
            Mode::Fan => 0x07,
            Mode::Auto => 0x08,
        }
    }
}

/// Fan speed setting.
#[derive(Debug, Clone, Copy, PartialEq, Eq, Structural)]
pub enum FanSpeed {
    Auto,
    Quiet,
    Speed1,
    Speed2,
    Speed3,
    Speed4,
}

impl FanSpeed {
    pub open spec fn code(self) -> u8 {
        match self {
            FanSpeed::Auto => 0x00,
            FanSpeed::Quiet => 0x01,
            FanSpeed::Speed1 => 0x02,
            FanSpeed::Speed2 => 0x03,
            FanSpeed::Speed3 => 0x05,
            FanSpeed::Speed4 => 0x06,
        }
    }

    pub open spec fn decode(b: u8) -> Option<FanSpeed> {
        if b == 0x00 {
            Some(FanSpeed::Auto)
        } else if b == 0x01 {
            Some(FanSpeed::Quiet)
        } else if b == 0x02 {
            Some(FanSpeed::Speed1)
        } else if b == 0x03 {
            Some(FanSpeed::Speed2)
        } else if b == 0x05 {
            Some(FanSpeed::Speed3)
        } else if b == 0x06 {
            Some(FanSpeed::Speed4)
        } else {
            None
        }
    }

    pub fn from_byte(b: u8) -> (r: Option<FanSpeed>)
        ensures
            r == FanSpeed::decode(b),
    {
        match b {
            0x00 => Some(FanSpeed::Auto),
            0x01 => Some(FanSpeed::Quiet),
            0x02 => Some(FanSpeed::Speed1),
            0x03 => Some(FanSpeed::Speed2),
            0x05 => Some(FanSpeed::Speed3),
            0x06 => Some(FanSpeed::Speed4),
            _ => None,
        }
    }

    pub fn to_byte(self) -> (b: u8)
        ensures
            b == self.code(),
    {
        match self {
            FanSpeed::Auto => 0x00,
            FanSpeed::Quiet => 0x01,
            FanSpeed::Speed1 => 0x02,
            FanSpeed::Speed2 => 0x03,
            FanSpeed::Speed3 => 0x05,
            FanSpeed::Speed4 => 0x06,
        }
    }
}

/// Vertical vane (louver) direction.
#[derive(Debug, Clone, Copy, PartialEq, Eq, Structural)]
pub enum VanePosition {
    Auto,
    Up,
    UpCenter,
    Center,
    DownCenter,
    Down,
    Swing,
}

impl VanePosition {
    pub open spec fn code(self) -> u8 {
        match self {
            VanePosition::Auto => 0x00,
            VanePosition::Up => 0x01,
            VanePosition::UpCenter => 0x02,
            VanePosition::Center => 0x03,
            VanePosition::DownCenter => 0x04,
            VanePosition::Down => 0x05,
            VanePosition::Swing => 0x07,
        }
    }

    pub open spec fn decode(b: u8) -> Option<VanePosition> {
        if b == 0x00 {
            Some(VanePosition::Auto)
        } else if b == 0x01 {
            Some(VanePosition::Up)
        } else if b == 0x02 {
            Some(VanePosition::UpCenter)
        } else if b == 0x03 {
            Some(VanePosition::Center)
        } else if b == 0x04 {
            Some(VanePosition::DownCenter)
        } else if b == 0x05 {
            Some(VanePosition::Down)
        } else if b == 0x07 {
            Some(VanePosition::Swing)
        } else {
            None
        }
    }

    pub fn from_byte(b: u8) -> (r: Option<VanePosition>)
        ensures
            r == VanePosition::decode(b),
    {
        match b {
            0x00 => Some(VanePosition::Auto),
            0x01 => Some(VanePosition::Up),
            0x02 => Some(VanePosition::UpCenter),
            0x03 => Some(VanePosition::Center),
            0x04 => Some(VanePosition::DownCenter),
            0x05 => Some(VanePosition::Down),
            0x07 => Some(VanePosition::Swing),
            _ => None,
        }
    }

    pub fn to_byte(self) -> (b: u8)
        ensures
            b == self.code(),
    {
        match self {
            VanePosition::Auto => 0x00,
            VanePosition::Up => 0x01,
            VanePosition::UpCenter => 0x02,
            VanePosition::Center => 0x03,
            VanePosition::DownCenter => 0x04,
            VanePosition::Down => 0x05,
            VanePosition::Swing => 0x07,
        }
    }
}

/// Horizontal wide-vane direction.
#[derive(Debug, Clone, Copy, PartialEq, Eq, Structural)]
pub enum WideVane {
    LeftMax,
    Left,
    Center,
    Right,
    RightMax,
    Split,
    Swing,
    AirflowControl,
}

impl WideVane {
    pub open spec fn code(self) -> u8 {
        match self {
            WideVane::LeftMax => 0x01,
            WideVane::Left => 0x02,
            WideVane::Center => 0x03,
            WideVane::Right => 0x04,
            WideVane::RightMax => 0x05,
            WideVane::Split => 0x08,
            WideVane::Swing => 0x0C,
            WideVane::AirflowControl => 0x00,
        }
    }

    /// Only the low nibble of the wide-vane byte carries the direction.
    pub open spec fn decode(b: u8) -> Option<WideVane> {
        let n = b % 16;
        if n == 0x01 {
            Some(WideVane::LeftMax)
        } else if n == 0x02 {
            Some(WideVane::Left)
        } else if n == 0x03 {
            Some(WideVane::Center)
        } else if n == 0x04 {
            Some(WideVane::Right)
        } else if n == 0x05 {
            Some(WideVane::RightMax)
        } else if n == 0x08 {
            Some(WideVane::Split)
        } else if n == 0x0C {
            Some(WideVane::Swing)
        } else if n == 0x00 {
            Some(WideVane::AirflowControl)
        } else {
            None
        }
    }

    pub fn from_byte(b: u8) -> (r: Option<WideVane>)
        ensures
            r == WideVane::decode(b),
    {
        let n = b & 0x0F;
        assert(n == b % 16) by (bit_vector)
            requires
                n == b & 0x0F,
        ;
        match n {
            0x01 => Some(WideVane::LeftMax),
            0x02 => Some(WideVane::Left),
            0x03 => Some(WideVane::Center),
            0x04 => Some(WideVane::Right),
            0x05 => Some(WideVane::RightMax),
            0x08 => Some(WideVane::Split),
            0x0C => Some(WideVane::Swing),
            0x00 => Some(WideVane::AirflowControl),
            _ => None,
        }
    }

    pub fn to_byte(self) -> (b: u8)
        ensures
            b == self.code(),
    {
        match self {
            WideVane::LeftMax => 0x01,
            WideVane::Left => 0x02,
            WideVane::Center => 0x03,
            WideVane::Right => 0x04,
            WideVane::RightMax => 0x05,
            WideVane::Split => 0x08,
            WideVane::Swing => 0x0C,
            WideVane::AirflowControl => 0x00,
        }
    }
}

/// Sub-mode status.
#[derive(Debug, Clone, Copy, PartialEq, Eq, Structural)]
pub enum SubMode {
    Normal,
    Warmup,
    Defrost,
    Preheat,
    Standby,
    Off,
}

impl SubMode {
    pub open spec fn code(self) -> u8 {
        match self {
            SubMode::Normal => 0x00,
            SubMode::Warmup => 0x01,
            SubMode::Defrost => 0x02,
            SubMode::Preheat => 0x04,
            SubMode::Standby => 0x08,
            SubMode::Off => 0x10,
        }
    }

    pub open spec fn decode(b: u8) -> Option<SubMode> {
        if b == 0x00 {
            Some(SubMode::Normal)
        } else if b == 0x01 {
            Some(SubMode::Warmup)
        } else if b == 0x02 {
            Some(SubMode::Defrost)
        } else if b == 0x04 {
            Some(SubMode::Preheat)
        } else if b == 0x08 {
            Some(SubMode::Standby)
        } else if b == 0x10 {
            Some(SubMode::Off)
        } else {
            None
        }
    }

    pub fn from_byte(b: u8) -> (r: Option<SubMode>)
        ensures
            r == SubMode::decode(b),
    {
        match b {
            0x00 => Some(SubMode::Normal),
            0x01 => Some(SubMode::Warmup),
            0x02 => Some(SubMode::Defrost),
            0x04 => Some(SubMode::Preheat),
            0x08 => Some(SubMode::Standby),
            0x10 => Some(SubMode::Off),
            _ => None,
        }
    }
}

/// Operating stage.
#[derive(Debug, Clone, Copy, PartialEq, Eq, Structural)]
pub enum Stage {
    Idle,
    Low,
    Gentle,
    Medium,
    Moderate,
    High,
    Diffuse,
}

impl Stage {
    pub open spec fn code(self) -> u8 {
        match self {
            Stage::Idle => 0x00,
            Stage::Low => 0x01,
            Stage::Gentle => 0x02,
            Stage::Medium => 0x03,
            Stage::Moderate => 0x04,
            Stage::High => 0x05,
            Stage::Diffuse => 0x06,
        }
    }

    pub open spec fn decode(b: u8) -> Option<Stage> {
        if b <= 0x06 {
            Some(
                if b == 0x00 {
                    Stage::Idle
                } else if b == 0x01 {
                    Stage::Low
                } else if b == 0x02 {
                    Stage::Gentle
                } else if b == 0x03 {
                    Stage::Medium
                } else if b == 0x04 {
                    Stage::Moderate
                } else if b == 0x05 {
                    Stage::High
                } else {
                    Stage::Diffuse
                },
            )
        } else {
            None
        }
    }

    pub fn from_byte(b: u8) -> (r: Option<Stage>)
        ensures
            r == Stage::decode(b),
    {
        match b {
            0x00 => Some(Stage::Idle),
            0x01 => Some(Stage::Low),
            0x02 => Some(Stage::Gentle),
            0x03 => Some(Stage::Medium),
            0x04 => Some(Stage::Moderate),
            0x05 => Some(Stage::High),
            0x06 => Some(Stage::Diffuse),
            _ => None,
        }
    }
}

} // verus!

verus! {

/// Current active settings of the heat pump, as last reported by it.
#[derive(Debug, Clone, Copy, PartialEq, Eq, Structural)]
pub struct HeatpumpSettings {
    pub power: Option<Power>,
    pub mode: Option<Mode>,
    /// Target temperature in half degrees Celsius.
    pub target_temperature: Option<i64>,
    pub fan_speed: Option<FanSpeed>,
    pub vane: Option<VanePosition>,
    pub wide_vane: Option<WideVane>,
    pub isee: bool,
    pub target_humidity: Option<u8>,
    pub connected: bool,
}

impl HeatpumpSettings {
    /// Settings with nothing known yet.
    pub open spec fn empty() -> HeatpumpSettings {
        HeatpumpSettings {
            power: None,
            mode: None,
            target_temperature: None,
            fan_speed: None,
            vane: None,
            wide_vane: None,
            isee: false,
            target_humidity: None,
            connected: false,
        }
    }
}

impl Default for HeatpumpSettings {
    fn default() -> (s: HeatpumpSettings)
        ensures
            s == HeatpumpSettings::empty(),
    {
        HeatpumpSettings {
            power: None,
            mode: None,
            target_temperature: None,
            fan_speed: None,
            vane: None,
            wide_vane: None,
            isee: false,
            target_humidity: None,
            connected: false,
        }
    }
}

/// Operational status and diagnostic readings.
#[derive(Debug, Clone, Copy, PartialEq, Eq, Structural)]
pub struct HeatpumpStatus {
    pub operating: bool,
    pub compressor_frequency: u8,
    /// Room temperature in half degrees Celsius.
    pub room_temperature: i64,
    /// Outside temperature in half degrees Celsius.
    pub outside_temperature: Option<i64>,
    pub input_power_watts: Option<u16>,
    /// Energy counter in tenths of a kWh.
    pub energy_kwh_tenths: Option<u16>,
    /// Compressor runtime in minutes.
    pub runtime_minutes: Option<u32>,
    pub stage: Option<Stage>,
    pub sub_mode: Option<SubMode>,
}

impl HeatpumpStatus {
    /// Status with nothing known yet.
    pub open spec fn empty() -> HeatpumpStatus {
        HeatpumpStatus {
            operating: false,
            compressor_frequency: 0,
            room_temperature: 0,
            outside_temperature: None,
            input_power_watts: None,
            energy_kwh_tenths: None,
            runtime_minutes: None,
            stage: None,
            sub_mode: None,
        }
    }
}

impl Default for HeatpumpStatus {
    fn default() -> (s: HeatpumpStatus)
        ensures
            s == HeatpumpStatus::empty(),
    {
        HeatpumpStatus {
            operating: false,
            compressor_frequency: 0,
            room_temperature: 0,
            outside_temperature: None,
            input_power_watts: None,
            energy_kwh_tenths: None,
            runtime_minutes: None,
            stage: None,
            sub_mode: None,
        }
    }
}

/// A requested setpoint, as the two roundings of a temperature `t` in °C
/// that the settings command carries: `half_steps` is `t * 2` rounded
/// (the half-degree encoding) and `whole_degrees` is `t` rounded (the
/// legacy whole-degree index).
#[derive(Debug, Clone, Copy, PartialEq, Eq, Structural)]
pub struct SetpointRequest {
    pub half_steps: i32,
    pub whole_degrees: i32,
}

/// Wanted settings to send as an update command.
#[derive(Debug, Clone, Copy, PartialEq, Eq, Structural)]
pub struct WantedSettings {
    pub power: Option<Power>,
    pub mode: Option<Mode>,
    pub temperature: Option<SetpointRequest>,
    pub fan_speed: Option<FanSpeed>,
    pub vane: Option<VanePosition>,
    pub wide_vane: Option<WideVane>,
}

impl WantedSettings {
    /// No change requested.
    pub open spec fn empty() -> WantedSettings {
        WantedSettings {
            power: None,
            mode: None,
            temperature: None,
            fan_speed: None,
            vane: None,
            wide_vane: None,
        }
    }
}

impl Default for WantedSettings {
    fn default() -> (s: WantedSettings)
        ensures
            s == WantedSettings::empty(),
    {
        WantedSettings {
            power: None,
            mode: None,
            temperature: None,
            fan_speed: None,
            vane: None,
            wide_vane: None,
        }
    }
}

} // verus!

verus! {

/// Each byte code names one value and back: decoding a value's code gives
/// the value, and a byte decodes to a value only if it is that value's code.
pub proof fn lemma_codes_round_trip(
    p: Power,
    m: Mode,
    f: FanSpeed,
    v: VanePosition,
    s: SubMode,
    st: Stage,
    b: u8,
)
    ensures
        Power::decode(p.code()) == Some(p),
        Power::decode(b) == Some(p) ==> p.code() == b,
        Mode::decode(m.code()) == Some(m),
        Mode::decode(b) == Some(m) ==> m.code() == b,
        FanSpeed::decode(f.code()) == Some(f),
        FanSpeed::decode(b) == Some(f) ==> f.code() == b,
        VanePosition::decode(v.code()) == Some(v),
        VanePosition::decode(b) == Some(v) ==> v.code() == b,
        SubMode::decode(s.code()) == Some(s),
        SubMode::decode(b) == Some(s) ==> s.code() == b,
        Stage::decode(st.code()) == Some(st),
        Stage::decode(b) == Some(st) ==> st.code() == b,
{
}

/// Wide-vane codes round trip through the low nibble: decoding a code
/// gives the value back, and any byte whose low nibble is a value's code,
/// whatever its high nibble, decodes to that value.
pub proof fn lemma_wide_vane_round_trip(w: WideVane, b: u8)
    ensures
        WideVane::decode(w.code()) == Some(w),
        WideVane::decode(b) == Some(w) <==> w.code() == b % 16,
{
}

} // verus!
