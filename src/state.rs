//! The device's operating modes, as carried in one-byte codes.
use vstd::prelude::*;

verus! {

/// The device's operating mode.
#[derive(Clone, Copy, Debug, PartialEq, Eq, Structural)]
pub enum State {
    Sleep,
    GoingToSleep,
    Idle,
    Busy,
    Espresso,
    Steam,
    HotWater,
    ShortCal,
    SelfTest,
    LongCal,
    Descale,
    FatalError,
    Init,
    NoRequest,
    SkipToNext,
    HotWaterRinse,
    SteamRinse,
    Refill,
    Clean,
    InBootloader,
    AirPurge,
}

impl State {
    /// The byte that stands for this value on the wire.
    pub open spec fn spec_code(self) -> u8 {
        match self {
            State::Sleep => 0x00,
            State::GoingToSleep => 0x01,
            State::Idle => 0x02,
            State::Busy => 0x03,
            State::Espresso => 0x04,
            State::Steam => 0x05,
            State::HotWater => 0x06,
            State::ShortCal => 0x07,
            State::SelfTest => 0x08,
            State::LongCal => 0x09,
            State::Descale => 0x0a,
            State::FatalError => 0x0b,
            State::Init => 0x0c,
            State::NoRequest => 0x0d,
            State::SkipToNext => 0x0e,
            State::HotWaterRinse => 0x0f,
            State::SteamRinse => 0x10,
            State::Refill => 0x11,
            State::Clean => 0x12,
            State::InBootloader => 0x13,
            State::AirPurge => 0x14,
        }
    }

    /// The value that a byte stands for, if any.
    pub open spec fn spec_from_code(b: u8) -> Option<State> {
        if b == 0x00 {
            Some(State::Sleep)
        } else if b == 0x01 {
            Some(State::GoingToSleep)
        } else if b == 0x02 {
            Some(State::Idle)
        } else if b == 0x03 {
            Some(State::Busy)
        } else if b == 0x04 {
            Some(State::Espresso)
        } else if b == 0x05 {
            Some(State::Steam)
        } else if b == 0x06 {
            Some(State::HotWater)
        } else if b == 0x07 {
            Some(State::ShortCal)
        } else if b == 0x08 {
            Some(State::SelfTest)
        } else if b == 0x09 {
            Some(State::LongCal)
        } else if b == 0x0a {
            Some(State::Descale)
        } else if b == 0x0b {
            Some(State::FatalError)
        } else if b == 0x0c {
            Some(State::Init)
        } else if b == 0x0d {
            Some(State::NoRequest)
        } else if b == 0x0e {
            Some(State::SkipToNext)
        } else if b == 0x0f {
            Some(State::HotWaterRinse)
        } else if b == 0x10 {
            Some(State::SteamRinse)
        } else if b == 0x11 {
            Some(State::Refill)
        } else if b == 0x12 {
            Some(State::Clean)
        } else if b == 0x13 {
            Some(State::InBootloader)
        } else if b == 0x14 {
            Some(State::AirPurge)
        } else {
            None
        }
    }

    pub fn code(&self) -> (r: u8)
        ensures
            r == self.spec_code(),
    {
        match self {
            State::Sleep => 0x00,
            State::GoingToSleep => 0x01,
            State::Idle => 0x02,
            State::Busy => 0x03,
            State::Espresso => 0x04,
            State::Steam => 0x05,
            State::HotWater => 0x06,
            State::ShortCal => 0x07,
            State::SelfTest => 0x08,
            State::LongCal => 0x09,
            State::Descale => 0x0a,
            State::FatalError => 0x0b,
            State::Init => 0x0c,
            State::NoRequest => 0x0d,
            State::SkipToNext => 0x0e,
            State::HotWaterRinse => 0x0f,
            State::SteamRinse => 0x10,
            State::Refill => 0x11,
            State::Clean => 0x12,
            State::InBootloader => 0x13,
            State::AirPurge => 0x14,
        }
    }

    /// Reads a code byte; an unknown code is no value.
    pub fn from_code(b: u8) -> (r: Option<State>)
        ensures
            r == State::spec_from_code(b),
    {
        match b {
            0x00 => Some(State::Sleep),
            0x01 => Some(State::GoingToSleep),
            0x02 => Some(State::Idle),
            0x03 => Some(State::Busy),
            0x04 => Some(State::Espresso),
            0x05 => Some(State::Steam),
            0x06 => Some(State::HotWater),
            0x07 => Some(State::ShortCal),
            0x08 => Some(State::SelfTest),
            0x09 => Some(State::LongCal),
            0x0a => Some(State::Descale),
            0x0b => Some(State::FatalError),
            0x0c => Some(State::Init),
            0x0d => Some(State::NoRequest),
            0x0e => Some(State::SkipToNext),
            0x0f => Some(State::HotWaterRinse),
            0x10 => Some(State::SteamRinse),
            0x11 => Some(State::Refill),
            0x12 => Some(State::Clean),
            0x13 => Some(State::InBootloader),
            0x14 => Some(State::AirPurge),
            _ => None,
        }
    }

    /// Every value's code reads back as the value, and every code that
    /// reads as a value is that value's code.
    pub proof fn lemma_code_round_trip(self, b: u8)
        ensures
            State::spec_from_code(self.spec_code()) == Some(self),
            State::spec_from_code(b) == Some(self) ==> self.spec_code() == b,
    {
        match self {
            _ => {},
        }
    }
}

/// The device's sub-mode; error codes start at 200.
#[derive(Clone, Copy, Debug, PartialEq, Eq, Structural)]
pub enum SubState {
    NoState,
    HeatingWaterTank,
    HeatingWaterHeater,
    StabilizingMixTemp,
    PreInfusion,
    Pouring,
    Flushing,
    Steaming,
    DescaleInit,
    DescaleFillGroup,
    DescaleReturn,
    DescaleGroup,
    DescaleSteam,
    CleanInit,
    CleanFillGroup,
    CleanSoak,
    CleanGroup,
    PausedRefil,
    PausedSteam,
    ErrorNaN,
    ErrorInf,
    ErrorGeneric,
    ErrorAcc,
    ErrorTempSensor,
    ErrorPressureSensor,
    ErrorWaterLevelSensor,
    ErrorDip,
    ErrorAssertion,
    ErrorUnsafe,
    ErrorInvalidParam,
    ErrorFlash,
    ErrorOOM,
    ErrorDeadline,
}

impl SubState {
    /// The byte that stands for this value on the wire.
    pub open spec fn spec_code(self) -> u8 {
        match self {
            SubState::NoState => 0x00,
            SubState::HeatingWaterTank => 0x01,
            SubState::HeatingWaterHeater => 0x02,
            SubState::StabilizingMixTemp => 0x03,
            SubState::PreInfusion => 0x04,
            SubState::Pouring => 0x05,
            SubState::Flushing => 0x06,
            SubState::Steaming => 0x07,
            SubState::DescaleInit => 0x08,
            SubState::DescaleFillGroup => 0x09,
            SubState::DescaleReturn => 0x0a,
            SubState::DescaleGroup => 0x0b,
            SubState::DescaleSteam => 0x0c,
            SubState::CleanInit => 0x0d,
            SubState::CleanFillGroup => 0x0e,
            SubState::CleanSoak => 0x0f,
            SubState::CleanGroup => 0x10,
            SubState::PausedRefil => 0x11,
            SubState::PausedSteam => 0x12,
            SubState::ErrorNaN => 0xc8,
            SubState::ErrorInf => 0xc9,
            SubState::ErrorGeneric => 0xca,
            SubState::ErrorAcc => 0xcb,
            SubState::ErrorTempSensor => 0xcc,
            SubState::ErrorPressureSensor => 0xcd,
            SubState::ErrorWaterLevelSensor => 0xce,
            SubState::ErrorDip => 0xcf,
            SubState::ErrorAssertion => 0xd0,
            SubState::ErrorUnsafe => 0xd1,
            SubState::ErrorInvalidParam => 0xd2,
            SubState::ErrorFlash => 0xd3,
            SubState::ErrorOOM => 0xd4,
            SubState::ErrorDeadline => 0xd5,
        }
    }

    /// The value that a byte stands for, if any.
    pub open spec fn spec_from_code(b: u8) -> Option<SubState> {
        if b == 0x00 {
            Some(SubState::NoState)
        } else if b == 0x01 {
            Some(SubState::HeatingWaterTank)
        } else if b == 0x02 {
            Some(SubState::HeatingWaterHeater)
        } else if b == 0x03 {
            Some(SubState::StabilizingMixTemp)
        } else if b == 0x04 {
            Some(SubState::PreInfusion)
        } else if b == 0x05 {
            Some(SubState::Pouring)
        } else if b == 0x06 {
            Some(SubState::Flushing)
        } else if b == 0x07 {
            Some(SubState::Steaming)
        } else if b == 0x08 {
            Some(SubState::DescaleInit)
        } else if b == 0x09 {
            Some(SubState::DescaleFillGroup)
        } else if b == 0x0a {
            Some(SubState::DescaleReturn)
        } else if b == 0x0b {
            Some(SubState::DescaleGroup)
        } else if b == 0x0c {
            Some(SubState::DescaleSteam)
        } else if b == 0x0d {
            Some(SubState::CleanInit)
        } else if b == 0x0e {
            Some(SubState::CleanFillGroup)
        } else if b == 0x0f {
            Some(SubState::CleanSoak)
        } else if b == 0x10 {
            Some(SubState::CleanGroup)
        } else if b == 0x11 {
            Some(SubState::PausedRefil)
        } else if b == 0x12 {
            Some(SubState::PausedSteam)
        } else if b == 0xc8 {
            Some(SubState::ErrorNaN)
        } else if b == 0xc9 {
            Some(SubState::ErrorInf)
        } else if b == 0xca {
            Some(SubState::ErrorGeneric)
        } else if b == 0xcb {
            Some(SubState::ErrorAcc)
        } else if b == 0xcc {
            Some(SubState::ErrorTempSensor)
        } else if b == 0xcd {
            Some(SubState::ErrorPressureSensor)
        } else if b == 0xce {
            Some(SubState::ErrorWaterLevelSensor)
        } else if b == 0xcf {
            Some(SubState::ErrorDip)
        } else if b == 0xd0 {
            Some(SubState::ErrorAssertion)
        } else if b == 0xd1 {
            Some(SubState::ErrorUnsafe)
        } else if b == 0xd2 {
            Some(SubState::ErrorInvalidParam)
        } else if b == 0xd3 {
            Some(SubState::ErrorFlash)
        } else if b == 0xd4 {
            Some(SubState::ErrorOOM)
        } else if b == 0xd5 {
            Some(SubState::ErrorDeadline)
        } else {
            None
        }
    }

    pub fn code(&self) -> (r: u8)
        ensures
            r == self.spec_code(),
    {
        match self {
            SubState::NoState => 0x00,
            SubState::HeatingWaterTank => 0x01,
            SubState::HeatingWaterHeater => 0x02,
            SubState::StabilizingMixTemp => 0x03,
            SubState::PreInfusion => 0x04,
            SubState::Pouring => 0x05,
            SubState::Flushing => 0x06,
            SubState::Steaming => 0x07,
            SubState::DescaleInit => 0x08,
            SubState::DescaleFillGroup => 0x09,
            SubState::DescaleReturn => 0x0a,
            SubState::DescaleGroup => 0x0b,
            SubState::DescaleSteam => 0x0c,
            SubState::CleanInit => 0x0d,
            SubState::CleanFillGroup => 0x0e,
            SubState::CleanSoak => 0x0f,
            SubState::CleanGroup => 0x10,
            SubState::PausedRefil => 0x11,
            SubState::PausedSteam => 0x12,
            SubState::ErrorNaN => 0xc8,
            SubState::ErrorInf => 0xc9,
            SubState::ErrorGeneric => 0xca,
            SubState::ErrorAcc => 0xcb,
            SubState::ErrorTempSensor => 0xcc,
            SubState::ErrorPressureSensor => 0xcd,
            SubState::ErrorWaterLevelSensor => 0xce,
            SubState::ErrorDip => 0xcf,
            SubState::ErrorAssertion => 0xd0,
            SubState::ErrorUnsafe => 0xd1,
            SubState::ErrorInvalidParam => 0xd2,
            SubState::ErrorFlash => 0xd3,
            SubState::ErrorOOM => 0xd4,
            SubState::ErrorDeadline => 0xd5,
        }
    }

    /// Reads a code byte; an unknown code is no value.
    pub fn from_code(b: u8) -> (r: Option<SubState>)
        ensures
            r == SubState::spec_from_code(b),
    {
        match b {
            0x00 => Some(SubState::NoState),
            0x01 => Some(SubState::HeatingWaterTank),
            0x02 => Some(SubState::HeatingWaterHeater),
            0x03 => Some(SubState::StabilizingMixTemp),
            0x04 => Some(SubState::PreInfusion),
            0x05 => Some(SubState::Pouring),
            0x06 => Some(SubState::Flushing),
            0x07 => Some(SubState::Steaming),
            0x08 => Some(SubState::DescaleInit),
            0x09 => Some(SubState::DescaleFillGroup),
            0x0a => Some(SubState::DescaleReturn),
            0x0b => Some(SubState::DescaleGroup),
            0x0c => Some(SubState::DescaleSteam),
            0x0d => Some(SubState::CleanInit),
            0x0e => Some(SubState::CleanFillGroup),
            0x0f => Some(SubState::CleanSoak),
            0x10 => Some(SubState::CleanGroup),
            0x11 => Some(SubState::PausedRefil),
            0x12 => Some(SubState::PausedSteam),
            0xc8 => Some(SubState::ErrorNaN),
            0xc9 => Some(SubState::ErrorInf),
            0xca => Some(SubState::ErrorGeneric),
            0xcb => Some(SubState::ErrorAcc),
            0xcc => Some(SubState::ErrorTempSensor),
            0xcd => Some(SubState::ErrorPressureSensor),
            0xce => Some(SubState::ErrorWaterLevelSensor),
            0xcf => Some(SubState::ErrorDip),
            0xd0 => Some(SubState::ErrorAssertion),
            0xd1 => Some(SubState::ErrorUnsafe),
            0xd2 => Some(SubState::ErrorInvalidParam),
            0xd3 => Some(SubState::ErrorFlash),
            0xd4 => Some(SubState::ErrorOOM),
            0xd5 => Some(SubState::ErrorDeadline),
            _ => None,
        }
    }

    /// Every value's code reads back as the value, and every code that
    /// reads as a value is that value's code.
    pub proof fn lemma_code_round_trip(self, b: u8)
        ensures
            SubState::spec_from_code(self.spec_code()) == Some(self),
            SubState::spec_from_code(b) == Some(self) ==> self.spec_code() == b,
    {
        match self {
            _ => {},
        }
    }
}

} // verus!
