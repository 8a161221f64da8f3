//! Typed forms of the enumerations of the DCMI interface.
use vstd::prelude::*;
use crate::error::{DCMIError, DCMIResult};
use crate::structs::{SingleDeviceId, ALL_VCHIPS};

verus! {

/// Kind of a chip in a management unit.
#[derive(Debug, PartialEq, Eq, Clone, Copy, Structural)]
pub enum UnitType {
    /// Accelerator chip
    NPU,
    /// Board controller
    MCU,
    /// Host processor
    CPU,
    /// Not a valid chip
    Invalid,
}

impl UnitType {
    /// The code of this kind in the DCMI interface.
    pub open spec fn raw_code(self) -> u32 {
        match self {
            UnitType::NPU => 0,
            UnitType::MCU => 1,
            UnitType::CPU => 2,
            UnitType::Invalid => 0xff,
        }
    }

    /// The kind of a chip with the given interface code; a code outside the
    /// table names no valid chip.
    pub open spec fn spec_from_raw(code: u32) -> UnitType {
        if code == 0 {
            UnitType::NPU
        } else if code == 1 {
            UnitType::MCU
        } else if code == 2 {
            UnitType::CPU
        } else {
            UnitType::Invalid
        }
    }

    /// The kind of a chip from its interface code; a code outside the table
    /// names no valid chip and becomes `Invalid`.
    pub fn from_raw(code: u32) -> (r: UnitType)
        ensures
            r == UnitType::spec_from_raw(code),
            r.raw_code() == code || (r == UnitType::Invalid && forall|t: UnitType|
                #[trigger] t.raw_code() != code),
    {
        if code == 0 {
            UnitType::NPU
        } else if code == 1 {
            UnitType::MCU
        } else if code == 2 {
            UnitType::CPU
        } else {
            UnitType::Invalid
        }
    }
}

/// Die type
#[derive(Debug, PartialEq, Eq, Clone, Copy, Structural)]
pub enum DieType {
    /// NDie
    NDie,
    /// VDie
    VDie,
}

impl DieType {
    /// The code of this die type in the DCMI interface.
    pub open spec fn raw_code(self) -> u32 {
        match self {
            DieType::NDie => 0,
            DieType::VDie => 1,
        }
    }

    /// The die type with the given interface code, if any.
    pub fn from_raw(code: u32) -> (r: Option<DieType>)
        ensures
            match r {
                Some(t) => t.raw_code() == code,
                None => forall|t: DieType| #[trigger] t.raw_code() != code,
            },
    {
        if code == 0 {
            Some(DieType::NDie)
        } else if code == 1 {
            Some(DieType::VDie)
        } else {
            None
        }
    }

    /// The interface code of this die type.
    pub fn to_raw(self) -> (r: u32)
        ensures
            r == self.raw_code(),
    {
        match self {
            DieType::NDie => 0,
            DieType::VDie => 1,
        }
    }
}

/// Device type
#[derive(Debug, PartialEq, Eq, Clone, Copy, Structural)]
pub enum DeviceType {
    /// DDR
    DDR,
    /// SRAM
    SRAM,
    /// HBM
    HBM,
    /// NPU
    NPU,
    /// HBM recorded single address
    HBMRecordedSingleAddr,
    /// HBM recorded multi address
    HBMRecordedMultiAddr,
    /// No device
    NoDevice,
}

impl DeviceType {
    /// The code of this device type in the DCMI interface.
    pub open spec fn raw_code(self) -> u32 {
        match self {
            DeviceType::DDR => 0,
            DeviceType::SRAM => 1,
            DeviceType::HBM => 2,
            DeviceType::NPU => 3,
            DeviceType::HBMRecordedSingleAddr => 4,
            DeviceType::HBMRecordedMultiAddr => 5,
            DeviceType::NoDevice => 0xff,
        }
    }

    /// The device type with the given interface code, if any.
    pub fn from_raw(code: u32) -> (r: Option<DeviceType>)
        ensures
            match r {
                Some(t) => t.raw_code() == code,
                None => forall|t: DeviceType| #[trigger] t.raw_code() != code,
            },
    {
        if code == 0 {
            Some(DeviceType::DDR)
        } else if code == 1 {
            Some(DeviceType::SRAM)
        } else if code == 2 {
            Some(DeviceType::HBM)
        } else if code == 3 {
            Some(DeviceType::NPU)
        } else if code == 4 {
            Some(DeviceType::HBMRecordedSingleAddr)
        } else if code == 5 {
            Some(DeviceType::HBMRecordedMultiAddr)
        } else if code == 0xff {
            Some(DeviceType::NoDevice)
        } else {
            None
        }
    }

    /// The interface code of this device type.
    pub fn to_raw(self) -> (r: u32)
        ensures
            r == self.raw_code(),
    {
        match self {
            DeviceType::DDR => 0,
            DeviceType::SRAM => 1,
            DeviceType::HBM => 2,
            DeviceType::NPU => 3,
            DeviceType::HBMRecordedSingleAddr => 4,
            DeviceType::HBMRecordedMultiAddr => 5,
            DeviceType::NoDevice => 0xff,
        }
    }
}

/// Health state
#[derive(Debug, PartialEq, Eq, Clone, Copy, Structural)]
pub enum HealthState {
    /// Normal
    Normal,
    /// General alarm
    GeneralAlarm,
    /// Important alarm
    ImportantAlarm,
    /// Emergency alarm
    EmergencyAlarm,
    /// Device not found or not started
    DeviceNotFoundOrNotStarted,
}

/// Health code of a device that is not found or not started.
pub const HEALTH_DEVICE_NOT_FOUND: u32 = 0xffff_ffff;

impl HealthState {
    /// The code of this state in the DCMI interface.
    pub open spec fn raw_code(self) -> u32 {
        match self {
            HealthState::Normal => 0,
            HealthState::GeneralAlarm => 1,
            HealthState::ImportantAlarm => 2,
            HealthState::EmergencyAlarm => 3,
            HealthState::DeviceNotFoundOrNotStarted => HEALTH_DEVICE_NOT_FOUND,
        }
    }

    /// The health state with the given interface code, if any.
    pub fn from_raw(code: u32) -> (r: Option<HealthState>)
        ensures
            match r {
                Some(t) => t.raw_code() == code,
                None => forall|t: HealthState| #[trigger] t.raw_code() != code,
            },
    {
        if code == 0 {
            Some(HealthState::Normal)
        } else if code == 1 {
            Some(HealthState::GeneralAlarm)
        } else if code == 2 {
            Some(HealthState::ImportantAlarm)
        } else if code == 3 {
            Some(HealthState::EmergencyAlarm)
        } else if code == HEALTH_DEVICE_NOT_FOUND {
            Some(HealthState::DeviceNotFoundOrNotStarted)
        } else {
            None
        }
    }
}

/// Frequency type
#[derive(Debug, PartialEq, Eq, Clone, Copy, Structural)]
pub enum FrequencyType {
    /// DDR
    DDR,
    /// Control CPU
    CtrlCpu,
    /// HBM
    HBM,
    /// Current AI core frequency
    AICoreCurrent,
    /// The AI core frequency sustained under TDP power consumption
    AICoreMax,
    /// Current vector core frequency
    VectorCoreCurrent,
}

impl FrequencyType {
    /// The code of this frequency type in the DCMI interface.
    pub open spec fn raw_code(self) -> u32 {
        match self {
            FrequencyType::DDR => 1,
            FrequencyType::CtrlCpu => 2,
            FrequencyType::HBM => 6,
            FrequencyType::AICoreCurrent => 7,
            FrequencyType::AICoreMax => 9,
            FrequencyType::VectorCoreCurrent => 12,
        }
    }

    /// The frequency type with the given interface code, if any.
    pub fn from_raw(code: u32) -> (r: Option<FrequencyType>)
        ensures
            match r {
                Some(t) => t.raw_code() == code,
                None => forall|t: FrequencyType| #[trigger] t.raw_code() != code,
            },
    {
        if code == 1 {
            Some(FrequencyType::DDR)
        } else if code == 2 {
            Some(FrequencyType::CtrlCpu)
        } else if code == 6 {
            Some(FrequencyType::HBM)
        } else if code == 7 {
            Some(FrequencyType::AICoreCurrent)
        } else if code == 9 {
            Some(FrequencyType::AICoreMax)
        } else if code == 12 {
            Some(FrequencyType::VectorCoreCurrent)
        } else {
            None
        }
    }

    /// The interface code of this frequency type.
    pub fn to_raw(self) -> (r: u32)
        ensures
            r == self.raw_code(),
    {
        match self {
            FrequencyType::DDR => 1,
            FrequencyType::CtrlCpu => 2,
            FrequencyType::HBM => 6,
            FrequencyType::AICoreCurrent => 7,
            FrequencyType::AICoreMax => 9,
            FrequencyType::VectorCoreCurrent => 12,
        }
    }
}

/// Utilization type
#[derive(Debug, PartialEq, Eq, Clone, Copy, Structural)]
pub enum UtilizationType {
    /// Memory
    Memory,
    /// AI Core
    AICore,
    /// AI CPU
    AICpu,
    /// Control CPU
    CtrlCpu,
    /// Memory Bandwidth
    MemoryBandwidth,
    /// HBM
    HBM,
    /// DDR
    DDR,
    /// HBM Bandwidth
    HbmBandwidth,
    /// Vector Core
    VectorCore,
}

impl UtilizationType {
    /// The code of this utilization type in the DCMI interface.
    pub open spec fn raw_code(self) -> i32 {
        match self {
            UtilizationType::Memory => 1,
            UtilizationType::AICore => 2,
            UtilizationType::AICpu => 3,
            UtilizationType::CtrlCpu => 4,
            UtilizationType::MemoryBandwidth => 5,
            UtilizationType::HBM => 6,
            UtilizationType::DDR => 8,
            UtilizationType::HbmBandwidth => 10,
            UtilizationType::VectorCore => 12,
        }
    }

    /// The utilization type with the given interface code, if any.
    pub fn from_raw(code: i32) -> (r: Option<UtilizationType>)
        ensures
            match r {
                Some(t) => t.raw_code() == code,
                None => forall|t: UtilizationType| #[trigger] t.raw_code() != code,
            },
    {
        if code == 1 {
            Some(UtilizationType::Memory)
        } else if code == 2 {
            Some(UtilizationType::AICore)
        } else if code == 3 {
            Some(UtilizationType::AICpu)
        } else if code == 4 {
            Some(UtilizationType::CtrlCpu)
        } else if code == 5 {
            Some(UtilizationType::MemoryBandwidth)
        } else if code == 6 {
            Some(UtilizationType::HBM)
        } else if code == 8 {
            Some(UtilizationType::DDR)
        } else if code == 10 {
            Some(UtilizationType::HbmBandwidth)
        } else if code == 12 {
            Some(UtilizationType::VectorCore)
        } else {
            None
        }
    }

    /// The interface code of this utilization type.
    pub fn to_raw(self) -> (r: i32)
        ensures
            r == self.raw_code(),
    {
        match self {
            UtilizationType::Memory => 1,
            UtilizationType::AICore => 2,
            UtilizationType::AICpu => 3,
            UtilizationType::CtrlCpu => 4,
            UtilizationType::MemoryBandwidth => 5,
            UtilizationType::HBM => 6,
            UtilizationType::DDR => 8,
            UtilizationType::HbmBandwidth => 10,
            UtilizationType::VectorCore => 12,
        }
    }
}

/// The virtual chips that a destroy operation removes.
#[derive(Debug, PartialEq, Eq, Clone, Copy)]
pub enum DestroyVChipTarget {
    /// The virtual chip with this id.
    SingleDevice(SingleDeviceId),
    /// Every virtual chip of the chip.
    AllDevices,
}

impl DestroyVChipTarget {
    /// The id that the interface receives for this target: the reserved id
    /// for all virtual chips, or the single chip's id.
    pub open spec fn raw_id(self) -> u32 {
        match self {
            DestroyVChipTarget::SingleDevice(d) => d@,
            DestroyVChipTarget::AllDevices => ALL_VCHIPS,
        }
    }

    /// Targets the single virtual chip `id`; the reserved id is refused.
    pub fn single_device(id: u32) -> (r: DCMIResult<DestroyVChipTarget>)
        ensures
            id == ALL_VCHIPS ==> r == Err::<DestroyVChipTarget, DCMIError>(
                DCMIError::InvalidDeviceId,
            ),
            id != ALL_VCHIPS ==> (r matches Ok(t) && t.raw_id() == id && t is SingleDevice),
    {
        let d = SingleDeviceId::try_new(id)?;
        Ok(DestroyVChipTarget::SingleDevice(d))
    }

    /// The id to hand to the interface for this target.
    pub fn id(&self) -> (r: u32)
        ensures
            r == self.raw_id(),
    {
        match self {
            DestroyVChipTarget::SingleDevice(d) => d.id(),
            DestroyVChipTarget::AllDevices => ALL_VCHIPS,
        }
    }
}

} // verus!
