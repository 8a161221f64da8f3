//! Management units and chips of the DCMI.
use vstd::prelude::*;
use vstd::utf8::*;
use crate::decode::{
    c_string, check_value_i32, check_value_u32, checked_i32, checked_u32, decode_c_string,
    prefix_result, take_prefix, text_view,
};
use crate::enums::{DeviceType, DieType, FrequencyType, HealthState, UnitType, UtilizationType};
use crate::error::{
    after_status, data_result, dcmi_try, lift_data_error, status_result, status_then, to_wire_id,
    wire_id, DCMIError, DCMIResult, GetDataError,
};
use crate::raw::{
    DcmiLib, RawAicoreInfo, RawAicpuInfo, RawBoardInfo, RawChipInfo, RawChipPcieErrRate,
    RawCreateVdevOut, RawCreateVdevRes, RawDieId, RawEccInfo, RawElabelInfo, RawFlashInfo,
    RawHbmInfo, RawMemoryInfo, RawPcieInfo, RawPcieInfoAll, MAX_ERROR_CODE_COUNT,
    MAX_ERROR_STRING_LEN, SIMPLIFIED_ERROR_STRING_LEN,
};
use crate::structs::{
    AICPUInfo, AICoreInfo, BoardInfo, ChipInfo, ChipPCIEErrorRate, DieInfo, DomainPCIEInfo,
    ECCInfo, ELabelInfo, FlashInfo, HBMInfo, MemoryInfo, PCIEInfo, VChipOutput, VChipRes,
};
use crate::DCMI;

verus! {

/// Npu management unit
#[derive(Debug, Clone, Copy, PartialEq, Eq, Structural)]
pub struct Card {
    id: u32,
}

impl View for Card {
    type V = u32;

    /// The id of the management unit.
    closed spec fn view(&self) -> u32 {
        self.id
    }
}

/// What a chip stands for: the management unit holding it, its id, and its
/// unit type where that is already known.
pub struct ChipModel {
    /// Id of the management unit
    pub card: u32,
    /// Id of the chip in its management unit
    pub id: u32,
    /// Unit type, where enumeration told it
    pub unit_type: Option<UnitType>,
}

/// Chip of the DCMI
#[derive(Debug, Clone, Copy, PartialEq, Eq)]
pub struct Chip {
    id: u32,
    card: Card,
    unit_type: Option<UnitType>,
}

impl View for Chip {
    type V = ChipModel;

    closed spec fn view(&self) -> ChipModel {
        ChipModel { card: self.card@, id: self.id, unit_type: self.unit_type }
    }
}

/// `r` is what enumerating the chips of management unit `card` gives, where
/// the interface answered `device_id_max`, `mcu_id` and `cpu_id`: an NPU chip
/// for each id below `device_id_max`, and the MCU and CPU chips unless their
/// id is `-1`.
pub open spec fn enumerates(
    card: u32,
    device_id_max: i32,
    mcu_id: i32,
    cpu_id: i32,
    r: (Vec<Chip>, Option<Chip>, Option<Chip>),
) -> bool {
    &&& r.0@.len() == (if device_id_max < 0 { 0 } else { device_id_max as int })
    &&& forall|i: int|
        0 <= i < r.0@.len() ==> #[trigger] r.0@[i]@ == (ChipModel {
            card,
            id: i as u32,
            unit_type: Some(UnitType::NPU),
        })
    &&& (mcu_id == -1 ==> r.1 is None)
    &&& (mcu_id != -1 ==> (r.1 matches Some(c) && c@ == (ChipModel {
        card,
        id: mcu_id as u32,
        unit_type: Some(UnitType::MCU),
    })))
    &&& (cpu_id == -1 ==> r.2 is None)
    &&& (cpu_id != -1 ==> (r.2 matches Some(c) && c@ == (ChipModel {
        card,
        id: cpu_id as u32,
        unit_type: Some(UnitType::CPU),
    })))
}

/// `r` succeeded with the chips that `enumerates` describes.
pub open spec fn enumerated_ok(
    card: u32,
    device_id_max: i32,
    mcu_id: i32,
    cpu_id: i32,
    r: DCMIResult<(Vec<Chip>, Option<Chip>, Option<Chip>)>,
) -> bool {
    r matches Ok(t) && enumerates(card, device_id_max, mcu_id, cpu_id, t)
}

/// What a chip count read from the interface amounts to; a negative count is
/// a malformed answer.
pub open spec fn chip_count_result(n: i32) -> DCMIResult<u32> {
    if n < 0 {
        Err(DCMIError::GetDataError(GetDataError::InvalidData))
    } else {
        Ok(n as u32)
    }
}

impl Card {
    /// Create a new card
    ///
    /// # Warning
    /// It is your responsibility to ensure that the card ID is valid
    pub fn new_unchecked(id: u32) -> (r: Card)
        ensures
            r@ == id,
    {
        Card { id }
    }

    /// Query the ID of this card
    pub fn id(&self) -> (r: u32)
        ensures
            r == self@,
    {
        self.id
    }

    /// Query number of NPU chip in specific NPU management unit; a negative
    /// count is a malformed answer
    pub fn get_chip_num<L: DcmiLib>(&self, dcmi: &DCMI<L>) -> (r: DCMIResult<u32>)
        ensures
            exists|st: i32, n: i32|
                #[trigger] dcmi.spec_lib().get_device_num_in_card_answer(wire_id(self@), st, n)
                    && r == after_status(st, chip_count_result(n)),
    {
        let mut n: i32 = 0;
        let st = dcmi.lib().dcmi_get_device_num_in_card(to_wire_id(self.id), &mut n);
        let r = match dcmi_try(st) {
            Ok(()) => {
                if n < 0 {
                    Err(DCMIError::GetDataError(GetDataError::InvalidData))
                } else {
                    Ok(n as u32)
                }
            },
            Err(e) => Err(e),
        };
        assert(dcmi.spec_lib().get_device_num_in_card_answer(wire_id(self@), st, n) && r
            == after_status(st, chip_count_result(n)));
        r
    }

    /// The chips of this card, from what the interface answered: NPU chips
    /// for the ids `0..device_id_max`, and the MCU and CPU chips unless their
    /// id is `-1`. Each is tagged with the unit type the enumeration gives it.
    pub fn chips_from_ids(&self, device_id_max: i32, mcu_id: i32, cpu_id: i32) -> (r: (
        Vec<Chip>,
        Option<Chip>,
        Option<Chip>,
    ))
        ensures
            enumerates(self@, device_id_max, mcu_id, cpu_id, r),
    {
        let mut npu_chips: Vec<Chip> = Vec::new();
        let mut id: i32 = 0;
        while id < device_id_max
            invariant
                0 <= id,
                device_id_max >= 0 ==> id <= device_id_max,
                device_id_max < 0 ==> id == 0,
                npu_chips@.len() == id,
                forall|i: int|
                    0 <= i < npu_chips@.len() ==> #[trigger] npu_chips@[i]@ == (ChipModel {
                        card: self@,
                        id: i as u32,
                        unit_type: Some(UnitType::NPU),
                    }),
            decreases device_id_max - id,
        {
            npu_chips.push(Chip { id: id as u32, card: *self, unit_type: Some(UnitType::NPU) });
            id = id + 1;
        }
        let mcu_chip = if mcu_id != -1 {
            Some(Chip { id: mcu_id as u32, card: *self, unit_type: Some(UnitType::MCU) })
        } else {
            None
        };
        let cpu_chip = if cpu_id != -1 {
            Some(Chip { id: cpu_id as u32, card: *self, unit_type: Some(UnitType::CPU) })
        } else {
            None
        };
        (npu_chips, mcu_chip, cpu_chip)
    }

    /// Get the (NPU chip list, MCU chip, CPU chip) of the specified NPU management unit
    ///
    /// # Returns
    /// each element of return tuple means:
    /// - Vec<Chip>: NPU chip list
    /// - Option<Chip>: MCU chip, if there is no MCU chip, it will be None
    /// - Option<Chip>: CPU chip, if there is no CPU chip, it will be None
    pub fn get_chips<L: DcmiLib>(&self, dcmi: &DCMI<L>) -> (r: DCMIResult<
        (Vec<Chip>, Option<Chip>, Option<Chip>),
    >)
        ensures
            exists|st: i32, device_id_max: i32, mcu_id: i32, cpu_id: i32|
                #[trigger] dcmi.spec_lib().get_device_id_in_card_answer(
                    wire_id(self@),
                    st,
                    device_id_max,
                    mcu_id,
                    cpu_id,
                ) && status_then(
                    st,
                    r,
                    enumerated_ok(self@, device_id_max, mcu_id, cpu_id, r),
                ),
    {
        let mut device_id_max: i32 = 0;
        let mut mcu_id: i32 = 0;
        let mut cpu_id: i32 = 0;
        let st = dcmi.lib().dcmi_get_device_id_in_card(
            to_wire_id(self.id),
            &mut device_id_max,
            &mut mcu_id,
            &mut cpu_id,
        );
        let r = match dcmi_try(st) {
            Ok(()) => Ok(self.chips_from_ids(device_id_max, mcu_id, cpu_id)),
            Err(e) => Err(e),
        };
        assert(dcmi.spec_lib().get_device_id_in_card_answer(
            wire_id(self@),
            st,
            device_id_max,
            mcu_id,
            cpu_id,
        ) && status_then(st, r, enumerated_ok(self@, device_id_max, mcu_id, cpu_id, r)));
        r
    }
}

/// `r` holds the AI CPU information that `raw` holds.
pub open spec fn aicpu_ok(raw: RawAicpuInfo, r: DCMIResult<AICPUInfo>) -> bool {
    r matches Ok(v) && AICPUInfo::decodes(raw, v)
}

/// `r` holds the PCIe error rates that `raw` holds.
pub open spec fn pcie_err_ok(raw: RawChipPcieErrRate, r: DCMIResult<ChipPCIEErrorRate>) -> bool {
    r matches Ok(v) && ChipPCIEErrorRate::decodes(raw, v)
}

/// `r` holds the die id that `raw` holds.
pub open spec fn die_ok(raw: RawDieId, r: DCMIResult<DieInfo>) -> bool {
    r matches Ok(v) && v.soc_die@ == raw.soc_die@
}

/// What a health code read from a chip amounts to: the code of a device that
/// is not found or not started means the chip does not exist, and a code
/// outside the table is a malformed answer.
pub open spec fn health_result(code: u32) -> DCMIResult<HealthState> {
    if code == crate::enums::HEALTH_DEVICE_NOT_FOUND {
        Err(DCMIError::DeviceNotExist)
    } else if code == 0 {
        Ok(HealthState::Normal)
    } else if code == 1 {
        Ok(HealthState::GeneralAlarm)
    } else if code == 2 {
        Ok(HealthState::ImportantAlarm)
    } else if code == 3 {
        Ok(HealthState::EmergencyAlarm)
    } else {
        Err(DCMIError::GetDataError(GetDataError::InvalidData))
    }
}

/// Decodes the health code of a chip.
pub fn health_from_code(code: u32) -> (r: DCMIResult<HealthState>)
    ensures
        r == health_result(code),
{
    if code == crate::enums::HEALTH_DEVICE_NOT_FOUND {
        return Err(DCMIError::DeviceNotExist);
    }
    if code == 0 {
        Ok(HealthState::Normal)
    } else if code == 1 {
        Ok(HealthState::GeneralAlarm)
    } else if code == 2 {
        Ok(HealthState::ImportantAlarm)
    } else if code == 3 {
        Ok(HealthState::EmergencyAlarm)
    } else {
        Err(DCMIError::GetDataError(GetDataError::InvalidData))
    }
}

/// The error codes of a chip, from the count and list the interface answered.
pub fn error_codes_from_list(count: i32, list: &[u32]) -> (r: DCMIResult<Vec<u32>>)
    ensures
        prefix_result(count, list@, r),
{
    take_prefix(count, list)
}

/// Length of the description that a query asks for: the simplified or the
/// detailed one.
pub open spec fn error_string_len(query_simplified_info: bool) -> i32 {
    if query_simplified_info {
        SIMPLIFIED_ERROR_STRING_LEN
    } else {
        MAX_ERROR_STRING_LEN as i32
    }
}

/// `r` is the description held by a buffer that the interface filled.
pub open spec fn text_ok(buf: Seq<u8>, r: DCMIResult<String>) -> bool {
    text_view(r) == c_string(buf)
}

/// `r` is the error code list decoded from what the interface answered.
pub open spec fn codes_ok(count: i32, list: Seq<u32>, r: DCMIResult<Vec<u32>>) -> bool {
    prefix_result(count, list, r)
}

impl Chip {
    /// Create a new chip, whose unit type is not known yet
    ///
    /// # Warning
    /// It is your responsibility to ensure that the chip ID is valid
    pub fn new_unchecked(card: &Card, chip_id: u32) -> (r: Self)
        ensures
            r@ == (ChipModel { card: card@, id: chip_id, unit_type: None }),
    {
        Chip { id: chip_id, card: *card, unit_type: None }
    }

    /// Query the ID of this chip
    pub fn id(&self) -> (r: u32)
        ensures
            r == self@.id,
    {
        self.id
    }

    /// Query the card of this chip
    pub fn card(&self) -> (r: &Card)
        ensures
            r@ == self@.card,
    {
        &self.card
    }

    /// Query the type of this chip: the type that enumeration tagged it
    /// with, else what the interface answers.
    ///
    /// # Notes
    /// Only NPU and MCU chip support the query
    pub fn get_type<L: DcmiLib>(&self, dcmi: &DCMI<L>) -> (r: DCMIResult<UnitType>)
        ensures
            self@.unit_type matches Some(t) ==> r == Ok::<UnitType, DCMIError>(t),
            self@.unit_type is None ==> exists|st: i32, code: u32|
                #[trigger] dcmi.spec_lib().get_device_type_answer(
                    wire_id(self@.card),
                    wire_id(self@.id),
                    st,
                    code,
                ) && r == after_status(
                    st,
                    Ok::<UnitType, DCMIError>(UnitType::spec_from_raw(code)),
                ),
    {
        if let Some(unit_type) = self.unit_type {
            return Ok(unit_type);
        }
        let mut code: u32 = 0;
        let st = dcmi.lib().dcmi_get_device_type(
            to_wire_id(self.card.id),
            to_wire_id(self.id),
            &mut code,
        );
        let r = match dcmi_try(st) {
            Ok(()) => Ok(UnitType::from_raw(code)),
            Err(e) => Err(e),
        };
        assert(dcmi.spec_lib().get_device_type_answer(
            wire_id(self@.card),
            wire_id(self@.id),
            st,
            code,
        ) && r == after_status(
            st,
            Ok::<UnitType, DCMIError>(UnitType::spec_from_raw(code)),
        ));
        r
    }

    /// Query the chip information
    ///
    /// # Notes
    /// Only NPU and MCU chip support this function
    pub fn get_info<L: DcmiLib>(&self, dcmi: &DCMI<L>) -> (r: DCMIResult<ChipInfo>)
        ensures
            exists|st: i32, raw: RawChipInfo|
                #[trigger] dcmi.spec_lib().get_device_chip_info_answer(
                    wire_id(self@.card),
                    wire_id(self@.id),
                    st,
                    raw,
                ) && status_then(st, r, ChipInfo::decodes(raw, r)),
    {
        let mut raw: RawChipInfo = RawChipInfo::zeroed();
        let st = dcmi.lib().dcmi_get_device_chip_info(
            to_wire_id(self.card.id),
            to_wire_id(self.id),
            &mut raw,
        );
        let r = match dcmi_try(st) {
            Ok(()) => ChipInfo::from_raw(&raw),
            Err(e) => Err(e),
        };
        assert(dcmi.spec_lib().get_device_chip_info_answer(
            wire_id(self@.card),
            wire_id(self@.id),
            st,
            raw,
        ) && status_then(st, r, ChipInfo::decodes(raw, r)));
        r
    }

    /// Query the PCIE information
    ///
    /// # Warning
    /// Only NPU chip has PCIE information
    pub fn get_pcie_info<L: DcmiLib>(&self, dcmi: &DCMI<L>) -> (r: DCMIResult<PCIEInfo>)
        ensures
            exists|st: i32, raw: RawPcieInfo|
                #[trigger] dcmi.spec_lib().get_device_pcie_info_answer(
                    wire_id(self@.card),
                    wire_id(self@.id),
                    st,
                    raw,
                ) && r == after_status(st, Ok::<PCIEInfo, DCMIError>(PCIEInfo::spec_from_raw(raw))),
    {
        let mut raw: RawPcieInfo = RawPcieInfo::zeroed();
        let st = dcmi.lib().dcmi_get_device_pcie_info(
            to_wire_id(self.card.id),
            to_wire_id(self.id),
            &mut raw,
        );
        let r = match dcmi_try(st) {
            Ok(()) => Ok(PCIEInfo::from_raw(&raw)),
            Err(e) => Err(e),
        };
        assert(dcmi.spec_lib().get_device_pcie_info_answer(
            wire_id(self@.card),
            wire_id(self@.id),
            st,
            raw,
        ) && r == after_status(st, Ok::<PCIEInfo, DCMIError>(PCIEInfo::spec_from_raw(raw))));
        r
    }

    /// Query the PCIE information with domain
    ///
    /// # Warning
    /// Only NPU chip has PCIE information
    pub fn get_domain_pcie_info<L: DcmiLib>(
        &self,
        dcmi: &DCMI<L>,
    ) -> (r: DCMIResult<DomainPCIEInfo>)
        ensures
            exists|st: i32, raw: RawPcieInfoAll|
                #[trigger] dcmi.spec_lib().get_device_pcie_info_v2_answer(
                    wire_id(self@.card),
                    wire_id(self@.id),
                    st,
                    raw,
                ) && r == after_status(
                    st,
                    Ok::<DomainPCIEInfo, DCMIError>(DomainPCIEInfo::spec_from_raw(raw)),
                ),
    {
        let mut raw: RawPcieInfoAll = RawPcieInfoAll::zeroed();
        let st = dcmi.lib().dcmi_get_device_pcie_info_v2(
            to_wire_id(self.card.id),
            to_wire_id(self.id),
            &mut raw,
        );
        let r = match dcmi_try(st) {
            Ok(()) => Ok(DomainPCIEInfo::from_raw(&raw)),
            Err(e) => Err(e),
        };
        assert(dcmi.spec_lib().get_device_pcie_info_v2_answer(
            wire_id(self@.card),
            wire_id(self@.id),
            st,
            raw,
        ) && r == after_status(
            st,
            Ok::<DomainPCIEInfo, DCMIError>(DomainPCIEInfo::spec_from_raw(raw)),
        ));
        r
    }

    /// Query the board information
    ///
    /// # Notes
    /// when chip is NPU, only board_id and slot_id is valid, slot_id tagged the pcie slot where chip is located
    ///
    /// when chip is MCU, all fields are valid, slot_id tagged the position of card where chip is located
    ///
    /// Only NPU and MCU chip support this function
    pub fn get_board_info<L: DcmiLib>(&self, dcmi: &DCMI<L>) -> (r: DCMIResult<BoardInfo>)
        ensures
            exists|st: i32, raw: RawBoardInfo|
                #[trigger] dcmi.spec_lib().get_device_board_info_answer(
                    wire_id(self@.card),
                    wire_id(self@.id),
                    st,
                    raw,
                ) && r == after_status(
                    st,
                    Ok::<BoardInfo, DCMIError>(BoardInfo::spec_from_raw(raw)),
                ),
    {
        let mut raw: RawBoardInfo = RawBoardInfo::zeroed();
        let st = dcmi.lib().dcmi_get_device_board_info(
            to_wire_id(self.card.id),
            to_wire_id(self.id),
            &mut raw,
        );
        let r = match dcmi_try(st) {
            Ok(()) => Ok(BoardInfo::from_raw(&raw)),
            Err(e) => Err(e),
        };
        assert(dcmi.spec_lib().get_device_board_info_answer(
            wire_id(self@.card),
            wire_id(self@.id),
            st,
            raw,
        ) && r == after_status(st, Ok::<BoardInfo, DCMIError>(BoardInfo::spec_from_raw(raw))));
        r
    }

    /// Query the ELabel information
    ///
    /// # Notes
    /// Only NPU and MCU chip support this function
    pub fn get_elabel_info<L: DcmiLib>(&self, dcmi: &DCMI<L>) -> (r: DCMIResult<ELabelInfo>)
        ensures
            exists|st: i32, raw: RawElabelInfo|
                #[trigger] dcmi.spec_lib().get_device_elabel_info_answer(
                    wire_id(self@.card),
                    wire_id(self@.id),
                    st,
                    raw,
                ) && status_then(st, r, ELabelInfo::decodes(raw, r)),
    {
        let mut raw: RawElabelInfo = RawElabelInfo::zeroed();
        let st = dcmi.lib().dcmi_get_device_elabel_info(
            to_wire_id(self.card.id),
            to_wire_id(self.id),
            &mut raw,
        );
        let r = match dcmi_try(st) {
            Ok(()) => ELabelInfo::from_raw(&raw),
            Err(e) => Err(e),
        };
        assert(dcmi.spec_lib().get_device_elabel_info_answer(
            wire_id(self@.card),
            wire_id(self@.id),
            st,
            raw,
        ) && status_then(st, r, ELabelInfo::decodes(raw, r)));
        r
    }

    /// Query the power information, unit: 0.1W
    ///
    /// # Notes
    /// Only NPU chip support this function
    pub fn get_power_info<L: DcmiLib>(&self, dcmi: &DCMI<L>) -> (r: DCMIResult<u32>)
        ensures
            exists|st: i32, v: i32|
                #[trigger] dcmi.spec_lib().get_device_power_info_answer(
                    wire_id(self@.card),
                    wire_id(self@.id),
                    st,
                    v,
                ) && r == after_status(st, Ok::<u32, DCMIError>(v as u32)),
    {
        let mut v: i32 = 0;
        let st = dcmi.lib().dcmi_get_device_power_info(
            to_wire_id(self.card.id),
            to_wire_id(self.id),
            &mut v,
        );
        let r = match dcmi_try(st) {
            Ok(()) => Ok(v as u32),
            Err(e) => Err(e),
        };
        assert(dcmi.spec_lib().get_device_power_info_answer(
            wire_id(self@.card),
            wire_id(self@.id),
            st,
            v,
        ) && r == after_status(st, Ok::<u32, DCMIError>(v as u32)));
        r
    }

    /// Query the die information of the given die type
    ///
    /// # Notes
    /// Only NPU chip support this function
    pub fn get_die_info<L: DcmiLib>(
        &self,
        dcmi: &DCMI<L>,
        target: DieType,
    ) -> (r: DCMIResult<DieInfo>)
        ensures
            exists|st: i32, raw: RawDieId|
                #[trigger] dcmi.spec_lib().get_device_die_v2_answer(
                    wire_id(self@.card),
                    wire_id(self@.id),
                    target.raw_code(),
                    st,
                    raw,
                ) && status_then(st, r, die_ok(raw, r)),
    {
        let mut raw: RawDieId = RawDieId::zeroed();
        let st = dcmi.lib().dcmi_get_device_die_v2(
            to_wire_id(self.card.id),
            to_wire_id(self.id),
            target.to_raw(),
            &mut raw,
        );
        let r = match dcmi_try(st) {
            Ok(()) => Ok(DieInfo::from_raw(&raw)),
            Err(e) => Err(e),
        };
        assert(dcmi.spec_lib().get_device_die_v2_answer(
            wire_id(self@.card),
            wire_id(self@.id),
            target.raw_code(),
            st,
            raw,
        ) && status_then(st, r, die_ok(raw, r)));
        r
    }

    /// Query the health information
    ///
    /// # Returns
    /// health information; a chip that is not found or not started gives
    /// [DCMIError::DeviceNotExist] rather than a health state, since the chip
    /// may have been made with an unchecked id
    ///
    /// # Notes
    /// Only NPU and MCU chip support this function
    pub fn get_health<L: DcmiLib>(&self, dcmi: &DCMI<L>) -> (r: DCMIResult<HealthState>)
        ensures
            exists|st: i32, v: u32|
                #[trigger] dcmi.spec_lib().get_device_health_answer(
                    wire_id(self@.card),
                    wire_id(self@.id),
                    st,
                    v,
                ) && r == after_status(st, health_result(v)),
    {
        let mut v: u32 = 0;
        let st = dcmi.lib().dcmi_get_device_health(
            to_wire_id(self.card.id),
            to_wire_id(self.id),
            &mut v,
        );
        let r = match dcmi_try(st) {
            Ok(()) => health_from_code(v),
            Err(e) => Err(e),
        };
        assert(dcmi.spec_lib().get_device_health_answer(
            wire_id(self@.card),
            wire_id(self@.id),
            st,
            v,
        ) && r == after_status(st, health_result(v)));
        r
    }

    /// Query the error code list
    ///
    /// # Notes
    /// Only NPU and MCU chip support this function
    pub fn get_error_code<L: DcmiLib>(&self, dcmi: &DCMI<L>) -> (r: DCMIResult<Vec<u32>>)
        ensures
            exists|st: i32, count: i32, list: [u32; MAX_ERROR_CODE_COUNT]|
                #[trigger] dcmi.spec_lib().get_device_errorcode_v2_answer(
                    wire_id(self@.card),
                    wire_id(self@.id),
                    st,
                    count,
                    list,
                ) && status_then(st, r, codes_ok(count, list@, r)),
    {
        let mut count: i32 = 0;
        let mut list: [u32; MAX_ERROR_CODE_COUNT] = [0u32; 128];
        let st = dcmi.lib().dcmi_get_device_errorcode_v2(
            to_wire_id(self.card.id),
            to_wire_id(self.id),
            &mut count,
            &mut list,
        );
        let r = match dcmi_try(st) {
            Ok(()) => error_codes_from_list(count, list.as_slice()),
            Err(e) => Err(e),
        };
        assert(dcmi.spec_lib().get_device_errorcode_v2_answer(
            wire_id(self@.card),
            wire_id(self@.id),
            st,
            count,
            list,
        ) && status_then(st, r, codes_ok(count, list@, r)));
        r
    }

    /// Query the description of an error code
    ///
    /// # Parameters
    /// - error_code: error code
    /// - query_simplified_info: should query simplified information
    ///     - true: get simplified information
    ///     - false: get detailed information
    ///
    /// # Notes
    /// Only NPU and MCU chip support this function
    pub fn get_error_code_string<L: DcmiLib>(
        &self,
        dcmi: &DCMI<L>,
        error_code: u32,
        query_simplified_info: bool,
    ) -> (r: DCMIResult<String>)
        ensures
            exists|st: i32, buf: [u8; MAX_ERROR_STRING_LEN]|
                #[trigger] dcmi.spec_lib().get_device_errorcode_string_answer(
                    wire_id(self@.card),
                    wire_id(self@.id),
                    error_code,
                    error_string_len(query_simplified_info),
                    st,
                    buf,
                ) && status_then(st, r, text_ok(buf@, r)),
    {
        let mut buf: [u8; MAX_ERROR_STRING_LEN] = [0u8; 256];
        let len: i32 = if query_simplified_info {
            SIMPLIFIED_ERROR_STRING_LEN
        } else {
            MAX_ERROR_STRING_LEN as i32
        };
        let st = dcmi.lib().dcmi_get_device_errorcode_string(
            to_wire_id(self.card.id),
            to_wire_id(self.id),
            error_code,
            &mut buf,
            len,
        );
        let r = match dcmi_try(st) {
            Ok(()) => decode_c_string(buf.as_slice()),
            Err(e) => Err(e),
        };
        assert(dcmi.spec_lib().get_device_errorcode_string_answer(
            wire_id(self@.card),
            wire_id(self@.id),
            error_code,
            error_string_len(query_simplified_info),
            st,
            buf,
        ) && status_then(st, r, text_ok(buf@, r)));
        r
    }

    /// Query the flash count
    ///
    /// # Notes
    /// Only NPU chip support this function
    ///
    /// This interface is not supported in the scenario of computing power splitting containers
    pub fn get_flash_count<L: DcmiLib>(&self, dcmi: &DCMI<L>) -> (r: DCMIResult<u32>)
        ensures
            exists|st: i32, v: u32|
                #[trigger] dcmi.spec_lib().get_device_flash_count_answer(
                    wire_id(self@.card),
                    wire_id(self@.id),
                    st,
                    v,
                ) && r == after_status(st, Ok::<u32, DCMIError>(v)),
    {
        let mut v: u32 = 0;
        let st = dcmi.lib().dcmi_get_device_flash_count(
            to_wire_id(self.card.id),
            to_wire_id(self.id),
            &mut v,
        );
        let r = match dcmi_try(st) {
            Ok(()) => Ok(v),
            Err(e) => Err(e),
        };
        assert(dcmi.spec_lib().get_device_flash_count_answer(
            wire_id(self@.card),
            wire_id(self@.id),
            st,
            v,
        ) && r == after_status(st, Ok::<u32, DCMIError>(v)));
        r
    }

    /// Query the flash information
    ///
    /// # Parameters
    /// - flash_id: flash ID, range: `0..<flash_count`
    ///
    /// # Notes
    /// Only NPU chip support this function
    ///
    /// This interface is not supported in the scenario of computing power splitting containers
    pub fn get_flash_info<L: DcmiLib>(
        &self,
        dcmi: &DCMI<L>,
        flash_id: u32,
    ) -> (r: DCMIResult<FlashInfo>)
        ensures
            exists|st: i32, raw: RawFlashInfo|
                #[trigger] dcmi.spec_lib().get_device_flash_info_v2_answer(
                    wire_id(self@.card),
                    wire_id(self@.id),
                    flash_id,
                    st,
                    raw,
                ) && r == after_status(
                    st,
                    Ok::<FlashInfo, DCMIError>(FlashInfo::spec_from_raw(raw)),
                ),
    {
        let mut raw: RawFlashInfo = RawFlashInfo::zeroed();
        let st = dcmi.lib().dcmi_get_device_flash_info_v2(
            to_wire_id(self.card.id),
            to_wire_id(self.id),
            flash_id,
            &mut raw,
        );
        let r = match dcmi_try(st) {
            Ok(()) => Ok(FlashInfo::from_raw(&raw)),
            Err(e) => Err(e),
        };
        assert(dcmi.spec_lib().get_device_flash_info_v2_answer(
            wire_id(self@.card),
            wire_id(self@.id),
            flash_id,
            st,
            raw,
        ) && r == after_status(st, Ok::<FlashInfo, DCMIError>(FlashInfo::spec_from_raw(raw))));
        r
    }

    /// Query the AI core information
    ///
    /// # Notes
    /// Only NPU chip support this function
    pub fn get_ai_core_info<L: DcmiLib>(&self, dcmi: &DCMI<L>) -> (r: DCMIResult<AICoreInfo>)
        ensures
            exists|st: i32, raw: RawAicoreInfo|
                #[trigger] dcmi.spec_lib().get_device_aicore_info_answer(
                    wire_id(self@.card),
                    wire_id(self@.id),
                    st,
                    raw,
                ) && r == after_status(
                    st,
                    Ok::<AICoreInfo, DCMIError>(AICoreInfo::spec_from_raw(raw)),
                ),
    {
        let mut raw: RawAicoreInfo = RawAicoreInfo::zeroed();
        let st = dcmi.lib().dcmi_get_device_aicore_info(
            to_wire_id(self.card.id),
            to_wire_id(self.id),
            &mut raw,
        );
        let r = match dcmi_try(st) {
            Ok(()) => Ok(AICoreInfo::from_raw(&raw)),
            Err(e) => Err(e),
        };
        assert(dcmi.spec_lib().get_device_aicore_info_answer(
            wire_id(self@.card),
            wire_id(self@.id),
            st,
            raw,
        ) && r == after_status(st, Ok::<AICoreInfo, DCMIError>(AICoreInfo::spec_from_raw(raw))));
        r
    }

    /// Query the AI CPU information
    ///
    /// # Notes
    /// Only NPU chip support this function
    pub fn get_ai_cpu_info<L: DcmiLib>(&self, dcmi: &DCMI<L>) -> (r: DCMIResult<AICPUInfo>)
        ensures
            exists|st: i32, raw: RawAicpuInfo|
                #[trigger] dcmi.spec_lib().get_device_aicpu_info_answer(
                    wire_id(self@.card),
                    wire_id(self@.id),
                    st,
                    raw,
                ) && status_then(st, r, aicpu_ok(raw, r)),
    {
        let mut raw: RawAicpuInfo = RawAicpuInfo::zeroed();
        let st = dcmi.lib().dcmi_get_device_aicpu_info(
            to_wire_id(self.card.id),
            to_wire_id(self.id),
            &mut raw,
        );
        let r = match dcmi_try(st) {
            Ok(()) => Ok(AICPUInfo::from_raw(&raw)),
            Err(e) => Err(e),
        };
        assert(dcmi.spec_lib().get_device_aicpu_info_answer(
            wire_id(self@.card),
            wire_id(self@.id),
            st,
            raw,
        ) && status_then(st, r, aicpu_ok(raw, r)));
        r
    }

    /// Query the system time, the seconds from 00:00:00 on January 1, 1970 to present
    ///
    /// # Notes
    /// Only NPU chip support this function
    pub fn get_system_time<L: DcmiLib>(&self, dcmi: &DCMI<L>) -> (r: DCMIResult<u32>)
        ensures
            exists|st: i32, v: u32|
                #[trigger] dcmi.spec_lib().get_device_system_time_answer(
                    wire_id(self@.card),
                    wire_id(self@.id),
                    st,
                    v,
                ) && r == after_status(st, Ok::<u32, DCMIError>(v)),
    {
        let mut v: u32 = 0;
        let st = dcmi.lib().dcmi_get_device_system_time(
            to_wire_id(self.card.id),
            to_wire_id(self.id),
            &mut v,
        );
        let r = match dcmi_try(st) {
            Ok(()) => Ok(v),
            Err(e) => Err(e),
        };
        assert(dcmi.spec_lib().get_device_system_time_answer(
            wire_id(self@.card),
            wire_id(self@.id),
            st,
            v,
        ) && r == after_status(st, Ok::<u32, DCMIError>(v)));
        r
    }

    /// Query the temperature, unit: 1 degree Celsius
    ///
    /// # Notes
    /// Only NPU and MCU chip support this function
    pub fn get_temperature<L: DcmiLib>(&self, dcmi: &DCMI<L>) -> (r: DCMIResult<i32>)
        ensures
            exists|st: i32, v: i32|
                #[trigger] dcmi.spec_lib().get_device_temperature_answer(
                    wire_id(self@.card),
                    wire_id(self@.id),
                    st,
                    v,
                ) && r == after_status(st, data_result(checked_i32(v))),
    {
        let mut v: i32 = 0;
        let st = dcmi.lib().dcmi_get_device_temperature(
            to_wire_id(self.card.id),
            to_wire_id(self.id),
            &mut v,
        );
        let r = match dcmi_try(st) {
            Ok(()) => lift_data_error(check_value_i32(v)),
            Err(e) => Err(e),
        };
        assert(dcmi.spec_lib().get_device_temperature_answer(
            wire_id(self@.card),
            wire_id(self@.id),
            st,
            v,
        ) && r == after_status(st, data_result(checked_i32(v))));
        r
    }

    /// Query device voltage, unit: 0.01V
    ///
    /// # Notes
    /// Only NPU and MCU chip support this function
    pub fn get_voltage<L: DcmiLib>(&self, dcmi: &DCMI<L>) -> (r: DCMIResult<u32>)
        ensures
            exists|st: i32, v: u32|
                #[trigger] dcmi.spec_lib().get_device_voltage_answer(
                    wire_id(self@.card),
                    wire_id(self@.id),
                    st,
                    v,
                ) && r == after_status(st, data_result(checked_u32(v))),
    {
        let mut v: u32 = 0;
        let st = dcmi.lib().dcmi_get_device_voltage(
            to_wire_id(self.card.id),
            to_wire_id(self.id),
            &mut v,
        );
        let r = match dcmi_try(st) {
            Ok(()) => lift_data_error(check_value_u32(v)),
            Err(e) => Err(e),
        };
        assert(dcmi.spec_lib().get_device_voltage_answer(
            wire_id(self@.card),
            wire_id(self@.id),
            st,
            v,
        ) && r == after_status(st, data_result(checked_u32(v))));
        r
    }

    /// Query the PCIE error count
    ///
    /// # Notes
    /// Only NPU chip support this function
    pub fn get_pcie_error_cnt<L: DcmiLib>(
        &self,
        dcmi: &DCMI<L>,
    ) -> (r: DCMIResult<ChipPCIEErrorRate>)
        ensures
            exists|st: i32, raw: RawChipPcieErrRate|
                #[trigger] dcmi.spec_lib().get_device_pcie_error_cnt_answer(
                    wire_id(self@.card),
                    wire_id(self@.id),
                    st,
                    raw,
                ) && status_then(st, r, pcie_err_ok(raw, r)),
    {
        let mut raw: RawChipPcieErrRate = RawChipPcieErrRate::zeroed();
        let st = dcmi.lib().dcmi_get_device_pcie_error_cnt(
            to_wire_id(self.card.id),
            to_wire_id(self.id),
            &mut raw,
        );
        let r = match dcmi_try(st) {
            Ok(()) => Ok(ChipPCIEErrorRate::from_raw(&raw)),
            Err(e) => Err(e),
        };
        assert(dcmi.spec_lib().get_device_pcie_error_cnt_answer(
            wire_id(self@.card),
            wire_id(self@.id),
            st,
            raw,
        ) && status_then(st, r, pcie_err_ok(raw, r)));
        r
    }

    /// Query the ECC information
    ///
    /// # Parameters
    /// - target: device type, only support [DDR](DeviceType::DDR) and [HBM](DeviceType::HBM)
    pub fn get_ecc_info<L: DcmiLib>(
        &self,
        dcmi: &DCMI<L>,
        target: DeviceType,
    ) -> (r: DCMIResult<ECCInfo>)
        ensures
            exists|st: i32, raw: RawEccInfo|
                #[trigger] dcmi.spec_lib().get_device_ecc_info_answer(
                    wire_id(self@.card),
                    wire_id(self@.id),
                    target.raw_code(),
                    st,
                    raw,
                ) && r == after_status(st, Ok::<ECCInfo, DCMIError>(ECCInfo::spec_from_raw(raw))),
    {
        let mut raw: RawEccInfo = RawEccInfo::zeroed();
        let st = dcmi.lib().dcmi_get_device_ecc_info(
            to_wire_id(self.card.id),
            to_wire_id(self.id),
            target.to_raw(),
            &mut raw,
        );
        let r = match dcmi_try(st) {
            Ok(()) => Ok(ECCInfo::from_raw(&raw)),
            Err(e) => Err(e),
        };
        assert(dcmi.spec_lib().get_device_ecc_info_answer(
            wire_id(self@.card),
            wire_id(self@.id),
            target.raw_code(),
            st,
            raw,
        ) && r == after_status(st, Ok::<ECCInfo, DCMIError>(ECCInfo::spec_from_raw(raw))));
        r
    }

    /// Query the frequency, unit: 1MHz
    ///
    /// # Parameters
    /// - target: frequency type, only support
    /// [DDR](FrequencyType::DDR),
    /// [CtrlCpu](FrequencyType::CtrlCpu),
    /// [HBM](FrequencyType::HBM),
    /// [AICoreCurrent](FrequencyType::AICoreCurrent),
    /// [AICoreMax](FrequencyType::AICoreMax)
    /// currently
    pub fn get_frequency<L: DcmiLib>(
        &self,
        dcmi: &DCMI<L>,
        target: FrequencyType,
    ) -> (r: DCMIResult<u32>)
        ensures
            exists|st: i32, v: u32|
                #[trigger] dcmi.spec_lib().get_device_frequency_answer(
                    wire_id(self@.card),
                    wire_id(self@.id),
                    target.raw_code(),
                    st,
                    v,
                ) && r == after_status(st, Ok::<u32, DCMIError>(v)),
    {
        let mut v: u32 = 0;
        let st = dcmi.lib().dcmi_get_device_frequency(
            to_wire_id(self.card.id),
            to_wire_id(self.id),
            target.to_raw(),
            &mut v,
        );
        let r = match dcmi_try(st) {
            Ok(()) => Ok(v),
            Err(e) => Err(e),
        };
        assert(dcmi.spec_lib().get_device_frequency_answer(
            wire_id(self@.card),
            wire_id(self@.id),
            target.raw_code(),
            st,
            v,
        ) && r == after_status(st, Ok::<u32, DCMIError>(v)));
        r
    }

    /// Query the HBM information
    ///
    /// # Warning
    /// Only some of NPU chip has HBM information
    pub fn get_hbm_info<L: DcmiLib>(&self, dcmi: &DCMI<L>) -> (r: DCMIResult<HBMInfo>)
        ensures
            exists|st: i32, raw: RawHbmInfo|
                #[trigger] dcmi.spec_lib().get_device_hbm_info_answer(
                    wire_id(self@.card),
                    wire_id(self@.id),
                    st,
                    raw,
                ) && r == after_status(st, Ok::<HBMInfo, DCMIError>(HBMInfo::spec_from_raw(raw))),
    {
        let mut raw: RawHbmInfo = RawHbmInfo::zeroed();
        let st = dcmi.lib().dcmi_get_device_hbm_info(
            to_wire_id(self.card.id),
            to_wire_id(self.id),
            &mut raw,
        );
        let r = match dcmi_try(st) {
            Ok(()) => Ok(HBMInfo::from_raw(&raw)),
            Err(e) => Err(e),
        };
        assert(dcmi.spec_lib().get_device_hbm_info_answer(
            wire_id(self@.card),
            wire_id(self@.id),
            st,
            raw,
        ) && r == after_status(st, Ok::<HBMInfo, DCMIError>(HBMInfo::spec_from_raw(raw))));
        r
    }

    /// Query the memory information
    ///
    /// # Warning
    /// Only some of NPU chip has memory information
    pub fn get_memory_info<L: DcmiLib>(&self, dcmi: &DCMI<L>) -> (r: DCMIResult<MemoryInfo>)
        ensures
            exists|st: i32, raw: RawMemoryInfo|
                #[trigger] dcmi.spec_lib().get_device_memory_info_v3_answer(
                    wire_id(self@.card),
                    wire_id(self@.id),
                    st,
                    raw,
                ) && r == after_status(
                    st,
                    Ok::<MemoryInfo, DCMIError>(MemoryInfo::spec_from_raw(raw)),
                ),
    {
        let mut raw: RawMemoryInfo = RawMemoryInfo::zeroed();
        let st = dcmi.lib().dcmi_get_device_memory_info_v3(
            to_wire_id(self.card.id),
            to_wire_id(self.id),
            &mut raw,
        );
        let r = match dcmi_try(st) {
            Ok(()) => Ok(MemoryInfo::from_raw(&raw)),
            Err(e) => Err(e),
        };
        assert(dcmi.spec_lib().get_device_memory_info_v3_answer(
            wire_id(self@.card),
            wire_id(self@.id),
            st,
            raw,
        ) && r == after_status(st, Ok::<MemoryInfo, DCMIError>(MemoryInfo::spec_from_raw(raw))));
        r
    }

    /// Query the utilization rate, unit: 1%
    ///
    /// # Parameters
    /// - target: utilization type, only support [Memory](UtilizationType::Memory),
    /// [AI Core](UtilizationType::AICore),
    /// [AI CPU](UtilizationType::AICpu),
    /// [Control CPU](UtilizationType::CtrlCpu),
    /// [Memory Bandwidth](UtilizationType::MemoryBandwidth),
    /// [HBM](UtilizationType::HBM),
    /// [HBM Bandwidth](UtilizationType::HbmBandwidth),
    ///
    /// # Notes
    /// When device type is AI CORE, profiling is enabled, and the utilization rate is queried as 0, which is actually meaningless.
    ///
    /// In the scenario of computing power splitting, only [Memory](UtilizationType::Memory) and [HBM Bandwidth](UtilizationType::HbmBandwidth) are supported in the container. Other parameters are not supported.
    /// In this scenario, the HBM bandwidth obtained is 0, which is actually meaningless.
    pub fn get_utilization_rate<L: DcmiLib>(
        &self,
        dcmi: &DCMI<L>,
        target: UtilizationType,
    ) -> (r: DCMIResult<u32>)
        ensures
            exists|st: i32, v: u32|
                #[trigger] dcmi.spec_lib().get_device_utilization_rate_answer(
                    wire_id(self@.card),
                    wire_id(self@.id),
                    target.raw_code(),
                    st,
                    v,
                ) && r == after_status(st, Ok::<u32, DCMIError>(v)),
    {
        let mut v: u32 = 0;
        let st = dcmi.lib().dcmi_get_device_utilization_rate(
            to_wire_id(self.card.id),
            to_wire_id(self.id),
            target.to_raw(),
            &mut v,
        );
        let r = match dcmi_try(st) {
            Ok(()) => Ok(v),
            Err(e) => Err(e),
        };
        assert(dcmi.spec_lib().get_device_utilization_rate_answer(
            wire_id(self@.card),
            wire_id(self@.id),
            target.raw_code(),
            st,
            v,
        ) && r == after_status(st, Ok::<u32, DCMIError>(v)));
        r
    }

    /// Create a virtual chip
    ///
    /// # Parameters
    /// - vdev: virtual chip request; a template name longer than 32 bytes is
    ///   refused with [DCMIError::InvalidParameter] and nothing is created
    ///
    /// # Returns
    /// the ids of the created virtual chip
    pub fn create_virtual_chip<L: DcmiLib>(
        &self,
        dcmi: &DCMI<L>,
        vdev: &VChipRes,
    ) -> (r: DCMIResult<VChipOutput>)
        ensures
            encode_utf8(vdev.template_name@).len() > 32 ==> r == Err::<VChipOutput, DCMIError>(
                DCMIError::InvalidParameter,
            ),
            encode_utf8(vdev.template_name@).len() <= 32 ==> exists|
                st: i32,
                request: RawCreateVdevRes,
                out: RawCreateVdevOut,
            |
                #[trigger] dcmi.spec_lib().create_vdevice_answer(
                    wire_id(self@.card),
                    wire_id(self@.id),
                    request,
                    st,
                    out,
                ) && vdev.is_request(request) && r == after_status(
                    st,
                    Ok::<VChipOutput, DCMIError>(VChipOutput::spec_from_raw(out)),
                ),
    {
        let request = match vdev.to_raw() {
            Ok(request) => request,
            Err(e) => return Err(e),
        };
        let mut out = RawCreateVdevOut::zeroed();
        let st = dcmi.lib().dcmi_create_vdevice(
            to_wire_id(self.card.id),
            to_wire_id(self.id),
            &request,
            &mut out,
        );
        let r = match dcmi_try(st) {
            Ok(()) => Ok(VChipOutput::from_raw(&out)),
            Err(e) => Err(e),
        };
        assert(dcmi.spec_lib().create_vdevice_answer(
            wire_id(self@.card),
            wire_id(self@.id),
            request,
            st,
            out,
        )
            && vdev.is_request(request) && r == after_status(
            st,
            Ok::<VChipOutput, DCMIError>(VChipOutput::spec_from_raw(out)),
        ));
        r
    }

    /// Destroy a virtual chip
    ///
    /// # Parameters
    /// - vdevid : virtual chip id
    ///
    /// # Notes
    /// when vdevid is 65535, it will destroy all virtual chips
    pub fn destroy_virtual_chip<L: DcmiLib>(&self, dcmi: &DCMI<L>, vdevid: u32) -> (r: DCMIResult<()>)
        ensures
            exists|st: i32|
                #[trigger] dcmi.spec_lib().set_destroy_vdevice_answer(
                    wire_id(self@.card),
                    wire_id(self@.id),
                    vdevid,
                    st,
                ) && r == status_result(st),
    {
        let st = dcmi.lib().dcmi_set_destroy_vdevice(
            to_wire_id(self.card.id),
            to_wire_id(self.id),
            vdevid,
        );
        let r = dcmi_try(st);
        assert(dcmi.spec_lib().set_destroy_vdevice_answer(
            wire_id(self@.card),
            wire_id(self@.id),
            vdevid,
            st,
        ));
        r
    }
}

} // verus!
