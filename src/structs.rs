//! Value objects decoded from the DCMI interface's records.
use vstd::prelude::*;
use vstd::utf8::*;
use crate::decode::{c_string, decode_c_string, decode_lanes, lanes_of};
use crate::error::{DCMIError, DCMIResult};
use crate::raw::{
    zero_bytes, DIE_ID_COUNT, MAX_CORE_NUM, TEMPLATE_NAME_LEN,
    RawAicoreInfo, RawAicpuInfo, RawBoardInfo, RawChipInfo, RawChipPcieErrRate,
    RawCreateVdevOut, RawCreateVdevRes, RawDieId, RawEccInfo, RawElabelInfo, RawFlashInfo,
    RawHbmInfo, RawMemoryInfo, RawPcieInfo, RawPcieInfoAll,
};

verus! {

/// Virtual chip id that stands for every virtual chip of a chip.
pub const ALL_VCHIPS: u32 = 65535;

/// Id of one virtual chip: never the reserved id for all of them.
#[derive(Debug, PartialEq, Eq, Clone, Copy)]
pub struct SingleDeviceId {
    id: u32,
}

impl View for SingleDeviceId {
    type V = u32;

    closed spec fn view(&self) -> u32 {
        self.id
    }
}

impl SingleDeviceId {
    #[verifier::type_invariant]
    spec fn inv(self) -> bool {
        self.id != ALL_VCHIPS
    }

    /// Create a new SingleDeviceId; the reserved id for all virtual chips is refused.
    pub fn try_new(id: u32) -> (r: DCMIResult<Self>)
        ensures
            id == ALL_VCHIPS ==> r == Err::<Self, DCMIError>(DCMIError::InvalidDeviceId),
            id != ALL_VCHIPS ==> (r matches Ok(d) && d@ == id),
    {
        if id == ALL_VCHIPS {
            Err(DCMIError::InvalidDeviceId)
        } else {
            Ok(SingleDeviceId { id })
        }
    }

    /// Get the ID
    pub fn id(&self) -> (r: u32)
        ensures
            r == self@,
            r != ALL_VCHIPS,
    {
        proof {
            use_type_invariant(self);
        }
        self.id
    }
}

/// Chip information
#[derive(Debug, PartialEq, Eq, Clone)]
pub struct ChipInfo {
    /// Chip type
    pub chip_type: String,
    /// Chip name
    pub chip_name: String,
    /// Chip version
    pub chip_version: String,
    /// Chip AI core count, for MCU and CPU, this field makes no sense
    pub ai_core_count: u32,
}

impl ChipInfo {
    /// `r` is what decoding `raw` gives: each text field is the string held by
    /// its buffer, and a buffer that holds no valid string fails the whole record.
    pub open spec fn decodes(raw: RawChipInfo, r: DCMIResult<ChipInfo>) -> bool {
        match r {
            Ok(c) => {
                &&& c_string(raw.chip_type@) == Ok::<Seq<char>, DCMIError>(c.chip_type@)
                &&& c_string(raw.chip_name@) == Ok::<Seq<char>, DCMIError>(c.chip_name@)
                &&& c_string(raw.chip_ver@) == Ok::<Seq<char>, DCMIError>(c.chip_version@)
                &&& c.ai_core_count == raw.aicore_cnt
            },
            Err(e) => {
                &&& e == DCMIError::Utf8Error
                &&& (c_string(raw.chip_type@) is Err || c_string(raw.chip_name@) is Err
                    || c_string(raw.chip_ver@) is Err)
            },
        }
    }

    /// Decodes a raw chip information record.
    pub fn from_raw(raw: &RawChipInfo) -> (r: DCMIResult<ChipInfo>)
        ensures
            ChipInfo::decodes(*raw, r),
    {
        let chip_type = decode_c_string(raw.chip_type.as_slice())?;
        let chip_name = decode_c_string(raw.chip_name.as_slice())?;
        let chip_version = decode_c_string(raw.chip_ver.as_slice())?;
        Ok(ChipInfo { chip_type, chip_name, chip_version, ai_core_count: raw.aicore_cnt })
    }
}

/// PCIE information
#[derive(Debug, PartialEq, Eq, Clone, Copy, Structural)]
pub struct PCIEInfo {
    /// Device ID
    pub device_id: u32,
    /// Vender ID
    pub vender_id: u32,
    /// Subvender ID
    pub subvender_id: u32,
    /// Subdevice ID
    pub subdevice_id: u32,
    /// BDF device ID
    pub bdf_device_id: u32,
    /// BDF bus ID
    pub bdf_bus_id: u32,
    /// BDF function ID
    pub bdf_func_id: u32,
}

impl PCIEInfo {
    /// The PCIe information that a raw record holds.
    pub open spec fn spec_from_raw(raw: RawPcieInfo) -> PCIEInfo {
        PCIEInfo {
            device_id: raw.deviceid,
            vender_id: raw.venderid,
            subvender_id: raw.subvenderid,
            subdevice_id: raw.subdeviceid,
            bdf_device_id: raw.bdf_deviceid as u32,
            bdf_bus_id: raw.bdf_busid as u32,
            bdf_func_id: raw.bdf_funcid as u32,
        }
    }

    /// Decodes a raw PCIe information record.
    pub fn from_raw(raw: &RawPcieInfo) -> (r: PCIEInfo)
        ensures
            r == PCIEInfo::spec_from_raw(*raw),
    {
        PCIEInfo {
            device_id: raw.deviceid,
            vender_id: raw.venderid,
            subvender_id: raw.subvenderid,
            subdevice_id: raw.subdeviceid,
            bdf_device_id: raw.bdf_deviceid as u32,
            bdf_bus_id: raw.bdf_busid as u32,
            bdf_func_id: raw.bdf_funcid as u32,
        }
    }
}

/// PCIE information with domain
#[non_exhaustive]
#[derive(Debug, PartialEq, Eq, Clone, Copy, Structural)]
pub struct DomainPCIEInfo {
    /// PCIE information
    pub pcie_info: PCIEInfo,
    /// Domain
    pub domain: i32,
}

impl DomainPCIEInfo {
    /// The base record decoded as PCIe information, with the domain attached.
    pub open spec fn spec_from_raw(raw: RawPcieInfoAll) -> DomainPCIEInfo {
        DomainPCIEInfo { pcie_info: PCIEInfo::spec_from_raw(raw.spec_base()), domain: raw.domain }
    }

    /// Decodes a raw PCIe record with domain: its base record, then the domain.
    pub fn from_raw(raw: &RawPcieInfoAll) -> (r: DomainPCIEInfo)
        ensures
            r == DomainPCIEInfo::spec_from_raw(*raw),
    {
        DomainPCIEInfo { pcie_info: PCIEInfo::from_raw(&raw.base()), domain: raw.domain }
    }
}

/// Board information
///
/// # Notes
/// when chip is NPU, only board_id and slot_id is valid, slot_id tagged the pcie slot where chip is located
///
/// when chip is MCU, all fields are valid, slot_id tagged the position of card where chip is located
#[derive(Debug, PartialEq, Eq, Clone, Copy, Structural)]
pub struct BoardInfo {
    /// Board ID
    pub board_id: u32,
    /// PCB ID
    pub pcb_id: u32,
    /// BOM ID
    pub bom_id: u32,
    /// Slot ID
    pub slot_id: u32,
}

impl BoardInfo {
    /// The board information that a raw record holds.
    pub open spec fn spec_from_raw(raw: RawBoardInfo) -> BoardInfo {
        BoardInfo {
            board_id: raw.board_id,
            pcb_id: raw.pcb_id,
            bom_id: raw.bom_id,
            slot_id: raw.slot_id,
        }
    }

    /// Decodes a raw board information record.
    pub fn from_raw(raw: &RawBoardInfo) -> (r: BoardInfo)
        ensures
            r == BoardInfo::spec_from_raw(*raw),
    {
        BoardInfo {
            board_id: raw.board_id,
            pcb_id: raw.pcb_id,
            bom_id: raw.bom_id,
            slot_id: raw.slot_id,
        }
    }
}

/// ELabel information
#[non_exhaustive]
#[derive(Debug, PartialEq, Eq, Clone)]
pub struct ELabelInfo {
    /// Product name
    pub product_name: String,
    /// Model
    pub model: String,
    /// Manufacturer
    pub manufacturer: String,
    /// Serial number
    pub serial_number: String,
}

impl ELabelInfo {
    /// `r` is what decoding `raw` gives: each field is the string held by its
    /// buffer, and a buffer that holds no valid string fails the whole record.
    pub open spec fn decodes(raw: RawElabelInfo, r: DCMIResult<ELabelInfo>) -> bool {
        match r {
            Ok(l) => {
                &&& c_string(raw.product_name@) == Ok::<Seq<char>, DCMIError>(l.product_name@)
                &&& c_string(raw.model@) == Ok::<Seq<char>, DCMIError>(l.model@)
                &&& c_string(raw.manufacturer@) == Ok::<Seq<char>, DCMIError>(l.manufacturer@)
                &&& c_string(raw.serial_number@) == Ok::<Seq<char>, DCMIError>(l.serial_number@)
            },
            Err(e) => {
                &&& e == DCMIError::Utf8Error
                &&& (c_string(raw.product_name@) is Err || c_string(raw.model@) is Err
                    || c_string(raw.manufacturer@) is Err || c_string(raw.serial_number@) is Err)
            },
        }
    }

    /// Decodes a raw electronic label.
    pub fn from_raw(raw: &RawElabelInfo) -> (r: DCMIResult<ELabelInfo>)
        ensures
            ELabelInfo::decodes(*raw, r),
    {
        let product_name = decode_c_string(raw.product_name.as_slice())?;
        let model = decode_c_string(raw.model.as_slice())?;
        let manufacturer = decode_c_string(raw.manufacturer.as_slice())?;
        let serial_number = decode_c_string(raw.serial_number.as_slice())?;
        Ok(ELabelInfo { product_name, model, manufacturer, serial_number })
    }
}

/// Die ID
#[derive(Debug, PartialEq, Eq, Clone, Copy)]
pub struct DieInfo {
    /// SOC die
    pub soc_die: [u32; DIE_ID_COUNT],
}

impl DieInfo {
    /// Decodes a raw die id record.
    pub fn from_raw(raw: &RawDieId) -> (r: DieInfo)
        ensures
            r.soc_die@ == raw.soc_die@,
    {
        DieInfo { soc_die: raw.soc_die }
    }
}

/// State code of a healthy flash device.
pub const FLASH_HEALTHY_STATE: u32 = 0x8;

/// Flash information
#[derive(Debug, PartialEq, Eq, Clone, Copy, Structural)]
pub struct FlashInfo {
    /// Flash ID
    pub flash_id: u64,
    /// Device ID
    pub device_id: u16,
    /// Vendor
    pub vendor: u16,
    /// Health status
    pub is_health: bool,
    /// Flash size
    pub size: u64,
    /// Sector count
    pub sector_count: u32,
    /// Manufacturer ID
    pub manufacturer_id: u16,
}

impl FlashInfo {
    /// The flash information that a raw record holds.
    pub open spec fn spec_from_raw(raw: RawFlashInfo) -> FlashInfo {
        FlashInfo {
            flash_id: raw.flash_id,
            device_id: raw.device_id,
            vendor: raw.vendor,
            is_health: raw.state == FLASH_HEALTHY_STATE,
            size: raw.size,
            sector_count: raw.sector_count,
            manufacturer_id: raw.manufacturer_id,
        }
    }

    /// Decodes a raw flash information record.
    pub fn from_raw(raw: &RawFlashInfo) -> (r: FlashInfo)
        ensures
            r == FlashInfo::spec_from_raw(*raw),
    {
        FlashInfo {
            flash_id: raw.flash_id,
            device_id: raw.device_id,
            vendor: raw.vendor,
            is_health: raw.state == FLASH_HEALTHY_STATE,
            size: raw.size,
            sector_count: raw.sector_count,
            manufacturer_id: raw.manufacturer_id,
        }
    }
}

/// AI core information
#[derive(Debug, PartialEq, Eq, Clone, Copy, Structural)]
pub struct AICoreInfo {
    /// Frequency, unit: MHz
    pub frequency: u32,
    /// Current frequency, unit: MHz
    pub current_frequency: u32,
}

impl AICoreInfo {
    /// The AI core information that a raw record holds.
    pub open spec fn spec_from_raw(raw: RawAicoreInfo) -> AICoreInfo {
        AICoreInfo { frequency: raw.freq, current_frequency: raw.cur_freq }
    }

    /// Decodes a raw AI core information record.
    pub fn from_raw(raw: &RawAicoreInfo) -> (r: AICoreInfo)
        ensures
            r == AICoreInfo::spec_from_raw(*raw),
    {
        AICoreInfo { frequency: raw.freq, current_frequency: raw.cur_freq }
    }
}

/// AI CPU information
#[derive(Debug, PartialEq, Eq, Clone, Copy)]
pub struct AICPUInfo {
    /// Maximum frequency, unit: MHz
    pub max_frequency: u32,
    /// Current frequency, unit: MHz
    pub current_frequency: u32,
    /// AI CPU number
    pub aicpu_num: u32,
    /// Utilization rate
    pub util_rate: [u32; MAX_CORE_NUM],
}

impl AICPUInfo {
    /// `v` holds what the raw record holds.
    pub open spec fn decodes(raw: RawAicpuInfo, v: AICPUInfo) -> bool {
        &&& v.max_frequency == raw.max_freq
        &&& v.current_frequency == raw.cur_freq
        &&& v.aicpu_num == raw.aicpu_num
        &&& v.util_rate@ == raw.util_rate@
    }

    /// Decodes a raw AI CPU information record.
    pub fn from_raw(raw: &RawAicpuInfo) -> (r: AICPUInfo)
        ensures
            AICPUInfo::decodes(*raw, r),
    {
        AICPUInfo {
            max_frequency: raw.max_freq,
            current_frequency: raw.cur_freq,
            aicpu_num: raw.aicpu_num,
            util_rate: raw.util_rate,
        }
    }
}

/// Memory information
#[derive(Debug, PartialEq, Eq, Clone, Copy, Structural)]
pub struct MemoryInfo {
    /// Memory size, unit: MB
    pub memory_size: u64,
    /// Memory available, unit: MB, free + huge_pages_free * huge_page_size
    pub memory_available: u64,
    /// Frequency
    pub freq: u32,
    /// Huge page size, unit: KB
    pub huge_page_size: u64,
    /// Huge pages total
    pub huge_pages_total: u64,
    /// Huge pages free
    pub huge_pages_free: u64,
    /// Utilization, DDR memory info usages
    pub utilization: u32,
}

impl MemoryInfo {
    /// The memory information that a raw record holds.
    pub open spec fn spec_from_raw(raw: RawMemoryInfo) -> MemoryInfo {
        MemoryInfo {
            memory_size: raw.memory_size,
            memory_available: raw.memory_available,
            freq: raw.freq,
            huge_page_size: raw.hugepagesize,
            huge_pages_total: raw.hugepages_total,
            huge_pages_free: raw.hugepages_free,
            utilization: raw.utiliza,
        }
    }

    /// Decodes a raw memory information record.
    pub fn from_raw(raw: &RawMemoryInfo) -> (r: MemoryInfo)
        ensures
            r == MemoryInfo::spec_from_raw(*raw),
    {
        MemoryInfo {
            memory_size: raw.memory_size,
            memory_available: raw.memory_available,
            freq: raw.freq,
            huge_page_size: raw.hugepagesize,
            huge_pages_total: raw.hugepages_total,
            huge_pages_free: raw.hugepages_free,
            utilization: raw.utiliza,
        }
    }
}

/// HBM information
#[derive(Debug, PartialEq, Eq, Clone, Copy, Structural)]
pub struct HBMInfo {
    /// HBM total size, MB
    pub memory_size: u64,
    /// HBM frequency, MHz
    pub frequency: u32,
    /// HBM memory usage, MB
    pub memory_usage: u64,
    /// HBM temperature
    pub temperature: i32,
    /// HBM bandwidth utilization rate
    pub bandwidth_util_rate: u32,
}

impl HBMInfo {
    /// The HBM information that a raw record holds.
    pub open spec fn spec_from_raw(raw: RawHbmInfo) -> HBMInfo {
        HBMInfo {
            memory_size: raw.memory_size,
            frequency: raw.freq,
            memory_usage: raw.memory_usage,
            temperature: raw.temp,
            bandwidth_util_rate: raw.bandwith_util_rate,
        }
    }

    /// Decodes a raw HBM information record.
    pub fn from_raw(raw: &RawHbmInfo) -> (r: HBMInfo)
        ensures
            r == HBMInfo::spec_from_raw(*raw),
    {
        HBMInfo {
            memory_size: raw.memory_size,
            frequency: raw.freq,
            memory_usage: raw.memory_usage,
            temperature: raw.temp,
            bandwidth_util_rate: raw.bandwith_util_rate,
        }
    }
}

/// Chip PCIE error rate
#[derive(Debug, PartialEq, Eq, Clone)]
pub struct ChipPCIEErrorRate {
    /// Deskew FIFO overflow interrupt status
    pub deskew_fifo_overflow_intr_status: bool,
    /// Symbol unlock interrupt status
    pub symbol_unlock_intr_status: bool,
    /// Deskew unlock interrupt status
    pub deskew_unlock_intr_status: bool,
    /// Phystatus timeout interrupt status
    pub phystatus_timeout_intr_status: bool,
    /// Symbol unlock counter
    pub symbol_unlock_counter: u32,
    /// PCS RX error count
    pub pcs_rx_err_cnt: u32,
    /// PHY lane error counter
    pub phy_lane_err_counter: u32,
    /// PCS receive error status, one flag per lane, lane 0 first
    pub pcs_rcv_err_status: Vec<bool>,
    /// Symbol unlock error status, one flag per lane, lane 0 first
    pub symbol_unlock_err_status: Vec<bool>,
    /// PHY lane error status, one flag per lane, lane 0 first
    pub phy_lane_err_status: Vec<bool>,
    /// DL LCRC error number
    pub dl_lcrc_err_num: u32,
    /// DL DCRC error number
    pub dl_dcrc_err_num: u32,
}

impl ChipPCIEErrorRate {
    /// `v` holds what the raw record holds: a flag for each non-zero status
    /// register, the 32 lane flags of each lane status word, the counters as they are.
    pub open spec fn decodes(raw: RawChipPcieErrRate, v: ChipPCIEErrorRate) -> bool {
        &&& v.deskew_fifo_overflow_intr_status == (raw.reg_deskew_fifo_overflow_intr_status != 0)
        &&& v.symbol_unlock_intr_status == (raw.reg_symbol_unlock_intr_status != 0)
        &&& v.deskew_unlock_intr_status == (raw.reg_deskew_unlock_intr_status != 0)
        &&& v.phystatus_timeout_intr_status == (raw.reg_phystatus_timeout_intr_status != 0)
        &&& v.symbol_unlock_counter == raw.symbol_unlock_counter
        &&& v.pcs_rx_err_cnt == raw.pcs_rx_err_cnt
        &&& v.phy_lane_err_counter == raw.phy_lane_err_counter
        &&& v.pcs_rcv_err_status@ == lanes_of(raw.pcs_rcv_err_status)
        &&& v.symbol_unlock_err_status@ == lanes_of(raw.symbol_unlock_err_status)
        &&& v.phy_lane_err_status@ == lanes_of(raw.phy_lane_err_status)
        &&& v.dl_lcrc_err_num == raw.dl_lcrc_err_num
        &&& v.dl_dcrc_err_num == raw.dl_dcrc_err_num
    }

    /// Decodes a raw PCIe error rate record.
    pub fn from_raw(raw: &RawChipPcieErrRate) -> (r: ChipPCIEErrorRate)
        ensures
            ChipPCIEErrorRate::decodes(*raw, r),
    {
        ChipPCIEErrorRate {
            deskew_fifo_overflow_intr_status: raw.reg_deskew_fifo_overflow_intr_status != 0,
            symbol_unlock_intr_status: raw.reg_symbol_unlock_intr_status != 0,
            deskew_unlock_intr_status: raw.reg_deskew_unlock_intr_status != 0,
            phystatus_timeout_intr_status: raw.reg_phystatus_timeout_intr_status != 0,
            symbol_unlock_counter: raw.symbol_unlock_counter,
            pcs_rx_err_cnt: raw.pcs_rx_err_cnt,
            phy_lane_err_counter: raw.phy_lane_err_counter,
            pcs_rcv_err_status: decode_lanes(raw.pcs_rcv_err_status),
            symbol_unlock_err_status: decode_lanes(raw.symbol_unlock_err_status),
            phy_lane_err_status: decode_lanes(raw.phy_lane_err_status),
            dl_lcrc_err_num: raw.dl_lcrc_err_num,
            dl_dcrc_err_num: raw.dl_dcrc_err_num,
        }
    }
}

/// ECC information
#[derive(Debug, PartialEq, Eq, Clone, Copy, Structural)]
pub struct ECCInfo {
    /// ECC enable flag
    pub enable_flag: bool,
    /// Single bit error count
    pub single_bit_error_cnt: u32,
    /// Double bit error count
    pub double_bit_error_cnt: u32,
    /// Total single bit error count
    pub total_single_bit_error_cnt: u32,
    /// Total double bit error count
    pub total_double_bit_error_cnt: u32,
    /// Single bit isolated pages count
    pub single_bit_isolated_pages_cnt: u32,
    /// Double bit isolated pages count
    pub double_bit_isolated_pages_cnt: u32,
}

impl ECCInfo {
    /// The ECC information that a raw record holds.
    pub open spec fn spec_from_raw(raw: RawEccInfo) -> ECCInfo {
        ECCInfo {
            enable_flag: raw.enable_flag != 0,
            single_bit_error_cnt: raw.single_bit_error_cnt,
            double_bit_error_cnt: raw.double_bit_error_cnt,
            total_single_bit_error_cnt: raw.total_single_bit_error_cnt,
            total_double_bit_error_cnt: raw.total_double_bit_error_cnt,
            single_bit_isolated_pages_cnt: raw.single_bit_isolated_pages_cnt,
            double_bit_isolated_pages_cnt: raw.double_bit_isolated_pages_cnt,
        }
    }

    /// Decodes a raw ECC information record.
    pub fn from_raw(raw: &RawEccInfo) -> (r: ECCInfo)
        ensures
            r == ECCInfo::spec_from_raw(*raw),
    {
        ECCInfo {
            enable_flag: raw.enable_flag != 0,
            single_bit_error_cnt: raw.single_bit_error_cnt,
            double_bit_error_cnt: raw.double_bit_error_cnt,
            total_single_bit_error_cnt: raw.total_single_bit_error_cnt,
            total_double_bit_error_cnt: raw.total_double_bit_error_cnt,
            single_bit_isolated_pages_cnt: raw.single_bit_isolated_pages_cnt,
            double_bit_isolated_pages_cnt: raw.double_bit_isolated_pages_cnt,
        }
    }
}

/// Create VChip output
#[non_exhaustive]
#[derive(Debug, PartialEq, Eq, Clone, Copy, Structural)]
pub struct VChipOutput {
    /// VChip ID
    pub vchip_id: u32,
    /// VChip group ID
    pub vfg_id: u32,
}

impl VChipOutput {
    /// The ids that a raw creation result holds.
    pub open spec fn spec_from_raw(raw: RawCreateVdevOut) -> VChipOutput {
        VChipOutput { vchip_id: raw.vdev_id, vfg_id: raw.vfg_id }
    }

    /// Decodes a raw creation result.
    pub fn from_raw(raw: &RawCreateVdevOut) -> (r: VChipOutput)
        ensures
            r == VChipOutput::spec_from_raw(*raw),
    {
        VChipOutput { vchip_id: raw.vdev_id, vfg_id: raw.vfg_id }
    }
}

/// Id that lets the device choose a virtual chip's id or group.
pub const VCHIP_ID_ANY: u32 = 0xFFFF_FFFF;

/// The template name field of a creation request: the name's UTF-8 bytes,
/// NUL-padded to the field's 32 bytes.
pub open spec fn template_field(name: Seq<char>) -> Seq<u8> {
    encode_utf8(name) + zero_bytes((32 - encode_utf8(name).len()) as nat)
}

/// VChip resource
#[non_exhaustive]
#[derive(Debug, PartialEq, Eq, Clone)]
pub struct VChipRes {
    /// VChip ID
    pub vchip_id: u32,
    /// VChip Group ID
    pub vfg_id: u32,
    /// Template name
    pub template_name: String,
}

impl VChipRes {
    /// Create a new VChipRes whose ids the device chooses
    pub fn new(template_name: String) -> (r: Self)
        ensures
            r.vchip_id == VCHIP_ID_ANY,
            r.vfg_id == VCHIP_ID_ANY,
            r.template_name@ == template_name@,
    {
        VChipRes { vchip_id: VCHIP_ID_ANY, vfg_id: VCHIP_ID_ANY, template_name }
    }

    /// Create a new VChipRes by ID
    pub fn new_by_id(vchip_id: u32, vfg_id: u32, template_name: String) -> (r: Self)
        ensures
            r.vchip_id == vchip_id,
            r.vfg_id == vfg_id,
            r.template_name@ == template_name@,
    {
        VChipRes { vchip_id, vfg_id, template_name }
    }

    /// `raw` is the creation request for this resource: the same ids, and the
    /// template name NUL-padded in its field.
    pub open spec fn is_request(&self, raw: RawCreateVdevRes) -> bool {
        &&& raw.vdev_id == self.vchip_id
        &&& raw.vfg_id == self.vfg_id
        &&& raw.template_name@ == template_field(self.template_name@)
    }

    /// The creation request for the interface. A template name longer than
    /// the 32-byte field is refused rather than cut.
    pub fn to_raw(&self) -> (r: DCMIResult<RawCreateVdevRes>)
        ensures
            encode_utf8(self.template_name@).len() > 32 ==> r == Err::<RawCreateVdevRes, DCMIError>(
                DCMIError::InvalidParameter,
            ),
            encode_utf8(self.template_name@).len() <= 32 ==> (r matches Ok(raw) && self.is_request(
                raw,
            )),
    {
        let bytes = self.template_name.as_str().as_bytes();
        if bytes.len() > TEMPLATE_NAME_LEN {
            return Err(DCMIError::InvalidParameter);
        }
        let mut field = [0u8; 32];
        let mut i: usize = 0;
        while i < bytes.len()
            invariant
                bytes@ == encode_utf8(self.template_name@),
                bytes@.len() <= 32,
                i <= bytes@.len(),
                field@ == bytes@.take(i as int) + zero_bytes((32 - i) as nat),
            decreases bytes@.len() - i,
        {
            field[i] = bytes[i];
            i = i + 1;
            assert(field@ =~= bytes@.take(i as int) + zero_bytes((32 - i) as nat));
        }
        assert(bytes@.take(i as int) =~= bytes@);
        Ok(RawCreateVdevRes { vdev_id: self.vchip_id, vfg_id: self.vfg_id, template_name: field })
    }
}

} // verus!
