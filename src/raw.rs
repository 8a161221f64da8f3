//! The raw DCMI interface: fixed-layout records and the calls that fill them.
//!
//! Every call returns a status code (`0` on success) and writes its results
//! into the output parameters that the caller hands it, zero-filled.
use vstd::prelude::*;

verus! {

/// Capacity of the name fields of a chip information record.
pub const MAX_CHIP_NAME_LEN: usize = 32;
/// Capacity of each text field of an electronic label.
pub const MAX_LENTH: usize = 256;
/// Number of words in a die id.
pub const DIE_ID_COUNT: usize = 5;
/// Number of AI CPU cores with a utilization rate.
pub const MAX_CORE_NUM: usize = 36;
/// Capacity of the management unit list.
pub const MAX_CARD_NUM: usize = 64;
/// Capacity of the error code list.
pub const MAX_ERROR_CODE_COUNT: usize = 128;
/// Capacity of an error code description.
pub const MAX_ERROR_STRING_LEN: usize = 256;
/// Length asked for a simplified error code description.
pub const SIMPLIFIED_ERROR_STRING_LEN: i32 = 48;
/// Capacity of the interface version text.
pub const DCMI_VERSION_LEN: usize = 16;
/// Capacity of the driver version text.
pub const DRIVER_VERSION_LEN: usize = 64;
/// Capacity of a virtual chip template name.
pub const TEMPLATE_NAME_LEN: usize = 32;

/// `n` zero bytes.
pub open spec fn zero_bytes(n: nat) -> Seq<u8> {
    Seq::new(n, |i: int| 0u8)
}

/// `n` zero words.
pub open spec fn zero_words(n: nat) -> Seq<u32> {
    Seq::new(n, |i: int| 0u32)
}

/// Raw chip information record.
#[derive(Debug, Clone, Copy)]
pub struct RawChipInfo {
    /// NUL-terminated chip type
    pub chip_type: [u8; MAX_CHIP_NAME_LEN],
    /// NUL-terminated chip name
    pub chip_name: [u8; MAX_CHIP_NAME_LEN],
    /// NUL-terminated chip version
    pub chip_ver: [u8; MAX_CHIP_NAME_LEN],
    /// AI core count
    pub aicore_cnt: u32,
}

impl RawChipInfo {
    /// An all-zero record, ready to be filled by the interface.
    pub fn zeroed() -> (r: Self)
        ensures
            r.chip_type@ == zero_bytes(32),
            r.chip_name@ == zero_bytes(32),
            r.chip_ver@ == zero_bytes(32),
            r.aicore_cnt == 0,
    {
        let r = RawChipInfo {
            chip_type: [0u8; 32],
            chip_name: [0u8; 32],
            chip_ver: [0u8; 32],
            aicore_cnt: 0,
        };
        assert(r.chip_type@ =~= zero_bytes(32));
        assert(r.chip_name@ =~= zero_bytes(32));
        assert(r.chip_ver@ =~= zero_bytes(32));
        r
    }
}

/// Raw PCIe information record.
#[derive(Debug, Clone, Copy, PartialEq, Eq, Structural)]
pub struct RawPcieInfo {
    /// Device ID
    pub deviceid: u32,
    /// Vendor ID
    pub venderid: u32,
    /// Subvendor ID
    pub subvenderid: u32,
    /// Subdevice ID
    pub subdeviceid: u32,
    /// BDF device ID
    pub bdf_deviceid: i32,
    /// BDF bus ID
    pub bdf_busid: i32,
    /// BDF function ID
    pub bdf_funcid: i32,
}

impl RawPcieInfo {
    /// An all-zero record, ready to be filled by the interface.
    pub fn zeroed() -> (r: Self)
        ensures
            r == (RawPcieInfo {
                deviceid: 0,
                venderid: 0,
                subvenderid: 0,
                subdeviceid: 0,
                bdf_deviceid: 0,
                bdf_busid: 0,
                bdf_funcid: 0,
            }),
    {
        RawPcieInfo {
            deviceid: 0,
            venderid: 0,
            subvenderid: 0,
            subdeviceid: 0,
            bdf_deviceid: 0,
            bdf_busid: 0,
            bdf_funcid: 0,
        }
    }
}

/// Raw PCIe information record with the PCIe domain.
#[derive(Debug, Clone, Copy, PartialEq, Eq, Structural)]
pub struct RawPcieInfoAll {
    /// Device ID
    pub deviceid: u32,
    /// Vendor ID
    pub venderid: u32,
    /// Subvendor ID
    pub subvenderid: u32,
    /// Subdevice ID
    pub subdeviceid: u32,
    /// BDF device ID
    pub bdf_deviceid: i32,
    /// BDF bus ID
    pub bdf_busid: i32,
    /// BDF function ID
    pub bdf_funcid: i32,
    /// PCIe domain
    pub domain: i32,
}

impl RawPcieInfoAll {
    /// An all-zero record, ready to be filled by the interface.
    pub fn zeroed() -> (r: Self)
        ensures
            r == (RawPcieInfoAll {
                deviceid: 0,
                venderid: 0,
                subvenderid: 0,
                subdeviceid: 0,
                bdf_deviceid: 0,
                bdf_busid: 0,
                bdf_funcid: 0,
                domain: 0,
            }),
    {
        RawPcieInfoAll {
            deviceid: 0,
            venderid: 0,
            subvenderid: 0,
            subdeviceid: 0,
            bdf_deviceid: 0,
            bdf_busid: 0,
            bdf_funcid: 0,
            domain: 0,
        }
    }

    /// The base PCIe record embedded in this one.
    pub open spec fn spec_base(self) -> RawPcieInfo {
        RawPcieInfo {
            deviceid: self.deviceid,
            venderid: self.venderid,
            subvenderid: self.subvenderid,
            subdeviceid: self.subdeviceid,
            bdf_deviceid: self.bdf_deviceid,
            bdf_busid: self.bdf_busid,
            bdf_funcid: self.bdf_funcid,
        }
    }

    /// The base PCIe record embedded in this one.
    pub fn base(&self) -> (r: RawPcieInfo)
        ensures
            r == self.spec_base(),
    {
        RawPcieInfo {
            deviceid: self.deviceid,
            venderid: self.venderid,
            subvenderid: self.subvenderid,
            subdeviceid: self.subdeviceid,
            bdf_deviceid: self.bdf_deviceid,
            bdf_busid: self.bdf_busid,
            bdf_funcid: self.bdf_funcid,
        }
    }
}

/// Raw board information record.
#[derive(Debug, Clone, Copy, PartialEq, Eq, Structural)]
pub struct RawBoardInfo {
    /// Board ID
    pub board_id: u32,
    /// PCB ID
    pub pcb_id: u32,
    /// BOM ID
    pub bom_id: u32,
    /// Slot ID
    pub slot_id: u32,
}

impl RawBoardInfo {
    /// An all-zero record, ready to be filled by the interface.
    pub fn zeroed() -> (r: Self)
        ensures
            r == (RawBoardInfo { board_id: 0, pcb_id: 0, bom_id: 0, slot_id: 0 }),
    {
        RawBoardInfo { board_id: 0, pcb_id: 0, bom_id: 0, slot_id: 0 }
    }
}

/// Raw electronic label record.
#[derive(Debug, Clone, Copy)]
pub struct RawElabelInfo {
    /// NUL-terminated product name
    pub product_name: [u8; MAX_LENTH],
    /// NUL-terminated model
    pub model: [u8; MAX_LENTH],
    /// NUL-terminated manufacturer
    pub manufacturer: [u8; MAX_LENTH],
    /// NUL-terminated serial number
    pub serial_number: [u8; MAX_LENTH],
}

impl RawElabelInfo {
    /// An all-zero record, ready to be filled by the interface.
    pub fn zeroed() -> (r: Self)
        ensures
            r.product_name@ == zero_bytes(256),
            r.model@ == zero_bytes(256),
            r.manufacturer@ == zero_bytes(256),
            r.serial_number@ == zero_bytes(256),
    {
        let r = RawElabelInfo {
            product_name: [0u8; 256],
            model: [0u8; 256],
            manufacturer: [0u8; 256],
            serial_number: [0u8; 256],
        };
        assert(r.product_name@ =~= zero_bytes(256));
        assert(r.model@ =~= zero_bytes(256));
        assert(r.manufacturer@ =~= zero_bytes(256));
        assert(r.serial_number@ =~= zero_bytes(256));
        r
    }
}

/// Raw die id record.
#[derive(Debug, Clone, Copy)]
pub struct RawDieId {
    /// Die id words
    pub soc_die: [u32; DIE_ID_COUNT],
}

impl RawDieId {
    /// An all-zero record, ready to be filled by the interface.
    pub fn zeroed() -> (r: Self)
        ensures
            r.soc_die@ == zero_words(5),
    {
        let r = RawDieId { soc_die: [0u32; 5] };
        assert(r.soc_die@ =~= zero_words(5));
        r
    }
}

/// Raw flash information record.
#[derive(Debug, Clone, Copy, PartialEq, Eq, Structural)]
pub struct RawFlashInfo {
    /// Flash ID
    pub flash_id: u64,
    /// Device ID
    pub device_id: u16,
    /// Vendor
    pub vendor: u16,
    /// Health state code
    pub state: u32,
    /// Flash size
    pub size: u64,
    /// Sector count
    pub sector_count: u32,
    /// Manufacturer ID
    pub manufacturer_id: u16,
}

impl RawFlashInfo {
    /// An all-zero record, ready to be filled by the interface.
    pub fn zeroed() -> (r: Self)
        ensures
            r == (RawFlashInfo {
                flash_id: 0,
                device_id: 0,
                vendor: 0,
                state: 0,
                size: 0,
                sector_count: 0,
                manufacturer_id: 0,
            }),
    {
        RawFlashInfo {
            flash_id: 0,
            device_id: 0,
            vendor: 0,
            state: 0,
            size: 0,
            sector_count: 0,
            manufacturer_id: 0,
        }
    }
}

/// Raw AI core information record.
#[derive(Debug, Clone, Copy, PartialEq, Eq, Structural)]
pub struct RawAicoreInfo {
    /// Frequency, MHz
    pub freq: u32,
    /// Current frequency, MHz
    pub cur_freq: u32,
}

impl RawAicoreInfo {
    /// An all-zero record, ready to be filled by the interface.
    pub fn zeroed() -> (r: Self)
        ensures
            r == (RawAicoreInfo { freq: 0, cur_freq: 0 }),
    {
        RawAicoreInfo { freq: 0, cur_freq: 0 }
    }
}

/// Raw AI CPU information record.
#[derive(Debug, Clone, Copy)]
pub struct RawAicpuInfo {
    /// Maximum frequency, MHz
    pub max_freq: u32,
    /// Current frequency, MHz
    pub cur_freq: u32,
    /// AI CPU number
    pub aicpu_num: u32,
    /// Utilization rate of each core
    pub util_rate: [u32; MAX_CORE_NUM],
}

impl RawAicpuInfo {
    /// An all-zero record, ready to be filled by the interface.
    pub fn zeroed() -> (r: Self)
        ensures
            r.max_freq == 0,
            r.cur_freq == 0,
            r.aicpu_num == 0,
            r.util_rate@ == zero_words(36),
    {
        let r = RawAicpuInfo { max_freq: 0, cur_freq: 0, aicpu_num: 0, util_rate: [0u32; 36] };
        assert(r.util_rate@ =~= zero_words(36));
        r
    }
}

/// Raw memory information record.
#[derive(Debug, Clone, Copy, PartialEq, Eq, Structural)]
pub struct RawMemoryInfo {
    /// Memory size, MB
    pub memory_size: u64,
    /// Memory available, MB
    pub memory_available: u64,
    /// Frequency
    pub freq: u32,
    /// Huge page size, KB
    pub hugepagesize: u64,
    /// Huge pages total
    pub hugepages_total: u64,
    /// Huge pages free
    pub hugepages_free: u64,
    /// DDR utilization
    pub utiliza: u32,
}

impl RawMemoryInfo {
    /// An all-zero record, ready to be filled by the interface.
    pub fn zeroed() -> (r: Self)
        ensures
            r == (RawMemoryInfo {
                memory_size: 0,
                memory_available: 0,
                freq: 0,
                hugepagesize: 0,
                hugepages_total: 0,
                hugepages_free: 0,
                utiliza: 0,
            }),
    {
        RawMemoryInfo {
            memory_size: 0,
            memory_available: 0,
            freq: 0,
            hugepagesize: 0,
            hugepages_total: 0,
            hugepages_free: 0,
            utiliza: 0,
        }
    }
}

/// Raw HBM information record.
#[derive(Debug, Clone, Copy, PartialEq, Eq, Structural)]
pub struct RawHbmInfo {
    /// Total size, MB
    pub memory_size: u64,
    /// Frequency, MHz
    pub freq: u32,
    /// Memory usage, MB
    pub memory_usage: u64,
    /// Temperature
    pub temp: i32,
    /// Bandwidth utilization rate
    pub bandwith_util_rate: u32,
}

impl RawHbmInfo {
    /// An all-zero record, ready to be filled by the interface.
    pub fn zeroed() -> (r: Self)
        ensures
            r == (RawHbmInfo {
                memory_size: 0,
                freq: 0,
                memory_usage: 0,
                temp: 0,
                bandwith_util_rate: 0,
            }),
    {
        RawHbmInfo { memory_size: 0, freq: 0, memory_usage: 0, temp: 0, bandwith_util_rate: 0 }
    }
}

/// Raw PCIe error rate record.
#[derive(Debug, Clone, Copy, PartialEq, Eq, Structural)]
pub struct RawChipPcieErrRate {
    /// Deskew FIFO overflow interrupt status
    pub reg_deskew_fifo_overflow_intr_status: u32,
    /// Symbol unlock interrupt status
    pub reg_symbol_unlock_intr_status: u32,
    /// Deskew unlock interrupt status
    pub reg_deskew_unlock_intr_status: u32,
    /// Phystatus timeout interrupt status
    pub reg_phystatus_timeout_intr_status: u32,
    /// Symbol unlock counter
    pub symbol_unlock_counter: u32,
    /// PCS RX error count
    pub pcs_rx_err_cnt: u32,
    /// PHY lane error counter
    pub phy_lane_err_counter: u32,
    /// PCS receive error status, one bit per lane
    pub pcs_rcv_err_status: u32,
    /// Symbol unlock error status, one bit per lane
    pub symbol_unlock_err_status: u32,
    /// PHY lane error status, one bit per lane
    pub phy_lane_err_status: u32,
    /// DL LCRC error number
    pub dl_lcrc_err_num: u32,
    /// DL DCRC error number
    pub dl_dcrc_err_num: u32,
}

impl RawChipPcieErrRate {
    /// An all-zero record, ready to be filled by the interface.
    pub fn zeroed() -> (r: Self)
        ensures
            r == (RawChipPcieErrRate {
                reg_deskew_fifo_overflow_intr_status: 0,
                reg_symbol_unlock_intr_status: 0,
                reg_deskew_unlock_intr_status: 0,
                reg_phystatus_timeout_intr_status: 0,
                symbol_unlock_counter: 0,
                pcs_rx_err_cnt: 0,
                phy_lane_err_counter: 0,
                pcs_rcv_err_status: 0,
                symbol_unlock_err_status: 0,
                phy_lane_err_status: 0,
                dl_lcrc_err_num: 0,
                dl_dcrc_err_num: 0,
            }),
    {
        RawChipPcieErrRate {
            reg_deskew_fifo_overflow_intr_status: 0,
            reg_symbol_unlock_intr_status: 0,
            reg_deskew_unlock_intr_status: 0,
            reg_phystatus_timeout_intr_status: 0,
            symbol_unlock_counter: 0,
            pcs_rx_err_cnt: 0,
            phy_lane_err_counter: 0,
            pcs_rcv_err_status: 0,
            symbol_unlock_err_status: 0,
            phy_lane_err_status: 0,
            dl_lcrc_err_num: 0,
            dl_dcrc_err_num: 0,
        }
    }
}

/// Raw ECC information record.
#[derive(Debug, Clone, Copy, PartialEq, Eq, Structural)]
pub struct RawEccInfo {
    /// ECC enable flag
    pub enable_flag: i32,
    /// Single bit error count
    pub single_bit_error_cnt: u32,
    /// Double bit error count
    pub double_bit_error_cnt: u32,
    /// Total single bit error count
    pub total_single_bit_error_cnt: u32,
    /// Total double bit error count
    pub total_double_bit_error_cnt: u32,
    /// Single bit isolated pages count
    pub single_bit_isolated_pages_cnt: u32,
    /// Double bit isolated pages count
    pub double_bit_isolated_pages_cnt: u32,
}

impl RawEccInfo {
    /// An all-zero record, ready to be filled by the interface.
    pub fn zeroed() -> (r: Self)
        ensures
            r == (RawEccInfo {
                enable_flag: 0,
                single_bit_error_cnt: 0,
                double_bit_error_cnt: 0,
                total_single_bit_error_cnt: 0,
                total_double_bit_error_cnt: 0,
                single_bit_isolated_pages_cnt: 0,
                double_bit_isolated_pages_cnt: 0,
            }),
    {
        RawEccInfo {
            enable_flag: 0,
            single_bit_error_cnt: 0,
            double_bit_error_cnt: 0,
            total_single_bit_error_cnt: 0,
            total_double_bit_error_cnt: 0,
            single_bit_isolated_pages_cnt: 0,
            double_bit_isolated_pages_cnt: 0,
        }
    }
}

/// Raw request to create a virtual chip.
#[derive(Debug, Clone, Copy)]
pub struct RawCreateVdevRes {
    /// Virtual chip id, `0xffffffff` to let the device choose
    pub vdev_id: u32,
    /// Virtual chip group id, `0xffffffff` to let the device choose
    pub vfg_id: u32,
    /// NUL-padded template name
    pub template_name: [u8; TEMPLATE_NAME_LEN],
}

/// Raw result of creating a virtual chip.
#[derive(Debug, Clone, Copy, PartialEq, Eq, Structural)]
pub struct RawCreateVdevOut {
    /// Virtual chip id
    pub vdev_id: u32,
    /// PCIe bus
    pub pcie_bus: u32,
    /// PCIe device
    pub pcie_device: u32,
    /// PCIe function
    pub pcie_func: u32,
    /// Virtual chip group id
    pub vfg_id: u32,
}

impl RawCreateVdevOut {
    /// An all-zero record, ready to be filled by the interface.
    pub fn zeroed() -> (r: Self)
        ensures
            r == (RawCreateVdevOut {
                vdev_id: 0,
                pcie_bus: 0,
                pcie_device: 0,
                pcie_func: 0,
                vfg_id: 0,
            }),
    {
        RawCreateVdevOut { vdev_id: 0, pcie_bus: 0, pcie_device: 0, pcie_func: 0, vfg_id: 0 }
    }
}

/// The calls of the DCMI interface, one method per vendor function.
///
/// A backend links the vendor library, loads it at run time, or simulates it.
/// Each method returns the vendor status code and fills its output parameters.
/// Beside each call stands a predicate that the backend may define to describe
/// its answers: the call's answer (status and outputs) meets it for the
/// arguments that the call received. A backend that describes nothing keeps the
/// default, which every answer meets.
pub trait DcmiLib {
    /// The backend may answer a call of `dcmi_init` on these arguments with
    /// status `st` and these outputs.
    open spec fn init_answer(&self, st: i32) -> bool {
        true
    }

    /// Initialize the library.
    fn dcmi_init(&self) -> (st: i32)
        ensures
            self.init_answer(st),
    ;

    /// The backend may answer a call of `dcmi_get_dcmi_version` on these arguments with
    /// status `st` and these outputs.
    open spec fn get_dcmi_version_answer(&self, st: i32, dcmi_ver: [u8; DCMI_VERSION_LEN]) -> bool {
        true
    }

    /// Interface version, as NUL-terminated text.
    fn dcmi_get_dcmi_version(&self, dcmi_ver: &mut [u8; DCMI_VERSION_LEN]) -> (st: i32)
        ensures
            self.get_dcmi_version_answer(st, *final(dcmi_ver)),
    ;

    /// The backend may answer a call of `dcmi_get_driver_version` on these arguments with
    /// status `st` and these outputs.
    open spec fn get_driver_version_answer(
        &self,
        st: i32,
        driver_ver: [u8; DRIVER_VERSION_LEN],
    ) -> bool {
        true
    }

    /// Driver version, as NUL-terminated text.
    fn dcmi_get_driver_version(&self, driver_ver: &mut [u8; DRIVER_VERSION_LEN]) -> (st: i32)
        ensures
            self.get_driver_version_answer(st, *final(driver_ver)),
    ;

    /// The backend may answer a call of `dcmi_get_version` on these arguments with
    /// status `st` and these outputs.
    open spec fn get_version_answer(
        &self,
        card_id: i32,
        device_id: i32,
        st: i32,
        version: [u8; DRIVER_VERSION_LEN],
        ver_len: i32,
    ) -> bool {
        true
    }

    /// Driver version of one chip, and its length in bytes.
    fn dcmi_get_version(
        &self,
        card_id: i32,
        device_id: i32,
        version: &mut [u8; DRIVER_VERSION_LEN],
        ver_len: &mut i32,
    ) -> (st: i32)
        ensures
            self.get_version_answer(card_id, device_id, st, *final(version), *final(ver_len)),
    ;

    /// The backend may answer a call of `dcmi_get_card_list` on these arguments with
    /// status `st` and these outputs.
    open spec fn get_card_list_answer(
        &self,
        st: i32,
        card_num: i32,
        card_list: [i32; MAX_CARD_NUM],
    ) -> bool {
        true
    }

    /// Number of management units and their ids, from the front of the list.
    fn dcmi_get_card_list(
        &self,
        card_num: &mut i32,
        card_list: &mut [i32; MAX_CARD_NUM],
    ) -> (st: i32)
        ensures
            self.get_card_list_answer(st, *final(card_num), *final(card_list)),
    ;

    /// The backend may answer a call of `dcmi_get_device_num_in_card` on these arguments with
    /// status `st` and these outputs.
    open spec fn get_device_num_in_card_answer(
        &self,
        card_id: i32,
        st: i32,
        device_num: i32,
    ) -> bool {
        true
    }

    /// Number of NPU chips in a management unit.
    fn dcmi_get_device_num_in_card(&self, card_id: i32, device_num: &mut i32) -> (st: i32)
        ensures
            self.get_device_num_in_card_answer(card_id, st, *final(device_num)),
    ;

    /// The backend may answer a call of `dcmi_get_device_id_in_card` on these arguments with
    /// status `st` and these outputs.
    open spec fn get_device_id_in_card_answer(
        &self,
        card_id: i32,
        st: i32,
        device_id_max: i32,
        mcu_id: i32,
        cpu_id: i32,
    ) -> bool {
        true
    }

    /// Exclusive bound of NPU chip ids, and the MCU and CPU chip ids (`-1`: none).
    fn dcmi_get_device_id_in_card(
        &self,
        card_id: i32,
        device_id_max: &mut i32,
        mcu_id: &mut i32,
        cpu_id: &mut i32,
    ) -> (st: i32)
        ensures
            self.get_device_id_in_card_answer(
                card_id,
                st,
                *final(device_id_max),
                *final(mcu_id),
                *final(cpu_id),
            ),
    ;

    /// The backend may answer a call of `dcmi_get_device_type` on these arguments with
    /// status `st` and these outputs.
    open spec fn get_device_type_answer(
        &self,
        card_id: i32,
        device_id: i32,
        st: i32,
        device_type: u32,
    ) -> bool {
        true
    }

    /// Unit type code of a chip.
    fn dcmi_get_device_type(&self, card_id: i32, device_id: i32, device_type: &mut u32) -> (st: i32)
        ensures
            self.get_device_type_answer(card_id, device_id, st, *final(device_type)),
    ;

    /// The backend may answer a call of `dcmi_get_device_chip_info` on these arguments with
    /// status `st` and these outputs.
    open spec fn get_device_chip_info_answer(
        &self,
        card_id: i32,
        device_id: i32,
        st: i32,
        chip_info: RawChipInfo,
    ) -> bool {
        true
    }

    /// Chip information.
    fn dcmi_get_device_chip_info(
        &self,
        card_id: i32,
        device_id: i32,
        chip_info: &mut RawChipInfo,
    ) -> (st: i32)
        ensures
            self.get_device_chip_info_answer(card_id, device_id, st, *final(chip_info)),
    ;

    /// The backend may answer a call of `dcmi_get_device_pcie_info` on these arguments with
    /// status `st` and these outputs.
    open spec fn get_device_pcie_info_answer(
        &self,
        card_id: i32,
        device_id: i32,
        st: i32,
        pcie_info: RawPcieInfo,
    ) -> bool {
        true
    }

    /// PCIe information.
    fn dcmi_get_device_pcie_info(
        &self,
        card_id: i32,
        device_id: i32,
        pcie_info: &mut RawPcieInfo,
    ) -> (st: i32)
        ensures
            self.get_device_pcie_info_answer(card_id, device_id, st, *final(pcie_info)),
    ;

    /// The backend may answer a call of `dcmi_get_device_pcie_info_v2` on these arguments with
    /// status `st` and these outputs.
    open spec fn get_device_pcie_info_v2_answer(
        &self,
        card_id: i32,
        device_id: i32,
        st: i32,
        pcie_info: RawPcieInfoAll,
    ) -> bool {
        true
    }

    /// PCIe information with the PCIe domain.
    fn dcmi_get_device_pcie_info_v2(
        &self,
        card_id: i32,
        device_id: i32,
        pcie_info: &mut RawPcieInfoAll,
    ) -> (st: i32)
        ensures
            self.get_device_pcie_info_v2_answer(card_id, device_id, st, *final(pcie_info)),
    ;

    /// The backend may answer a call of `dcmi_get_device_board_info` on these arguments with
    /// status `st` and these outputs.
    open spec fn get_device_board_info_answer(
        &self,
        card_id: i32,
        device_id: i32,
        st: i32,
        board_info: RawBoardInfo,
    ) -> bool {
        true
    }

    /// Board information.
    fn dcmi_get_device_board_info(
        &self,
        card_id: i32,
        device_id: i32,
        board_info: &mut RawBoardInfo,
    ) -> (st: i32)
        ensures
            self.get_device_board_info_answer(card_id, device_id, st, *final(board_info)),
    ;

    /// The backend may answer a call of `dcmi_get_device_elabel_info` on these arguments with
    /// status `st` and these outputs.
    open spec fn get_device_elabel_info_answer(
        &self,
        card_id: i32,
        device_id: i32,
        st: i32,
        elabel_info: RawElabelInfo,
    ) -> bool {
        true
    }

    /// Electronic label.
    fn dcmi_get_device_elabel_info(
        &self,
        card_id: i32,
        device_id: i32,
        elabel_info: &mut RawElabelInfo,
    ) -> (st: i32)
        ensures
            self.get_device_elabel_info_answer(card_id, device_id, st, *final(elabel_info)),
    ;

    /// The backend may answer a call of `dcmi_get_device_power_info` on these arguments with
    /// status `st` and these outputs.
    open spec fn get_device_power_info_answer(
        &self,
        card_id: i32,
        device_id: i32,
        st: i32,
        power: i32,
    ) -> bool {
        true
    }

    /// Power, in units of 0.1 W.
    fn dcmi_get_device_power_info(&self, card_id: i32, device_id: i32, power: &mut i32) -> (st: i32)
        ensures
            self.get_device_power_info_answer(card_id, device_id, st, *final(power)),
    ;

    /// The backend may answer a call of `dcmi_get_device_die_v2` on these arguments with
    /// status `st` and these outputs.
    open spec fn get_device_die_v2_answer(
        &self,
        card_id: i32,
        device_id: i32,
        input_type: u32,
        st: i32,
        die_id: RawDieId,
    ) -> bool {
        true
    }

    /// Die id of the die type with the given code.
    fn dcmi_get_device_die_v2(
        &self,
        card_id: i32,
        device_id: i32,
        input_type: u32,
        die_id: &mut RawDieId,
    ) -> (st: i32)
        ensures
            self.get_device_die_v2_answer(card_id, device_id, input_type, st, *final(die_id)),
    ;

    /// The backend may answer a call of `dcmi_get_device_health` on these arguments with
    /// status `st` and these outputs.
    open spec fn get_device_health_answer(
        &self,
        card_id: i32,
        device_id: i32,
        st: i32,
        health: u32,
    ) -> bool {
        true
    }

    /// Health state code.
    fn dcmi_get_device_health(&self, card_id: i32, device_id: i32, health: &mut u32) -> (st: i32)
        ensures
            self.get_device_health_answer(card_id, device_id, st, *final(health)),
    ;

    /// The backend may answer a call of `dcmi_get_device_errorcode_v2` on these arguments with
    /// status `st` and these outputs.
    open spec fn get_device_errorcode_v2_answer(
        &self,
        card_id: i32,
        device_id: i32,
        st: i32,
        error_count: i32,
        error_code_list: [u32; MAX_ERROR_CODE_COUNT],
    ) -> bool {
        true
    }

    /// Number of error codes and the codes, from the front of the list.
    fn dcmi_get_device_errorcode_v2(
        &self,
        card_id: i32,
        device_id: i32,
        error_count: &mut i32,
        error_code_list: &mut [u32; MAX_ERROR_CODE_COUNT],
    ) -> (st: i32)
        ensures
            self.get_device_errorcode_v2_answer(
                card_id,
                device_id,
                st,
                *final(error_count),
                *final(error_code_list),
            ),
    ;

    /// The backend may answer a call of `dcmi_get_device_errorcode_string` on these arguments with
    /// status `st` and these outputs.
    open spec fn get_device_errorcode_string_answer(
        &self,
        card_id: i32,
        device_id: i32,
        error_code: u32,
        buf_size: i32,
        st: i32,
        error_info: [u8; MAX_ERROR_STRING_LEN],
    ) -> bool {
        true
    }

    /// NUL-terminated description of an error code, in at most `buf_size` bytes.
    fn dcmi_get_device_errorcode_string(
        &self,
        card_id: i32,
        device_id: i32,
        error_code: u32,
        error_info: &mut [u8; MAX_ERROR_STRING_LEN],
        buf_size: i32,
    ) -> (st: i32)
        ensures
            self.get_device_errorcode_string_answer(
                card_id,
                device_id,
                error_code,
                buf_size,
                st,
                *final(error_info),
            ),
    ;

    /// The backend may answer a call of `dcmi_get_device_flash_count` on these arguments with
    /// status `st` and these outputs.
    open spec fn get_device_flash_count_answer(
        &self,
        card_id: i32,
        device_id: i32,
        st: i32,
        flash_count: u32,
    ) -> bool {
        true
    }

    /// Number of flash devices.
    fn dcmi_get_device_flash_count(
        &self,
        card_id: i32,
        device_id: i32,
        flash_count: &mut u32,
    ) -> (st: i32)
        ensures
            self.get_device_flash_count_answer(card_id, device_id, st, *final(flash_count)),
    ;

    /// The backend may answer a call of `dcmi_get_device_flash_info_v2` on these arguments with
    /// status `st` and these outputs.
    open spec fn get_device_flash_info_v2_answer(
        &self,
        card_id: i32,
        device_id: i32,
        flash_index: u32,
        st: i32,
        flash_info: RawFlashInfo,
    ) -> bool {
        true
    }

    /// Information on one flash device.
    fn dcmi_get_device_flash_info_v2(
        &self,
        card_id: i32,
        device_id: i32,
        flash_index: u32,
        flash_info: &mut RawFlashInfo,
    ) -> (st: i32)
        ensures
            self.get_device_flash_info_v2_answer(
                card_id,
                device_id,
                flash_index,
                st,
                *final(flash_info),
            ),
    ;

    /// The backend may answer a call of `dcmi_get_device_aicore_info` on these arguments with
    /// status `st` and these outputs.
    open spec fn get_device_aicore_info_answer(
        &self,
        card_id: i32,
        device_id: i32,
        st: i32,
        aicore_info: RawAicoreInfo,
    ) -> bool {
        true
    }

    /// AI core information.
    fn dcmi_get_device_aicore_info(
        &self,
        card_id: i32,
        device_id: i32,
        aicore_info: &mut RawAicoreInfo,
    ) -> (st: i32)
        ensures
            self.get_device_aicore_info_answer(card_id, device_id, st, *final(aicore_info)),
    ;

    /// The backend may answer a call of `dcmi_get_device_aicpu_info` on these arguments with
    /// status `st` and these outputs.
    open spec fn get_device_aicpu_info_answer(
        &self,
        card_id: i32,
        device_id: i32,
        st: i32,
        aicpu_info: RawAicpuInfo,
    ) -> bool {
        true
    }

    /// AI CPU information.
    fn dcmi_get_device_aicpu_info(
        &self,
        card_id: i32,
        device_id: i32,
        aicpu_info: &mut RawAicpuInfo,
    ) -> (st: i32)
        ensures
            self.get_device_aicpu_info_answer(card_id, device_id, st, *final(aicpu_info)),
    ;

    /// The backend may answer a call of `dcmi_get_device_system_time` on these arguments with
    /// status `st` and these outputs.
    open spec fn get_device_system_time_answer(
        &self,
        card_id: i32,
        device_id: i32,
        st: i32,
        time: u32,
    ) -> bool {
        true
    }

    /// System time, in seconds since the Unix epoch.
    fn dcmi_get_device_system_time(&self, card_id: i32, device_id: i32, time: &mut u32) -> (st: i32)
        ensures
            self.get_device_system_time_answer(card_id, device_id, st, *final(time)),
    ;

    /// The backend may answer a call of `dcmi_get_device_temperature` on these arguments with
    /// status `st` and these outputs.
    open spec fn get_device_temperature_answer(
        &self,
        card_id: i32,
        device_id: i32,
        st: i32,
        temperature: i32,
    ) -> bool {
        true
    }

    /// Temperature, in degrees Celsius.
    fn dcmi_get_device_temperature(
        &self,
        card_id: i32,
        device_id: i32,
        temperature: &mut i32,
    ) -> (st: i32)
        ensures
            self.get_device_temperature_answer(card_id, device_id, st, *final(temperature)),
    ;

    /// The backend may answer a call of `dcmi_get_device_voltage` on these arguments with
    /// status `st` and these outputs.
    open spec fn get_device_voltage_answer(
        &self,
        card_id: i32,
        device_id: i32,
        st: i32,
        voltage: u32,
    ) -> bool {
        true
    }

    /// Voltage, in units of 0.01 V.
    fn dcmi_get_device_voltage(&self, card_id: i32, device_id: i32, voltage: &mut u32) -> (st: i32)
        ensures
            self.get_device_voltage_answer(card_id, device_id, st, *final(voltage)),
    ;

    /// The backend may answer a call of `dcmi_get_device_pcie_error_cnt` on these arguments with
    /// status `st` and these outputs.
    open spec fn get_device_pcie_error_cnt_answer(
        &self,
        card_id: i32,
        device_id: i32,
        st: i32,
        pcie_err_rate: RawChipPcieErrRate,
    ) -> bool {
        true
    }

    /// PCIe error rates.
    fn dcmi_get_device_pcie_error_cnt(
        &self,
        card_id: i32,
        device_id: i32,
        pcie_err_rate: &mut RawChipPcieErrRate,
    ) -> (st: i32)
        ensures
            self.get_device_pcie_error_cnt_answer(card_id, device_id, st, *final(pcie_err_rate)),
    ;

    /// The backend may answer a call of `dcmi_get_device_ecc_info` on these arguments with
    /// status `st` and these outputs.
    open spec fn get_device_ecc_info_answer(
        &self,
        card_id: i32,
        device_id: i32,
        input_type: u32,
        st: i32,
        ecc_info: RawEccInfo,
    ) -> bool {
        true
    }

    /// ECC information of the device type with the given code.
    fn dcmi_get_device_ecc_info(
        &self,
        card_id: i32,
        device_id: i32,
        input_type: u32,
        ecc_info: &mut RawEccInfo,
    ) -> (st: i32)
        ensures
            self.get_device_ecc_info_answer(card_id, device_id, input_type, st, *final(ecc_info)),
    ;

    /// The backend may answer a call of `dcmi_get_device_frequency` on these arguments with
    /// status `st` and these outputs.
    open spec fn get_device_frequency_answer(
        &self,
        card_id: i32,
        device_id: i32,
        input_type: u32,
        st: i32,
        frequency: u32,
    ) -> bool {
        true
    }

    /// Frequency of the frequency type with the given code, in MHz.
    fn dcmi_get_device_frequency(
        &self,
        card_id: i32,
        device_id: i32,
        input_type: u32,
        frequency: &mut u32,
    ) -> (st: i32)
        ensures
            self.get_device_frequency_answer(card_id, device_id, input_type, st, *final(frequency)),
    ;

    /// The backend may answer a call of `dcmi_get_device_hbm_info` on these arguments with
    /// status `st` and these outputs.
    open spec fn get_device_hbm_info_answer(
        &self,
        card_id: i32,
        device_id: i32,
        st: i32,
        hbm_info: RawHbmInfo,
    ) -> bool {
        true
    }

    /// HBM information.
    fn dcmi_get_device_hbm_info(
        &self,
        card_id: i32,
        device_id: i32,
        hbm_info: &mut RawHbmInfo,
    ) -> (st: i32)
        ensures
            self.get_device_hbm_info_answer(card_id, device_id, st, *final(hbm_info)),
    ;

    /// The backend may answer a call of `dcmi_get_device_memory_info_v3` on these arguments with
    /// status `st` and these outputs.
    open spec fn get_device_memory_info_v3_answer(
        &self,
        card_id: i32,
        device_id: i32,
        st: i32,
        memory_info: RawMemoryInfo,
    ) -> bool {
        true
    }

    /// Memory information.
    fn dcmi_get_device_memory_info_v3(
        &self,
        card_id: i32,
        device_id: i32,
        memory_info: &mut RawMemoryInfo,
    ) -> (st: i32)
        ensures
            self.get_device_memory_info_v3_answer(card_id, device_id, st, *final(memory_info)),
    ;

    /// The backend may answer a call of `dcmi_get_device_utilization_rate` on these arguments with
    /// status `st` and these outputs.
    open spec fn get_device_utilization_rate_answer(
        &self,
        card_id: i32,
        device_id: i32,
        input_type: i32,
        st: i32,
        utilization_rate: u32,
    ) -> bool {
        true
    }

    /// Utilization rate of the utilization type with the given code, in percent.
    fn dcmi_get_device_utilization_rate(
        &self,
        card_id: i32,
        device_id: i32,
        input_type: i32,
        utilization_rate: &mut u32,
    ) -> (st: i32)
        ensures
            self.get_device_utilization_rate_answer(
                card_id,
                device_id,
                input_type,
                st,
                *final(utilization_rate),
            ),
    ;

    /// The backend may answer a call of `dcmi_create_vdevice` on these arguments with
    /// status `st` and these outputs.
    open spec fn create_vdevice_answer(
        &self,
        card_id: i32,
        device_id: i32,
        vdev: RawCreateVdevRes,
        st: i32,
        out: RawCreateVdevOut,
    ) -> bool {
        true
    }

    /// Create a virtual chip from a creation request.
    fn dcmi_create_vdevice(
        &self,
        card_id: i32,
        device_id: i32,
        vdev: &RawCreateVdevRes,
        out: &mut RawCreateVdevOut,
    ) -> (st: i32)
        ensures
            self.create_vdevice_answer(card_id, device_id, *vdev, st, *final(out)),
    ;

    /// The backend may answer a call of `dcmi_set_destroy_vdevice` on these arguments with
    /// status `st` and these outputs.
    open spec fn set_destroy_vdevice_answer(
        &self,
        card_id: i32,
        device_id: i32,
        vdevid: u32,
        st: i32,
    ) -> bool {
        true
    }

    /// Destroy the virtual chip `vdevid`, or every virtual chip for id 65535.
    fn dcmi_set_destroy_vdevice(&self, card_id: i32, device_id: i32, vdevid: u32) -> (st: i32)
        ensures
            self.set_destroy_vdevice_answer(card_id, device_id, vdevid, st),
    ;

    /// The backend may answer a call of `dcmi_get_vnpu_config_recover_mode` on these arguments with
    /// status `st` and these outputs.
    open spec fn get_vnpu_config_recover_mode_answer(&self, st: i32, mode: u32) -> bool {
        true
    }

    /// Recovery mode of the virtual chip configuration (`1`: enabled, `0`: disabled).
    fn dcmi_get_vnpu_config_recover_mode(&self, mode: &mut u32) -> (st: i32)
        ensures
            self.get_vnpu_config_recover_mode_answer(st, *final(mode)),
    ;

    /// The backend may answer a call of `dcmi_set_vnpu_config_recover_mode` on these arguments with
    /// status `st` and these outputs.
    open spec fn set_vnpu_config_recover_mode_answer(&self, mode: u32, st: i32) -> bool {
        true
    }

    /// Set the recovery mode of the virtual chip configuration.
    fn dcmi_set_vnpu_config_recover_mode(&self, mode: u32) -> (st: i32)
        ensures
            self.set_vnpu_config_recover_mode_answer(mode, st),
    ;
}

} // verus!
