use hw_dcmi::device::{Card, Chip};
use hw_dcmi::enums::{HealthState, UnitType};
use hw_dcmi::error::{DCMIError, GetDataError, DCMI_ERR_CODE_NOT_SUPPORT, DCMI_ERR_CODE_TIME_OUT};
use hw_dcmi::raw::{
    DcmiLib, RawAicoreInfo, RawAicpuInfo, RawBoardInfo, RawChipInfo, RawChipPcieErrRate,
    RawCreateVdevOut, RawCreateVdevRes, RawDieId, RawEccInfo, RawElabelInfo, RawFlashInfo,
    RawHbmInfo, RawMemoryInfo, RawPcieInfo, RawPcieInfoAll,
};
use hw_dcmi::DCMI;
use std::cell::Cell;

/// A device whose readings the test sets.
struct Readings {
    temperature: i32,
    voltage: u32,
    health: u32,
    status: i32,
    type_queries: Cell<u32>,
}

fn readings(temperature: i32, voltage: u32, health: u32) -> Readings {
    Readings { temperature, voltage, health, status: 0, type_queries: Cell::new(0) }
}

impl DcmiLib for Readings {
    fn dcmi_init(&self) -> i32 {
        0
    }

    fn dcmi_get_dcmi_version(&self, dcmi_ver: &mut [u8; 16]) -> i32 {
        dcmi_ver[..6].copy_from_slice(b"24.1.0");
        self.status
    }

    fn dcmi_get_driver_version(&self, driver_ver: &mut [u8; 64]) -> i32 {
        driver_ver[..5].copy_from_slice(b"7.1.0");
        self.status
    }

    #[allow(deprecated)]
    fn dcmi_get_version(
        &self,
        _card_id: i32,
        _device_id: i32,
        version: &mut [u8; 64],
        ver_len: &mut i32,
    ) -> i32 {
        version[..8].copy_from_slice(b"7.1.0xyz");
        *ver_len = 5;
        self.status
    }

    fn dcmi_get_device_id_in_card(
        &self,
        _card_id: i32,
        device_id_max: &mut i32,
        mcu_id: &mut i32,
        cpu_id: &mut i32,
    ) -> i32 {
        *device_id_max = 2;
        *mcu_id = -1;
        *cpu_id = 3;
        self.status
    }

    fn dcmi_get_device_num_in_card(&self, _card_id: i32, device_num: &mut i32) -> i32 {
        *device_num = 8;
        self.status
    }

    fn dcmi_get_device_type(&self, _card_id: i32, _device_id: i32, device_type: &mut u32) -> i32 {
        self.type_queries.set(self.type_queries.get() + 1);
        *device_type = 1;
        self.status
    }

    fn dcmi_get_device_temperature(
        &self,
        _card_id: i32,
        _device_id: i32,
        temperature: &mut i32,
    ) -> i32 {
        *temperature = self.temperature;
        self.status
    }

    fn dcmi_get_device_voltage(&self, _card_id: i32, _device_id: i32, voltage: &mut u32) -> i32 {
        *voltage = self.voltage;
        self.status
    }

    fn dcmi_get_device_health(&self, _card_id: i32, _device_id: i32, health: &mut u32) -> i32 {
        *health = self.health;
        self.status
    }

    fn dcmi_get_device_errorcode_v2(
        &self,
        _card_id: i32,
        _device_id: i32,
        error_count: &mut i32,
        error_code_list: &mut [u32; 128],
    ) -> i32 {
        error_code_list[0] = 0x80e0_1801;
        error_code_list[1] = 0x80e1_8402;
        *error_count = 2;
        self.status
    }

    fn dcmi_get_device_errorcode_string(
        &self,
        _card_id: i32,
        _device_id: i32,
        error_code: u32,
        error_info: &mut [u8; 256],
        buf_size: i32,
    ) -> i32 {
        let text = if buf_size == 48 {
            "short".to_string()
        } else {
            format!("code {:x}", error_code)
        };
        error_info[..text.len()].copy_from_slice(text.as_bytes());
        self.status
    }

    fn dcmi_get_card_list(&self, _card_num: &mut i32, _card_list: &mut [i32; 64]) -> i32 {
        DCMI_ERR_CODE_NOT_SUPPORT
    }

    fn dcmi_get_device_chip_info(
        &self,
        _card_id: i32,
        _device_id: i32,
        _chip_info: &mut RawChipInfo,
    ) -> i32 {
        DCMI_ERR_CODE_NOT_SUPPORT
    }

    fn dcmi_get_device_pcie_info(
        &self,
        _card_id: i32,
        _device_id: i32,
        _pcie_info: &mut RawPcieInfo,
    ) -> i32 {
        DCMI_ERR_CODE_NOT_SUPPORT
    }

    fn dcmi_get_device_pcie_info_v2(
        &self,
        _card_id: i32,
        _device_id: i32,
        _pcie_info: &mut RawPcieInfoAll,
    ) -> i32 {
        DCMI_ERR_CODE_NOT_SUPPORT
    }

    fn dcmi_get_device_board_info(
        &self,
        _card_id: i32,
        _device_id: i32,
        _board_info: &mut RawBoardInfo,
    ) -> i32 {
        DCMI_ERR_CODE_NOT_SUPPORT
    }

    fn dcmi_get_device_elabel_info(
        &self,
        _card_id: i32,
        _device_id: i32,
        _elabel_info: &mut RawElabelInfo,
    ) -> i32 {
        DCMI_ERR_CODE_NOT_SUPPORT
    }

    fn dcmi_get_device_power_info(&self, _card_id: i32, _device_id: i32, _power: &mut i32) -> i32 {
        DCMI_ERR_CODE_NOT_SUPPORT
    }

    fn dcmi_get_device_die_v2(
        &self,
        _card_id: i32,
        _device_id: i32,
        _input_type: u32,
        _die_id: &mut RawDieId,
    ) -> i32 {
        DCMI_ERR_CODE_NOT_SUPPORT
    }

    fn dcmi_get_device_flash_count(
        &self,
        _card_id: i32,
        _device_id: i32,
        _flash_count: &mut u32,
    ) -> i32 {
        DCMI_ERR_CODE_NOT_SUPPORT
    }

    fn dcmi_get_device_flash_info_v2(
        &self,
        _card_id: i32,
        _device_id: i32,
        _flash_index: u32,
        _flash_info: &mut RawFlashInfo,
    ) -> i32 {
        DCMI_ERR_CODE_NOT_SUPPORT
    }

    fn dcmi_get_device_aicore_info(
        &self,
        _card_id: i32,
        _device_id: i32,
        _aicore_info: &mut RawAicoreInfo,
    ) -> i32 {
        DCMI_ERR_CODE_NOT_SUPPORT
    }

    fn dcmi_get_device_aicpu_info(
        &self,
        _card_id: i32,
        _device_id: i32,
        _aicpu_info: &mut RawAicpuInfo,
    ) -> i32 {
        DCMI_ERR_CODE_NOT_SUPPORT
    }

    fn dcmi_get_device_system_time(&self, _card_id: i32, _device_id: i32, _time: &mut u32) -> i32 {
        DCMI_ERR_CODE_NOT_SUPPORT
    }

    fn dcmi_get_device_pcie_error_cnt(
        &self,
        _card_id: i32,
        _device_id: i32,
        _pcie_err_rate: &mut RawChipPcieErrRate,
    ) -> i32 {
        DCMI_ERR_CODE_NOT_SUPPORT
    }

    fn dcmi_get_device_ecc_info(
        &self,
        _card_id: i32,
        _device_id: i32,
        _input_type: u32,
        _ecc_info: &mut RawEccInfo,
    ) -> i32 {
        DCMI_ERR_CODE_NOT_SUPPORT
    }

    fn dcmi_get_device_frequency(
        &self,
        _card_id: i32,
        _device_id: i32,
        _input_type: u32,
        _frequency: &mut u32,
    ) -> i32 {
        DCMI_ERR_CODE_NOT_SUPPORT
    }

    fn dcmi_get_device_hbm_info(
        &self,
        _card_id: i32,
        _device_id: i32,
        _hbm_info: &mut RawHbmInfo,
    ) -> i32 {
        DCMI_ERR_CODE_NOT_SUPPORT
    }

    fn dcmi_get_device_memory_info_v3(
        &self,
        _card_id: i32,
        _device_id: i32,
        _memory_info: &mut RawMemoryInfo,
    ) -> i32 {
        DCMI_ERR_CODE_NOT_SUPPORT
    }

    fn dcmi_get_device_utilization_rate(
        &self,
        _card_id: i32,
        _device_id: i32,
        _input_type: i32,
        _utilization_rate: &mut u32,
    ) -> i32 {
        DCMI_ERR_CODE_NOT_SUPPORT
    }

    fn dcmi_create_vdevice(
        &self,
        _card_id: i32,
        _device_id: i32,
        _vdev: &RawCreateVdevRes,
        _out: &mut RawCreateVdevOut,
    ) -> i32 {
        DCMI_ERR_CODE_NOT_SUPPORT
    }

    fn dcmi_set_destroy_vdevice(&self, _card_id: i32, _device_id: i32, _vdevid: u32) -> i32 {
        DCMI_ERR_CODE_NOT_SUPPORT
    }

    fn dcmi_get_vnpu_config_recover_mode(&self, _mode: &mut u32) -> i32 {
        DCMI_ERR_CODE_NOT_SUPPORT
    }

    fn dcmi_set_vnpu_config_recover_mode(&self, _mode: u32) -> i32 {
        DCMI_ERR_CODE_NOT_SUPPORT
    }
}

fn session(r: Readings) -> DCMI<Readings> {
    DCMI::init(r).unwrap()
}

fn chip() -> Chip {
    Chip::new_unchecked(&Card::new_unchecked(0), 0)
}

#[test]
fn temperature_sentinels() {
    assert_eq!(
        chip().get_temperature(&session(readings(0x7ffd, 0, 0))),
        Err(DCMIError::GetDataError(GetDataError::InvalidData))
    );
    assert_eq!(
        chip().get_temperature(&session(readings(0x7fff, 0, 0))),
        Err(DCMIError::GetDataError(GetDataError::ReadError))
    );
    assert_eq!(chip().get_temperature(&session(readings(25, 0, 0))), Ok(25));
}

#[test]
fn voltage_sentinels() {
    assert_eq!(
        chip().get_voltage(&session(readings(0, 0x7ffd, 0))),
        Err(DCMIError::GetDataError(GetDataError::InvalidData))
    );
    assert_eq!(
        chip().get_voltage(&session(readings(0, 0x7fff, 0))),
        Err(DCMIError::GetDataError(GetDataError::ReadError))
    );
    assert_eq!(chip().get_voltage(&session(readings(0, 88, 0))), Ok(88));
}

#[test]
fn health_of_missing_chip() {
    assert_eq!(
        chip().get_health(&session(readings(0, 0, 0xFFFF_FFFF))),
        Err(DCMIError::DeviceNotExist)
    );
    assert_eq!(
        chip().get_health(&session(readings(0, 0, 2))),
        Ok(HealthState::ImportantAlarm)
    );
}

#[test]
fn failing_status_wins_over_outputs() {
    let mut r = readings(25, 0, 2);
    r.status = DCMI_ERR_CODE_TIME_OUT;
    let dcmi = session(r);
    assert_eq!(chip().get_temperature(&dcmi), Err(DCMIError::CodeTimeOut));
    assert_eq!(chip().get_health(&dcmi), Err(DCMIError::CodeTimeOut));
    assert_eq!(dcmi.get_dcmi_version(), Err(DCMIError::CodeTimeOut));
    assert!(Card::new_unchecked(0).get_chips(&dcmi).is_err());
}

#[test]
fn chips_through_interface() {
    let dcmi = session(readings(0, 0, 0));
    let card = Card::new_unchecked(1);
    let (npus, mcu, cpu) = card.get_chips(&dcmi).unwrap();
    assert_eq!(npus.iter().map(|c| c.id()).collect::<Vec<_>>(), vec![0, 1]);
    assert!(mcu.is_none());
    let cpu = cpu.unwrap();
    assert_eq!(cpu.id(), 3);
    assert_eq!(cpu.get_type(&dcmi), Ok(UnitType::CPU));
    assert_eq!(npus[0].get_type(&dcmi), Ok(UnitType::NPU));
    assert_eq!(dcmi.lib().type_queries.get(), 0);
    assert_eq!(card.get_chip_num(&dcmi), Ok(8));
}

#[test]
fn type_of_unchecked_chip_is_queried() {
    let dcmi = session(readings(0, 0, 0));
    assert_eq!(chip().get_type(&dcmi), Ok(UnitType::MCU));
    assert_eq!(dcmi.lib().type_queries.get(), 1);
}

#[test]
fn versions() {
    let dcmi = session(readings(0, 0, 0));
    assert_eq!(dcmi.get_dcmi_version(), Ok("24.1.0".to_string()));
    assert_eq!(dcmi.get_driver_version(), Ok("7.1.0".to_string()));
    assert_eq!(dcmi.get_version(0, 0), Ok("7.1.0".to_string()));
}

#[test]
fn error_codes_and_descriptions() {
    let dcmi = session(readings(0, 0, 0));
    assert_eq!(chip().get_error_code(&dcmi), Ok(vec![0x80e0_1801, 0x80e1_8402]));
    assert_eq!(chip().get_error_code_string(&dcmi, 0x80e0_1801, true), Ok("short".to_string()));
    assert_eq!(
        chip().get_error_code_string(&dcmi, 0x80e0_1801, false),
        Ok("code 80e01801".to_string())
    );
}

/// A backend that supports no call but initialization, which answers `init_status`.
struct Bare {
    init_status: i32,
}

impl DcmiLib for Bare {
    fn dcmi_init(&self) -> i32 {
        self.init_status
    }

    fn dcmi_get_dcmi_version(&self, _dcmi_ver: &mut [u8; 16]) -> i32 {
        DCMI_ERR_CODE_NOT_SUPPORT
    }

    fn dcmi_get_driver_version(&self, _driver_ver: &mut [u8; 64]) -> i32 {
        DCMI_ERR_CODE_NOT_SUPPORT
    }

    fn dcmi_get_version(
        &self,
        _card_id: i32,
        _device_id: i32,
        _version: &mut [u8; 64],
        _ver_len: &mut i32,
    ) -> i32 {
        DCMI_ERR_CODE_NOT_SUPPORT
    }

    fn dcmi_get_card_list(&self, _card_num: &mut i32, _card_list: &mut [i32; 64]) -> i32 {
        DCMI_ERR_CODE_NOT_SUPPORT
    }

    fn dcmi_get_device_num_in_card(&self, _card_id: i32, _device_num: &mut i32) -> i32 {
        DCMI_ERR_CODE_NOT_SUPPORT
    }

    fn dcmi_get_device_id_in_card(
        &self,
        _card_id: i32,
        _device_id_max: &mut i32,
        _mcu_id: &mut i32,
        _cpu_id: &mut i32,
    ) -> i32 {
        DCMI_ERR_CODE_NOT_SUPPORT
    }

    fn dcmi_get_device_type(&self, _card_id: i32, _device_id: i32, _device_type: &mut u32) -> i32 {
        DCMI_ERR_CODE_NOT_SUPPORT
    }

    fn dcmi_get_device_chip_info(
        &self,
        _card_id: i32,
        _device_id: i32,
        _chip_info: &mut RawChipInfo,
    ) -> i32 {
        DCMI_ERR_CODE_NOT_SUPPORT
    }

    fn dcmi_get_device_pcie_info(
        &self,
        _card_id: i32,
        _device_id: i32,
        _pcie_info: &mut RawPcieInfo,
    ) -> i32 {
        DCMI_ERR_CODE_NOT_SUPPORT
    }

    fn dcmi_get_device_pcie_info_v2(
        &self,
        _card_id: i32,
        _device_id: i32,
        _pcie_info: &mut RawPcieInfoAll,
    ) -> i32 {
        DCMI_ERR_CODE_NOT_SUPPORT
    }

    fn dcmi_get_device_board_info(
        &self,
        _card_id: i32,
        _device_id: i32,
        _board_info: &mut RawBoardInfo,
    ) -> i32 {
        DCMI_ERR_CODE_NOT_SUPPORT
    }

    fn dcmi_get_device_elabel_info(
        &self,
        _card_id: i32,
        _device_id: i32,
        _elabel_info: &mut RawElabelInfo,
    ) -> i32 {
        DCMI_ERR_CODE_NOT_SUPPORT
    }

    fn dcmi_get_device_power_info(&self, _card_id: i32, _device_id: i32, _power: &mut i32) -> i32 {
        DCMI_ERR_CODE_NOT_SUPPORT
    }

    fn dcmi_get_device_die_v2(
        &self,
        _card_id: i32,
        _device_id: i32,
        _input_type: u32,
        _die_id: &mut RawDieId,
    ) -> i32 {
        DCMI_ERR_CODE_NOT_SUPPORT
    }

    fn dcmi_get_device_health(&self, _card_id: i32, _device_id: i32, _health: &mut u32) -> i32 {
        DCMI_ERR_CODE_NOT_SUPPORT
    }

    fn dcmi_get_device_errorcode_v2(
        &self,
        _card_id: i32,
        _device_id: i32,
        _error_count: &mut i32,
        _error_code_list: &mut [u32; 128],
    ) -> i32 {
        DCMI_ERR_CODE_NOT_SUPPORT
    }

    fn dcmi_get_device_errorcode_string(
        &self,
        _card_id: i32,
        _device_id: i32,
        _error_code: u32,
        _error_info: &mut [u8; 256],
        _buf_size: i32,
    ) -> i32 {
        DCMI_ERR_CODE_NOT_SUPPORT
    }

    fn dcmi_get_device_flash_count(
        &self,
        _card_id: i32,
        _device_id: i32,
        _flash_count: &mut u32,
    ) -> i32 {
        DCMI_ERR_CODE_NOT_SUPPORT
    }

    fn dcmi_get_device_flash_info_v2(
        &self,
        _card_id: i32,
        _device_id: i32,
        _flash_index: u32,
        _flash_info: &mut RawFlashInfo,
    ) -> i32 {
        DCMI_ERR_CODE_NOT_SUPPORT
    }

    fn dcmi_get_device_aicore_info(
        &self,
        _card_id: i32,
        _device_id: i32,
        _aicore_info: &mut RawAicoreInfo,
    ) -> i32 {
        DCMI_ERR_CODE_NOT_SUPPORT
    }

    fn dcmi_get_device_aicpu_info(
        &self,
        _card_id: i32,
        _device_id: i32,
        _aicpu_info: &mut RawAicpuInfo,
    ) -> i32 {
        DCMI_ERR_CODE_NOT_SUPPORT
    }

    fn dcmi_get_device_system_time(&self, _card_id: i32, _device_id: i32, _time: &mut u32) -> i32 {
        DCMI_ERR_CODE_NOT_SUPPORT
    }

    fn dcmi_get_device_temperature(
        &self,
        _card_id: i32,
        _device_id: i32,
        _temperature: &mut i32,
    ) -> i32 {
        DCMI_ERR_CODE_NOT_SUPPORT
    }

    fn dcmi_get_device_voltage(&self, _card_id: i32, _device_id: i32, _voltage: &mut u32) -> i32 {
        DCMI_ERR_CODE_NOT_SUPPORT
    }

    fn dcmi_get_device_pcie_error_cnt(
        &self,
        _card_id: i32,
        _device_id: i32,
        _pcie_err_rate: &mut RawChipPcieErrRate,
    ) -> i32 {
        DCMI_ERR_CODE_NOT_SUPPORT
    }

    fn dcmi_get_device_ecc_info(
        &self,
        _card_id: i32,
        _device_id: i32,
        _input_type: u32,
        _ecc_info: &mut RawEccInfo,
    ) -> i32 {
        DCMI_ERR_CODE_NOT_SUPPORT
    }

    fn dcmi_get_device_frequency(
        &self,
        _card_id: i32,
        _device_id: i32,
        _input_type: u32,
        _frequency: &mut u32,
    ) -> i32 {
        DCMI_ERR_CODE_NOT_SUPPORT
    }

    fn dcmi_get_device_hbm_info(
        &self,
        _card_id: i32,
        _device_id: i32,
        _hbm_info: &mut RawHbmInfo,
    ) -> i32 {
        DCMI_ERR_CODE_NOT_SUPPORT
    }

    fn dcmi_get_device_memory_info_v3(
        &self,
        _card_id: i32,
        _device_id: i32,
        _memory_info: &mut RawMemoryInfo,
    ) -> i32 {
        DCMI_ERR_CODE_NOT_SUPPORT
    }

    fn dcmi_get_device_utilization_rate(
        &self,
        _card_id: i32,
        _device_id: i32,
        _input_type: i32,
        _utilization_rate: &mut u32,
    ) -> i32 {
        DCMI_ERR_CODE_NOT_SUPPORT
    }

    fn dcmi_create_vdevice(
        &self,
        _card_id: i32,
        _device_id: i32,
        _vdev: &RawCreateVdevRes,
        _out: &mut RawCreateVdevOut,
    ) -> i32 {
        DCMI_ERR_CODE_NOT_SUPPORT
    }

    fn dcmi_set_destroy_vdevice(&self, _card_id: i32, _device_id: i32, _vdevid: u32) -> i32 {
        DCMI_ERR_CODE_NOT_SUPPORT
    }

    fn dcmi_get_vnpu_config_recover_mode(&self, _mode: &mut u32) -> i32 {
        DCMI_ERR_CODE_NOT_SUPPORT
    }

    fn dcmi_set_vnpu_config_recover_mode(&self, _mode: u32) -> i32 {
        DCMI_ERR_CODE_NOT_SUPPORT
    }
}

#[test]
fn unsupported_functions_report_it() {
    let dcmi = DCMI::init(Bare { init_status: 0 }).unwrap();
    assert_eq!(chip().get_health(&dcmi), Err(DCMIError::NotSupport));
    assert_eq!(dcmi.get_card_list().map(|v| v.len()), Err(DCMIError::NotSupport));
}

#[test]
fn init_reports_status() {
    assert_eq!(
        DCMI::init(Bare { init_status: DCMI_ERR_CODE_NOT_SUPPORT }).map(|_| ()),
        Err(DCMIError::NotSupport)
    );
}
