use hw_dcmi::enums::DestroyVChipTarget;
use hw_dcmi::error::{DCMI_ERR_CODE_INVALID_PARAMETER, DCMI_ERR_CODE_NOT_SUPPORT};
use hw_dcmi::raw::{
    DcmiLib, RawAicoreInfo, RawAicpuInfo, RawBoardInfo, RawChipInfo, RawChipPcieErrRate,
    RawCreateVdevOut, RawCreateVdevRes, RawDieId, RawEccInfo, RawElabelInfo, RawFlashInfo,
    RawHbmInfo, RawMemoryInfo, RawPcieInfo, RawPcieInfoAll,
};
use hw_dcmi::structs::VChipRes;
use hw_dcmi::DCMI;
use std::cell::{Cell, RefCell};
use std::ops::Not;

/// A simulated device: two cards, each with two NPU chips and an MCU.
struct SimLib {
    recover_mode: Cell<u32>,
    vchips: RefCell<Vec<u32>>,
    destroyed: RefCell<Vec<u32>>,
}

impl SimLib {
    fn new() -> SimLib {
        SimLib {
            recover_mode: Cell::new(0),
            vchips: RefCell::new(vec![100]),
            destroyed: RefCell::new(Vec::new()),
        }
    }
}

impl DcmiLib for SimLib {
    fn dcmi_init(&self) -> i32 {
        0
    }

    fn dcmi_get_card_list(&self, card_num: &mut i32, card_list: &mut [i32; 64]) -> i32 {
        *card_num = 2;
        card_list[0] = 0;
        card_list[1] = 1;
        0
    }

    fn dcmi_get_device_id_in_card(
        &self,
        _card_id: i32,
        device_id_max: &mut i32,
        mcu_id: &mut i32,
        cpu_id: &mut i32,
    ) -> i32 {
        *device_id_max = 2;
        *mcu_id = 2;
        *cpu_id = -1;
        0
    }

    fn dcmi_get_device_memory_info_v3(
        &self,
        _card_id: i32,
        device_id: i32,
        memory_info: &mut RawMemoryInfo,
    ) -> i32 {
        memory_info.memory_size = 32768;
        memory_info.memory_available = 16384 + device_id as u64;
        memory_info.freq = 2666;
        memory_info.hugepagesize = 2048;
        memory_info.hugepages_total = 100;
        memory_info.hugepages_free = 50;
        memory_info.utiliza = 40;
        0
    }

    fn dcmi_get_device_hbm_info(
        &self,
        _card_id: i32,
        _device_id: i32,
        hbm_info: &mut RawHbmInfo,
    ) -> i32 {
        hbm_info.memory_size = 65536;
        hbm_info.freq = 1600;
        hbm_info.memory_usage = 1024;
        hbm_info.temp = 45;
        hbm_info.bandwith_util_rate = 3;
        0
    }

    fn dcmi_create_vdevice(
        &self,
        _card_id: i32,
        _device_id: i32,
        vdev: &RawCreateVdevRes,
        out: &mut RawCreateVdevOut,
    ) -> i32 {
        if vdev.template_name[0] == 0 {
            return DCMI_ERR_CODE_INVALID_PARAMETER;
        }
        out.vdev_id = 100;
        out.vfg_id = 0;
        self.vchips.borrow_mut().push(100);
        0
    }

    fn dcmi_set_destroy_vdevice(&self, _card_id: i32, _device_id: i32, vdevid: u32) -> i32 {
        self.destroyed.borrow_mut().push(vdevid);
        let mut vchips = self.vchips.borrow_mut();
        if vdevid == 65535 {
            vchips.clear();
            return 0;
        }
        match vchips.iter().position(|&id| id == vdevid) {
            Some(i) => {
                vchips.remove(i);
                0
            }
            None => DCMI_ERR_CODE_INVALID_PARAMETER,
        }
    }

    fn dcmi_get_vnpu_config_recover_mode(&self, mode: &mut u32) -> i32 {
        *mode = self.recover_mode.get();
        0
    }

    fn dcmi_set_vnpu_config_recover_mode(&self, mode: u32) -> i32 {
        self.recover_mode.set(mode);
        0
    }

    fn dcmi_get_dcmi_version(&self, _dcmi_ver: &mut [u8; 16]) -> i32 {
        DCMI_ERR_CODE_NOT_SUPPORT
    }

    fn dcmi_get_driver_version(&self, _driver_ver: &mut [u8; 64]) -> i32 {
        DCMI_ERR_CODE_NOT_SUPPORT
    }

    fn dcmi_get_version(
        &self,
        _card_id: i32,
        _device_id: i32,
        _version: &mut [u8; 64],
        _ver_len: &mut i32,
    ) -> i32 {
        DCMI_ERR_CODE_NOT_SUPPORT
    }

    fn dcmi_get_device_num_in_card(&self, _card_id: i32, _device_num: &mut i32) -> i32 {
        DCMI_ERR_CODE_NOT_SUPPORT
    }

    fn dcmi_get_device_type(&self, _card_id: i32, _device_id: i32, _device_type: &mut u32) -> i32 {
        DCMI_ERR_CODE_NOT_SUPPORT
    }

    fn dcmi_get_device_chip_info(
        &self,
        _card_id: i32,
        _device_id: i32,
        _chip_info: &mut RawChipInfo,
    ) -> i32 {
        DCMI_ERR_CODE_NOT_SUPPORT
    }

    fn dcmi_get_device_pcie_info(
        &self,
        _card_id: i32,
        _device_id: i32,
        _pcie_info: &mut RawPcieInfo,
    ) -> i32 {
        DCMI_ERR_CODE_NOT_SUPPORT
    }

    fn dcmi_get_device_pcie_info_v2(
        &self,
        _card_id: i32,
        _device_id: i32,
        _pcie_info: &mut RawPcieInfoAll,
    ) -> i32 {
        DCMI_ERR_CODE_NOT_SUPPORT
    }

    fn dcmi_get_device_board_info(
        &self,
        _card_id: i32,
        _device_id: i32,
        _board_info: &mut RawBoardInfo,
    ) -> i32 {
        DCMI_ERR_CODE_NOT_SUPPORT
    }

    fn dcmi_get_device_elabel_info(
        &self,
        _card_id: i32,
        _device_id: i32,
        _elabel_info: &mut RawElabelInfo,
    ) -> i32 {
        DCMI_ERR_CODE_NOT_SUPPORT
    }

    fn dcmi_get_device_power_info(&self, _card_id: i32, _device_id: i32, _power: &mut i32) -> i32 {
        DCMI_ERR_CODE_NOT_SUPPORT
    }

    fn dcmi_get_device_die_v2(
        &self,
        _card_id: i32,
        _device_id: i32,
        _input_type: u32,
        _die_id: &mut RawDieId,
    ) -> i32 {
        DCMI_ERR_CODE_NOT_SUPPORT
    }

    fn dcmi_get_device_health(&self, _card_id: i32, _device_id: i32, _health: &mut u32) -> i32 {
        DCMI_ERR_CODE_NOT_SUPPORT
    }

    fn dcmi_get_device_errorcode_v2(
        &self,
        _card_id: i32,
        _device_id: i32,
        _error_count: &mut i32,
        _error_code_list: &mut [u32; 128],
    ) -> i32 {
        DCMI_ERR_CODE_NOT_SUPPORT
    }

    fn dcmi_get_device_errorcode_string(
        &self,
        _card_id: i32,
        _device_id: i32,
        _error_code: u32,
        _error_info: &mut [u8; 256],
        _buf_size: i32,
    ) -> i32 {
        DCMI_ERR_CODE_NOT_SUPPORT
    }

    fn dcmi_get_device_flash_count(
        &self,
        _card_id: i32,
        _device_id: i32,
        _flash_count: &mut u32,
    ) -> i32 {
        DCMI_ERR_CODE_NOT_SUPPORT
    }

    fn dcmi_get_device_flash_info_v2(
        &self,
        _card_id: i32,
        _device_id: i32,
        _flash_index: u32,
        _flash_info: &mut RawFlashInfo,
    ) -> i32 {
        DCMI_ERR_CODE_NOT_SUPPORT
    }

    fn dcmi_get_device_aicore_info(
        &self,
        _card_id: i32,
        _device_id: i32,
        _aicore_info: &mut RawAicoreInfo,
    ) -> i32 {
        DCMI_ERR_CODE_NOT_SUPPORT
    }

    fn dcmi_get_device_aicpu_info(
        &self,
        _card_id: i32,
        _device_id: i32,
        _aicpu_info: &mut RawAicpuInfo,
    ) -> i32 {
        DCMI_ERR_CODE_NOT_SUPPORT
    }

    fn dcmi_get_device_system_time(&self, _card_id: i32, _device_id: i32, _time: &mut u32) -> i32 {
        DCMI_ERR_CODE_NOT_SUPPORT
    }

    fn dcmi_get_device_temperature(
        &self,
        _card_id: i32,
        _device_id: i32,
        _temperature: &mut i32,
    ) -> i32 {
        DCMI_ERR_CODE_NOT_SUPPORT
    }

    fn dcmi_get_device_voltage(&self, _card_id: i32, _device_id: i32, _voltage: &mut u32) -> i32 {
        DCMI_ERR_CODE_NOT_SUPPORT
    }

    fn dcmi_get_device_pcie_error_cnt(
        &self,
        _card_id: i32,
        _device_id: i32,
        _pcie_err_rate: &mut RawChipPcieErrRate,
    ) -> i32 {
        DCMI_ERR_CODE_NOT_SUPPORT
    }

    fn dcmi_get_device_ecc_info(
        &self,
        _card_id: i32,
        _device_id: i32,
        _input_type: u32,
        _ecc_info: &mut RawEccInfo,
    ) -> i32 {
        DCMI_ERR_CODE_NOT_SUPPORT
    }

    fn dcmi_get_device_frequency(
        &self,
        _card_id: i32,
        _device_id: i32,
        _input_type: u32,
        _frequency: &mut u32,
    ) -> i32 {
        DCMI_ERR_CODE_NOT_SUPPORT
    }

    fn dcmi_get_device_utilization_rate(
        &self,
        _card_id: i32,
        _device_id: i32,
        _input_type: i32,
        _utilization_rate: &mut u32,
    ) -> i32 {
        DCMI_ERR_CODE_NOT_SUPPORT
    }
}

fn dcmi_instance() -> DCMI<SimLib> {
    DCMI::init(SimLib::new()).unwrap()
}

#[test]
fn test_get_card_list() {
    let dcmi = &dcmi_instance();
    let card_list = dcmi.get_card_list().unwrap();
    println!("card num: {}, card list: {:?}", card_list.len(), card_list);
    assert_eq!(card_list.len(), 2);
    assert_eq!(card_list[1].id(), 1);
}

#[test]
fn test_get_memory_info() {
    let dcmi = &dcmi_instance();
    let card_list = dcmi.get_card_list().unwrap();
    for card in card_list {
        let (chips, mcu_chip, cpu_chip) = card.get_chips(dcmi).unwrap();
        println!(
            "chips: {:?}, mcu_chip: {:?}, cpu_chip: {:?}",
            chips, mcu_chip, cpu_chip
        );
        for chip in chips {
            let memory_info = chip.get_memory_info(dcmi).unwrap();
            println!("chip memory info: {:?}", memory_info);
            assert_eq!(memory_info.memory_available, 16384 + chip.id() as u64);
        }
    }
}

#[test]
fn test_get_hbm_info() {
    let dcmi = &dcmi_instance();
    let card_list = dcmi.get_card_list().unwrap();
    for card in card_list {
        let (chips, mcu_chip, cpu_chip) = card.get_chips(dcmi).unwrap();
        println!(
            "chips: {:?}, mcu_chip: {:?}, cpu_chip: {:?}",
            chips, mcu_chip, cpu_chip
        );
        for chip in chips {
            let hbm_info = chip.get_hbm_info(dcmi).unwrap();
            println!("chip hbm info: {:?}", hbm_info);
            assert_eq!(hbm_info.temperature, 45);
        }
    }
}

fn create_vchip(dcmi: &DCMI<SimLib>) {
    let card_list = dcmi.get_card_list().unwrap();
    let card = card_list.first().unwrap();
    let (chips, _mcu_chip, _cpu_chip) = card.get_chips(dcmi).unwrap();
    let chip = chips.first().unwrap();
    let vchip_res = VChipRes::new("vir03_1c_8g".to_string());
    let vchip_out = chip.create_virtual_chip(dcmi, &vchip_res).unwrap();
    println!("vchip_out: {:?}", vchip_out);
}

#[test]
fn test_create_vchip() {
    let dcmi = &dcmi_instance();
    create_vchip(dcmi);
    assert_eq!(dcmi.lib().vchips.borrow().len(), 2);
}

#[test]
fn test_destroy_vchip() {
    let dcmi = &dcmi_instance();
    let card_list = dcmi.get_card_list().unwrap();
    let card = card_list.first().unwrap();
    let (chips, _mcu_chip, _cpu_chip) = card.get_chips(dcmi).unwrap();
    let chip = chips.first().unwrap();
    create_vchip(dcmi);
    let destroy_target = DestroyVChipTarget::single_device(100).unwrap();
    chip.destroy_virtual_chip(dcmi, destroy_target.id()).unwrap();
    assert_eq!(*dcmi.lib().destroyed.borrow(), vec![100]);
}

#[test]
fn test_chip_mod() {
    let dcmi = &dcmi_instance();
    let anti_mode = dcmi.get_vchip_recover_mode().unwrap().not();
    dcmi.set_vchip_recover_mode(anti_mode).unwrap();
    let new_mode = dcmi.get_vchip_recover_mode().unwrap();
    assert_eq!(anti_mode, new_mode);
}

#[test]
fn destroy_all_forwards_reserved_id() {
    let dcmi = &dcmi_instance();
    let card = hw_dcmi::device::Card::new_unchecked(0);
    let chip = hw_dcmi::device::Chip::new_unchecked(&card, 0);
    create_vchip(dcmi);
    let target = DestroyVChipTarget::AllDevices;
    assert_eq!(target.id(), 65535);
    chip.destroy_virtual_chip(dcmi, target.id()).unwrap();
    assert_eq!(*dcmi.lib().destroyed.borrow(), vec![65535]);
    assert!(dcmi.lib().vchips.borrow().is_empty());
}

#[test]
fn destroy_missing_vchip_fails() {
    let dcmi = &dcmi_instance();
    let card = hw_dcmi::device::Card::new_unchecked(0);
    let chip = hw_dcmi::device::Chip::new_unchecked(&card, 0);
    let r = chip.destroy_virtual_chip(dcmi, 7);
    assert_eq!(r, Err(hw_dcmi::error::DCMIError::InvalidParameter));
    assert_eq!(*dcmi.lib().destroyed.borrow(), vec![7]);
}

#[test]
fn single_device_refuses_reserved_id() {
    assert_eq!(
        DestroyVChipTarget::single_device(65535),
        Err(hw_dcmi::error::DCMIError::InvalidDeviceId)
    );
    assert_eq!(DestroyVChipTarget::single_device(3).unwrap().id(), 3);
}

#[test]
fn oversized_template_is_refused_without_a_call() {
    let dcmi = &dcmi_instance();
    let card = hw_dcmi::device::Card::new_unchecked(0);
    let chip = hw_dcmi::device::Chip::new_unchecked(&card, 0);
    let name = "x".repeat(33);
    let r = chip.create_virtual_chip(dcmi, &VChipRes::new(name));
    assert_eq!(r, Err(hw_dcmi::error::DCMIError::InvalidParameter));
    assert_eq!(dcmi.lib().vchips.borrow().len(), 1);
}
