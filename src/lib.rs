//! Safe, typed queries over the vendor accelerator-management interface (DCMI).
//!
//! The raw interface is reached through the [`raw::DcmiLib`] trait; everything
//! that turns its status codes and fixed-layout records into values is verified.
use vstd::prelude::*;

pub mod decode;
pub mod device;
pub mod enums;
pub mod error;
pub mod raw;
pub mod structs;

use crate::decode::{c_string, decode_c_string, decode_utf8_bytes, text_view};
use crate::device::Card;
use crate::error::{
    after_status, dcmi_try, status_result, status_then, to_wire_id, wire_id, DCMIError,
    DCMIResult, GetDataError,
};
use crate::raw::{DcmiLib, DCMI_VERSION_LEN, DRIVER_VERSION_LEN, MAX_CARD_NUM};
use vstd::utf8::*;

verus! {

/// An initialized session with the DCMI library, reached through `lib`.
pub struct DCMI<L: DcmiLib> {
    lib: L,
}

impl<L: DcmiLib> DCMI<L> {
    /// The backend of this session.
    pub closed spec fn spec_lib(&self) -> L {
        self.lib
    }

    /// Initialize the DCMI
    ///
    /// As documented in the reference manual, the DCMI must be initialized before use.
    pub fn init(lib: L) -> (r: DCMIResult<Self>)
        ensures
            exists|st: i32|
                #[trigger] lib.init_answer(st) && status_result(st) == (match r {
                    Ok(_) => Ok(()),
                    Err(e) => Err(e),
                }),
            r matches Ok(d) ==> d.spec_lib() == lib,
    {
        let st = lib.dcmi_init();
        let r = match dcmi_try(st) {
            Ok(()) => Ok(DCMI { lib }),
            Err(e) => Err(e),
        };
        assert(lib.init_answer(st));
        r
    }

    /// The backend of this session.
    pub fn lib(&self) -> (r: &L)
        ensures
            *r == self.spec_lib(),
    {
        &self.lib
    }
}

/// `r` lists the management units that the interface answered: the first
/// `card_num` ids of `card_list`, where `card_num` is within the list; a count
/// outside it is a malformed answer.
pub open spec fn card_list_ok(
    card_num: i32,
    card_list: Seq<i32>,
    r: DCMIResult<Vec<Card>>,
) -> bool {
    if 0 <= card_num <= card_list.len() {
        r matches Ok(v) && v@.len() == card_num && forall|i: int|
            0 <= i < card_num ==> #[trigger] v@[i]@ == card_list[i] as u32
    } else {
        r == Err::<Vec<Card>, DCMIError>(DCMIError::GetDataError(GetDataError::InvalidData))
    }
}

/// The management units from the count and id list that the interface answered.
pub fn cards_from_list(card_num: i32, card_list: &[i32]) -> (r: DCMIResult<Vec<Card>>)
    ensures
        card_list_ok(card_num, card_list@, r),
{
    if card_num < 0 || card_num as usize > card_list.len() {
        return Err(DCMIError::GetDataError(GetDataError::InvalidData));
    }
    let n = card_num as usize;
    let mut cards: Vec<Card> = Vec::new();
    let mut i: usize = 0;
    while i < n
        invariant
            n == card_num,
            n <= card_list@.len(),
            i <= n,
            cards@.len() == i,
            forall|j: int| 0 <= j < i ==> #[trigger] cards@[j]@ == card_list@[j] as u32,
        decreases n - i,
    {
        cards.push(Card::new_unchecked(card_list[i] as u32));
        i = i + 1;
    }
    Ok(cards)
}

/// `r` is the text held by a buffer that the interface filled.
pub open spec fn version_ok(buf: Seq<u8>, r: DCMIResult<String>) -> bool {
    text_view(r) == c_string(buf)
}

/// `r` is the text of the first `ver_len` bytes of `buf`, where `ver_len` is
/// within the buffer; a length outside it is a malformed answer.
pub open spec fn sized_version_ok(buf: Seq<u8>, ver_len: i32, r: DCMIResult<String>) -> bool {
    if 0 <= ver_len <= buf.len() {
        text_view(r) == (if valid_utf8(buf.take(ver_len as int)) {
            Ok(decode_utf8(buf.take(ver_len as int)))
        } else {
            Err(DCMIError::Utf8Error)
        })
    } else {
        r == Err::<String, DCMIError>(DCMIError::GetDataError(GetDataError::InvalidData))
    }
}

/// What a recovery mode code amounts to: `1` enabled, `0` disabled, any other
/// code a malformed answer.
pub open spec fn recover_mode_result(mode: u32) -> DCMIResult<bool> {
    if mode == 1 {
        Ok(true)
    } else if mode == 0 {
        Ok(false)
    } else {
        Err(DCMIError::GetDataError(GetDataError::InvalidData))
    }
}

/// The recovery mode code for enabled or disabled recovery.
pub open spec fn recover_mode_code(enable: bool) -> u32 {
    if enable {
        1
    } else {
        0
    }
}

impl<L: DcmiLib> DCMI<L> {
    /// Get the DCMI version
    pub fn get_dcmi_version(&self) -> (r: DCMIResult<String>)
        ensures
            exists|st: i32, buf: [u8; DCMI_VERSION_LEN]|
                #[trigger] self.spec_lib().get_dcmi_version_answer(
                    st,
                    buf,
                ) && status_then(st, r, version_ok(buf@, r)),
    {
        let mut buf = [0u8; 16];
        let st = self.lib.dcmi_get_dcmi_version(&mut buf);
        let r = match dcmi_try(st) {
            Ok(()) => decode_c_string(buf.as_slice()),
            Err(e) => Err(e),
        };
        assert(self.spec_lib().get_dcmi_version_answer(
            st,
            buf,
        ) && status_then(st, r, version_ok(buf@, r)));
        r
    }

    /// Get the driver version
    pub fn get_driver_version(&self) -> (r: DCMIResult<String>)
        ensures
            exists|st: i32, buf: [u8; DRIVER_VERSION_LEN]|
                #[trigger] self.spec_lib().get_driver_version_answer(
                    st,
                    buf,
                ) && status_then(st, r, version_ok(buf@, r)),
    {
        let mut buf = [0u8; 64];
        let st = self.lib.dcmi_get_driver_version(&mut buf);
        let r = match dcmi_try(st) {
            Ok(()) => decode_c_string(buf.as_slice()),
            Err(e) => Err(e),
        };
        assert(self.spec_lib().get_driver_version_answer(
            st,
            buf,
        ) && status_then(st, r, version_ok(buf@, r)));
        r
    }

    /// Query target device driver version
    ///
    /// # Parameters
    /// - card_id: Specify the NPU management unit ID, and obtain the currently supported IDs through the `get_card_list`
    /// - chip_id: Specify the device ID, and obtain the supported IDs through the `get_chips`
    ///
    /// # Returns
    /// driver version, the first bytes of the answer as long as the length it gives
    ///
    /// # Deprecated
    /// The vendor documents this call as going away; use `get_driver_version` instead.
    pub fn get_version(&self, card_id: u32, chip_id: u32) -> (r: DCMIResult<String>)
        ensures
            exists|st: i32, buf: [u8; DRIVER_VERSION_LEN], ver_len: i32|
                #[trigger] self.spec_lib().get_version_answer(
                    wire_id(card_id),
                    wire_id(chip_id),
                    st,
                    buf,
                    ver_len,
                ) && status_then(st, r, sized_version_ok(buf@, ver_len, r)),
    {
        let mut buf = [0u8; 64];
        let mut ver_len: i32 = 0;
        let st = self.lib.dcmi_get_version(
            to_wire_id(card_id),
            to_wire_id(chip_id),
            &mut buf,
            &mut ver_len,
        );
        let r = match dcmi_try(st) {
            Ok(()) => {
                if ver_len < 0 || ver_len as usize > DRIVER_VERSION_LEN {
                    Err(DCMIError::GetDataError(GetDataError::InvalidData))
                } else {
                    let bytes = vstd::slice::slice_subrange(buf.as_slice(), 0, ver_len as usize);
                    assert(bytes@ == buf@.take(ver_len as int));
                    decode_utf8_bytes(bytes)
                }
            },
            Err(e) => Err(e),
        };
        assert(self.spec_lib().get_version_answer(
            wire_id(card_id),
            wire_id(chip_id),
            st,
            buf,
            ver_len,
        ) && status_then(st, r, sized_version_ok(buf@, ver_len, r)));
        r
    }

    /// Query the NPU management units, in the order the interface lists them
    ///
    /// # Returns
    /// NPU management unit list
    pub fn get_card_list(&self) -> (r: DCMIResult<Vec<Card>>)
        ensures
            exists|st: i32, card_num: i32, card_list: [i32; MAX_CARD_NUM]|
                #[trigger] self.spec_lib().get_card_list_answer(st, card_num, card_list)
                    && status_then(st, r, card_list_ok(card_num, card_list@, r)),
    {
        let mut card_num: i32 = 0;
        let mut card_list = [-1i32; 64];
        let st = self.lib.dcmi_get_card_list(&mut card_num, &mut card_list);
        let r = match dcmi_try(st) {
            Ok(()) => cards_from_list(card_num, card_list.as_slice()),
            Err(e) => Err(e),
        };
        assert(self.spec_lib().get_card_list_answer(st, card_num, card_list) && status_then(
            st,
            r,
            card_list_ok(card_num, card_list@, r),
        ));
        r
    }

    /// Query whether the virtual chip configuration is recovered on restart
    pub fn get_vchip_recover_mode(&self) -> (r: DCMIResult<bool>)
        ensures
            exists|st: i32, mode: u32|
                #[trigger] self.spec_lib().get_vnpu_config_recover_mode_answer(st, mode) && r
                    == after_status(st, recover_mode_result(mode)),
    {
        let mut mode: u32 = 0;
        let st = self.lib.dcmi_get_vnpu_config_recover_mode(&mut mode);
        let r = match dcmi_try(st) {
            Ok(()) => {
                if mode == 1 {
                    Ok(true)
                } else if mode == 0 {
                    Ok(false)
                } else {
                    Err(DCMIError::GetDataError(GetDataError::InvalidData))
                }
            },
            Err(e) => Err(e),
        };
        assert(self.spec_lib().get_vnpu_config_recover_mode_answer(st, mode) && r == after_status(
            st,
            recover_mode_result(mode),
        ));
        r
    }

    /// Set whether the virtual chip configuration is recovered on restart
    pub fn set_vchip_recover_mode(&self, enable: bool) -> (r: DCMIResult<()>)
        ensures
            exists|st: i32|
                #[trigger] self.spec_lib().set_vnpu_config_recover_mode_answer(
                    recover_mode_code(enable),
                    st,
                ) && r == status_result(st),
    {
        let mode: u32 = if enable {
            1
        } else {
            0
        };
        let st = self.lib.dcmi_set_vnpu_config_recover_mode(mode);
        let r = dcmi_try(st);
        assert(self.spec_lib().set_vnpu_config_recover_mode_answer(recover_mode_code(enable), st));
        r
    }
}

} // verus!
