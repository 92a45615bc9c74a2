//! Customer configuration area: the fixed block of configuration words the
//! chip reads from the top of flash at power-up (boot-loader enablement,
//! debug-port locks, image validity, flash-protection masks).  Assembled
//! once at build time and never touched at run time.

use vstd::prelude::*;

verus! {

/// The customer-configuration block, one word per configuration register,
/// in the order the chip expects them in flash.
#[derive(Clone, Copy, Debug, PartialEq, Eq, Structural)]
pub struct Ccfg {
    pub ext_lf_clk: u32,
    pub mode_conf_1: u32,
    pub size_and_dis_flags: u32,
    pub mode_conf: u32,
    pub volt_load_0: u32,
    pub volt_load_1: u32,
    pub rtc_offset: u32,
    pub freq_offset: u32,
    pub ieee_mac_0: u32,
    pub ieee_mac_1: u32,
    pub ieee_ble_0: u32,
    pub ieee_ble_1: u32,
    pub bl_config: u32,
    pub erase_conf: u32,
    pub ccfg_ti_options: u32,
    pub ccfg_tap_dap_0: u32,
    pub ccfg_tap_dap_1: u32,
    pub image_valid_conf: u32,
    pub ccfg_prot_31_0: u32,
    pub ccfg_prot_63_32: u32,
    pub ccfg_prot_95_64: u32,
    pub ccfg_prot_127_96: u32,
}

impl Ccfg {
    /// The board's configuration: the chip's default settings, with the
    /// boot loader enabled and the image marked valid.
    pub fn board_conf() -> (c: Ccfg)
        ensures
            c == (Ccfg {
                ext_lf_clk: 0x01800000u32,
                mode_conf_1: 0xFF820010u32,
                size_and_dis_flags: 0x0058FFFDu32,
                mode_conf: 0xF3FFFF3Au32,
                volt_load_0: 0xFFFFFFFFu32,
                volt_load_1: 0xFFFFFFFFu32,
                rtc_offset: 0xFFFFFFFFu32,
                freq_offset: 0xFFFFFFFFu32,
                ieee_mac_0: 0xFFFFFFFFu32,
                ieee_mac_1: 0xFFFFFFFFu32,
                ieee_ble_0: 0xFFFFFFFFu32,
                ieee_ble_1: 0xFFFFFFFFu32,
                bl_config: 0xC5FE0EC5u32,
                erase_conf: 0xFFFFFFFFu32,
                ccfg_ti_options: 0xFFFFFF00u32,
                ccfg_tap_dap_0: 0xFFC5C5C5u32,
                ccfg_tap_dap_1: 0xFFC5C5C5u32,
                image_valid_conf: 0x00000000u32,
                ccfg_prot_31_0: 0xFFFFFFFFu32,
                ccfg_prot_63_32: 0xFFFFFFFFu32,
                ccfg_prot_95_64: 0xFFFFFFFFu32,
                ccfg_prot_127_96: 0xFFFFFFFFu32,
            }),
    {
        Ccfg {
            ext_lf_clk: 0x01800000,
            mode_conf_1: 0xFF820010,
            size_and_dis_flags: 0x0058FFFD,
            mode_conf: 0xF3FFFF3A,
            volt_load_0: 0xFFFFFFFF,
            volt_load_1: 0xFFFFFFFF,
            rtc_offset: 0xFFFFFFFF,
            freq_offset: 0xFFFFFFFF,
            ieee_mac_0: 0xFFFFFFFF,
            ieee_mac_1: 0xFFFFFFFF,
            ieee_ble_0: 0xFFFFFFFF,
            ieee_ble_1: 0xFFFFFFFF,
            bl_config: 0xC5FE0EC5,
            erase_conf: 0xFFFFFFFF,
            ccfg_ti_options: 0xFFFFFF00,
            ccfg_tap_dap_0: 0xFFC5C5C5,
            ccfg_tap_dap_1: 0xFFC5C5C5,
            image_valid_conf: 0x00000000,
            ccfg_prot_31_0: 0xFFFFFFFF,
            ccfg_prot_63_32: 0xFFFFFFFF,
            ccfg_prot_95_64: 0xFFFFFFFF,
            ccfg_prot_127_96: 0xFFFFFFFF,
        }
    }
}

} // verus!
