//! The keys that the configuration interface knows.

use vstd::prelude::*;

use crate::ubx_packets::cfg_val::{size_code, CfgKey};

verus! {

impl CfgKey {
    pub const UART1_BAUDRATE: u32 = 0x40520001;
    pub const UART1_STOP_BITS: u32 = 0x20520002;
    pub const UART1_DATA_BITS: u32 = 0x20520003;
    pub const UART1_PARITY: u32 = 0x20520004;
    pub const UART1_ENABLED: u32 = 0x10520005;
    pub const UART1_IN_PROT_UBX: u32 = 0x10730001;
    pub const UART1_IN_PROT_NMEA: u32 = 0x10730002;
    pub const UART1_IN_PROT_RTCM3X: u32 = 0x10730004;
    pub const UART1_OUT_PROT_UBX: u32 = 0x10740001;
    pub const UART1_OUT_PROT_NMEA: u32 = 0x10740002;
    pub const UART1_OUT_PROT_RTCM3X: u32 = 0x10740004;
    pub const UART2_BAUDRATE: u32 = 0x40530001;
    pub const UART2_STOP_BITS: u32 = 0x20530002;
    pub const UART2_DATA_BITS: u32 = 0x20530003;
    pub const UART2_PARITY: u32 = 0x20530004;
    pub const UART2_ENABLED: u32 = 0x10530005;
    pub const UART2_REMAP: u32 = 0x10530006;
    pub const UART2_IN_PROT_UBX: u32 = 0x10750001;
    pub const UART2_IN_PROT_NMEA: u32 = 0x10750002;
    pub const UART2_IN_PROT_RTCM3X: u32 = 0x10750004;
    pub const UART2_OUT_PROT_UBX: u32 = 0x10760001;
    pub const UART2_OUT_PROT_NMEA: u32 = 0x10760002;
    pub const UART2_OUT_PROT_RTCM3X: u32 = 0x10760004;
    pub const USB_ENABLED: u32 = 0x10650001;
    pub const USB_SELFPOW: u32 = 0x10650002;
    pub const USB_VENDOR_ID: u32 = 0x3065000a;
    pub const USB_PRODUCT_ID: u32 = 0x3065000b;
    pub const USB_POWER: u32 = 0x3065000c;
    pub const USB_VENDOR_STR0: u32 = 0x5065000d;
    pub const USB_VENDOR_STR1: u32 = 0x5065000e;
    pub const USB_VENDOR_STR2: u32 = 0x5065000f;
    pub const USB_VENDOR_STR3: u32 = 0x50650010;
    pub const USB_PRODUCT_STR0: u32 = 0x50650011;
    pub const USB_PRODUCT_STR1: u32 = 0x50650012;
    pub const USB_PRODUCT_STR2: u32 = 0x50650013;
    pub const USB_PRODUCT_STR3: u32 = 0x50650014;
    pub const USB_SERIAL_NO_STR0: u32 = 0x50650015;
    pub const USB_SERIAL_NO_STR1: u32 = 0x50650016;
    pub const USB_SERIAL_NO_STR2: u32 = 0x50650017;
    pub const USB_SERIAL_NO_STR3: u32 = 0x50650018;
    pub const USB_IN_PROT_UBX: u32 = 0x10770001;
    pub const USB_IN_PROT_NMEA: u32 = 0x10770002;
    pub const USB_IN_PROT_RTCM3X: u32 = 0x10770004;
    pub const USB_OUT_PROT_UBX: u32 = 0x10780001;
    pub const USB_OUT_PROT_NMEA: u32 = 0x10780002;
    pub const USB_OUT_PROT_RTCM3X: u32 = 0x10780004;
    pub const INF_MSG_UBX_I2C: u32 = 0x20920001;
    pub const INF_MSG_UBX_UART1: u32 = 0x20920002;
    pub const INF_MSG_UBX_UART2: u32 = 0x20920003;
    pub const INF_MSG_UBX_USB: u32 = 0x20920004;
    pub const INF_MSG_UBX_SPI: u32 = 0x20920005;
    pub const INF_MSG_NMEA_I2C: u32 = 0x20920006;
    pub const INF_MSG_NMEA_UART1: u32 = 0x20920007;
    pub const INF_MSG_NMEA_UART2: u32 = 0x20920008;
    pub const INF_MSG_NMEA_USB: u32 = 0x20920009;
    pub const INF_MSG_NMEA_SPI: u32 = 0x2092000a;
    pub const RATE_MEAS: u32 = 0x30210001;
    pub const RATE_NAV: u32 = 0x30210002;
    pub const RATE_TIMEREF: u32 = 0x20210003;
    pub const MSG_OUT_NMEA_ID_DTM_I2C: u32 = 0x209100a6;
    pub const MSG_OUT_NMEA_ID_DTM_SPI: u32 = 0x209100aa;
    pub const MSG_OUT_NMEA_ID_DTMUART1: u32 = 0x209100a7;
    pub const MSG_OUT_NMEA_ID_DTMUART2: u32 = 0x209100a8;
    pub const MSG_OUT_NMEA_ID_DTM_USB: u32 = 0x209100a9;
    pub const MSG_OUT_NMEA_ID_GBS_I2C: u32 = 0x209100dd;
    pub const MSG_OUT_NMEA_ID_GBS_SPI: u32 = 0x209100e1;
    pub const MSG_OUT_NMEA_ID_GBS_UART1: u32 = 0x209100de;
    pub const MSG_OUT_NMEA_ID_GBS_UART2: u32 = 0x209100df;
    pub const MSG_OUT_NMEA_ID_GBS_USB: u32 = 0x209100e0;
    pub const MSG_OUT_NMEA_ID_GGA_I2C: u32 = 0x209100ba;
    pub const MSG_OUT_NMEA_ID_GGA_SPI: u32 = 0x209100be;
    pub const MSG_OUT_NMEA_ID_GGA_UART1: u32 = 0x209100bb;
    pub const MSG_OUT_NMEA_ID_GGA_UART2: u32 = 0x209100bc;
    pub const MSG_OUT_NMEA_ID_GGA_USB: u32 = 0x209100bd;
    pub const MSG_OUT_NMEA_ID_GLL_I2C: u32 = 0x209100c9;
    pub const MSG_OUT_NMEA_ID_GLL_SPI: u32 = 0x209100cd;
    pub const MSG_OUT_NMEA_ID_GLL_UART1: u32 = 0x209100ca;
    pub const MSG_OUT_NMEA_ID_GLL_UART2: u32 = 0x209100cb;
    pub const MSG_OUT_NMEA_ID_GLL_USB: u32 = 0x209100cc;
    pub const MSG_OUT_NMEA_ID_GNS_I2C: u32 = 0x209100b5;
    pub const MSG_OUT_NMEA_ID_GNS_SPI: u32 = 0x209100b9;
    pub const MSG_OUT_NMEA_ID_GNS_UART1: u32 = 0x209100b6;
    pub const MSG_OUT_NMEA_ID_GNS_UART2: u32 = 0x209100b7;
    pub const MSG_OUT_NMEA_ID_GNS_USB: u32 = 0x209100b8;
    pub const MSG_OUT_NMEA_ID_GRS_I2C: u32 = 0x209100ce;
    pub const MSG_OUT_NMEA_ID_GRS_SPI: u32 = 0x209100d2;
    pub const MSG_OUT_NMEA_ID_GRS_UART1: u32 = 0x209100cf;
    pub const MSG_OUT_NMEA_ID_GRS_UART2: u32 = 0x209100d0;
    pub const MSG_OUT_NMEA_ID_GRS_USB: u32 = 0x209100d1;
    pub const MSG_OUT_NMEA_ID_GSA_I2C: u32 = 0x209100bf;
    pub const MSG_OUT_NMEA_ID_GSA_SPI: u32 = 0x209100c3;
    pub const MSG_OUT_NMEA_ID_GSA_UART1: u32 = 0x209100c0;
    pub const MSG_OUT_NMEA_ID_GSA_UART2: u32 = 0x209100c1;
    pub const MSG_OUT_NMEA_ID_GSA_USB: u32 = 0x209100c2;
    pub const MSG_OUT_NMEA_ID_GST_I2C: u32 = 0x209100d3;
    pub const MSG_OUT_NMEA_ID_GST_SPI: u32 = 0x209100d7;
    pub const MSG_OUT_NMEA_ID_GST_UART1: u32 = 0x209100d4;
    pub const MSG_OUT_NMEA_ID_GST_UART2: u32 = 0x209100d5;
    pub const MSG_OUT_NMEA_ID_GST_USB: u32 = 0x209100d6;
    pub const MSG_OUT_NMEA_ID_GSV_I2C: u32 = 0x209100c4;
    pub const MSG_OUT_NMEA_ID_GSV_SPI: u32 = 0x209100c8;
    pub const MSG_OUT_NMEA_ID_GSV_UART1: u32 = 0x209100c5;
    pub const MSG_OUT_NMEA_ID_GSV_UART2: u32 = 0x209100c6;
    pub const MSG_OUT_NMEA_ID_GSV_USB: u32 = 0x209100c7;
    pub const MSG_OUT_NMEA_ID_RMC_I2C: u32 = 0x209100ab;
    pub const MSG_OUT_NMEA_ID_RMC_SPI: u32 = 0x209100af;
    pub const MSG_OUT_NMEA_ID_RMC_UART1: u32 = 0x209100ac;
    pub const MSG_OUT_NMEA_ID_RMC_UART2: u32 = 0x209100ad;
    pub const MSG_OUT_NMEA_ID_RMC_USB: u32 = 0x209100ae;
    pub const MSG_OUT_NMEA_ID_VLW_I2C: u32 = 0x209100e7;
    pub const MSG_OUT_NMEA_ID_VLW_SPI: u32 = 0x209100eb;
    pub const MSG_OUT_NMEA_ID_VLW_UART1: u32 = 0x209100e8;
    pub const MSG_OUT_NMEA_ID_VLW_UART2: u32 = 0x209100e9;
    pub const MSG_OUT_NMEA_ID_VLW_USB: u32 = 0x209100ea;
    pub const MSG_OUT_NMEA_ID_VTG_I2C: u32 = 0x209100b0;
    pub const MSG_OUT_NMEA_ID_VTG_SPI: u32 = 0x209100b4;
    pub const MSG_OUT_NMEA_ID_VTG_UART1: u32 = 0x209100b1;
    pub const MSG_OUT_NMEA_ID_VTG_UART2: u32 = 0x209100b2;
    pub const MSG_OUT_NMEA_ID_VTG_USB: u32 = 0x209100b3;
    pub const MSG_OUT_NMEA_ID_ZDA_I2C: u32 = 0x209100d8;
    pub const MSG_OUT_NMEA_ID_ZDA_SPI: u32 = 0x209100dc;
    pub const MSG_OUT_NMEA_ID_ZDA_UART1: u32 = 0x209100d9;
    pub const MSG_OUT_NMEA_ID_ZDA_UART2: u32 = 0x209100da;
    pub const MSG_OUT_NMEA_ID_ZDA_USB: u32 = 0x209100db;
    pub const MSG_OUT_PUBX_ID_POLYP_I2C: u32 = 0x209100ec;
    pub const MSG_OUT_PUBX_ID_POLYP_SPI: u32 = 0x209100f0;
    pub const MSG_OUT_PUBX_ID_POLYP_UART1: u32 = 0x209100ed;
    pub const MSG_OUT_PUBX_ID_POLYP_UART2: u32 = 0x209100ee;
    pub const MSG_OUT_PUBX_ID_POLYP_USB: u32 = 0x209100ef;
    pub const MSG_OUT_PUBX_ID_POLYS_I2C: u32 = 0x209100f1;
    pub const MSG_OUT_PUBX_ID_POLYS_SPI: u32 = 0x209100f5;
    pub const MSG_OUT_PUBX_ID_POLYS_UART1: u32 = 0x209100f2;
    pub const MSG_OUT_PUBX_ID_POLYS_UART2: u32 = 0x209100f3;
    pub const MSG_OUT_PUBX_ID_POLYS_USB: u32 = 0x209100f4;
    pub const MSG_OUT_PUBX_ID_POLYT_I2C: u32 = 0x209100f6;
    pub const MSG_OUT_PUBX_ID_POLYT_SPI: u32 = 0x209100fa;
    pub const MSG_OUT_PUBX_ID_POLYT_UART1: u32 = 0x209100f7;
    pub const MSG_OUT_PUBX_ID_POLYT_UART2: u32 = 0x209100f8;
    pub const MSG_OUT_PUBX_ID_POLYT_USB: u32 = 0x209100f9;
    pub const MSG_OUT_RTCM3_XTYPE1005_I2C: u32 = 0x209102bd;
    pub const MSG_OUT_RTCM3_XTYPE1005_SPI: u32 = 0x209102c1;
    pub const MSG_OUT_RTCM3_XTYPE1005_UART1: u32 = 0x209102be;
    pub const MSG_OUT_RTCM3_XTYPE1005_UART2: u32 = 0x209102bf;
    pub const MSG_OUT_RTCM3_XTYPE1005_USB: u32 = 0x209102c0;
    pub const MSG_OUT_RTCM3_XTYPE1074_I2C: u32 = 0x2091035e;
    pub const MSG_OUT_RTCM3_XTYPE1074_SPI: u32 = 0x20910362;
    pub const MSG_OUT_RTCM3_XTYPE1074_UART1: u32 = 0x2091035f;
    pub const MSG_OUT_RTCM3_XTYPE1074_UART2: u32 = 0x20910360;
    pub const MSG_OUT_RTCM3_XTYPE1074_USB: u32 = 0x20910361;
    pub const MSG_OUT_RTCM3_XTYPE1077_I2C: u32 = 0x209102cc;
    pub const MSG_OUT_RTCM3_XTYPE1077_SPI: u32 = 0x209102d0;
    pub const MSG_OUT_RTCM3_XTYPE1077_UART1: u32 = 0x209102cd;
    pub const MSG_OUT_RTCM3_XTYPE1077_UART2: u32 = 0x209102ce;
    pub const MSG_OUT_RTCM3_XTYPE1077_USB: u32 = 0x209102cf;
    pub const MSG_OUT_RTCM3_XTYPE1084_I2C: u32 = 0x20910363;
    pub const MSG_OUT_RTCM3_XTYPE1084_SPI: u32 = 0x20910367;
    pub const MSG_OUT_RTCM3_XTYPE1084_UART1: u32 = 0x20910364;
    pub const MSG_OUT_RTCM3_XTYPE1084_UART2: u32 = 0x20910365;
    pub const MSG_OUT_RTCM3_XTYPE1084_USB: u32 = 0x20910366;
    pub const MSG_OUT_RTCM3_XTYPE1087_I2C: u32 = 0x209102d1;
    pub const MSG_OUT_RTCM3_XTYPE1087_SPI: u32 = 0x209102d5;
    pub const MSG_OUT_RTCM3_XTYPE1087_UART1: u32 = 0x209102d2;
    pub const MSG_OUT_RTCM3_XTYPE1087_UART2: u32 = 0x209102d3;
    pub const MSG_OUT_RTCM3_XTYPE1087_USB: u32 = 0x209102d4;
    pub const MSG_OUT_RTCM3_XTYPE1094_I2C: u32 = 0x20910368;
    pub const MSG_OUT_RTCM3_XTYPE1094_SPI: u32 = 0x2091036c;
    pub const MSG_OUT_RTCM3_XTYPE1094_UART1: u32 = 0x20910369;
    pub const MSG_OUT_RTCM3_XTYPE1094_UART2: u32 = 0x2091036a;
    pub const MSG_OUT_RTCM3_XTYPE1094_USB: u32 = 0x2091036b;
    pub const MSG_OUT_RTCM3_XTYPE1097_I2C: u32 = 0x20910318;
    pub const MSG_OUT_RTCM3_XTYPE1097_SPI: u32 = 0x2091031c;
    pub const MSG_OUT_RTCM3_XTYPE1097_UART1: u32 = 0x20910319;
    pub const MSG_OUT_RTCM3_XTYPE1097_UART2: u32 = 0x2091031a;
    pub const MSG_OUT_RTCM3_XTYPE1097_USB: u32 = 0x2091031b;
    pub const MSG_OUT_RTCM3_XTYPE1124_I2C: u32 = 0x2091036d;
    pub const MSG_OUT_RTCM3_XTYPE1124_SPI: u32 = 0x20910371;
    pub const MSG_OUT_RTCM3_XTYPE1124_UART1: u32 = 0x2091036e;
    pub const MSG_OUT_RTCM3_XTYPE1124_UART2: u32 = 0x2091036f;
    pub const MSG_OUT_RTCM3_XTYPE1124_USB: u32 = 0x20910370;
    pub const MSG_OUT_RTCM3_XTYPE1127_I2C: u32 = 0x209102d6;
    pub const MSG_OUT_RTCM3_XTYPE1127_SPI: u32 = 0x209102da;
    pub const MSG_OUT_RTCM3_XTYPE1127_UART1: u32 = 0x209102d7;
    pub const MSG_OUT_RTCM3_XTYPE1127_UART2: u32 = 0x209102d8;
    pub const MSG_OUT_RTCM3_XTYPE1127_USB: u32 = 0x209102d9;
    pub const MSG_OUT_RTCM3_XTYPE1230_I2C: u32 = 0x20910303;
    pub const MSG_OUT_RTCM3_XTYPE1230_SPI: u32 = 0x20910307;
    pub const MSG_OUT_RTCM3_XTYPE1230_UART1: u32 = 0x20910304;
    pub const MSG_OUT_RTCM3_XTYPE1230_UART2: u32 = 0x20910305;
    pub const MSG_OUT_RTCM3_XTYPE1230_USB: u32 = 0x20910306;
    pub const MSG_OUT_RTCM3_XTYPE40720_I2C: u32 = 0x209102fe;
    pub const MSG_OUT_RTCM3_XTYPE40720_SPI: u32 = 0x20910302;
    pub const MSG_OUT_RTCM3_XTYPE40720_UART1: u32 = 0x209102ff;
    pub const MSG_OUT_RTCM3_XTYPE40720_UART2: u32 = 0x20910300;
    pub const MSG_OUT_RTCM3_XTYPE40720_USB: u32 = 0x20910301;
    pub const MSG_OUT_RTCM3_XTYPE40721_I2C: u32 = 0x20910381;
    pub const MSG_OUT_RTCM3_XTYPE40721_SPI: u32 = 0x20910385;
    pub const MSG_OUT_RTCM3_XTYPE40721_UART1: u32 = 0x20910382;
    pub const MSG_OUT_RTCM3_XTYPE40721_UART2: u32 = 0x20910383;
    pub const MSG_OUT_RTCM3_XTYPE40721_USB: u32 = 0x20910384;
    pub const MSG_OUT_UBX_LOG_INFO_I2C: u32 = 0x20910259;
    pub const MSG_OUT_UBX_LOG_INFO_SPI: u32 = 0x2091025d;
    pub const MSG_OUT_UBX_LOG_INFO_UART1: u32 = 0x2091025a;
    pub const MSG_OUT_UBX_LOG_INFO_UART2: u32 = 0x2091025b;
    pub const MSG_OUT_UBX_LOG_INFO_USB: u32 = 0x2091025c;
    pub const MSG_OUT_UBX_MONCOMMS_I2C: u32 = 0x2091034f;
    pub const MSG_OUT_UBX_MONCOMMS_SPI: u32 = 0x20910353;
    pub const MSG_OUT_UBX_MONCOMMS_UART1: u32 = 0x20910350;
    pub const MSG_OUT_UBX_MONCOMMS_UART2: u32 = 0x20910351;
    pub const MSG_OUT_UBX_MONCOMMS_USB: u32 = 0x20910352;
    pub const MSG_OUT_UBX_MON_HW2_I2C: u32 = 0x209101b9;
    pub const MSG_OUT_UBX_MON_HW2_SPI: u32 = 0x209101bd;
    pub const MSG_OUT_UBX_MON_HW2_UART1: u32 = 0x209101ba;
    pub const MSG_OUT_UBX_MON_HW2_UART2: u32 = 0x209101bb;
    pub const MSG_OUT_UBX_MON_HW2_USB: u32 = 0x209101bc;
    pub const MSG_OUT_UBX_MON_HW3_I2C: u32 = 0x20910354;
    pub const MSG_OUT_UBX_MON_HW3_SPI: u32 = 0x20910358;
    pub const MSG_OUT_UBX_MON_HW3_UART1: u32 = 0x20910355;
    pub const MSG_OUT_UBX_MON_HW3_UART2: u32 = 0x20910356;
    pub const MSG_OUT_UBX_MON_HW3_USB: u32 = 0x20910357;
    pub const MSG_OUT_UBX_MON_HW_I2C: u32 = 0x209101b4;
    pub const MSG_OUT_UBX_MON_HW_SPI: u32 = 0x209101b8;
    pub const MSG_OUT_UBX_MON_HW_UART1: u32 = 0x209101b5;
    pub const MSG_OUT_UBX_MON_HW_UART2: u32 = 0x209101b6;
    pub const MSG_OUT_UBX_MON_HW_USB: u32 = 0x209101b7;
    pub const MSG_OUT_UBX_MON_IO_I2C: u32 = 0x209101a5;
    pub const MSG_OUT_UBX_MON_IO_SPI: u32 = 0x209101a9;
    pub const MSG_OUT_UBX_MON_IO_UART1: u32 = 0x209101a6;
    pub const MSG_OUT_UBX_MON_IO_UART2: u32 = 0x209101a7;
    pub const MSG_OUT_UBX_MON_IO_USB: u32 = 0x209101a8;
    pub const MSG_OUT_UBX_MON_MSGPP_I2C: u32 = 0x20910196;
    pub const MSG_OUT_UBX_MON_MSGPP_SPI: u32 = 0x2091019a;
    pub const MSG_OUT_UBX_MON_MSGPP_UART1: u32 = 0x20910197;
    pub const MSG_OUT_UBX_MON_MSGPP_UART2: u32 = 0x20910198;
    pub const MSG_OUT_UBX_MON_MSGPP_USB: u32 = 0x20910199;
    pub const MSG_OUT_UBX_MON_RF_I2C: u32 = 0x20910359;
    pub const MSG_OUT_UBX_MON_RF_SPI: u32 = 0x2091035d;
    pub const MSG_OUT_UBX_MON_RF_UART1: u32 = 0x2091035a;
    pub const MSG_OUT_UBX_MON_RF_UART2: u32 = 0x2091035b;
    pub const MSG_OUT_UBX_MON_RF_USB: u32 = 0x2091035c;
    pub const MSG_OUT_UBX_MON_RXBUF_I2C: u32 = 0x209101a0;
    pub const MSG_OUT_UBX_MON_RXBUF_SPI: u32 = 0x209101a4;
    pub const MSG_OUT_UBX_MON_RXBUF_UART1: u32 = 0x209101a1;
    pub const MSG_OUT_UBX_MON_RXBUF_UART2: u32 = 0x209101a2;
    pub const MSG_OUT_UBX_MON_RXBUF_USB: u32 = 0x209101a3;
    pub const MSG_OUT_UBX_MON_RXR_I2C: u32 = 0x20910187;
    pub const MSG_OUT_UBX_MON_RXR_SPI: u32 = 0x2091018b;
    pub const MSG_OUT_UBX_MON_RXR_UART1: u32 = 0x20910188;
    pub const MSG_OUT_UBX_MON_RXR_UART2: u32 = 0x20910189;
    pub const MSG_OUT_UBX_MON_RXR_USB: u32 = 0x2091018a;
    pub const MSG_OUT_UBX_MON_TXBUF_I2C: u32 = 0x2091019b;
    pub const MSG_OUT_UBX_MON_TXBUF_SPI: u32 = 0x2091019f;
    pub const MSG_OUT_UBX_MON_TXBUF_UART1: u32 = 0x2091019c;
    pub const MSG_OUT_UBX_MON_TXBUF_UART2: u32 = 0x2091019d;
    pub const MSG_OUT_UBX_MON_TXBUF_USB: u32 = 0x2091019e;
    pub const MSG_OUT_UBX_NAV_CLOCK_I2C: u32 = 0x20910065;
    pub const MSG_OUT_UBX_NAV_CLOCK_SPI: u32 = 0x20910069;
    pub const MSG_OUT_UBX_NAV_CLOCK_UART1: u32 = 0x20910066;
    pub const MSG_OUT_UBX_NAV_CLOCK_UART2: u32 = 0x20910067;
    pub const MSG_OUT_UBX_NAV_CLOCK_USB: u32 = 0x20910068;
    pub const MSG_OUT_UBX_NAV_DOP_I2C: u32 = 0x20910038;
    pub const MSG_OUT_UBX_NAV_DOP_SPI: u32 = 0x2091003c;
    pub const MSG_OUT_UBX_NAV_DOP_UART1: u32 = 0x20910039;
    pub const MSG_OUT_UBX_NAV_DOP_UART2: u32 = 0x2091003a;
    pub const MSG_OUT_UBX_NAV_DOP_USB: u32 = 0x2091003b;
    pub const MSG_OUT_UBX_NAV_EOE_I2C: u32 = 0x2091015f;
    pub const MSG_OUT_UBX_NAV_EOE_SPI: u32 = 0x20910163;
    pub const MSG_OUT_UBX_NAV_EOE_UART1: u32 = 0x20910160;
    pub const MSG_OUT_UBX_NAV_EOE_UART2: u32 = 0x20910161;
    pub const MSG_OUT_UBX_NAV_EOE_USB: u32 = 0x20910162;
    pub const MSG_OUT_UBX_NAV_GEOFENCE_I2C: u32 = 0x209100a1;
    pub const MSG_OUT_UBX_NAV_GEOFENCE_SPI: u32 = 0x209100a5;
    pub const MSG_OUT_UBX_NAV_GEOFENCE_UART1: u32 = 0x209100a2;
    pub const MSG_OUT_UBX_NAV_GEOFENCE_UART2: u32 = 0x209100a3;
    pub const MSG_OUT_UBX_NAV_GEOFENCE_USB: u32 = 0x209100a4;
    pub const MSG_OUT_UBX_NAV_HP_POS_ECEF_I2C: u32 = 0x2091002e;
    pub const MSG_OUT_UBX_NAV_HP_POS_ECEF_SPI: u32 = 0x20910032;
    pub const MSG_OUT_UBX_NAV_HP_POS_ECEF_UART1: u32 = 0x2091002f;
    pub const MSG_OUT_UBX_NAV_HP_POS_ECEF_UART2: u32 = 0x20910030;
    pub const MSG_OUT_UBX_NAV_HP_POS_ECEF_USB: u32 = 0x20910031;
    pub const MSG_OUT_UBX_NAV_HP_POS_LLH_I2C: u32 = 0x20910033;
    pub const MSG_OUT_UBX_NAV_HP_POS_LLH_SPI: u32 = 0x20910037;
    pub const MSG_OUT_UBX_NAV_HP_POS_LLH_UART1: u32 = 0x20910034;
    pub const MSG_OUT_UBX_NAV_HP_POS_LLH_UART2: u32 = 0x20910035;
    pub const MSG_OUT_UBX_NAV_HP_POS_LLH_USB: u32 = 0x20910036;
    pub const MSG_OUT_UBX_NAV_ODO_I2_C: u32 = 0x2091007e;
    pub const MSG_OUT_UBX_NAV_ODO_SPI: u32 = 0x20910082;
    pub const MSG_OUT_UBX_NAV_ODO_UART1: u32 = 0x2091007f;
    pub const MSG_OUT_UBX_NAV_ODO_UART2: u32 = 0x20910080;
    pub const MSG_OUT_UBX_NAV_ODO_USB: u32 = 0x20910081;
    pub const MSG_OUT_UBX_NAV_ORB_I2C: u32 = 0x20910010;
    pub const MSG_OUT_UBX_NAV_ORB_SPI: u32 = 0x20910014;
    pub const MSG_OUT_UBX_NAV_ORB_UART1: u32 = 0x20910011;
    pub const MSG_OUT_UBX_NAV_ORB_UART2: u32 = 0x20910012;
    pub const MSG_OUT_UBX_NAV_ORB_USB: u32 = 0x20910013;
    pub const MSG_OUT_UBX_NAV_POS_ECEF_I2C: u32 = 0x20910024;
    pub const MSG_OUT_UBX_NAV_POS_ECEF_SPI: u32 = 0x20910028;
    pub const MSG_OUT_UBX_NAV_POS_ECEF_UART1: u32 = 0x20910025;
    pub const MSG_OUT_UBX_NAV_POS_ECEF_UART2: u32 = 0x20910026;
    pub const MSG_OUT_UBX_NAV_POS_ECEF_USB: u32 = 0x20910027;
    pub const MSG_OUT_UBX_NAV_POS_LLH_I2C: u32 = 0x20910029;
    pub const MSG_OUT_UBX_NAV_POS_LLH_SPI: u32 = 0x2091002d;
    pub const MSG_OUT_UBX_NAV_POS_LLH_UART1: u32 = 0x2091002a;
    pub const MSG_OUT_UBX_NAV_POS_LLH_UART2: u32 = 0x2091002b;
    pub const MSG_OUT_UBX_NAV_POS_LLH_USB: u32 = 0x2091002c;
    pub const MSG_OUT_UBX_NAV_PVT_I2C: u32 = 0x20910006;
    pub const MSG_OUT_UBX_NAV_PVT_SPI: u32 = 0x2091000a;
    pub const MSG_OUT_UBX_NAV_PVT_UART1: u32 = 0x20910007;
    pub const MSG_OUT_UBX_NAV_PVT_UART2: u32 = 0x20910008;
    pub const MSG_OUT_UBX_NAV_PVT_USB: u32 = 0x20910009;
    pub const MSG_OUT_UBX_NAV_RELPOS_NED_I2C: u32 = 0x2091008d;
    pub const MSG_OUT_UBX_NAV_RELPOS_NED_SPI: u32 = 0x20910091;
    pub const MSG_OUT_UBX_NAV_RELPOS_NED_UART1: u32 = 0x2091008e;
    pub const MSG_OUT_UBX_NAV_RELPOS_NED_UART2: u32 = 0x2091008f;
    pub const MSG_OUT_UBX_NAV_RELPOS_NED_USB: u32 = 0x20910090;
    pub const MSG_OUT_UBX_NAV_SAT_I2C: u32 = 0x20910015;
    pub const MSG_OUT_UBX_NAV_SAT_SPI: u32 = 0x20910019;
    pub const MSG_OUT_UBX_NAV_SAT_UART1: u32 = 0x20910016;
    pub const MSG_OUT_UBX_NAV_SAT_UART2: u32 = 0x20910017;
    pub const MSG_OUT_UBX_NAV_SAT_USB: u32 = 0x20910018;
    pub const MSG_OUT_UBX_NAV_SIG_I2C: u32 = 0x20910345;
    pub const MSG_OUT_UBX_NAV_SIG_SPI: u32 = 0x20910349;
    pub const MSG_OUT_UBX_NAV_SIG_UART1: u32 = 0x20910346;
    pub const MSG_OUT_UBX_NAV_SIG_UART2: u32 = 0x20910347;
    pub const MSG_OUT_UBX_NAV_SIG_USB: u32 = 0x20910348;
    pub const MSG_OUT_UBX_NAV_STATUS_I2C: u32 = 0x2091001a;
    pub const MSG_OUT_UBX_NAV_STATUS_SPI: u32 = 0x2091001e;
    pub const MSG_OUT_UBX_NAV_STATUS_UART1: u32 = 0x2091001b;
    pub const MSG_OUT_UBX_NAV_STATUS_UART2: u32 = 0x2091001c;
    pub const MSG_OUT_UBX_NAV_STATUS_USB: u32 = 0x2091001d;
    pub const MSG_OUT_UBX_NAV_SVIN_I2C: u32 = 0x20910088;
    pub const MSG_OUT_UBX_NAV_SVIN_SPI: u32 = 0x2091008c;
    pub const MSG_OUT_UBX_NAV_SVIN_UART1: u32 = 0x20910089;
    pub const MSG_OUT_UBX_NAV_SVIN_UART2: u32 = 0x2091008a;
    pub const MSG_OUT_UBX_NAV_SVIN_USB: u32 = 0x2091008b;
    pub const MSG_OUT_UBX_NAV_TIME_BDS_I2C: u32 = 0x20910051;
    pub const MSG_OUT_UBX_NAV_TIME_BDS_SPI: u32 = 0x20910055;
    pub const MSG_OUT_UBX_NAV_TIME_BDS_UART1: u32 = 0x20910052;
    pub const MSG_OUT_UBX_NAV_TIME_BDS_UART2: u32 = 0x20910053;
    pub const MSG_OUT_UBX_NAV_TIME_BDS_USB: u32 = 0x20910054;
    pub const MSG_OUT_UBX_NAV_TIME_GAL_I2C: u32 = 0x20910056;
    pub const MSG_OUT_UBX_NAV_TIME_GAL_SPI: u32 = 0x2091005a;
    pub const MSG_OUT_UBX_NAV_TIME_GAL_UART1: u32 = 0x20910057;
    pub const MSG_OUT_UBX_NAV_TIME_GAL_UART2: u32 = 0x20910058;
    pub const MSG_OUT_UBX_NAV_TIME_GAL_USB: u32 = 0x20910059;
    pub const MSG_OUT_UBX_NAV_TIME_GLO_I2C: u32 = 0x2091004c;
    pub const MSG_OUT_UBX_NAV_TIME_GLO_SPI: u32 = 0x20910050;
    pub const MSG_OUT_UBX_NAV_TIME_GLO_UART1: u32 = 0x2091004d;
    pub const MSG_OUT_UBX_NAV_TIME_GLO_UART2: u32 = 0x2091004e;
    pub const MSG_OUT_UBX_NAV_TIME_GLO_USB: u32 = 0x2091004f;
    pub const MSG_OUT_UBX_NAV_TIME_GPS_I2C: u32 = 0x20910047;
    pub const MSG_OUT_UBX_NAV_TIME_GPS_SPI: u32 = 0x2091004b;
    pub const MSG_OUT_UBX_NAV_TIME_GPS_UART1: u32 = 0x20910048;
    pub const MSG_OUT_UBX_NAV_TIME_GPS_UART2: u32 = 0x20910049;
    pub const MSG_OUT_UBX_NAV_TIME_GPS_USB: u32 = 0x2091004a;
    pub const MSG_OUT_UBX_NAV_TIME_LS_I2C: u32 = 0x20910060;
    pub const MSG_OUT_UBX_NAV_TIME_LS_SPI: u32 = 0x20910064;
    pub const MSG_OUT_UBX_NAV_TIME_LS_UART1: u32 = 0x20910061;
    pub const MSG_OUT_UBX_NAV_TIME_LS_UART2: u32 = 0x20910062;
    pub const MSG_OUT_UBX_NAV_TIME_LS_USB: u32 = 0x20910063;
    pub const MSG_OUT_UBX_NAV_TIME_UTC_I2C: u32 = 0x2091005b;
    pub const MSG_OUT_UBX_NAV_TIME_UTC_SPI: u32 = 0x2091005f;
    pub const MSG_OUT_UBX_NAV_TIME_UTC_UART1: u32 = 0x2091005c;
    pub const MSG_OUT_UBX_NAV_TIME_UTC_UART2: u32 = 0x2091005d;
    pub const MSG_OUT_UBX_NAV_TIME_UTC_USB: u32 = 0x2091005e;
    pub const MSG_OUT_UBX_NAV_VEL_ECEF_I2C: u32 = 0x2091003d;
    pub const MSG_OUT_UBX_NAV_VEL_ECEF_SPI: u32 = 0x20910041;
    pub const MSG_OUT_UBX_NAV_VEL_ECEF_UART1: u32 = 0x2091003e;
    pub const MSG_OUT_UBX_NAV_VEL_ECEF_UART2: u32 = 0x2091003f;
    pub const MSG_OUT_UBX_NAV_VEL_ECEF_USB: u32 = 0x20910040;
    pub const MSG_OUT_UBX_NAV_VEL_NED_I2C: u32 = 0x20910042;
    pub const MSG_OUT_UBX_NAV_VEL_NED_SPI: u32 = 0x20910046;
    pub const MSG_OUT_UBX_NAV_VEL_NED_UART1: u32 = 0x20910043;
    pub const MSG_OUT_UBX_NAV_VEL_NED_UART2: u32 = 0x20910044;
    pub const MSG_OUT_UBX_NAV_VEL_NED_USB: u32 = 0x20910045;
    pub const MSG_OUT_UBX_RXM_MEASX_I2C: u32 = 0x20910204;
    pub const MSG_OUT_UBX_RXM_MEASX_SPI: u32 = 0x20910208;
    pub const MSG_OUT_UBX_RXM_MEASX_UART1: u32 = 0x20910205;
    pub const MSG_OUT_UBX_RXM_MEASX_UART2: u32 = 0x20910206;
    pub const MSG_OUT_UBX_RXM_MEASX_USB: u32 = 0x20910207;
    pub const MSG_OUT_UBX_RXM_RAWX_I2C: u32 = 0x209102a4;
    pub const MSG_OUT_UBX_RXM_RAWX_SPI: u32 = 0x209102a8;
    pub const MSG_OUT_UBX_RXM_RAWX_UART1: u32 = 0x209102a5;
    pub const MSG_OUT_UBX_RXM_RAWX_UART2: u32 = 0x209102a6;
    pub const MSG_OUT_UBX_RXM_RAWX_USB: u32 = 0x209102a7;
    pub const MSG_OUT_UBX_RXM_RLM_I2C: u32 = 0x2091025e;
    pub const MSG_OUT_UBX_RXM_RLM_SPI: u32 = 0x20910262;
    pub const MSG_OUT_UBX_RXM_RLM_UART1: u32 = 0x2091025f;
    pub const MSG_OUT_UBX_RXM_RLM_UART2: u32 = 0x20910260;
    pub const MSG_OUT_UBX_RXM_RLM_USB: u32 = 0x20910261;
    pub const MSG_OUT_UBX_RXM_RTCM_I2C: u32 = 0x20910268;
    pub const MSG_OUT_UBX_RXM_RTCM_SPI: u32 = 0x2091026c;
    pub const MSG_OUT_UBX_RXM_RTCM_UART1: u32 = 0x20910269;
    pub const MSG_OUT_UBX_RXM_RTCM_UART2: u32 = 0x2091026a;
    pub const MSG_OUT_UBX_RXM_RTCM_USB: u32 = 0x2091026b;
    pub const MSG_OUT_UBX_RXM_SFRBX_I2C: u32 = 0x20910231;
    pub const MSG_OUT_UBX_RXM_SFRBX_SPI: u32 = 0x20910235;
    pub const MSG_OUT_UBX_RXM_SFRBX_UART1: u32 = 0x20910232;
    pub const MSG_OUT_UBX_RXM_SFRBX_UART2: u32 = 0x20910233;
    pub const MSG_OUT_UBX_RXM_SFRBX_USB: u32 = 0x20910234;
    pub const MSG_OUT_UBX_TIM_TM2_I2C: u32 = 0x20910178;
    pub const MSG_OUT_UBX_TIM_TM2_SPI: u32 = 0x2091017c;
    pub const MSG_OUT_UBX_TIM_TM2_UART1: u32 = 0x20910179;
    pub const MSG_OUT_UBX_TIM_TM2_UART2: u32 = 0x2091017a;
    pub const MSG_OUT_UBX_TIM_TM2_USB: u32 = 0x2091017b;
    pub const MSG_OUT_UBX_TIM_TP_I2C: u32 = 0x2091017d;
    pub const MSG_OUT_UBX_TIM_TP_SPI: u32 = 0x20910181;
    pub const MSG_OUT_UBX_TIM_TP_UART1: u32 = 0x2091017e;
    pub const MSG_OUT_UBX_TIM_TP_UART2: u32 = 0x2091017f;
    pub const MSG_OUT_UBX_TIM_TP_USB: u32 = 0x20910180;
    pub const MSG_OUT_UBX_TIM_VRFY_I2C: u32 = 0x20910092;
    pub const MSG_OUT_UBX_TIM_VRFY_SPI: u32 = 0x20910096;
    pub const MSG_OUT_UBX_TIM_VRFY_UART1: u32 = 0x20910093;
    pub const MSG_OUT_UBX_TIM_VRFY_UART2: u32 = 0x20910094;
    pub const MSG_OUT_UBX_TIM_VRFY_USB: u32 = 0x20910095;
    pub const SIGNAL_GPS_ENA: u32 = 0x1031001f;
    pub const SIGNAL_GPS_L1CA_ENA: u32 = 0x10310001;
    pub const SIGNAL_GPS_L2C_ENA: u32 = 0x10310003;
    pub const SIGNAL_GAL_ENA: u32 = 0x10310021;
    pub const SIGNAL_GAL_E1_ENA: u32 = 0x10310007;
    pub const SIGNAL_GAL_E5B_ENA: u32 = 0x1031000a;
    pub const SIGNAL_BDS_ENA: u32 = 0x10310022;
    pub const SIGNAL_BDS_B1_ENA: u32 = 0x1031000d;
    pub const SIGNAL_BDS_B2_ENA: u32 = 0x1031000e;
    pub const SIGNAL_QZSS_ENA: u32 = 0x10310024;
    pub const SIGNAL_QZSS_L1CA_ENA: u32 = 0x10310012;
    pub const SIGNAL_QZSS_L2C_ENA: u32 = 0x10310015;
    pub const SIGNAL_GLO_ENA: u32 = 0x10310025;
    pub const SIGNAL_GLO_L1_ENA: u32 = 0x10310018;
    pub const SIGNAL_G_LO_L2_ENA: u32 = 0x1031001a;
    pub const UNDOCUMENTED_L5_ENABLE: u32 = 0x10320001;
    pub const TP_PULSE_DEF: u32 = 0x20050023;
    pub const TP_PULSE_LENGTH_DEF: u32 = 0x20050030;
    pub const TP_ANT_CABLE_DELAY: u32 = 0x30050001;
    pub const TP_PERIOD_TP1: u32 = 0x40050002;
    pub const TP_PERIOD_LOCK_TP1: u32 = 0x40050003;
    pub const TP_FREQ_TP1: u32 = 0x40050024;
    pub const TP_FREQ_LOCK_TP1: u32 = 0x40050025;
    pub const TP_LEN_TP1: u32 = 0x40050004;
    pub const TP_LEN_LOCK_TP1: u32 = 0x40050005;
    pub const TP_TP1_ENA: u32 = 0x10050007;
    pub const TP_SYNC_GNSS_TP1: u32 = 0x10050008;
    pub const TP_USE_LOCKED_TP1: u32 = 0x10050009;
    pub const TP_ALIGN_TO_TOW_TP1: u32 = 0x1005000a;
    pub const TP_POL_TP1: u32 = 0x1005000b;
    pub const TP_TIMEGRID_TP1: u32 = 0x2005000c;
    pub const T_MODE_MODE_DEF: u32 = 0x20030001;
    pub const T_MODE_POS_TYPE_DEF: u32 = 0x20030002;
    pub const T_MODE_ECEF_X: u32 = 0x40030003;
    pub const T_MODE_ECEF_Y: u32 = 0x40030004;
    pub const T_MODE_ECEF_Z: u32 = 0x40030005;
    pub const T_MODE_ECEF_X_HP: u32 = 0x20030006;
    pub const T_MODE_ECEF_Y_HP: u32 = 0x20030007;
    pub const T_MODE_ECEF_Z_HP: u32 = 0x20030008;
    pub const T_MODE_LAT: u32 = 0x40030009;
    pub const T_MODE_LON: u32 = 0x4003000a;
    pub const T_MODE_HEIGHT: u32 = 0x4003000b;
    pub const T_MODE_LAT_HP: u32 = 0x2003000c;
    pub const T_MODE_LON_HP: u32 = 0x2003000d;
    pub const T_MODE_HEIGHT_HP: u32 = 0x2003000e;
    pub const T_MODE_FIXED_POS_ACC: u32 = 0x4003000f;
    pub const T_MODE_SV_IN_MIN_DUR: u32 = 0x40030010;
    pub const T_MODE_SV_IN_ACC_LIMIT: u32 = 0x40030011;
    pub const NAV_SPG_FIX_MODE: u32 = 0x20110011;
    pub const NAV_SPG_INI_FIX3_D: u32 = 0x10110013;
    pub const NAV_SPG_WKN_ROLLOVER: u32 = 0x30110017;
    pub const NAV_SPG_USE_PPP: u32 = 0x10110019;
    pub const NAV_SPG_UTC_STANDARD: u32 = 0x2011001c;
    pub const NAV_SPG_DYN_MODEL: u32 = 0x20110021;
    pub const NAV_SPG_ACK_AIDING: u32 = 0x10110025;
    pub const NAV_SPG_USE_USR_DAT: u32 = 0x10110061;
    pub const NAV_SPG_USR_DAT_MAJA: u32 = 0x50110062;
    pub const NAV_SPG_USR_DAT_FLAT: u32 = 0x50110063;
    pub const NAV_SPG_USR_DAT_DX: u32 = 0x40110064;
    pub const NAV_SPG_USR_DAT_DY: u32 = 0x40110065;
    pub const NAV_SPG_USR_DAT_DZ: u32 = 0x40110066;
    pub const NAV_SPG_USR_DAT_ROT_X: u32 = 0x40110067;
    pub const NAV_SPG_USR_DAT_ROT_Y: u32 = 0x40110068;
    pub const NAV_SPG_USR_DAT_ROT_Z: u32 = 0x40110069;
    pub const NAV_SPG_USR_DAT_SCALE: u32 = 0x4011006a;
    pub const NAV_SPG_INFIL_MIN_SVS: u32 = 0x201100a1;
    pub const NAV_SPG_INFIL_MAX_SVS: u32 = 0x201100a2;
    pub const NAV_SPG_INFIL_MIN_CNO: u32 = 0x201100a3;
    pub const NAV_SPG_INFIL_MIN_ELEV: u32 = 0x201100a4;
    pub const NAV_SPG_INFIL_NCNO_THRS: u32 = 0x201100aa;
    pub const NAV_SPG_INFIL_CNO_THRS: u32 = 0x201100ab;
    pub const NAV_SPG_OUTFIL_PDOP: u32 = 0x301100b1;
    pub const NAV_SPG_OUTFIL_TDOP: u32 = 0x301100b2;
    pub const NAV_SPG_OUTFIL_PACC: u32 = 0x301100b3;
    pub const NAV_SPG_OUTFIL_TACC: u32 = 0x301100b4;
    pub const NAV_SPG_OUTFIL_FACC: u32 = 0x301100b5;
    pub const NAV_SPG_CONSTR_ALT: u32 = 0x401100c1;
    pub const NAV_SPG_CONSTR_ALT_VAR: u32 = 0x401100c2;
    pub const NAV_SPG_CONSTR_DGNSS_TO: u32 = 0x201100c4;
}

/// Whether `k` is one of the keys of the configuration interface.
pub open spec fn is_known_key(k: u32) -> bool {
    k == 0x40520001
        || k == 0x20520002
        || k == 0x20520003
        || k == 0x20520004
        || k == 0x10520005
        || k == 0x10730001
        || k == 0x10730002
        || k == 0x10730004
        || k == 0x10740001
        || k == 0x10740002
        || k == 0x10740004
        || k == 0x40530001
        || k == 0x20530002
        || k == 0x20530003
        || k == 0x20530004
        || k == 0x10530005
        || k == 0x10530006
        || k == 0x10750001
        || k == 0x10750002
        || k == 0x10750004
        || k == 0x10760001
        || k == 0x10760002
        || k == 0x10760004
        || k == 0x10650001
        || k == 0x10650002
        || k == 0x3065000a
        || k == 0x3065000b
        || k == 0x3065000c
        || k == 0x5065000d
        || k == 0x5065000e
        || k == 0x5065000f
        || k == 0x50650010
        || k == 0x50650011
        || k == 0x50650012
        || k == 0x50650013
        || k == 0x50650014
        || k == 0x50650015
        || k == 0x50650016
        || k == 0x50650017
        || k == 0x50650018
        || k == 0x10770001
        || k == 0x10770002
        || k == 0x10770004
        || k == 0x10780001
        || k == 0x10780002
        || k == 0x10780004
        || k == 0x20920001
        || k == 0x20920002
        || k == 0x20920003
        || k == 0x20920004
        || k == 0x20920005
        || k == 0x20920006
        || k == 0x20920007
        || k == 0x20920008
        || k == 0x20920009
        || k == 0x2092000a
        || k == 0x30210001
        || k == 0x30210002
        || k == 0x20210003
        || k == 0x209100a6
        || k == 0x209100aa
        || k == 0x209100a7
        || k == 0x209100a8
        || k == 0x209100a9
        || k == 0x209100dd
        || k == 0x209100e1
        || k == 0x209100de
        || k == 0x209100df
        || k == 0x209100e0
        || k == 0x209100ba
        || k == 0x209100be
        || k == 0x209100bb
        || k == 0x209100bc
        || k == 0x209100bd
        || k == 0x209100c9
        || k == 0x209100cd
        || k == 0x209100ca
        || k == 0x209100cb
        || k == 0x209100cc
        || k == 0x209100b5
        || k == 0x209100b9
        || k == 0x209100b6
        || k == 0x209100b7
        || k == 0x209100b8
        || k == 0x209100ce
        || k == 0x209100d2
        || k == 0x209100cf
        || k == 0x209100d0
        || k == 0x209100d1
        || k == 0x209100bf
        || k == 0x209100c3
        || k == 0x209100c0
        || k == 0x209100c1
        || k == 0x209100c2
        || k == 0x209100d3
        || k == 0x209100d7
        || k == 0x209100d4
        || k == 0x209100d5
        || k == 0x209100d6
        || k == 0x209100c4
        || k == 0x209100c8
        || k == 0x209100c5
        || k == 0x209100c6
        || k == 0x209100c7
        || k == 0x209100ab
        || k == 0x209100af
        || k == 0x209100ac
        || k == 0x209100ad
        || k == 0x209100ae
        || k == 0x209100e7
        || k == 0x209100eb
        || k == 0x209100e8
        || k == 0x209100e9
        || k == 0x209100ea
        || k == 0x209100b0
        || k == 0x209100b4
        || k == 0x209100b1
        || k == 0x209100b2
        || k == 0x209100b3
        || k == 0x209100d8
        || k == 0x209100dc
        || k == 0x209100d9
        || k == 0x209100da
        || k == 0x209100db
        || k == 0x209100ec
        || k == 0x209100f0
        || k == 0x209100ed
        || k == 0x209100ee
        || k == 0x209100ef
        || k == 0x209100f1
        || k == 0x209100f5
        || k == 0x209100f2
        || k == 0x209100f3
        || k == 0x209100f4
        || k == 0x209100f6
        || k == 0x209100fa
        || k == 0x209100f7
        || k == 0x209100f8
        || k == 0x209100f9
        || k == 0x209102bd
        || k == 0x209102c1
        || k == 0x209102be
        || k == 0x209102bf
        || k == 0x209102c0
        || k == 0x2091035e
        || k == 0x20910362
        || k == 0x2091035f
        || k == 0x20910360
        || k == 0x20910361
        || k == 0x209102cc
        || k == 0x209102d0
        || k == 0x209102cd
        || k == 0x209102ce
        || k == 0x209102cf
        || k == 0x20910363
        || k == 0x20910367
        || k == 0x20910364
        || k == 0x20910365
        || k == 0x20910366
        || k == 0x209102d1
        || k == 0x209102d5
        || k == 0x209102d2
        || k == 0x209102d3
        || k == 0x209102d4
        || k == 0x20910368
        || k == 0x2091036c
        || k == 0x20910369
        || k == 0x2091036a
        || k == 0x2091036b
        || k == 0x20910318
        || k == 0x2091031c
        || k == 0x20910319
        || k == 0x2091031a
        || k == 0x2091031b
        || k == 0x2091036d
        || k == 0x20910371
        || k == 0x2091036e
        || k == 0x2091036f
        || k == 0x20910370
        || k == 0x209102d6
        || k == 0x209102da
        || k == 0x209102d7
        || k == 0x209102d8
        || k == 0x209102d9
        || k == 0x20910303
        || k == 0x20910307
        || k == 0x20910304
        || k == 0x20910305
        || k == 0x20910306
        || k == 0x209102fe
        || k == 0x20910302
        || k == 0x209102ff
        || k == 0x20910300
        || k == 0x20910301
        || k == 0x20910381
        || k == 0x20910385
        || k == 0x20910382
        || k == 0x20910383
        || k == 0x20910384
        || k == 0x20910259
        || k == 0x2091025d
        || k == 0x2091025a
        || k == 0x2091025b
        || k == 0x2091025c
        || k == 0x2091034f
        || k == 0x20910353
        || k == 0x20910350
        || k == 0x20910351
        || k == 0x20910352
        || k == 0x209101b9
        || k == 0x209101bd
        || k == 0x209101ba
        || k == 0x209101bb
        || k == 0x209101bc
        || k == 0x20910354
        || k == 0x20910358
        || k == 0x20910355
        || k == 0x20910356
        || k == 0x20910357
        || k == 0x209101b4
        || k == 0x209101b8
        || k == 0x209101b5
        || k == 0x209101b6
        || k == 0x209101b7
        || k == 0x209101a5
        || k == 0x209101a9
        || k == 0x209101a6
        || k == 0x209101a7
        || k == 0x209101a8
        || k == 0x20910196
        || k == 0x2091019a
        || k == 0x20910197
        || k == 0x20910198
        || k == 0x20910199
        || k == 0x20910359
        || k == 0x2091035d
        || k == 0x2091035a
        || k == 0x2091035b
        || k == 0x2091035c
        || k == 0x209101a0
        || k == 0x209101a4
        || k == 0x209101a1
        || k == 0x209101a2
        || k == 0x209101a3
        || k == 0x20910187
        || k == 0x2091018b
        || k == 0x20910188
        || k == 0x20910189
        || k == 0x2091018a
        || k == 0x2091019b
        || k == 0x2091019f
        || k == 0x2091019c
        || k == 0x2091019d
        || k == 0x2091019e
        || k == 0x20910065
        || k == 0x20910069
        || k == 0x20910066
        || k == 0x20910067
        || k == 0x20910068
        || k == 0x20910038
        || k == 0x2091003c
        || k == 0x20910039
        || k == 0x2091003a
        || k == 0x2091003b
        || k == 0x2091015f
        || k == 0x20910163
        || k == 0x20910160
        || k == 0x20910161
        || k == 0x20910162
        || k == 0x209100a1
        || k == 0x209100a5
        || k == 0x209100a2
        || k == 0x209100a3
        || k == 0x209100a4
        || k == 0x2091002e
        || k == 0x20910032
        || k == 0x2091002f
        || k == 0x20910030
        || k == 0x20910031
        || k == 0x20910033
        || k == 0x20910037
        || k == 0x20910034
        || k == 0x20910035
        || k == 0x20910036
        || k == 0x2091007e
        || k == 0x20910082
        || k == 0x2091007f
        || k == 0x20910080
        || k == 0x20910081
        || k == 0x20910010
        || k == 0x20910014
        || k == 0x20910011
        || k == 0x20910012
        || k == 0x20910013
        || k == 0x20910024
        || k == 0x20910028
        || k == 0x20910025
        || k == 0x20910026
        || k == 0x20910027
        || k == 0x20910029
        || k == 0x2091002d
        || k == 0x2091002a
        || k == 0x2091002b
        || k == 0x2091002c
        || k == 0x20910006
        || k == 0x2091000a
        || k == 0x20910007
        || k == 0x20910008
        || k == 0x20910009
        || k == 0x2091008d
        || k == 0x20910091
        || k == 0x2091008e
        || k == 0x2091008f
        || k == 0x20910090
        || k == 0x20910015
        || k == 0x20910019
        || k == 0x20910016
        || k == 0x20910017
        || k == 0x20910018
        || k == 0x20910345
        || k == 0x20910349
        || k == 0x20910346
        || k == 0x20910347
        || k == 0x20910348
        || k == 0x2091001a
        || k == 0x2091001e
        || k == 0x2091001b
        || k == 0x2091001c
        || k == 0x2091001d
        || k == 0x20910088
        || k == 0x2091008c
        || k == 0x20910089
        || k == 0x2091008a
        || k == 0x2091008b
        || k == 0x20910051
        || k == 0x20910055
        || k == 0x20910052
        || k == 0x20910053
        || k == 0x20910054
        || k == 0x20910056
        || k == 0x2091005a
        || k == 0x20910057
        || k == 0x20910058
        || k == 0x20910059
        || k == 0x2091004c
        || k == 0x20910050
        || k == 0x2091004d
        || k == 0x2091004e
        || k == 0x2091004f
        || k == 0x20910047
        || k == 0x2091004b
        || k == 0x20910048
        || k == 0x20910049
        || k == 0x2091004a
        || k == 0x20910060
        || k == 0x20910064
        || k == 0x20910061
        || k == 0x20910062
        || k == 0x20910063
        || k == 0x2091005b
        || k == 0x2091005f
        || k == 0x2091005c
        || k == 0x2091005d
        || k == 0x2091005e
        || k == 0x2091003d
        || k == 0x20910041
        || k == 0x2091003e
        || k == 0x2091003f
        || k == 0x20910040
        || k == 0x20910042
        || k == 0x20910046
        || k == 0x20910043
        || k == 0x20910044
        || k == 0x20910045
        || k == 0x20910204
        || k == 0x20910208
        || k == 0x20910205
        || k == 0x20910206
        || k == 0x20910207
        || k == 0x209102a4
        || k == 0x209102a8
        || k == 0x209102a5
        || k == 0x209102a6
        || k == 0x209102a7
        || k == 0x2091025e
        || k == 0x20910262
        || k == 0x2091025f
        || k == 0x20910260
        || k == 0x20910261
        || k == 0x20910268
        || k == 0x2091026c
        || k == 0x20910269
        || k == 0x2091026a
        || k == 0x2091026b
        || k == 0x20910231
        || k == 0x20910235
        || k == 0x20910232
        || k == 0x20910233
        || k == 0x20910234
        || k == 0x20910178
        || k == 0x2091017c
        || k == 0x20910179
        || k == 0x2091017a
        || k == 0x2091017b
        || k == 0x2091017d
        || k == 0x20910181
        || k == 0x2091017e
        || k == 0x2091017f
        || k == 0x20910180
        || k == 0x20910092
        || k == 0x20910096
        || k == 0x20910093
        || k == 0x20910094
        || k == 0x20910095
        || k == 0x1031001f
        || k == 0x10310001
        || k == 0x10310003
        || k == 0x10310021
        || k == 0x10310007
        || k == 0x1031000a
        || k == 0x10310022
        || k == 0x1031000d
        || k == 0x1031000e
        || k == 0x10310024
        || k == 0x10310012
        || k == 0x10310015
        || k == 0x10310025
        || k == 0x10310018
        || k == 0x1031001a
        || k == 0x10320001
        || k == 0x20050023
        || k == 0x20050030
        || k == 0x30050001
        || k == 0x40050002
        || k == 0x40050003
        || k == 0x40050024
        || k == 0x40050025
        || k == 0x40050004
        || k == 0x40050005
        || k == 0x10050007
        || k == 0x10050008
        || k == 0x10050009
        || k == 0x1005000a
        || k == 0x1005000b
        || k == 0x2005000c
        || k == 0x20030001
        || k == 0x20030002
        || k == 0x40030003
        || k == 0x40030004
        || k == 0x40030005
        || k == 0x20030006
        || k == 0x20030007
        || k == 0x20030008
        || k == 0x40030009
        || k == 0x4003000a
        || k == 0x4003000b
        || k == 0x2003000c
        || k == 0x2003000d
        || k == 0x2003000e
        || k == 0x4003000f
        || k == 0x40030010
        || k == 0x40030011
        || k == 0x20110011
        || k == 0x10110013
        || k == 0x30110017
        || k == 0x10110019
        || k == 0x2011001c
        || k == 0x20110021
        || k == 0x10110025
        || k == 0x10110061
        || k == 0x50110062
        || k == 0x50110063
        || k == 0x40110064
        || k == 0x40110065
        || k == 0x40110066
        || k == 0x40110067
        || k == 0x40110068
        || k == 0x40110069
        || k == 0x4011006a
        || k == 0x201100a1
        || k == 0x201100a2
        || k == 0x201100a3
        || k == 0x201100a4
        || k == 0x201100aa
        || k == 0x201100ab
        || k == 0x301100b1
        || k == 0x301100b2
        || k == 0x301100b3
        || k == 0x301100b4
        || k == 0x301100b5
        || k == 0x401100c1
        || k == 0x401100c2
        || k == 0x201100c4
}

/// Whether `k` is one of the keys of the configuration interface.
pub fn known_key(k: u32) -> (r: bool)
    ensures
        r == is_known_key(k),
{
    k == 0x40520001
        || k == 0x20520002
        || k == 0x20520003
        || k == 0x20520004
        || k == 0x10520005
        || k == 0x10730001
        || k == 0x10730002
        || k == 0x10730004
        || k == 0x10740001
        || k == 0x10740002
        || k == 0x10740004
        || k == 0x40530001
        || k == 0x20530002
        || k == 0x20530003
        || k == 0x20530004
        || k == 0x10530005
        || k == 0x10530006
        || k == 0x10750001
        || k == 0x10750002
        || k == 0x10750004
        || k == 0x10760001
        || k == 0x10760002
        || k == 0x10760004
        || k == 0x10650001
        || k == 0x10650002
        || k == 0x3065000a
        || k == 0x3065000b
        || k == 0x3065000c
        || k == 0x5065000d
        || k == 0x5065000e
        || k == 0x5065000f
        || k == 0x50650010
        || k == 0x50650011
        || k == 0x50650012
        || k == 0x50650013
        || k == 0x50650014
        || k == 0x50650015
        || k == 0x50650016
        || k == 0x50650017
        || k == 0x50650018
        || k == 0x10770001
        || k == 0x10770002
        || k == 0x10770004
        || k == 0x10780001
        || k == 0x10780002
        || k == 0x10780004
        || k == 0x20920001
        || k == 0x20920002
        || k == 0x20920003
        || k == 0x20920004
        || k == 0x20920005
        || k == 0x20920006
        || k == 0x20920007
        || k == 0x20920008
        || k == 0x20920009
        || k == 0x2092000a
        || k == 0x30210001
        || k == 0x30210002
        || k == 0x20210003
        || k == 0x209100a6
        || k == 0x209100aa
        || k == 0x209100a7
        || k == 0x209100a8
        || k == 0x209100a9
        || k == 0x209100dd
        || k == 0x209100e1
        || k == 0x209100de
        || k == 0x209100df
        || k == 0x209100e0
        || k == 0x209100ba
        || k == 0x209100be
        || k == 0x209100bb
        || k == 0x209100bc
        || k == 0x209100bd
        || k == 0x209100c9
        || k == 0x209100cd
        || k == 0x209100ca
        || k == 0x209100cb
        || k == 0x209100cc
        || k == 0x209100b5
        || k == 0x209100b9
        || k == 0x209100b6
        || k == 0x209100b7
        || k == 0x209100b8
        || k == 0x209100ce
        || k == 0x209100d2
        || k == 0x209100cf
        || k == 0x209100d0
        || k == 0x209100d1
        || k == 0x209100bf
        || k == 0x209100c3
        || k == 0x209100c0
        || k == 0x209100c1
        || k == 0x209100c2
        || k == 0x209100d3
        || k == 0x209100d7
        || k == 0x209100d4
        || k == 0x209100d5
        || k == 0x209100d6
        || k == 0x209100c4
        || k == 0x209100c8
        || k == 0x209100c5
        || k == 0x209100c6
        || k == 0x209100c7
        || k == 0x209100ab
        || k == 0x209100af
        || k == 0x209100ac
        || k == 0x209100ad
        || k == 0x209100ae
        || k == 0x209100e7
        || k == 0x209100eb
        || k == 0x209100e8
        || k == 0x209100e9
        || k == 0x209100ea
        || k == 0x209100b0
        || k == 0x209100b4
        || k == 0x209100b1
        || k == 0x209100b2
        || k == 0x209100b3
        || k == 0x209100d8
        || k == 0x209100dc
        || k == 0x209100d9
        || k == 0x209100da
        || k == 0x209100db
        || k == 0x209100ec
        || k == 0x209100f0
        || k == 0x209100ed
        || k == 0x209100ee
        || k == 0x209100ef
        || k == 0x209100f1
        || k == 0x209100f5
        || k == 0x209100f2
        || k == 0x209100f3
        || k == 0x209100f4
        || k == 0x209100f6
        || k == 0x209100fa
        || k == 0x209100f7
        || k == 0x209100f8
        || k == 0x209100f9
        || k == 0x209102bd
        || k == 0x209102c1
        || k == 0x209102be
        || k == 0x209102bf
        || k == 0x209102c0
        || k == 0x2091035e
        || k == 0x20910362
        || k == 0x2091035f
        || k == 0x20910360
        || k == 0x20910361
        || k == 0x209102cc
        || k == 0x209102d0
        || k == 0x209102cd
        || k == 0x209102ce
        || k == 0x209102cf
        || k == 0x20910363
        || k == 0x20910367
        || k == 0x20910364
        || k == 0x20910365
        || k == 0x20910366
        || k == 0x209102d1
        || k == 0x209102d5
        || k == 0x209102d2
        || k == 0x209102d3
        || k == 0x209102d4
        || k == 0x20910368
        || k == 0x2091036c
        || k == 0x20910369
        || k == 0x2091036a
        || k == 0x2091036b
        || k == 0x20910318
        || k == 0x2091031c
        || k == 0x20910319
        || k == 0x2091031a
        || k == 0x2091031b
        || k == 0x2091036d
        || k == 0x20910371
        || k == 0x2091036e
        || k == 0x2091036f
        || k == 0x20910370
        || k == 0x209102d6
        || k == 0x209102da
        || k == 0x209102d7
        || k == 0x209102d8
        || k == 0x209102d9
        || k == 0x20910303
        || k == 0x20910307
        || k == 0x20910304
        || k == 0x20910305
        || k == 0x20910306
        || k == 0x209102fe
        || k == 0x20910302
        || k == 0x209102ff
        || k == 0x20910300
        || k == 0x20910301
        || k == 0x20910381
        || k == 0x20910385
        || k == 0x20910382
        || k == 0x20910383
        || k == 0x20910384
        || k == 0x20910259
        || k == 0x2091025d
        || k == 0x2091025a
        || k == 0x2091025b
        || k == 0x2091025c
        || k == 0x2091034f
        || k == 0x20910353
        || k == 0x20910350
        || k == 0x20910351
        || k == 0x20910352
        || k == 0x209101b9
        || k == 0x209101bd
        || k == 0x209101ba
        || k == 0x209101bb
        || k == 0x209101bc
        || k == 0x20910354
        || k == 0x20910358
        || k == 0x20910355
        || k == 0x20910356
        || k == 0x20910357
        || k == 0x209101b4
        || k == 0x209101b8
        || k == 0x209101b5
        || k == 0x209101b6
        || k == 0x209101b7
        || k == 0x209101a5
        || k == 0x209101a9
        || k == 0x209101a6
        || k == 0x209101a7
        || k == 0x209101a8
        || k == 0x20910196
        || k == 0x2091019a
        || k == 0x20910197
        || k == 0x20910198
        || k == 0x20910199
        || k == 0x20910359
        || k == 0x2091035d
        || k == 0x2091035a
        || k == 0x2091035b
        || k == 0x2091035c
        || k == 0x209101a0
        || k == 0x209101a4
        || k == 0x209101a1
        || k == 0x209101a2
        || k == 0x209101a3
        || k == 0x20910187
        || k == 0x2091018b
        || k == 0x20910188
        || k == 0x20910189
        || k == 0x2091018a
        || k == 0x2091019b
        || k == 0x2091019f
        || k == 0x2091019c
        || k == 0x2091019d
        || k == 0x2091019e
        || k == 0x20910065
        || k == 0x20910069
        || k == 0x20910066
        || k == 0x20910067
        || k == 0x20910068
        || k == 0x20910038
        || k == 0x2091003c
        || k == 0x20910039
        || k == 0x2091003a
        || k == 0x2091003b
        || k == 0x2091015f
        || k == 0x20910163
        || k == 0x20910160
        || k == 0x20910161
        || k == 0x20910162
        || k == 0x209100a1
        || k == 0x209100a5
        || k == 0x209100a2
        || k == 0x209100a3
        || k == 0x209100a4
        || k == 0x2091002e
        || k == 0x20910032
        || k == 0x2091002f
        || k == 0x20910030
        || k == 0x20910031
        || k == 0x20910033
        || k == 0x20910037
        || k == 0x20910034
        || k == 0x20910035
        || k == 0x20910036
        || k == 0x2091007e
        || k == 0x20910082
        || k == 0x2091007f
        || k == 0x20910080
        || k == 0x20910081
        || k == 0x20910010
        || k == 0x20910014
        || k == 0x20910011
        || k == 0x20910012
        || k == 0x20910013
        || k == 0x20910024
        || k == 0x20910028
        || k == 0x20910025
        || k == 0x20910026
        || k == 0x20910027
        || k == 0x20910029
        || k == 0x2091002d
        || k == 0x2091002a
        || k == 0x2091002b
        || k == 0x2091002c
        || k == 0x20910006
        || k == 0x2091000a
        || k == 0x20910007
        || k == 0x20910008
        || k == 0x20910009
        || k == 0x2091008d
        || k == 0x20910091
        || k == 0x2091008e
        || k == 0x2091008f
        || k == 0x20910090
        || k == 0x20910015
        || k == 0x20910019
        || k == 0x20910016
        || k == 0x20910017
        || k == 0x20910018
        || k == 0x20910345
        || k == 0x20910349
        || k == 0x20910346
        || k == 0x20910347
        || k == 0x20910348
        || k == 0x2091001a
        || k == 0x2091001e
        || k == 0x2091001b
        || k == 0x2091001c
        || k == 0x2091001d
        || k == 0x20910088
        || k == 0x2091008c
        || k == 0x20910089
        || k == 0x2091008a
        || k == 0x2091008b
        || k == 0x20910051
        || k == 0x20910055
        || k == 0x20910052
        || k == 0x20910053
        || k == 0x20910054
        || k == 0x20910056
        || k == 0x2091005a
        || k == 0x20910057
        || k == 0x20910058
        || k == 0x20910059
        || k == 0x2091004c
        || k == 0x20910050
        || k == 0x2091004d
        || k == 0x2091004e
        || k == 0x2091004f
        || k == 0x20910047
        || k == 0x2091004b
        || k == 0x20910048
        || k == 0x20910049
        || k == 0x2091004a
        || k == 0x20910060
        || k == 0x20910064
        || k == 0x20910061
        || k == 0x20910062
        || k == 0x20910063
        || k == 0x2091005b
        || k == 0x2091005f
        || k == 0x2091005c
        || k == 0x2091005d
        || k == 0x2091005e
        || k == 0x2091003d
        || k == 0x20910041
        || k == 0x2091003e
        || k == 0x2091003f
        || k == 0x20910040
        || k == 0x20910042
        || k == 0x20910046
        || k == 0x20910043
        || k == 0x20910044
        || k == 0x20910045
        || k == 0x20910204
        || k == 0x20910208
        || k == 0x20910205
        || k == 0x20910206
        || k == 0x20910207
        || k == 0x209102a4
        || k == 0x209102a8
        || k == 0x209102a5
        || k == 0x209102a6
        || k == 0x209102a7
        || k == 0x2091025e
        || k == 0x20910262
        || k == 0x2091025f
        || k == 0x20910260
        || k == 0x20910261
        || k == 0x20910268
        || k == 0x2091026c
        || k == 0x20910269
        || k == 0x2091026a
        || k == 0x2091026b
        || k == 0x20910231
        || k == 0x20910235
        || k == 0x20910232
        || k == 0x20910233
        || k == 0x20910234
        || k == 0x20910178
        || k == 0x2091017c
        || k == 0x20910179
        || k == 0x2091017a
        || k == 0x2091017b
        || k == 0x2091017d
        || k == 0x20910181
        || k == 0x2091017e
        || k == 0x2091017f
        || k == 0x20910180
        || k == 0x20910092
        || k == 0x20910096
        || k == 0x20910093
        || k == 0x20910094
        || k == 0x20910095
        || k == 0x1031001f
        || k == 0x10310001
        || k == 0x10310003
        || k == 0x10310021
        || k == 0x10310007
        || k == 0x1031000a
        || k == 0x10310022
        || k == 0x1031000d
        || k == 0x1031000e
        || k == 0x10310024
        || k == 0x10310012
        || k == 0x10310015
        || k == 0x10310025
        || k == 0x10310018
        || k == 0x1031001a
        || k == 0x10320001
        || k == 0x20050023
        || k == 0x20050030
        || k == 0x30050001
        || k == 0x40050002
        || k == 0x40050003
        || k == 0x40050024
        || k == 0x40050025
        || k == 0x40050004
        || k == 0x40050005
        || k == 0x10050007
        || k == 0x10050008
        || k == 0x10050009
        || k == 0x1005000a
        || k == 0x1005000b
        || k == 0x2005000c
        || k == 0x20030001
        || k == 0x20030002
        || k == 0x40030003
        || k == 0x40030004
        || k == 0x40030005
        || k == 0x20030006
        || k == 0x20030007
        || k == 0x20030008
        || k == 0x40030009
        || k == 0x4003000a
        || k == 0x4003000b
        || k == 0x2003000c
        || k == 0x2003000d
        || k == 0x2003000e
        || k == 0x4003000f
        || k == 0x40030010
        || k == 0x40030011
        || k == 0x20110011
        || k == 0x10110013
        || k == 0x30110017
        || k == 0x10110019
        || k == 0x2011001c
        || k == 0x20110021
        || k == 0x10110025
        || k == 0x10110061
        || k == 0x50110062
        || k == 0x50110063
        || k == 0x40110064
        || k == 0x40110065
        || k == 0x40110066
        || k == 0x40110067
        || k == 0x40110068
        || k == 0x40110069
        || k == 0x4011006a
        || k == 0x201100a1
        || k == 0x201100a2
        || k == 0x201100a3
        || k == 0x201100a4
        || k == 0x201100aa
        || k == 0x201100ab
        || k == 0x301100b1
        || k == 0x301100b2
        || k == 0x301100b3
        || k == 0x301100b4
        || k == 0x301100b5
        || k == 0x401100c1
        || k == 0x401100c2
        || k == 0x201100c4
}

/// Every known key has a size code that names a storage size.
pub proof fn lemma_known_key_has_size(k: u32)
    requires
        is_known_key(k),
    ensures
        1 <= size_code(k) <= 5,
{
}

} // verus!
