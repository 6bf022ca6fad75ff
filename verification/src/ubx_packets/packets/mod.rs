pub mod ack;
pub mod cfg;
pub mod enums;
pub mod esf;
pub mod hnr;
pub mod mga;
pub mod mon;
pub mod nav;
pub mod sec;
pub mod nav_pvt;
pub mod mon_comms;
pub mod cfg_gnss;
pub mod esf_status;
pub mod esf_raw;
pub mod esf_meas;
pub mod esf_alg;
pub mod cfg_prt;
pub mod cfg_itfm;
pub mod cfg_msg;
pub mod mon_ver;
pub mod aid;
pub mod mga_ini;
pub mod aiding;
pub mod fix_status;
pub mod cfg_val;
pub mod cfg_ant;
pub mod cfg_esf_wt;
pub mod cfg_smgr;
pub mod cfg_tmode2;
pub mod cfg_tmode3;
pub mod cfg_tp5;
pub mod hnr_pvt;
pub mod mga_bds_eph;
pub mod mga_bds_utc;
pub mod mga_gal_eph;
pub mod mga_gal_time;
pub mod mga_gps_utc;
