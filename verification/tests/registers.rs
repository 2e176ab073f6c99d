//! Register map and bitfield accessor behaviour.

use tmc2209::registers::Address;
use tmc2209::registers::MicrostepResolution;
use tmc2209::registers::StandstillMode;
use tmc2209::Chopconf;
use tmc2209::Coolconf;
use tmc2209::DrvStatus;
use tmc2209::FactoryConf;
use tmc2209::Gconf;
use tmc2209::Gstat;
use tmc2209::Ifcnt;
use tmc2209::IholdIrun;
use tmc2209::Ioin;
use tmc2209::Mscuract;
use tmc2209::PwmScale;
use tmc2209::Pwmconf;
use tmc2209::Register;
use tmc2209::Sgthrs;
use tmc2209::Tpwmthrs;
use tmc2209::Tstep;
use tmc2209::Vactual;

#[test]
fn address_round_trips_through_u8() {
    let all = [
        Address::Gconf,
        Address::Gstat,
        Address::Ifcnt,
        Address::Slaveconf,
        Address::OtpProg,
        Address::OtpRead,
        Address::Ioin,
        Address::FactoryConf,
        Address::IholdIrun,
        Address::Tpowerdown,
        Address::Tstep,
        Address::Tpwmthrs,
        Address::Tcoolthrs,
        Address::Vactual,
        Address::Sgthrs,
        Address::SgResult,
        Address::Coolconf,
        Address::Mscnt,
        Address::Mscuract,
        Address::Chopconf,
        Address::DrvStatus,
        Address::Pwmconf,
        Address::PwmScale,
        Address::PwmAuto,
    ];
    for &a in &all {
        assert_eq!(Address::from_u8(a.as_u8()), Some(a));
    }
    assert_eq!(Address::Gconf.as_u8(), 0x00);
    assert_eq!(Address::DrvStatus.as_u8(), 0x6F);
    assert_eq!(Address::PwmAuto.as_u8(), 0x72);
    // Valid chip addresses outside the known set are no error, merely
    // unknown.
    assert_eq!(Address::from_u8(0x08), None);
    assert_eq!(Address::from_u8(0x73), None);
    assert_eq!(Address::from_u8(0xFF), None);
}

#[test]
fn address_access_classes_are_disjoint_subsets() {
    assert!(Address::Gconf.is_readable() && Address::Gconf.is_writable());
    assert!(Address::Ifcnt.is_readable() && !Address::Ifcnt.is_writable());
    assert!(!Address::IholdIrun.is_readable() && Address::IholdIrun.is_writable());
    assert!(Address::DrvStatus.is_readable() && !Address::DrvStatus.is_writable());
    assert!(!Address::Vactual.is_readable() && Address::Vactual.is_writable());
}

#[test]
fn microstep_resolution_conversions() {
    assert_eq!(MicrostepResolution::from_mres(0), MicrostepResolution::M256);
    assert_eq!(MicrostepResolution::from_mres(8), MicrostepResolution::M1);
    assert_eq!(MicrostepResolution::from_mres(200), MicrostepResolution::M256);
    for mres in 0..=8u8 {
        assert_eq!(MicrostepResolution::from_mres(mres).to_mres(), mres);
    }
    assert_eq!(MicrostepResolution::M16.microsteps(), 16);
    assert_eq!(MicrostepResolution::M1.microsteps(), 1);
    assert_eq!(MicrostepResolution::M256.microsteps(), 256);
    assert_eq!(MicrostepResolution::default(), MicrostepResolution::M256);
}

#[test]
fn standstill_mode_conversions() {
    assert_eq!(StandstillMode::from_bits(0), StandstillMode::Normal);
    assert_eq!(StandstillMode::from_bits(1), StandstillMode::Freewheeling);
    assert_eq!(StandstillMode::from_bits(2), StandstillMode::StrongBraking);
    assert_eq!(StandstillMode::from_bits(3), StandstillMode::Braking);
    // Only the low two bits matter.
    assert_eq!(StandstillMode::from_bits(0xFE), StandstillMode::StrongBraking);
    assert_eq!(StandstillMode::Braking.to_bits(), 3);
}

#[test]
fn gconf_bitfields() {
    let mut g = Gconf::new();
    assert_eq!(g.raw(), 0x40);
    assert!(g.pdn_disable());
    assert!(!g.en_spreadcycle());
    g.set_en_spreadcycle(true);
    assert!(g.en_spreadcycle());
    assert_eq!(g.raw(), 0x44);
    g.set_en_spreadcycle(false);
    assert_eq!(g.raw(), 0x40);
    g.set_index_otpw(true);
    g.set_index_step(true);
    assert!(!g.diag0_stall());
    g.set_diag0_stall(true);
    assert!(g.diag0_stall());
    assert!(!g.index_otpw() && !g.index_step());
}

#[test]
fn gstat_flags() {
    let g = Gstat::from_raw(0x05);
    assert!(g.reset());
    assert!(!g.drv_err());
    assert!(g.uv_cp());
    assert!(g.has_errors());
    let mut clear = Gstat::from_raw(0);
    assert!(!clear.has_errors());
    clear.clear_reset();
    clear.clear_drv_err();
    assert_eq!(clear.raw(), 0x03);
}

#[test]
fn ihold_irun_fields() {
    let mut r = IholdIrun::new();
    assert_eq!(r.raw(), 0x00071703);
    assert_eq!(r.ihold(), 3);
    assert_eq!(r.irun(), 23);
    assert_eq!(r.iholddelay(), 7);
    r.set_irun(16);
    r.set_ihold(8);
    r.set_iholddelay(1);
    assert_eq!(r.irun(), 16);
    assert_eq!(r.ihold(), 8);
    assert_eq!(r.iholddelay(), 1);
    // Values are masked to the field width.
    r.set_irun(0xFF);
    assert_eq!(r.irun(), 31);
}

#[test]
fn chopconf_fields() {
    let mut c = Chopconf::new();
    assert_eq!(c.raw(), 0x10000053);
    assert_eq!(c.toff(), 3);
    assert_eq!(c.hstrt(), 5);
    assert_eq!(c.hend(), 0);
    assert_eq!(c.mres(), 0);
    assert!(c.intpol());
    c.set_microstep_resolution(MicrostepResolution::M16);
    assert_eq!(c.mres(), 4);
    assert_eq!(c.microstep_resolution(), MicrostepResolution::M16);
    c.set_toff(0);
    assert_eq!(c.toff(), 0);
    c.set_vsense(true);
    assert!(c.vsense());
    c.set_diss2vs(true);
    assert!(c.diss2vs());
    assert_eq!(c.raw() >> 31, 1);
}

#[test]
fn drv_status_flags() {
    let s = DrvStatus::from_raw(0x8000_0000);
    assert!(s.stst());
    assert!(!s.has_error());
    let shorted = DrvStatus::from_raw(0x0000_0004);
    assert!(shorted.s2ga());
    assert!(shorted.short_detected());
    assert!(shorted.has_error());
    let warm = DrvStatus::from_raw(0x0000_0001);
    assert!(warm.otpw());
    assert!(warm.overtemperature());
    assert!(!warm.has_error());
    let loaded = DrvStatus::from_raw(0x001F_0000);
    assert_eq!(loaded.cs_actual(), 31);
    let open = DrvStatus::from_raw(0x0000_00C0);
    assert!(open.ola() && open.olb() && open.open_load_detected());
    let stealth = DrvStatus::from_raw(0x4000_0000);
    assert!(stealth.stealth());
}

#[test]
fn vactual_sign_handling() {
    let mut v = Vactual::new();
    assert_eq!(v.velocity(), 0);
    assert!(!v.is_active());
    v.set_velocity(1000);
    assert_eq!(v.velocity(), 1000);
    assert!(v.is_active());
    v.set_velocity(-1000);
    assert_eq!(v.velocity(), -1000);
    assert_eq!(v.raw(), 0x00FFFC18);
    v.set_velocity(-8388607);
    assert_eq!(v.velocity(), -8388607);
    v.set_velocity(8388607);
    assert_eq!(v.velocity(), 8388607);
    v.stop();
    assert_eq!(v.velocity(), 0);
}

#[test]
fn mscuract_sign_extension() {
    let m = Mscuract::from_raw(0x0100_00FF);
    assert_eq!(m.cur_a(), 255);
    assert_eq!(m.cur_b(), -256);
    let n = Mscuract::from_raw(0x01FF_0100);
    assert_eq!(n.cur_a(), -256);
    assert_eq!(n.cur_b(), -1);
}

#[test]
fn pwm_scale_signed_field() {
    let p = PwmScale::from_raw(0x01FF_0040);
    assert_eq!(p.pwm_scale_sum(), 0x40);
    assert_eq!(p.pwm_scale_auto(), -1);
    let q = PwmScale::from_raw(0x00FF_0000);
    assert_eq!(q.pwm_scale_auto(), 255);
}

#[test]
fn pwmconf_fields() {
    let mut p = Pwmconf::new();
    assert_eq!(p.raw(), 0xC10D0024);
    assert_eq!(p.pwm_ofs(), 0x24);
    assert_eq!(p.pwm_grad(), 0);
    assert_eq!(p.pwm_freq(), 1);
    assert_eq!(p.pwm_reg(), 1);
    assert!(p.pwm_autoscale());
    assert!(p.pwm_autograd());
    assert_eq!(p.pwm_lim(), 12);
    p.set_standstill_mode(StandstillMode::Freewheeling);
    assert_eq!(p.standstill_mode(), StandstillMode::Freewheeling);
    assert_eq!(p.freewheel(), 1);
}

#[test]
fn misc_register_fields() {
    let t = Tstep::from_raw(Tstep::MAX_VALUE);
    assert_eq!(t.value(), 0xFFFFF);
    assert!(t.is_standstill());
    assert_eq!(Tstep::from_raw(0x123).tstep(), 0x123);
    assert!(!Tstep::from_raw(0x123).is_standstill());

    let mut thrs = Tpwmthrs::new();
    thrs.set_threshold(0x1F_FFFF);
    // The threshold is masked to its 20 bits.
    assert_eq!(thrs.threshold(), 0xFFFFF);
    thrs.disable();
    assert_eq!(thrs.value(), 0);

    let mut sg = Sgthrs::new();
    sg.set_threshold(0xFA);
    assert_eq!(sg.threshold(), 0xFA);

    let i = Ifcnt::from_raw(0x1FF);
    assert_eq!(i.count(), 0xFF);

    let io = Ioin::from_raw(0x2100_0201);
    assert!(io.enn());
    assert!(io.dir());
    assert_eq!(io.version(), 0x21);

    let mut f = FactoryConf::from_raw(0);
    f.set_fclktrim(20);
    f.set_ottrim(2);
    assert_eq!(f.fclktrim(), 20);
    assert_eq!(f.ottrim(), 2);

    let mut cc = Coolconf::new();
    cc.set_semin(4);
    cc.set_semax(2);
    cc.set_seimin(true);
    assert_eq!(cc.semin(), 4);
    assert_eq!(cc.semax(), 2);
    assert!(cc.seimin());
    assert_eq!(cc.seup(), 0);
    assert_eq!(cc.sedn(), 0);
}

#[test]
fn register_trait_round_trip() {
    assert_eq!(Gconf::address(), Address::Gconf);
    assert_eq!(Chopconf::address(), Address::Chopconf);
    let c = Chopconf::from_raw(0xDEADBEEF);
    assert_eq!(c.raw(), 0xDEADBEEF);
    assert_eq!(IholdIrun::from_raw(0).raw(), 0);
}
