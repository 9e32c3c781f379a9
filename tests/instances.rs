use mcan::{ChipFamily, ClockSource, Error, FdCanInstance, FdCanInstances, MessageRamGuard, Rcc};

fn rcc(source: ClockSource, hse_on: bool) -> Rcc {
    Rcc { fdcan_enabled: true, fdcan_reset: false, source, hse_on, pll1_q_on: false, pll2_q_on: false }
}

#[test]
fn message_ram_taken_once() {
    let mut guard = MessageRamGuard::new();
    assert!(FdCanInstances::new(&mut guard, ChipFamily::H7, rcc(ClockSource::Pclk1, false)).is_ok());
    assert!(matches!(
        FdCanInstances::new(&mut guard, ChipFamily::H7, rcc(ClockSource::Pclk1, false)),
        Err(Error::PeripheralTaken)
    ));
}

#[test]
fn take_enables_clock_and_twice_fails() {
    let mut guard = MessageRamGuard::new();
    let (mut all, _, _) = FdCanInstances::new(&mut guard, ChipFamily::H7, rcc(ClockSource::Pclk1, false)).ok().unwrap();
    assert!(!all.rcc().fdcan_enabled);
    let c = all.take_enabled(FdCanInstance::FdCan2).ok().unwrap();
    assert_eq!(c.instance(), FdCanInstance::FdCan2);
    assert!(all.rcc().fdcan_enabled && !all.rcc().fdcan_reset);
    assert!(matches!(all.take_enabled(FdCanInstance::FdCan2), Err(Error::PeripheralTaken)));
    assert!(all.take_enabled(FdCanInstance::FdCan3).is_ok());
}

#[test]
fn clock_source_must_run() {
    let mut guard = MessageRamGuard::new();
    let (mut all, _, _) = FdCanInstances::new(&mut guard, ChipFamily::H7, rcc(ClockSource::Hse, false)).ok().unwrap();
    assert!(matches!(all.take_enabled(FdCanInstance::FdCan1), Err(Error::ClockSourceIsDisabled)));
    assert!(all.is_present(FdCanInstance::FdCan1));
}

#[test]
fn enabling_needs_every_channel() {
    let mut guard = MessageRamGuard::new();
    let (mut all, _, _) = FdCanInstances::new(&mut guard, ChipFamily::G0, rcc(ClockSource::Pclk1, false)).ok().unwrap();
    let c = all.take_enabled(FdCanInstance::FdCan1).ok().unwrap();
    assert!(matches!(all.disable(), Err(Error::MissingInstance)));
    assert_eq!(all.put_back(c, FdCanInstance::FdCan1), Ok(()));
    assert_eq!(all.disable(), Ok(()));
    assert!(!all.rcc().fdcan_enabled);
    let c = all.take_enabled(FdCanInstance::FdCan2).ok().unwrap();
    assert_eq!(all.disable(), Err(Error::MissingInstance));
    assert_eq!(all.put_back(c, FdCanInstance::FdCan2), Ok(()));
    let mut empty = FdCanInstances::empty(ChipFamily::G0, rcc(ClockSource::Pclk1, false));
    let mut r = empty.rcc();
    r.fdcan_enabled = false;
    let mut empty2 = FdCanInstances::empty(ChipFamily::G0, r);
    assert!(matches!(empty2.take_enabled(FdCanInstance::FdCan1), Err(Error::MissingInstance)));
    assert!(matches!(empty.take_enabled(FdCanInstance::FdCan1), Err(Error::PeripheralTaken)));
}

#[test]
fn put_back_twice_or_elsewhere_fails() {
    let mut guard = MessageRamGuard::new();
    let (mut all, _, _) = FdCanInstances::new(&mut guard, ChipFamily::H7, rcc(ClockSource::Pclk1, false)).ok().unwrap();
    let c1 = all.take_enabled(FdCanInstance::FdCan1).ok().unwrap();
    let c2 = all.take_enabled(FdCanInstance::FdCan2).ok().unwrap();
    assert_eq!(all.put_back(c1, FdCanInstance::FdCan2), Err(Error::WrongInstance));
    assert_eq!(all.put_back(c2, FdCanInstance::FdCan2), Ok(()));
    let c2 = all.take_enabled(FdCanInstance::FdCan2).ok().unwrap();
    assert_eq!(all.put_back(c2, FdCanInstance::FdCan2), Ok(()));
    let c3 = all.take_enabled(FdCanInstance::FdCan3).ok().unwrap();
    assert_eq!(all.put_back(c3, FdCanInstance::FdCan3), Ok(()));
    let c3 = all.take_enabled(FdCanInstance::FdCan3).ok().unwrap();
    let c3b = c3;
    assert_eq!(all.put_back(c3b, FdCanInstance::FdCan3), Ok(()));
    assert!(all.is_present(FdCanInstance::FdCan3));
}

#[test]
fn g0_has_no_third_channel() {
    let mut guard = MessageRamGuard::new();
    let (mut all, ram, b) = FdCanInstances::new(&mut guard, ChipFamily::G0, rcc(ClockSource::Pclk1, false)).ok().unwrap();
    assert_eq!(b.family(), ChipFamily::G0);
    assert_eq!(ram.words().len(), 512);
    assert_eq!(ram.family(), ChipFamily::G0);
    assert!(!all.is_present(FdCanInstance::FdCan3));
    assert!(matches!(all.take_enabled(FdCanInstance::FdCan3), Err(Error::PeripheralTaken)));
}
