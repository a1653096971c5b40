use rdsmath::util::clampi;
use rdsmath::util::clampu;
use rdsmath::util::maxi;
use rdsmath::util::maxu;
use rdsmath::util::mini;
use rdsmath::util::minu;

#[test]
fn mini_picks_the_smaller() {
    assert_eq!(mini(2, 3), 2);
    assert_eq!(mini(3, 2), 2);
    assert_eq!(mini(-4, 4), -4);
    assert_eq!(mini(i32::MIN, i32::MAX), i32::MIN);
    assert_eq!(mini(7, 7), 7);
}

#[test]
fn maxi_picks_the_larger() {
    assert_eq!(maxi(2, 3), 3);
    assert_eq!(maxi(3, 2), 3);
    assert_eq!(maxi(-4, 4), 4);
    assert_eq!(maxi(i32::MIN, i32::MAX), i32::MAX);
    assert_eq!(maxi(7, 7), 7);
}

#[test]
fn clampi_lands_in_the_interval() {
    assert_eq!(clampi(10, 0, 5), 5);
    assert_eq!(clampi(-10, 0, 5), 0);
    assert_eq!(clampi(3, 0, 5), 3);
    assert_eq!(clampi(0, 0, 5), 0);
    assert_eq!(clampi(5, 0, 5), 5);
    assert_eq!(clampi(i32::MIN, -1, 1), -1);
    assert_eq!(clampi(i32::MAX, -1, 1), 1);
    for x in [-100, -3, 0, 2, 7, 100] {
        let r = clampi(x, -3, 7);
        assert!(-3 <= r && r <= 7);
    }
}

#[test]
fn minu_picks_the_smaller() {
    assert_eq!(minu(2, 3), 2);
    assert_eq!(minu(3, 2), 2);
    assert_eq!(minu(0, u32::MAX), 0);
    assert_eq!(minu(9, 9), 9);
}

#[test]
fn maxu_picks_the_larger() {
    assert_eq!(maxu(2, 3), 3);
    assert_eq!(maxu(3, 2), 3);
    assert_eq!(maxu(0, u32::MAX), u32::MAX);
    assert_eq!(maxu(9, 9), 9);
}

#[test]
fn clampu_lands_in_the_interval() {
    assert_eq!(clampu(10, 0, 5), 5);
    assert_eq!(clampu(3, 4, 9), 4);
    assert_eq!(clampu(6, 4, 9), 6);
    assert_eq!(clampu(u32::MAX, 4, 9), 9);
    for x in [0u32, 3, 4, 8, 9, 1_000_000] {
        let r = clampu(x, 4, 9);
        assert!(4 <= r && r <= 9);
    }
}
