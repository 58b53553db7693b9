use lander::rng::lcg_step;

#[test]
fn lcg_step_from_zero_seed() {
    let mut seed: u64 = 0;
    assert_eq!(lcg_step(&mut seed), 167951807);
    assert_eq!(seed, 1442695040888963407);
    assert_eq!(lcg_step(&mut seed), 218396424);
    assert_eq!(seed, 1876011003808476466);
    assert_eq!(lcg_step(&mut seed), 1299921937);
    assert_eq!(seed, 11166244414315200793);
}

#[test]
fn lcg_step_from_menu_seed() {
    let mut seed: u64 = 0xCAFE_BABE;
    assert_eq!(lcg_step(&mut seed), 399558840);
    assert_eq!(seed, 3432184301748786869);
    assert_eq!(lcg_step(&mut seed), 636316572);
    assert_eq!(lcg_step(&mut seed), 1039752900);
}

#[test]
fn lcg_step_from_world_seed() {
    let mut seed: u64 = 0x1234_5678_9ABC_DEF0;
    assert_eq!(lcg_step(&mut seed), 1357925089);
    assert_eq!(seed, 11664487699085246847);
    assert_eq!(lcg_step(&mut seed), 226750803);
    assert_eq!(lcg_step(&mut seed), 641865267);
}

#[test]
fn lcg_step_wraps_at_the_top() {
    let mut seed: u64 = u64::MAX;
    assert_eq!(lcg_step(&mut seed), 1574552488);
    assert_eq!(seed, 13525302890751722018);
}

#[test]
fn lcg_step_is_deterministic_and_below_two_to_the_31() {
    let mut a: u64 = 42;
    let mut b: u64 = 42;
    for _ in 0..1000 {
        let x = lcg_step(&mut a);
        let y = lcg_step(&mut b);
        assert_eq!(x, y);
        assert_eq!(a, b);
        assert!(x < 0x8000_0000);
        assert_eq!(x as u64, a >> 33);
    }
}
