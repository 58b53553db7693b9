use lander::flight::{gauge_tints, Contact, Control, FlightState, TickEnd, TickPlan, Warning};

fn flying() -> FlightState {
    FlightState::new()
}

#[test]
fn new_flight_is_airborne_and_alive() {
    let s = FlightState::new();
    assert_eq!(s, FlightState { landed_on: false, landed_ticks: 0, dead: false, warn_tick: 0 });
}

#[test]
fn flying_far_from_planets() {
    let mut s = flying();
    let plan = s.begin_tick(false, false, true).unwrap();
    assert_eq!(
        plan,
        TickPlan { drain: true, show_ring: false, contact: Contact::Clear, refill: false, hide_flash: false }
    );
    assert!(!s.landed_on);
}

#[test]
fn ring_shows_near_a_planet_in_flight() {
    let mut s = flying();
    let plan = s.begin_tick(true, false, false).unwrap();
    assert!(plan.show_ring);
}

#[test]
fn slow_touchdown_lands_and_refills() {
    let mut s = flying();
    let plan = s.begin_tick(true, true, true).unwrap();
    assert_eq!(
        plan,
        TickPlan { drain: true, show_ring: true, contact: Contact::Touchdown, refill: true, hide_flash: false }
    );
    assert!(s.landed_on);
    assert_eq!(s.landed_ticks, 1);
    // landed: no ring, no drain
    let plan = s.begin_tick(true, true, false).unwrap();
    assert_eq!(
        plan,
        TickPlan { drain: false, show_ring: false, contact: Contact::Resting, refill: true, hide_flash: false }
    );
    assert_eq!(s.landed_ticks, 2);
}

#[test]
fn fast_touchdown_bounces() {
    let mut s = flying();
    s.landed_ticks = 17;
    let plan = s.begin_tick(false, true, false).unwrap();
    assert_eq!(plan.contact, Contact::Bounce);
    assert!(!plan.refill);
    assert!(!s.landed_on);
    assert_eq!(s.landed_ticks, 17);
}

#[test]
fn leaving_the_planet_takes_off() {
    let mut s = flying();
    s.begin_tick(false, true, true);
    assert!(s.landed_on);
    let plan = s.begin_tick(false, false, false).unwrap();
    assert_eq!(plan.contact, Contact::Clear);
    assert!(!plan.drain);
    assert!(!s.landed_on);
    let plan = s.begin_tick(false, false, false).unwrap();
    assert!(plan.drain);
}

#[test]
fn flash_hidden_on_sixtieth_landed_tick_only() {
    let mut s = flying();
    let mut hidden_at = Vec::new();
    for tick in 1..=200u32 {
        let plan = s.begin_tick(false, true, true).unwrap();
        if plan.hide_flash {
            hidden_at.push(tick);
        }
    }
    assert_eq!(hidden_at, vec![60]);
    assert_eq!(s.landed_ticks, 200);
}

#[test]
fn relanding_restarts_the_count() {
    let mut s = flying();
    for _ in 0..30 {
        s.begin_tick(false, true, true);
    }
    s.begin_tick(false, false, true);
    s.begin_tick(false, true, true);
    assert_eq!(s.landed_ticks, 1);
}

#[test]
fn finished_flight_does_nothing() {
    let mut s = flying();
    s.dead = true;
    s.landed_on = true;
    let before = s;
    assert_eq!(s.begin_tick(true, true, true), None);
    assert_eq!(s, before);
    let end = s.end_tick(false, false);
    assert!(s.dead);
    assert!(!end.game_over);
}

#[test]
fn exhaustion_ends_the_flight() {
    let mut s = flying();
    let end = s.end_tick(false, true);
    assert_eq!(end, TickEnd { warning: Warning::Hide, game_over: true });
    assert!(s.dead);
    assert_eq!(s.begin_tick(false, false, false), None);
}

#[test]
fn warning_blinks_every_thirty_ticks_while_fuel_is_low() {
    let mut s = flying();
    let mut toggles = Vec::new();
    for tick in 1..=95u32 {
        let end = s.end_tick(true, false);
        assert_ne!(end.warning, Warning::Hide);
        if end.warning == Warning::Toggle {
            toggles.push(tick);
        }
    }
    assert_eq!(toggles, vec![30, 60, 90]);
    assert_eq!(s.warn_tick, 95);
}

#[test]
fn warning_hidden_when_fuel_is_fine() {
    let mut s = flying();
    s.warn_tick = 29;
    let end = s.end_tick(false, false);
    assert_eq!(end.warning, Warning::Hide);
    assert_eq!(s.warn_tick, 30);
}

#[test]
fn warning_counter_wraps() {
    let mut s = flying();
    s.warn_tick = u32::MAX;
    let end = s.end_tick(true, false);
    assert_eq!(s.warn_tick, 0);
    assert_eq!(end.warning, Warning::Toggle);
    s.warn_tick = 100;
    assert_eq!(s.end_tick(true, false).warning, Warning::Keep);
}

#[test]
fn gauge_tints_normal_and_low() {
    assert_eq!(gauge_tints(false, false, false), ((80, 200, 255), (80, 255, 160), (255, 120, 80)));
    assert_eq!(gauge_tints(true, true, true), ((255, 80, 255), (255, 80, 160), (255, 40, 80)));
    assert_eq!(gauge_tints(true, false, true), ((255, 80, 255), (80, 255, 160), (255, 40, 80)));
}

#[test]
fn controls_ignored_while_landed() {
    let mut s = flying();
    assert!(s.responds_to(Control::RotateLeft));
    assert!(s.responds_to(Control::RotateRight));
    assert!(s.responds_to(Control::Brake));
    assert!(s.responds_to(Control::Thrust { fuel_left: true }));
    assert!(!s.responds_to(Control::Thrust { fuel_left: false }));
    assert!(s.responds_to(Control::AsteroidHit { confirmed: true }));
    assert!(!s.responds_to(Control::AsteroidHit { confirmed: false }));
    s.begin_tick(false, true, true);
    assert!(!s.responds_to(Control::RotateLeft));
    assert!(!s.responds_to(Control::Brake));
    assert!(!s.responds_to(Control::Thrust { fuel_left: true }));
    assert!(!s.responds_to(Control::AsteroidHit { confirmed: true }));
}
