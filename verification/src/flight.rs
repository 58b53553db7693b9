//! The decisions of one tick of flight: landing, the landing ring and flash,
//! the low-fuel warning, and death.
//!
//! The ship's resources (fuel, oxygen, hull), its heading and its motion are
//! real numbers that the caller keeps and updates; what they decide is handed
//! in as booleans. A tick runs in two halves: `begin_tick` decides contact
//! with a planet and what the resources undergo, then, once the caller has
//! applied drains, damage and refills, `end_tick` decides the warning and
//! whether the flight is over.
use vstd::prelude::*;

verus! {

/// The discrete part of a flight's state.
#[derive(Clone, Copy, Debug, PartialEq, Eq, Structural)]
pub struct FlightState {
    /// Resting on a planet.
    pub landed_on: bool,
    /// Ticks spent on the planet since the last touchdown.
    pub landed_ticks: u32,
    /// The flight is over; nothing more happens.
    pub dead: bool,
    /// Counter that paces the blinking of the low-fuel warning.
    pub warn_tick: u32,
}

/// What touching (or not touching) a planet did this tick.
#[derive(Clone, Copy, Debug, PartialEq, Eq, Structural)]
pub enum Contact {
    /// Not touching any planet: the ship flies.
    Clear,
    /// Came down slowly enough: the ship lands and stops.
    Touchdown,
    /// Came down too fast: the hull takes damage and the ship bounces back.
    Bounce,
    /// Already landed and still on the planet.
    Resting,
}

/// The first half of a tick's decisions.
#[derive(Clone, Copy, Debug, PartialEq, Eq, Structural)]
pub struct TickPlan {
    /// Fuel and oxygen drain passively (the ship was flying).
    pub drain: bool,
    /// The landing ring is shown (else hidden).
    pub show_ring: bool,
    /// What contact with a planet did.
    pub contact: Contact,
    /// The ship is landed: fuel, oxygen and hull refill.
    pub refill: bool,
    /// This is the 60th landed tick: the "LANDED" flash is hidden.
    pub hide_flash: bool,
}

/// What becomes of the low-fuel warning this tick.
#[derive(Clone, Copy, Debug, PartialEq, Eq, Structural)]
pub enum Warning {
    /// Blink: flip its visibility.
    Toggle,
    /// Fuel is not low: hide it.
    Hide,
    /// Leave it as it is.
    Keep,
}

/// The second half of a tick's decisions.
#[derive(Clone, Copy, Debug, PartialEq, Eq, Structural)]
pub struct TickEnd {
    pub warning: Warning,
    /// A resource ran out: the flight ends and the game-over scene follows.
    pub game_over: bool,
}

/// Number of landed ticks after which the "LANDED" flash is hidden.
pub const FLASH_TICKS: u32 = 60;

/// Period, in ticks, of the low-fuel warning's blinking.
pub const BLINK_PERIOD: u32 = 30;

/// The state a flight starts in: flying, alive, counters at zero.
pub open spec fn initial_state() -> FlightState {
    FlightState { landed_on: false, landed_ticks: 0, dead: false, warn_tick: 0 }
}

/// What contact with a planet does to a ship that was `landed` before.
pub open spec fn contact_of(landed: bool, on_planet: bool, slow_enough: bool) -> Contact {
    if !on_planet {
        Contact::Clear
    } else if landed {
        Contact::Resting
    } else if slow_enough {
        Contact::Touchdown
    } else {
        Contact::Bounce
    }
}

/// The first half of a tick: `None` for a finished flight, which stays as it
/// is; otherwise the new state and the plan. The ship is landed afterwards
/// when it touches a planet and either was landed or came down slowly; a
/// touchdown starts the landed count afresh, and every landed tick counts.
pub open spec fn begin_spec(
    s: FlightState,
    near_planet: bool,
    on_planet: bool,
    slow_enough: bool,
) -> (FlightState, Option<TickPlan>) {
    if s.dead {
        (s, None)
    } else {
        let landed = on_planet && (s.landed_on || slow_enough);
        let ticks: int = if !landed {
            s.landed_ticks as int
        } else if s.landed_on {
            s.landed_ticks + 1
        } else {
            1
        };
        (
            FlightState { landed_on: landed, landed_ticks: ticks as u32, ..s },
            Some(
                TickPlan {
                    drain: !s.landed_on,
                    show_ring: near_planet && !s.landed_on,
                    contact: contact_of(s.landed_on, on_planet, slow_enough),
                    refill: landed,
                    hide_flash: landed && ticks == FLASH_TICKS,
                },
            ),
        )
    }
}

/// Whether `begin_tick` can count one more landed tick without overflow.
pub open spec fn begin_ok(s: FlightState, on_planet: bool) -> bool {
    (!s.dead && s.landed_on && on_planet) ==> s.landed_ticks < u32::MAX
}

/// The warning counter after one more tick (it wraps around).
pub open spec fn next_warn_tick(t: u32) -> u32 {
    if t == u32::MAX { 0 } else { (t + 1) as u32 }
}

/// The second half of a tick: the warning counter advances; with fuel low
/// the warning blinks whenever the counter reaches a multiple of
/// `BLINK_PERIOD`, with fuel not low it is hidden; a resource that ran out
/// ends the flight.
pub open spec fn end_spec(s: FlightState, fuel_low: bool, exhausted: bool) -> (FlightState, TickEnd) {
    let t = next_warn_tick(s.warn_tick);
    let warning = if fuel_low && t % BLINK_PERIOD == 0 {
        Warning::Toggle
    } else if !fuel_low {
        Warning::Hide
    } else {
        Warning::Keep
    };
    (
        FlightState { warn_tick: t, dead: s.dead || exhausted, ..s },
        TickEnd { warning, game_over: exhausted },
    )
}

/// The colours of the three gauges (fuel, oxygen, hull): each turns to a
/// warning tint when its resource is low.
pub open spec fn tints_spec(fuel_low: bool, oxygen_low: bool, hull_low: bool) -> (
    (u8, u8, u8),
    (u8, u8, u8),
    (u8, u8, u8),
) {
    (
        if fuel_low { (255, 80, 255) } else { (80, 200, 255) },
        if oxygen_low { (255, 80, 160) } else { (80, 255, 160) },
        if hull_low { (255, 40, 80) } else { (255, 120, 80) },
    )
}

impl FlightState {
    /// The state a flight starts in.
    pub fn new() -> (s: FlightState)
        ensures
            s == initial_state(),
    {
        FlightState { landed_on: false, landed_ticks: 0, dead: false, warn_tick: 0 }
    }

    /// The first half of a tick, as `begin_spec` states: given whether the
    /// ship is near a planet (for the landing ring), touching one, and slower
    /// than the safe landing speed.
    pub fn begin_tick(&mut self, near_planet: bool, on_planet: bool, slow_enough: bool) -> (plan:
        Option<TickPlan>)
        requires
            begin_ok(*old(self), on_planet),
        ensures
            (*final(self), plan) == begin_spec(*old(self), near_planet, on_planet, slow_enough),
    {
        if self.dead {
            return None;
        }
        let was_landed = self.landed_on;
        let drain = !was_landed;
        let show_ring = near_planet && !was_landed;
        let contact = if on_planet {
            if !was_landed {
                if slow_enough {
                    self.landed_on = true;
                    self.landed_ticks = 0;
                    Contact::Touchdown
                } else {
                    Contact::Bounce
                }
            } else {
                Contact::Resting
            }
        } else {
            self.landed_on = false;
            Contact::Clear
        };
        let mut hide_flash = false;
        if self.landed_on {
            self.landed_ticks = self.landed_ticks + 1;
            if self.landed_ticks == FLASH_TICKS {
                hide_flash = true;
            }
        }
        Some(TickPlan { drain, show_ring, contact, refill: self.landed_on, hide_flash })
    }

    /// The second half of a tick, as `end_spec` states: given whether fuel is
    /// below the warning level and whether fuel, oxygen or hull ran out.
    pub fn end_tick(&mut self, fuel_low: bool, exhausted: bool) -> (end: TickEnd)
        ensures
            (*final(self), end) == end_spec(*old(self), fuel_low, exhausted),
    {
        self.warn_tick = self.warn_tick.wrapping_add(1);
        let warning = if fuel_low && self.warn_tick % BLINK_PERIOD == 0 {
            Warning::Toggle
        } else if !fuel_low {
            Warning::Hide
        } else {
            Warning::Keep
        };
        if exhausted {
            self.dead = true;
        }
        TickEnd { warning, game_over: exhausted }
    }
}

/// The gauge colours, as `tints_spec` states.
pub fn gauge_tints(fuel_low: bool, oxygen_low: bool, hull_low: bool) -> (t: (
    (u8, u8, u8),
    (u8, u8, u8),
    (u8, u8, u8),
))
    ensures
        t == tints_spec(fuel_low, oxygen_low, hull_low),
{
    let fuel_r: u8 = if fuel_low { 255 } else { 80 };
    let fuel_g: u8 = if fuel_low { 80 } else { 200 };
    let oxy_r: u8 = if oxygen_low { 255 } else { 80 };
    let oxy_g: u8 = if oxygen_low { 80 } else { 255 };
    let hull_g: u8 = if hull_low { 40 } else { 120 };
    ((fuel_r, fuel_g, 255), (oxy_r, oxy_g, 160), (255, hull_g, 80))
}

/// The states that a ship touching a planet passes through, one tick after
/// another, with `slow[i]` telling whether it was slow enough on tick `i`.
pub open spec fn on_planet_for(s: FlightState, slow: Seq<bool>) -> FlightState
    decreases slow.len(),
{
    if slow.len() == 0 {
        s
    } else {
        begin_spec(on_planet_for(s, slow.drop_last()), false, true, slow.last()).0
    }
}

/// The state after `k` second halves of a tick with fuel low and nothing
/// exhausted.
pub open spec fn low_fuel_for(s: FlightState, k: nat) -> FlightState
    decreases k,
{
    if k == 0 {
        s
    } else {
        end_spec(low_fuel_for(s, (k - 1) as nat), true, false).0
    }
}

/// A finished flight stays finished: the first half of a tick leaves it
/// unchanged and plans nothing, and the second half keeps it dead.
pub proof fn lemma_finished_flight_stays_finished(
    s: FlightState,
    near_planet: bool,
    on_planet: bool,
    slow_enough: bool,
    fuel_low: bool,
    exhausted: bool,
)
    requires
        s.dead,
    ensures
        begin_spec(s, near_planet, on_planet, slow_enough) == (s, None::<TickPlan>),
        end_spec(s, fuel_low, exhausted).0.dead,
{
}

/// A flying ship lands only by touching a planet slowly enough, and then the
/// plan says so.
pub proof fn lemma_lands_only_by_slow_touchdown(
    s: FlightState,
    near_planet: bool,
    on_planet: bool,
    slow_enough: bool,
)
    requires
        !s.dead,
        !s.landed_on,
        begin_spec(s, near_planet, on_planet, slow_enough).0.landed_on,
    ensures
        on_planet,
        slow_enough,
        begin_spec(s, near_planet, on_planet, slow_enough).1 matches Some(plan) && plan.contact
            == Contact::Touchdown && plan.refill,
{
}

/// A ship that touches no planet is flying after the tick.
pub proof fn lemma_no_contact_means_flight(s: FlightState, near_planet: bool, slow_enough: bool)
    requires
        !s.dead,
    ensures
        !begin_spec(s, near_planet, false, slow_enough).0.landed_on,
{
}

/// Resources drain exactly when the ship was flying as the tick began, and
/// refill only when it touched down or rests on a planet (on a touchdown
/// tick both happen).
pub proof fn lemma_drain_and_refill_conditions(
    s: FlightState,
    near_planet: bool,
    on_planet: bool,
    slow_enough: bool,
)
    requires
        !s.dead,
    ensures
        begin_spec(s, near_planet, on_planet, slow_enough).1 matches Some(plan) && (plan.drain
            <==> !s.landed_on) && (plan.refill ==> (plan.contact == Contact::Touchdown
            || plan.contact == Contact::Resting)),
{
}

/// A landed ship always has at least one landed tick counted: the start
/// state has it, and neither half of a tick breaks it.
pub proof fn lemma_landed_ticks_positive(
    s: FlightState,
    near_planet: bool,
    on_planet: bool,
    slow_enough: bool,
    fuel_low: bool,
    exhausted: bool,
)
    requires
        s.landed_on ==> s.landed_ticks >= 1,
        begin_ok(s, on_planet),
    ensures
        initial_state().landed_on ==> initial_state().landed_ticks >= 1,
        begin_spec(s, near_planet, on_planet, slow_enough).0.landed_on ==> begin_spec(
            s,
            near_planet,
            on_planet,
            slow_enough,
        ).0.landed_ticks >= 1,
        end_spec(s, fuel_low, exhausted).0.landed_on ==> end_spec(s, fuel_low, exhausted).0.landed_ticks
            >= 1,
{
}

/// Once landed, the ship stays landed while it touches the planet, however
/// fast it is, and every such tick counts one more landed tick.
pub proof fn lemma_resting_counts_ticks(s: FlightState, slow: Seq<bool>)
    requires
        !s.dead,
        s.landed_on,
        s.landed_ticks + slow.len() <= u32::MAX,
    ensures
        on_planet_for(s, slow).landed_on,
        !on_planet_for(s, slow).dead,
        on_planet_for(s, slow).landed_ticks == s.landed_ticks + slow.len(),
    decreases slow.len(),
{
    if slow.len() > 0 {
        lemma_resting_counts_ticks(s, slow.drop_last());
    }
}

/// After a touchdown, the "LANDED" flash is hidden on exactly the
/// `FLASH_TICKS`-th tick on the planet: the tick that follows `k` more ticks
/// there hides it exactly when `k + 2 == FLASH_TICKS`.
pub proof fn lemma_flash_hidden_on_sixtieth_tick(
    s: FlightState,
    near_planet: bool,
    slow: Seq<bool>,
    slow_enough: bool,
)
    requires
        !s.dead,
        !s.landed_on,
        slow.len() < FLASH_TICKS,
    ensures
        ({
            let landed = begin_spec(s, near_planet, true, true).0;
            let rested = on_planet_for(landed, slow);
            begin_spec(rested, near_planet, true, slow_enough).1 matches Some(plan) && (
            plan.hide_flash <==> slow.len() + 2 == FLASH_TICKS)
        }),
{
    let landed = begin_spec(s, near_planet, true, true).0;
    lemma_resting_counts_ticks(landed, slow);
}

/// With fuel low, the warning counter advances by one each tick, and the
/// warning blinks exactly on the ticks where it reaches a multiple of
/// `BLINK_PERIOD` (so every `BLINK_PERIOD` ticks), as long as the counter does
/// not wrap around.
pub proof fn lemma_warning_blink_period(s: FlightState, k: nat)
    requires
        s.warn_tick + k < u32::MAX,
    ensures
        low_fuel_for(s, k).warn_tick == s.warn_tick + k,
        end_spec(low_fuel_for(s, k), true, false).1.warning == Warning::Toggle <==> (s.warn_tick + k
            + 1) % (BLINK_PERIOD as int) == 0,
        end_spec(low_fuel_for(s, k), true, false).1.warning != Warning::Hide,
    decreases k,
{
    if k > 0 {
        lemma_warning_blink_period(s, (k - 1) as nat);
    }
}

/// A player input, or an asteroid collision, as its handler receives it.
#[derive(Clone, Copy, Debug, PartialEq, Eq, Structural)]
pub enum Control {
    RotateLeft,
    RotateRight,
    /// Thrust; `fuel_left` tells whether any fuel remains.
    Thrust { fuel_left: bool },
    Brake,
    /// An asteroid collision event; `confirmed` tells whether the player
    /// really overlaps an asteroid.
    AsteroidHit { confirmed: bool },
}

/// Whether the ship responds to `c`: a landed ship ignores every control and
/// every collision; thrust needs fuel, and a collision must be confirmed.
pub open spec fn responds_spec(s: FlightState, c: Control) -> bool {
    !s.landed_on && match c {
        Control::Thrust { fuel_left } => fuel_left,
        Control::AsteroidHit { confirmed } => confirmed,
        _ => true,
    }
}

impl FlightState {
    /// Whether the ship responds to `c`, as `responds_spec` states.
    pub fn responds_to(&self, c: Control) -> (r: bool)
        ensures
            r == responds_spec(*self, c),
    {
        if self.landed_on {
            return false;
        }
        match c {
            Control::Thrust { fuel_left } => fuel_left,
            Control::AsteroidHit { confirmed } => confirmed,
            _ => true,
        }
    }
}

/// A landed ship ignores every control and every asteroid collision.
pub proof fn lemma_landed_ignores_controls(s: FlightState, c: Control)
    requires
        s.landed_on,
    ensures
        !responds_spec(s, c),
{
}

/// A ship that is already landed and still touches the planet rests there,
/// however slow or fast it reads: no new touchdown (so no second flash), no
/// bounce, one more landed tick, and a refill.
pub proof fn lemma_landed_ship_rests(
    s: FlightState,
    near_planet: bool,
    slow_enough: bool,
)
    requires
        !s.dead,
        s.landed_on,
        s.landed_ticks < u32::MAX,
    ensures
        begin_spec(s, near_planet, true, slow_enough).1 matches Some(p) && p.contact
            == Contact::Resting && p.refill && !p.drain && !p.show_ring,
        begin_spec(s, near_planet, true, slow_enough).0.landed_on,
        begin_spec(s, near_planet, true, slow_enough).0.landed_ticks == s.landed_ticks + 1,
{
}

/// A touchdown happens only to a live ship that was flying, touches a planet
/// and is slow enough; it lands the ship with a fresh count of one tick.
pub proof fn lemma_touchdown_only_from_flight(
    s: FlightState,
    near_planet: bool,
    on_planet: bool,
    slow_enough: bool,
)
    requires
        begin_spec(s, near_planet, on_planet, slow_enough).1 matches Some(p) && p.contact
            == Contact::Touchdown,
    ensures
        !s.dead,
        !s.landed_on,
        on_planet,
        slow_enough,
        begin_spec(s, near_planet, on_planet, slow_enough).0.landed_on,
        begin_spec(s, near_planet, on_planet, slow_enough).0.landed_ticks == 1,
{
}

/// Running out of a resource always ends the flight, whatever the fuel
/// reads; and a flight ends only that way.
pub proof fn lemma_exhaustion_ends_flight(s: FlightState, fuel_low: bool, exhausted: bool)
    ensures
        end_spec(s, fuel_low, exhausted).1.game_over == exhausted,
        exhausted ==> end_spec(s, fuel_low, exhausted).0.dead,
        !exhausted ==> end_spec(s, fuel_low, exhausted).0.dead == s.dead,
        end_spec(s, fuel_low, exhausted).0.landed_on == s.landed_on,
        end_spec(s, fuel_low, exhausted).0.landed_ticks == s.landed_ticks,
{
}

/// Each gauge's tint depends on its own resource alone, and a low resource
/// always changes its gauge's tint: fuel turns from (80, 200, 255) to
/// (255, 80, 255), oxygen from (80, 255, 160) to (255, 80, 160), hull from
/// (255, 120, 80) to (255, 40, 80).
pub proof fn lemma_gauge_tints_own_resource(
    f: bool,
    o: bool,
    h: bool,
    f2: bool,
    o2: bool,
    h2: bool,
)
    ensures
        tints_spec(f, o, h).0 == tints_spec(f, o2, h2).0,
        tints_spec(f, o, h).1 == tints_spec(f2, o, h2).1,
        tints_spec(f, o, h).2 == tints_spec(f2, o2, h).2,
        tints_spec(true, o, h).0 != tints_spec(false, o, h).0,
        tints_spec(f, true, h).1 != tints_spec(f, false, h).1,
        tints_spec(f, o, true).2 != tints_spec(f, o, false).2,
        tints_spec(f, o, h).0 == (if f { (255u8, 80u8, 255u8) } else { (80u8, 200u8, 255u8) }),
        tints_spec(f, o, h).1 == (if o { (255u8, 80u8, 160u8) } else { (80u8, 255u8, 160u8) }),
        tints_spec(f, o, h).2 == (if h { (255u8, 40u8, 80u8) } else { (255u8, 120u8, 80u8) }),
{
}

} // verus!
