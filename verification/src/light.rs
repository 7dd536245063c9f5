//! The player lights and the HOME button light.
use vstd::prelude::*;
use vstd::std_specs::convert::FromSpecImpl;

verus! {

/// The four player lights: bits 0 to 3 turn them on, bits 4 to 7 make them
/// blink.
#[derive(Copy, Clone, Debug)]
pub struct PlayerLights(pub u8);

/// 1 if the light is in state `s`, else 0.
pub open spec fn light_bit(p: PlayerLight, s: PlayerLight) -> int {
    if p == s {
        1
    } else {
        0
    }
}

fn light_bit_exec(p: PlayerLight, s: PlayerLight) -> (r: u8)
    ensures
        r == light_bit(p, s),
{
    if p == s {
        1
    } else {
        0
    }
}

impl PlayerLights {
    pub fn new(p0: PlayerLight, p1: PlayerLight, p2: PlayerLight, p3: PlayerLight) -> (r: PlayerLights)
        ensures
            r.0 == light_bit(p0, PlayerLight::On) + 2 * light_bit(p1, PlayerLight::On) + 4 * light_bit(
                p2,
                PlayerLight::On,
            ) + 8 * light_bit(p3, PlayerLight::On) + 16 * light_bit(p0, PlayerLight::Blinking) + 32
                * light_bit(p1, PlayerLight::Blinking) + 64 * light_bit(p2, PlayerLight::Blinking)
                + 128 * light_bit(p3, PlayerLight::Blinking),
    {
        let on = light_bit_exec(p0, PlayerLight::On) + 2 * light_bit_exec(p1, PlayerLight::On) + 4
            * light_bit_exec(p2, PlayerLight::On) + 8 * light_bit_exec(p3, PlayerLight::On);
        let blinking = light_bit_exec(p0, PlayerLight::Blinking) + 2 * light_bit_exec(
            p1,
            PlayerLight::Blinking,
        ) + 4 * light_bit_exec(p2, PlayerLight::Blinking) + 8 * light_bit_exec(
            p3,
            PlayerLight::Blinking,
        );
        PlayerLights(on + 16 * blinking)
    }
}

/// The state of one player light.
#[derive(Debug, Copy, Clone, PartialEq, Eq, Structural)]
pub enum PlayerLight {
    Off,
    Blinking,
    On,
}

impl From<bool> for PlayerLight {
    fn from(b: bool) -> (r: Self) {
        if b {
            PlayerLight::On
        } else {
            PlayerLight::Off
        }
    }
}

impl FromSpecImpl<bool> for PlayerLight {
    open spec fn obeys_from_spec() -> bool {
        true
    }

    open spec fn from_spec(b: bool) -> PlayerLight {
        if b {
            PlayerLight::On
        } else {
            PlayerLight::Off
        }
    }
}

/// The high nibble of a byte.
pub open spec fn hi(b: u8) -> u8 {
    b / 16
}

/// The low nibble of a byte.
pub open spec fn lo(b: u8) -> u8 {
    b % 16
}

/// A byte whose high nibble is `h` and low nibble `l`.
pub open spec fn nibbles(h: u8, l: u8) -> u8 {
    (h * 16 + l) as u8
}

/// Number of mini cycles (high nibble) and their duration (low nibble).
#[derive(Copy, Clone, Debug)]
pub struct Settings1(pub u8);

impl Settings1 {
    pub fn nb_mini_cycles(&self) -> (r: u8)
        ensures
            r == hi(self.0),
    {
        self.0 / 16
    }

    pub fn set_nb_mini_cycles(&mut self, v: u8)
        requires
            v < 16,
        ensures
            final(self).0 == nibbles(v, lo(old(self).0)),
    {
        self.0 = v * 16 + self.0 % 16;
    }

    pub fn mini_cycle_duration(&self) -> (r: u8)
        ensures
            r == lo(self.0),
    {
        self.0 % 16
    }

    pub fn set_mini_cycle_duration(&mut self, v: u8)
        requires
            v < 16,
        ensures
            final(self).0 == nibbles(hi(old(self).0), v),
    {
        self.0 = (self.0 / 16) * 16 + v;
    }
}

/// Starting intensity (high nibble) and number of full cycles (low nibble).
#[derive(Copy, Clone, Debug)]
pub struct Settings2(pub u8);

impl Settings2 {
    pub fn led_start_intensity(&self) -> (r: u8)
        ensures
            r == hi(self.0),
    {
        self.0 / 16
    }

    pub fn set_led_start_intensity(&mut self, v: u8)
        requires
            v < 16,
        ensures
            final(self).0 == nibbles(v, lo(old(self).0)),
    {
        self.0 = v * 16 + self.0 % 16;
    }

    pub fn nb_full_cycles(&self) -> (r: u8)
        ensures
            r == lo(self.0),
    {
        self.0 % 16
    }

    pub fn set_nb_full_cycles(&mut self, v: u8)
        requires
            v < 16,
        ensures
            final(self).0 == nibbles(hi(old(self).0), v),
    {
        self.0 = (self.0 / 16) * 16 + v;
    }
}

/// Intensities of the two mini cycles of an entry: first in the high nibble.
#[derive(Copy, Clone, Debug)]
pub struct Intensity(pub u8);

impl Intensity {
    pub fn first(&self) -> (r: u8)
        ensures
            r == hi(self.0),
    {
        self.0 / 16
    }

    pub fn set_first(&mut self, v: u8)
        requires
            v < 16,
        ensures
            final(self).0 == nibbles(v, lo(old(self).0)),
    {
        self.0 = v * 16 + self.0 % 16;
    }

    pub fn second(&self) -> (r: u8)
        ensures
            r == lo(self.0),
    {
        self.0 % 16
    }

    pub fn set_second(&mut self, v: u8)
        requires
            v < 16,
        ensures
            final(self).0 == nibbles(hi(old(self).0), v),
    {
        self.0 = (self.0 / 16) * 16 + v;
    }
}

/// Fading transition (high nibble) and duration (low nibble) of a mini cycle.
#[derive(Copy, Clone, Debug)]
pub struct Durations(pub u8);

impl Durations {
    pub fn fading_transition(&self) -> (r: u8)
        ensures
            r == hi(self.0),
    {
        self.0 / 16
    }

    pub fn set_fading_transition(&mut self, v: u8)
        requires
            v < 16,
        ensures
            final(self).0 == nibbles(v, lo(old(self).0)),
    {
        self.0 = v * 16 + self.0 % 16;
    }

    pub fn led_duration(&self) -> (r: u8)
        ensures
            r == lo(self.0),
    {
        self.0 % 16
    }

    pub fn set_led_duration(&mut self, v: u8)
        requires
            v < 16,
        ensures
            final(self).0 == nibbles(hi(old(self).0), v),
    {
        self.0 = (self.0 / 16) * 16 + v;
    }
}

/// Setting a nibble and reading it back gives the value set, and the other
/// nibble of the byte is left as it was.
pub proof fn law_nibble_set_get(b: u8, v: u8)
    requires
        v < 16,
    ensures
        hi(nibbles(v, lo(b))) == v,
        lo(nibbles(v, lo(b))) == lo(b),
        lo(nibbles(hi(b), v)) == v,
        hi(nibbles(hi(b), v)) == hi(b),
{
}

/// One entry of the HOME light pattern: two mini cycles.
#[derive(Copy, Clone, Debug)]
pub struct HomeLightCycle {
    pub intensity: Intensity,
    pub first_duration: Durations,
    pub second_duration: Durations,
}

impl Default for HomeLightCycle {
    fn default() -> (r: Self)
        ensures
            r.intensity.0 == 0,
            r.first_duration.0 == 0,
            r.second_duration.0 == 0,
    {
        HomeLightCycle { intensity: Intensity(0), first_duration: Durations(0), second_duration: Durations(0) }
    }
}

/// A pattern for the HOME button light.
#[derive(Copy, Clone, Debug)]
pub struct HomeLight {
    pub s1: Settings1,
    pub s2: Settings2,
    pub cycles: [HomeLightCycle; 8],
}

/// Whether every field of the mini cycles fits in a nibble.
pub open spec fn cycles_fit(led_cycles: Seq<(u8, u8, u8)>) -> bool {
    forall|j: int|
        0 <= j < led_cycles.len() ==> #[trigger] led_cycles[j].0 < 16 && led_cycles[j].1 < 16
            && led_cycles[j].2 < 16
}

/// Entry `i` of the pattern made of the mini cycles `c`: mini cycles `2i` and
/// `2i + 1`, each present or left at zero.
pub open spec fn cycle_entry(c: Seq<(u8, u8, u8)>, i: int) -> (u8, u8, u8) {
    let first = 2 * i;
    let second = 2 * i + 1;
    (
        if first < c.len() {
            nibbles(c[first].0, if second < c.len() { c[second].0 } else { 0 })
        } else {
            0
        },
        if first < c.len() {
            nibbles(c[first].1, c[first].2)
        } else {
            0
        },
        if second < c.len() {
            nibbles(c[second].1, c[second].2)
        } else {
            0
        },
    )
}

impl HomeLight {
    /// The pattern with the given settings and mini cycles, each given as
    /// (intensity, fading transition, duration).
    pub fn new(
        mini_cycle_duration: u8,
        led_start_intensity: u8,
        nb_full_cycles: u8,
        led_cycles: &[(u8, u8, u8)],
    ) -> (r: HomeLight)
        requires
            led_cycles@.len() <= 15,
            mini_cycle_duration <= 0xf,
            led_start_intensity <= 0xf,
            nb_full_cycles <= 0xf,
            cycles_fit(led_cycles@),
        ensures
            r.s1.0 == nibbles(led_cycles@.len() as u8, mini_cycle_duration),
            r.s2.0 == nibbles(led_start_intensity, nb_full_cycles),
            forall|i: int|
                0 <= i < 8 ==> (#[trigger] r.cycles[i].intensity.0, r.cycles[i].first_duration.0,
                r.cycles[i].second_duration.0) == cycle_entry(led_cycles@, i),
    {
        let mut s1 = Settings1(0);
        s1.set_nb_mini_cycles(led_cycles.len() as u8);
        s1.set_mini_cycle_duration(mini_cycle_duration);

        let mut s2 = Settings2(0);
        s2.set_led_start_intensity(led_start_intensity);
        s2.set_nb_full_cycles(nb_full_cycles);

        let mut cycles = [HomeLightCycle::default();8];
        let len = led_cycles.len();
        let mut i: usize = 0;
        while 2 * i < len
            invariant
                len == led_cycles@.len() <= 15,
                cycles_fit(led_cycles@),
                i <= 8,
                2 * i <= len + 1,
                forall|k: int|
                    0 <= k < i ==> (#[trigger] cycles[k].intensity.0, cycles[k].first_duration.0,
                    cycles[k].second_duration.0) == cycle_entry(led_cycles@, k),
                forall|k: int|
                    i <= k < 8 ==> (#[trigger] cycles[k].intensity.0, cycles[k].first_duration.0,
                    cycles[k].second_duration.0) == (0u8, 0u8, 0u8),
            decreases len + 1 - 2 * i,
        {
            let c1 = led_cycles[2 * i];
            let mut entry = HomeLightCycle::default();
            entry.intensity.set_first(c1.0);
            entry.first_duration.set_fading_transition(c1.1);
            entry.first_duration.set_led_duration(c1.2);
            if 2 * i + 1 < len {
                let c2 = led_cycles[2 * i + 1];
                entry.intensity.set_second(c2.0);
                entry.second_duration.set_fading_transition(c2.1);
                entry.second_duration.set_led_duration(c2.2);
            }
            cycles[i] = entry;
            i += 1;
        }
        HomeLight { s1, s2, cycles }
    }

    /// The 26 bytes of the pattern on the wire.
    pub open spec fn spec_bytes(self) -> Seq<u8> {
        Seq::new(
            26,
            |j: int|
                if j == 0 {
                    self.s1.0
                } else if j == 1 {
                    self.s2.0
                } else if (j - 2) % 3 == 0 {
                    self.cycles[(j - 2) / 3].intensity.0
                } else if (j - 2) % 3 == 1 {
                    self.cycles[(j - 2) / 3].first_duration.0
                } else {
                    self.cycles[(j - 2) / 3].second_duration.0
                },
        )
    }

    /// The 26 bytes of the pattern on the wire.
    pub fn bytes(&self) -> (r: [u8; 26])
        ensures
            r@ == self.spec_bytes(),
    {
        let mut r = [0u8; 26];
        r[0] = self.s1.0;
        r[1] = self.s2.0;
        let mut k: usize = 0;
        while k < 8
            invariant
                k <= 8,
                r@.len() == 26,
                r@[0] == self.s1.0,
                r@[1] == self.s2.0,
                forall|j: int| 2 <= j < 2 + 3 * k ==> r@[j] == #[trigger] self.spec_bytes()[j],
            decreases 8 - k,
        {
            let c = self.cycles[k];
            r[2 + 3 * k] = c.intensity.0;
            r[3 + 3 * k] = c.first_duration.0;
            r[4 + 3 * k] = c.second_duration.0;
            k += 1;
        }
        assert(r@ =~= self.spec_bytes());
        r
    }
}

} // verus!
