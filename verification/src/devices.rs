//! The devices and their shared capability.
//!
//! Every device exposes exactly two operations, `on_button_pressed` and
//! `off_button_pressed`.  The trait [`RemoteControllable`] states each
//! operation's effect on the device's view through two spec functions, so
//! code generic over the device type still knows exactly what state a
//! button press produces.

use vstd::prelude::*;

verus! {

/// The abstract state of a [`Stereo`]: its volume level.
pub struct StereoState {
    pub level: u16,
}

/// The abstract state of a [`HotTub`]: whether its bubbles and its heater
/// are running.
pub struct HotTubState {
    pub bubbles_on: bool,
    pub heat_on: bool,
}

/// The capability set shared by all devices: one operation that drives the
/// device into its "on" state and one that drives it toward "off".  The two
/// spec functions pin down, per device type, exactly which state each
/// operation produces, so the contracts of generic code lose nothing.
pub trait RemoteControllable: View + Sized {
    /// The state one press of the on button drives a device into.
    spec fn activated(v: Self::V) -> Self::V;

    /// The state one press of the off button drives a device into.
    spec fn deactivated(v: Self::V) -> Self::V;

    /// Drives the device into its "on" state.
    fn on_button_pressed(&mut self)
        ensures
            final(self)@ == Self::activated(old(self)@),
    ;

    /// Drives the device toward its "off" state.
    fn off_button_pressed(&mut self)
        ensures
            final(self)@ == Self::deactivated(old(self)@),
    ;
}

/// An audio device whose only state is a volume level, kept within
/// `0..=100`.  Activation raises the level by one, saturating at 100;
/// deactivation lowers it by one, stopping at 0.
#[derive(Debug)]
pub struct Stereo {
    volume: u16,
}

impl View for Stereo {
    type V = StereoState;

    closed spec fn view(&self) -> StereoState {
        StereoState { level: self.volume }
    }
}

impl Stereo {
    /// The level stays in `0..=100`; the constructor establishes this and
    /// both button operations preserve it.
    pub open spec fn wf(self) -> bool {
        self@.level <= 100
    }

    /// A freshly constructed stereo is silent.
    pub fn new() -> (r: Stereo)
        ensures
            r@.level == 0,
    {
        Stereo { volume: 0 }
    }

    /// The current volume level, for inspection.
    pub fn volume(&self) -> (r: u16)
        ensures
            r == self@.level,
    {
        self.volume
    }

    fn volume_up(&mut self)
        ensures
            final(self)@ == Stereo::activated(old(self)@),
    {
        if self.volume < 100 {
            self.volume = self.volume + 1;
        } else {
            self.volume = 100;
        }
    }

    fn volume_down(&mut self)
        ensures
            final(self)@ == Stereo::deactivated(old(self)@),
    {
        if self.volume > 0 {
            self.volume = self.volume - 1;
        }
    }
}

impl Default for Stereo {
    /// A stereo starts with the volume at 0.
    fn default() -> (r: Stereo)
        ensures
            r@.level == 0,
    {
        Stereo::new()
    }
}

impl RemoteControllable for Stereo {
    /// Activation raises the level by one, clamped at 100.
    open spec fn activated(v: StereoState) -> StereoState {
        StereoState { level: if v.level < 100 { (v.level + 1) as u16 } else { 100 } }
    }

    /// Deactivation lowers the level by one, stopping at 0.
    open spec fn deactivated(v: StereoState) -> StereoState {
        StereoState { level: if v.level > 0 { (v.level - 1) as u16 } else { 0 } }
    }

    fn on_button_pressed(&mut self) {
        self.volume_up();
    }

    fn off_button_pressed(&mut self) {
        self.volume_down();
    }
}

/// A climate device with two switches: bubbles and heat.  Activation
/// enables bubbles, then heat; deactivation disables heat, then bubbles,
/// the reverse order by design.
#[derive(Debug)]
pub struct HotTub {
    bubbles_on: bool,
    heat_on: bool,
}

impl View for HotTub {
    type V = HotTubState;

    closed spec fn view(&self) -> HotTubState {
        HotTubState { bubbles_on: self.bubbles_on, heat_on: self.heat_on }
    }
}

impl HotTub {
    /// A freshly constructed hot tub has bubbles and heat off.
    pub fn new() -> (r: HotTub)
        ensures
            !r@.bubbles_on,
            !r@.heat_on,
    {
        HotTub { bubbles_on: false, heat_on: false }
    }

    /// Whether the bubbles are running, for inspection.
    pub fn bubbles_on(&self) -> (r: bool)
        ensures
            r == self@.bubbles_on,
    {
        self.bubbles_on
    }

    /// Whether the heater is running, for inspection.
    pub fn heat_on(&self) -> (r: bool)
        ensures
            r == self@.heat_on,
    {
        self.heat_on
    }

    fn enable_bubbles(&mut self)
        ensures
            final(self)@ == (HotTubState { bubbles_on: true, ..old(self)@ }),
    {
        self.bubbles_on = true;
    }

    fn disable_bubbles(&mut self)
        ensures
            final(self)@ == (HotTubState { bubbles_on: false, ..old(self)@ }),
    {
        self.bubbles_on = false;
    }

    fn set_temperature(&mut self)
        ensures
            final(self)@ == (HotTubState { heat_on: true, ..old(self)@ }),
    {
        self.heat_on = true;
    }

    fn turn_off_heat(&mut self)
        ensures
            final(self)@ == (HotTubState { heat_on: false, ..old(self)@ }),
    {
        self.heat_on = false;
    }
}

impl Default for HotTub {
    /// A hot tub starts with bubbles and heat off.
    fn default() -> (r: HotTub)
        ensures
            !r@.bubbles_on,
            !r@.heat_on,
    {
        HotTub::new()
    }
}

impl RemoteControllable for HotTub {
    /// Activation enables bubbles and heat.
    open spec fn activated(v: HotTubState) -> HotTubState {
        HotTubState { bubbles_on: true, heat_on: true }
    }

    /// Deactivation disables heat and bubbles.
    open spec fn deactivated(v: HotTubState) -> HotTubState {
        HotTubState { bubbles_on: false, heat_on: false }
    }

    fn on_button_pressed(&mut self) {
        self.enable_bubbles();
        self.set_temperature();
    }

    fn off_button_pressed(&mut self) {
        self.turn_off_heat();
        self.disable_bubbles();
    }
}

/// A device of either kind, so that a registry can own a heterogeneous
/// collection behind the one capability set.
#[derive(Debug)]
pub enum Device {
    Stereo(Stereo),
    HotTub(HotTub),
}

/// The abstract state of a [`Device`]: the state of whichever variant it
/// holds.
pub enum DeviceState {
    Stereo(StereoState),
    HotTub(HotTubState),
}

impl View for Device {
    type V = DeviceState;

    open spec fn view(&self) -> DeviceState {
        match self {
            Device::Stereo(s) => DeviceState::Stereo(s@),
            Device::HotTub(h) => DeviceState::HotTub(h@),
        }
    }
}

impl RemoteControllable for Device {
    /// A button press on a device is a button press on its variant.
    open spec fn activated(v: DeviceState) -> DeviceState {
        match v {
            DeviceState::Stereo(s) => DeviceState::Stereo(Stereo::activated(s)),
            DeviceState::HotTub(h) => DeviceState::HotTub(HotTub::activated(h)),
        }
    }

    /// A button press on a device is a button press on its variant.
    open spec fn deactivated(v: DeviceState) -> DeviceState {
        match v {
            DeviceState::Stereo(s) => DeviceState::Stereo(Stereo::deactivated(s)),
            DeviceState::HotTub(h) => DeviceState::HotTub(HotTub::deactivated(h)),
        }
    }

    fn on_button_pressed(&mut self) {
        match self {
            Device::Stereo(s) => s.on_button_pressed(),
            Device::HotTub(h) => h.on_button_pressed(),
        }
    }

    fn off_button_pressed(&mut self) {
        match self {
            Device::Stereo(s) => s.off_button_pressed(),
            Device::HotTub(h) => h.off_button_pressed(),
        }
    }
}

/// Activation never drives the level above 100 and deactivation never
/// below 0: on any well-formed stereo state, either button press lands
/// back inside the bounds, so any sequence of presses stays within them.
pub proof fn lemma_stereo_level_bounded(v: StereoState)
    requires
        v.level <= 100,
    ensures
        0 <= Stereo::activated(v).level <= 100,
        0 <= Stereo::deactivated(v).level <= 100,
{
}

/// The stereo state after a sequence of button presses, each press either
/// the on button (`true`) or the off button (`false`).
pub open spec fn stereo_after_presses(v: StereoState, presses: Seq<bool>) -> StereoState
    decreases presses.len(),
{
    if presses.len() == 0 {
        v
    } else {
        let before_last = stereo_after_presses(v, presses.drop_last());
        if presses.last() {
            Stereo::activated(before_last)
        } else {
            Stereo::deactivated(before_last)
        }
    }
}

/// However many times the buttons are pressed, and in whatever order, a
/// stereo that starts within bounds stays within them: the level never
/// rises above 100 nor drops below 0.
pub proof fn lemma_stereo_presses_stay_bounded(v: StereoState, presses: Seq<bool>)
    requires
        v.level <= 100,
    ensures
        0 <= stereo_after_presses(v, presses).level <= 100,
    decreases presses.len(),
{
    if presses.len() > 0 {
        lemma_stereo_presses_stay_bounded(v, presses.drop_last());
    }
}

/// Below saturation, deactivation undoes activation exactly; at
/// saturation the pair is lossy by design, ending one below the level it
/// started at.
pub proof fn lemma_stereo_round_trip(v: StereoState)
    ensures
        v.level < 100 ==> Stereo::deactivated(Stereo::activated(v)) == v,
        v.level == 100 ==> Stereo::deactivated(Stereo::activated(v)).level == 99,
{
}

/// After activation a hot tub has bubbles and heat on; after a subsequent
/// deactivation both are off, whatever state it started in.
pub proof fn lemma_hot_tub_cycle(v: HotTubState)
    ensures
        HotTub::activated(v).bubbles_on,
        HotTub::activated(v).heat_on,
        !HotTub::deactivated(HotTub::activated(v)).bubbles_on,
        !HotTub::deactivated(HotTub::activated(v)).heat_on,
{
}

} // verus!
