use remote_control::devices::{Device, HotTub, Stereo};
use remote_control::remote::RemoteControl;

fn stereo_level(control: &RemoteControl, id: &str) -> u16 {
    match control.get_device(id) {
        Some(Device::Stereo(s)) => s.volume(),
        _ => panic!("expected a stereo under {:?}", id),
    }
}

fn hot_tub_state(control: &RemoteControl, id: &str) -> (bool, bool) {
    match control.get_device(id) {
        Some(Device::HotTub(h)) => (h.bubbles_on(), h.heat_on()),
        _ => panic!("expected a hot tub under {:?}", id),
    }
}

#[test]
fn lib_test_remote() {
    let mut hot_tub = HotTub::default();
    let mut sound_blaster = Stereo::default();

    RemoteControl::on(&mut hot_tub);
    RemoteControl::on(&mut sound_blaster);

    assert_eq!(hot_tub.bubbles_on(), true);
    assert_eq!(hot_tub.heat_on(), true);
    assert_eq!(sound_blaster.volume(), 1);

    RemoteControl::off(&mut hot_tub);
    assert_eq!(hot_tub.bubbles_on(), false);

    RemoteControl::on(&mut hot_tub);
    assert_eq!(hot_tub.bubbles_on(), true);
}

#[test]
fn main_test_remote() {
    let hot_tub = HotTub::default();
    let sound_blaster = Stereo::default();
    let mut control = RemoteControl::default();
    control.add_device("hot_tub", Device::HotTub(hot_tub));
    control.add_device("sound_blaster", Device::Stereo(sound_blaster));

    control.turn_on("hot_tub");
    control.turn_on("sound_blaster");

    let (bubbles_on, heat_on) = hot_tub_state(&control, "hot_tub");
    assert_eq!(bubbles_on, true);
    assert_eq!(heat_on, true);
    assert_eq!(stereo_level(&control, "sound_blaster"), 1);
}

#[test]
fn stereo_level_saturates_at_100() {
    let mut stereo = Stereo::new();
    for _ in 0..150 {
        RemoteControl::on(&mut stereo);
    }
    assert_eq!(stereo.volume(), 100);
}

#[test]
fn stereo_level_stops_at_0() {
    let mut stereo = Stereo::new();
    RemoteControl::on(&mut stereo);
    for _ in 0..150 {
        RemoteControl::off(&mut stereo);
    }
    assert_eq!(stereo.volume(), 0);
}

#[test]
fn stereo_round_trip_from_fresh() {
    let mut stereo = Stereo::new();
    assert_eq!(stereo.volume(), 0);
    RemoteControl::on(&mut stereo);
    RemoteControl::off(&mut stereo);
    assert_eq!(stereo.volume(), 0);
}

#[test]
fn stereo_round_trip_lossy_at_saturation() {
    let mut stereo = Stereo::new();
    for _ in 0..100 {
        RemoteControl::on(&mut stereo);
    }
    assert_eq!(stereo.volume(), 100);
    RemoteControl::on(&mut stereo);
    RemoteControl::off(&mut stereo);
    assert_eq!(stereo.volume(), 99);
}

#[test]
fn hot_tub_activate_then_deactivate() {
    let mut tub = HotTub::new();
    RemoteControl::on(&mut tub);
    assert_eq!(tub.bubbles_on(), true);
    assert_eq!(tub.heat_on(), true);
    RemoteControl::off(&mut tub);
    assert_eq!(tub.bubbles_on(), false);
    assert_eq!(tub.heat_on(), false);
}

#[test]
fn dispatch_leaves_other_devices_alone() {
    let mut control = RemoteControl::new();
    control.add_device("a", Device::Stereo(Stereo::new()));
    control.add_device("b", Device::Stereo(Stereo::new()));

    control.turn_on("a");

    assert_eq!(stereo_level(&control, "a"), 1);
    assert_eq!(stereo_level(&control, "b"), 0);
}

#[test]
fn register_same_id_replaces() {
    let mut control = RemoteControl::new();
    control.add_device("x", Device::Stereo(Stereo::new()));
    control.add_device("x", Device::HotTub(HotTub::new()));

    control.turn_on("x");

    let (bubbles_on, heat_on) = hot_tub_state(&control, "x");
    assert_eq!(bubbles_on, true);
    assert_eq!(heat_on, true);
}

#[test]
fn dispatch_to_unknown_id_is_a_no_op() {
    let mut control = RemoteControl::new();
    control.add_device("a", Device::Stereo(Stereo::new()));

    control.turn_on("ghost");
    control.turn_off("ghost");

    assert_eq!(stereo_level(&control, "a"), 0);
    assert!(control.get_device("ghost").is_none());
}

#[test]
fn dispatch_on_empty_registry_is_a_no_op() {
    let mut control = RemoteControl::new();
    control.turn_on("anything");
    control.turn_off("anything");
    assert!(control.get_device("anything").is_none());
}

#[test]
fn empty_identifier_is_an_ordinary_key() {
    let mut control = RemoteControl::new();
    control.add_device("", Device::Stereo(Stereo::new()));
    control.turn_on("");
    assert_eq!(stereo_level(&control, ""), 1);
}

#[test]
fn scenario_stereo_and_tub() {
    let mut control = RemoteControl::new();
    control.add_device("stereo", Device::Stereo(Stereo::new()));
    control.add_device("tub", Device::HotTub(HotTub::new()));

    control.turn_on("tub");
    control.turn_on("stereo");

    let (bubbles_on, heat_on) = hot_tub_state(&control, "tub");
    assert_eq!(bubbles_on, true);
    assert_eq!(heat_on, true);
    assert_eq!(stereo_level(&control, "stereo"), 1);

    control.turn_off("tub");
    let (bubbles_on, heat_on) = hot_tub_state(&control, "tub");
    assert_eq!(bubbles_on, false);
    assert_eq!(heat_on, false);

    control.turn_on("tub");
    let (bubbles_on, heat_on) = hot_tub_state(&control, "tub");
    assert_eq!(bubbles_on, true);
    assert_eq!(heat_on, true);
}
