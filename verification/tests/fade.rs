use keylights::lights::FadingLight;
use keylights::lights::LightSide;
use keylights::lights::get_lights_from_side;
use keylights::ws::JudgementChange;

#[test]
fn full_opacity_at_tick_zero() {
    let mut light = FadingLight::new(LightSide::Left, (200, 100, 51), 10);
    light.reset();
    assert_eq!(light.get_color(), (200, 100, 51));
}

#[test]
fn half_opacity_at_tick_five_of_ten() {
    let mut light = FadingLight::new(LightSide::Left, (200, 100, 51), 10);
    light.reset();
    for _ in 0..5 {
        light.update();
    }
    assert_eq!(light.get_color(), (100, 50, 25));
}

#[test]
fn zero_opacity_from_tick_ten_on() {
    let mut light = FadingLight::new(LightSide::Left, (200, 100, 51), 10);
    light.reset();
    for _ in 0..10 {
        light.update();
    }
    assert_eq!(light.get_color(), (0, 0, 0));
    light.update();
    assert_eq!(light.get_color(), (0, 0, 0));
}

#[test]
fn opacity_never_increases_between_triggers() {
    let mut light = FadingLight::new(LightSide::Right, (255, 137, 3), 10);
    light.reset();
    let mut previous = light.get_color();
    for _ in 0..15 {
        light.update();
        let current = light.get_color();
        assert!(current.0 <= previous.0);
        assert!(current.1 <= previous.1);
        assert!(current.2 <= previous.2);
        previous = current;
    }
}

#[test]
fn new_light_starts_fully_decayed() {
    let light = FadingLight::new(LightSide::Left, (255, 255, 255), 10);
    assert_eq!(light.get_color(), (0, 0, 0));
}

#[test]
fn reset_returns_tick_count_to_zero_whatever_it_was() {
    let mut light = FadingLight::new(LightSide::Left, (10, 20, 30), 10);
    assert_eq!(light.time, 0xFFFF);
    light.reset();
    assert_eq!(light.time, 0);
    for _ in 0..3 {
        light.update();
    }
    assert_eq!(light.time, 3);
    light.reset();
    assert_eq!(light.time, 0);
    light.reset();
    assert_eq!(light.time, 0);
}

#[test]
fn set_color_keeps_the_fade_clock() {
    let mut light = FadingLight::new(LightSide::Left, (10, 20, 30), 10);
    light.reset();
    light.update();
    light.set_color((100, 110, 120));
    assert_eq!(light.time, 1);
    assert_eq!(light.color, (100, 110, 120));
}

#[test]
fn judgement_color_table() {
    assert_eq!(FadingLight::get_judgement_color(JudgementChange::Great), (80, 80, 120));
    assert_eq!(FadingLight::get_judgement_color(JudgementChange::Good), (0, 200, 0));
    assert_eq!(FadingLight::get_judgement_color(JudgementChange::Meh), (150, 150, 0));
    assert_eq!(FadingLight::get_judgement_color(JudgementChange::Miss), (200, 0, 0));
    assert_eq!(FadingLight::get_judgement_color(JudgementChange::NoChange), (0, 0, 0));
    assert_eq!(FadingLight::get_judgement_color(JudgementChange::Reset), (0, 0, 0));
}

#[test]
fn zone_map_is_the_fixed_table() {
    let left = get_lights_from_side(LightSide::Left);
    let right = get_lights_from_side(LightSide::Right);
    assert_eq!(left, vec![(0, 2), (0, 0), (1, 0), (2, 0), (3, 0), (4, 1), (4, 2)]);
    assert_eq!(right, vec![(0, 4), (0, 6), (1, 6), (2, 6), (3, 6), (4, 5), (4, 4)]);
    for zone in &left {
        assert!(!right.contains(zone));
    }
}
