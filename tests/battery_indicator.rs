use pihost::battery_indicator::{
    apply, get_led_values, green, off, red, sensor_update, set_leds, yellow, LedColor, LedWrite,
    SENSOR_BATTERY,
};

const OFF: LedColor = LedColor(0, 0, 0);
const YELLOW: LedColor = LedColor(255, 255, 0);
const GREEN: LedColor = LedColor(0, 255, 0);
const RED: LedColor = LedColor(255, 0, 0);

#[test]
fn get_led_values_success_0() {
    assert_eq!(get_led_values(0), [OFF, OFF, OFF, OFF, OFF, OFF, OFF, OFF]);
}

#[test]
fn get_led_values_success_15() {
    assert_eq!(get_led_values(15), [RED, RED, OFF, OFF, OFF, OFF, OFF, OFF]);
}

#[test]
fn get_led_values_success_49() {
    assert_eq!(
        get_led_values(49),
        [YELLOW, YELLOW, YELLOW, YELLOW, OFF, OFF, OFF, OFF]
    );
}

#[test]
fn get_led_values_success_75() {
    assert_eq!(
        get_led_values(75),
        [GREEN, GREEN, GREEN, GREEN, GREEN, GREEN, OFF, OFF]
    );
}

#[test]
fn get_led_values_success_100() {
    assert_eq!(
        get_led_values(100),
        [GREEN, GREEN, GREEN, GREEN, GREEN, GREEN, GREEN, GREEN]
    );
}

#[test]
fn get_led_values_failure() {
    assert_eq!(get_led_values(-10), [OFF, OFF, OFF, OFF, OFF, OFF, OFF, OFF]);
}

#[test]
fn forty_five_percent_lights_four_yellow() {
    assert_eq!(
        get_led_values(45),
        [YELLOW, YELLOW, YELLOW, YELLOW, OFF, OFF, OFF, OFF]
    );
}

#[test]
fn above_full_leaves_all_off() {
    assert_eq!(get_led_values(110), [OFF; 8]);
    assert_eq!(get_led_values(101), [OFF; 8]);
}

#[test]
fn thresholds_and_rounding_up() {
    assert_eq!(get_led_values(1), [RED, OFF, OFF, OFF, OFF, OFF, OFF, OFF]);
    assert_eq!(get_led_values(20), [RED, RED, OFF, OFF, OFF, OFF, OFF, OFF]);
    assert_eq!(get_led_values(21), [YELLOW, YELLOW, OFF, OFF, OFF, OFF, OFF, OFF]);
    assert_eq!(get_led_values(25), [YELLOW, YELLOW, OFF, OFF, OFF, OFF, OFF, OFF]);
    assert_eq!(get_led_values(26), [YELLOW, YELLOW, YELLOW, OFF, OFF, OFF, OFF, OFF]);
    assert_eq!(get_led_values(50), [GREEN, GREEN, GREEN, GREEN, OFF, OFF, OFF, OFF]);
}

#[test]
fn colour_constructors() {
    assert_eq!(off(), OFF);
    assert_eq!(red(), RED);
    assert_eq!(yellow(), YELLOW);
    assert_eq!(green(), GREEN);
}

#[test]
fn set_leds_writes_each_led_in_order() {
    let w = set_leds([RED, GREEN, OFF, OFF, YELLOW, OFF, OFF, GREEN]);
    assert_eq!(w.len(), 8);
    for (i, x) in w.iter().enumerate() {
        assert_eq!(x.index, i as i32);
    }
    assert_eq!(w[0].color, RED);
    assert_eq!(w[1].color, GREEN);
    assert_eq!(w[4].color, YELLOW);
    assert_eq!(w[7].color, GREEN);
}

#[test]
fn battery_sensor_shows_gauge() {
    let w = sensor_update(SENSOR_BATTERY, 45);
    let colors: Vec<LedColor> = w.iter().map(|x| x.color).collect();
    assert_eq!(colors, vec![YELLOW, YELLOW, YELLOW, YELLOW, OFF, OFF, OFF, OFF]);
    assert_eq!(w[3], LedWrite { index: 3, color: YELLOW });
}

#[test]
fn other_sensor_is_ignored() {
    assert!(sensor_update(7, 45).is_empty());
    assert!(apply(3).is_empty());
}
