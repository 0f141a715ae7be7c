use ledstrip::config::Config;
use ledstrip::strutil::str_eq;

#[test]
fn default_config_values() {
    let c = Config::default();
    assert_eq!(c.device_name, "DDD_leds");
    assert_eq!(c.mqtt_host, "localhost");
    assert_eq!(c.mqtt_port, 1883);
    assert_eq!(c.mqtt_channel, "home/leds");
    assert_eq!(c.get_wheel_length(), 78);
    assert_eq!(c.get_strip_length(), 96);
}

#[test]
fn absent_lengths_fall_back_to_defaults() {
    let mut c = Config::default();
    c.wheel_length = None;
    c.strip_length = None;
    assert_eq!(c.get_wheel_length(), 78);
    assert_eq!(c.get_strip_length(), 96);
}

#[test]
fn present_lengths_are_returned() {
    let mut c = Config::default();
    c.wheel_length = Some(12);
    c.strip_length = Some(34);
    assert_eq!(c.get_wheel_length(), 12);
    assert_eq!(c.get_strip_length(), 34);
}

#[test]
fn str_eq_compares_by_contents() {
    assert!(str_eq("", ""));
    assert!(str_eq("off", "off"));
    assert!(!str_eq("off", "of"));
    assert!(!str_eq("off", "Off"));
    assert!(!str_eq("chase", "glorp"));
    assert!(str_eq("héllo", "héllo"));
    assert!(!str_eq("héllo", "hello"));
}
