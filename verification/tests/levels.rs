use omaasus::levels::{aura_level, aura_percent, level_names, slash_byte, slash_percent};

#[test]
fn brightness_percent_picks_a_level() {
    assert_eq!(aura_level(&[0, 1, 2, 3], 100), Some(3));
    assert_eq!(aura_level(&[0, 1, 2, 3], 50), Some(2));
    assert_eq!(aura_level(&[0, 1, 2, 3], 0), Some(0));
    assert_eq!(aura_level(&[], 50), None);
    for level in 0..4 {
        assert_eq!(aura_level(&[0, 1, 2, 3], aura_percent(&[0, 1, 2, 3], level)), Some(level), "round trip");
    }
    assert_eq!(level_names(&[0, 1, 2, 3]), ["Off", "Low", "Med", "High"]);
    assert_eq!(level_names(&[0, 1, 2]), ["0", "1", "2"]);
}

#[test]
fn levels_are_sorted_before_one_is_picked() {
    assert_eq!(aura_level(&[3, 0, 2, 1], 100), Some(3));
    assert_eq!(aura_percent(&[3, 0, 2, 1], 1), 33);
    assert_eq!(level_names(&[3, 0, 2, 1]), ["High", "Off", "Med", "Low"]);
    assert_eq!(aura_percent(&[0, 1, 2, 3], 9), 100, "not a level");
    assert_eq!(aura_percent(&[5], 5), 100, "the only level");
    assert_eq!(aura_level(&[0, 1, 2, 3], 255), Some(3), "more than all");
}

#[test]
fn every_level_picks_as_doubles_do() {
    for n in 1u32..60 {
        let levels: Vec<u32> = (0..n).collect();
        let top = f64::from(n - 1);
        for percent in 0u8..=100 {
            let expected = (f64::from(percent) / 100.0 * top).round() as u32;
            assert_eq!(aura_level(&levels, percent), Some(expected), "{percent} % of {n}");
        }
        for level in 0..n {
            let expected = if n > 1 { (f64::from(level) / top * 100.0).round() as u8 } else { 100 };
            assert_eq!(aura_percent(&levels, level), expected, "{level} of {n}");
        }
    }
}

#[test]
fn levels_read_back_up_to_a_hundred_and_one() {
    for n in 2u32..=101 {
        let levels: Vec<u32> = (0..n).collect();
        for level in 0..n {
            assert_eq!(aura_level(&levels, aura_percent(&levels, level)), Some(level));
        }
    }
}

#[test]
fn slash_brightness_is_never_zero() {
    assert_eq!(slash_byte(0), 1);
    assert_eq!(slash_byte(50), 127);
    assert_eq!(slash_byte(90), 229);
    assert_eq!(slash_byte(100), 255);
    assert_eq!(slash_byte(200), 255);
    assert_eq!(slash_percent(255), 100);
    assert_eq!(slash_percent(0), 0);
}

#[test]
fn slash_brightness_is_what_doubles_give() {
    for percent in 0u8..=255 {
        let expected = ((f64::from(percent.min(100)) * 2.55).round() as u8).max(1);
        assert_eq!(slash_byte(percent), expected, "{percent} %");
    }
    for byte in 0u8..=255 {
        assert_eq!(slash_percent(byte), (f64::from(byte) / 2.55).round() as u8, "byte {byte}");
    }
    for percent in 1u8..=100 {
        assert_eq!(slash_percent(slash_byte(percent)), percent);
    }
}
