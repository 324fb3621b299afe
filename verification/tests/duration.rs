use guild_player::duration::push_decimal;
use guild_player::format_duration;

#[test]
fn under_a_minute_has_no_hours() {
    assert_eq!(format_duration(45), "0:45");
}

#[test]
fn over_an_hour_has_hours() {
    assert_eq!(format_duration(3661), "1:1:1");
}

#[test]
fn zero_seconds() {
    assert_eq!(format_duration(0), "0:0");
}

#[test]
fn numbers_are_not_padded() {
    assert_eq!(format_duration(5), "0:5");
    assert_eq!(format_duration(65), "1:5");
    assert_eq!(format_duration(3605), "1:0:5");
}

#[test]
fn edges_of_minutes_and_hours() {
    assert_eq!(format_duration(59), "0:59");
    assert_eq!(format_duration(60), "1:0");
    assert_eq!(format_duration(3599), "59:59");
    assert_eq!(format_duration(3600), "1:0:0");
    assert_eq!(format_duration(7199), "1:59:59");
}

#[test]
fn hours_are_not_folded_into_days() {
    assert_eq!(format_duration(86400), "24:0:0");
    assert_eq!(format_duration(360000 + 61), "100:1:1");
}

#[test]
fn largest_duration() {
    assert_eq!(
        format_duration(u128::MAX),
        "94522879700260684295381835397713392:4:15"
    );
}

#[test]
fn decimal_numerals() {
    let mut text = String::from("n=");
    push_decimal(&mut text, 0);
    assert_eq!(text, "n=0");
    push_decimal(&mut text, 1234567890);
    assert_eq!(text, "n=01234567890");
    let mut big = String::new();
    push_decimal(&mut big, u128::MAX);
    assert_eq!(big, "340282366920938463463374607431768211455");
}

#[test]
fn parts_add_up_to_the_seconds() {
    let samples =
        [0u128, 1, 59, 60, 61, 3599, 3600, 3601, 86399, 86400, 1_000_000, u64::MAX as u128];
    for seconds in samples {
        let text = format_duration(seconds);
        let parts: Vec<u128> = text.split(':').map(|part| part.parse().unwrap()).collect();
        let (hours, minutes, secs) = match parts.len() {
            2 => (0, parts[0], parts[1]),
            3 => (parts[0], parts[1], parts[2]),
            n => panic!("{} parts in {}", n, text),
        };
        assert_eq!(parts.len() == 3, seconds >= 3600);
        assert!(minutes < 60);
        assert!(secs < 60);
        assert_eq!(hours * 3600 + minutes * 60 + secs, seconds);
    }
}

#[test]
fn numerals_have_no_leading_zero() {
    for n in [0u128, 7, 10, 99, 100, 101, 1000, 90210] {
        let mut text = String::new();
        push_decimal(&mut text, n);
        assert_eq!(text, n.to_string());
    }
}
