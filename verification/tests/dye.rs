use fluid_sim::dye::{dye_color, splat_color, Dye, Rgb8};
use fluid_sim::texture::get_rainbow_array;

fn rgb(red: u8, green: u8, blue: u8) -> Option<Rgb8> {
    Some(Rgb8 { red, green, blue })
}

#[test]
fn a_picker_value_spells_red_green_and_blue() {
    assert_eq!(splat_color("#ff8000"), rgb(255, 128, 0));
    assert_eq!(splat_color("#000000"), rgb(0, 0, 0));
    assert_eq!(splat_color("#ffffff"), rgb(255, 255, 255));
    assert_eq!(splat_color("#0a1b2c"), rgb(10, 27, 44));
    assert_eq!(splat_color("#3f4e5d"), rgb(0x3f, 0x4e, 0x5d));
}

#[test]
fn digits_may_be_of_either_case() {
    assert_eq!(splat_color("#FF8000"), rgb(255, 128, 0));
    assert_eq!(splat_color("#aBcDeF"), rgb(0xab, 0xcd, 0xef));
    assert_eq!(splat_color("#ABCDEF"), splat_color("#abcdef"));
}

#[test]
fn the_digits_are_not_handed_back_as_they_are() {
    assert_eq!(splat_color("#313233"), rgb(0x31, 0x32, 0x33));
    assert_ne!(splat_color("#313233"), rgb(b'3', b'1', b'3'));
}

#[test]
fn the_first_byte_is_skipped_whatever_it_is() {
    assert_eq!(splat_color("xff8000"), rgb(255, 128, 0));
    assert_eq!(splat_color("0ff8000"), rgb(255, 128, 0));
}

#[test]
fn bytes_after_the_third_are_ignored() {
    assert_eq!(splat_color("#ff800040"), rgb(255, 128, 0));
    assert_eq!(splat_color("#0102030405"), rgb(1, 2, 3));
}

#[test]
fn a_value_that_spells_no_colour_gives_none() {
    assert_eq!(splat_color(""), None);
    assert_eq!(splat_color("#"), None);
    assert_eq!(splat_color("#ff80"), None);
    assert_eq!(splat_color("#ff800"), None);
    assert_eq!(splat_color("#ff80000"), None);
    assert_eq!(splat_color("#gg8000"), None);
    assert_eq!(splat_color("#ff80 0"), None);
    assert_eq!(splat_color("ff8000"), None);
    assert_eq!(splat_color("#ff800g00"), None);
    assert_eq!(splat_color("\u{e9}ff8000"), None);
    assert_eq!(splat_color("#ff80\u{e9}"), None);
}

#[test]
fn the_picked_colour_is_the_dye_unless_random_is_set() {
    assert_eq!(
        dye_color("#ff8000", false, 1234),
        Some(Dye::Picked(Rgb8 { red: 255, green: 128, blue: 0 }))
    );
    assert_eq!(
        dye_color("#ff8000", false, -5),
        Some(Dye::Picked(Rgb8 { red: 255, green: 128, blue: 0 }))
    );
}

#[test]
fn the_rainbow_advances_every_four_milliseconds() {
    assert_eq!(dye_color("#ff8000", true, 0), Some(Dye::Rainbow(0)));
    assert_eq!(dye_color("#ff8000", true, 3), Some(Dye::Rainbow(0)));
    assert_eq!(dye_color("#ff8000", true, 4), Some(Dye::Rainbow(1)));
    assert_eq!(dye_color("#ff8000", true, 7), Some(Dye::Rainbow(1)));
    assert_eq!(dye_color("#ff8000", true, 400), Some(Dye::Rainbow(100)));
    assert_eq!(dye_color("#ff8000", true, 2379), Some(Dye::Rainbow(594)));
    assert_eq!(dye_color("#ff8000", true, 2380), Some(Dye::Rainbow(0)));
    assert_eq!(dye_color("#ff8000", true, 16_000_000), Some(Dye::Rainbow(4_000_000 % 595)));
    assert_eq!(dye_color("#ff8000", true, i32::MAX), Some(Dye::Rainbow(536_870_911 % 595)));
}

#[test]
fn the_rainbow_index_agrees_with_single_precision_time() {
    let len = get_rainbow_array().len();
    for now in [0i32, 1, 3, 4, 5, 999, 2379, 2380, 2381, 123_456, 9_999_999, 16_777_215] {
        let now_sec = now as f32 * 0.25;
        let expected = (now_sec % len as f32) as usize;
        assert_eq!(dye_color("#000000", true, now), Some(Dye::Rainbow(expected)));
    }
}

#[test]
fn before_time_zero_the_rainbow_stands_at_its_first_colour() {
    assert_eq!(dye_color("#ff8000", true, -1), Some(Dye::Rainbow(0)));
    assert_eq!(dye_color("#ff8000", true, -2380), Some(Dye::Rainbow(0)));
    assert_eq!(dye_color("#ff8000", true, i32::MIN), Some(Dye::Rainbow(0)));
}

#[test]
fn there_is_no_dye_without_a_colour_even_at_random() {
    assert_eq!(dye_color("#ff80", true, 100), None);
    assert_eq!(dye_color("#ff80", false, 100), None);
    assert_eq!(dye_color("", true, 100), None);
    assert_eq!(dye_color("#zzzzzz", true, 100), None);
}
