use faithful::viewer::{next_level, parse_i16, parse_light, prev_level};
use faithful::viewer::{
    get_source_direction, help_text, obj_colors, pack_palette_rgba, rgb_to_rgba, sprite_direction_from_angle,
    tribe_facing_direction, LandscapeProgramContainer,
};

#[test]
fn source_directions_mirror_the_back_half() {
    let expected = [(0, false), (1, false), (2, false), (3, false), (4, false), (3, true), (2, true), (1, true)];
    for (dir, e) in expected.iter().enumerate() {
        assert_eq!(get_source_direction(dir), *e);
    }
    assert_eq!(get_source_direction(9), (0, false));
}

#[test]
fn tribe_facings() {
    assert_eq!(tribe_facing_direction(0), 0x200);
    assert_eq!(tribe_facing_direction(1), 0x600);
    assert_eq!(tribe_facing_direction(2), 0x000);
    assert_eq!(tribe_facing_direction(3), 0x400);
    assert_eq!(tribe_facing_direction(255), 0x000);
}

#[test]
fn sprite_directions() {
    assert_eq!(sprite_direction_from_angle(0, 0), 4);
    assert_eq!(sprite_direction_from_angle(90, 0x200), 4);
    assert_eq!(sprite_direction_from_angle(-45, 0x600), 5);
    assert_eq!(sprite_direction_from_angle(359, 0), 4);
    assert_eq!(sprite_direction_from_angle(-360, 0x400), 0);
    assert_eq!(sprite_direction_from_angle(180, 0), 0);
}

#[test]
fn palette_packs_four_bytes_per_word() {
    assert_eq!(pack_palette_rgba(&[1, 2, 3, 4, 5]), vec![0x0403_0201, 0x0000_0005]);
    assert_eq!(pack_palette_rgba(&[0xFF, 0, 0, 0x80]), vec![0x8000_00FF]);
    assert!(pack_palette_rgba(&[]).is_empty());
}

#[test]
fn rgb_gains_opaque_alpha() {
    assert_eq!(rgb_to_rgba(&[1, 2, 3, 4, 5, 6]), vec![1, 2, 3, 255, 4, 5, 6, 255]);
    assert!(rgb_to_rgba(&[]).is_empty());
}

#[test]
fn object_colors() {
    let c = obj_colors();
    assert_eq!(c.len(), 9);
    assert_eq!(c[0], [255, 0, 0]);
    assert_eq!(c[8], [128, 64, 0]);
}

#[test]
fn help_lists_keys() {
    assert!(help_text().starts_with("Q/E:    Rotate\n"));
    assert!(help_text().ends_with("Esc:    Quit"));
    assert_eq!(help_text().lines().count(), 11);
}

#[test]
fn shader_variants_cycle() {
    let mut c: LandscapeProgramContainer<&str> = LandscapeProgramContainer::new();
    assert_eq!(c.current(), None);
    c.next();
    c.prev();
    assert_eq!(c.current(), None);
    c.add("a");
    c.add("b");
    c.add("c");
    assert_eq!(c.current(), Some(&"a"));
    c.prev();
    assert_eq!(c.current(), Some(&"c"));
    c.next();
    assert_eq!(c.current(), Some(&"a"));
    c.next();
    c.next();
    assert_eq!(c.current(), Some(&"c"));
    c.next();
    assert_eq!(c.current(), Some(&"a"));
}

#[test]
fn light_option_parses_two_integers() {
    assert_eq!(parse_light("45;-30"), Some((45, -30)));
    assert_eq!(parse_light("+7;0"), Some((7, 0)));
    assert_eq!(parse_light("45"), None);
    assert_eq!(parse_light("1;2;3"), None);
    assert_eq!(parse_light("a;2"), None);
    assert_eq!(parse_light(";2"), None);
    assert_eq!(parse_light("40000;2"), None);
    assert_eq!(parse_i16("-32768"), Some(-32768));
    assert_eq!(parse_i16("32767"), Some(32767));
    assert_eq!(parse_i16("32768"), None);
    assert_eq!(parse_i16("000012"), Some(12));
    assert_eq!(parse_i16("-"), None);
    assert_eq!(parse_i16(""), None);
    assert_eq!(parse_i16("1 "), None);
    for s in ["0", "-1", "+5", "123456", "99999999999", "-0", "12a"] {
        assert_eq!(parse_i16(s), s.parse::<i16>().ok());
    }
}

#[test]
fn level_keys_cycle_over_twenty_five_levels() {
    assert_eq!(next_level(3), 4);
    assert_eq!(next_level(24), 25);
    assert_eq!(next_level(25), 1);
    assert_eq!(prev_level(5), 4);
    assert_eq!(prev_level(1), 25);
    for n in 1..=25u8 {
        assert_eq!(prev_level(next_level(n)), n);
        assert_eq!(next_level(prev_level(n)), n);
    }
}
