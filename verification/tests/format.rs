use x11_cursor::format::{find_argb32_format, DirectFormat, PictFormat, PICT_TYPE_DIRECT};
use x11rb::protocol::render::PictType;

fn argb32(id: u32) -> PictFormat {
    PictFormat {
        id,
        type_: PICT_TYPE_DIRECT,
        depth: 32,
        direct: DirectFormat {
            red_shift: 16,
            red_mask: 0xff,
            green_shift: 8,
            green_mask: 0xff,
            blue_shift: 0,
            blue_mask: 0xff,
            alpha_shift: 24,
            alpha_mask: 0xff,
        },
    }
}

fn rgb24(id: u32) -> PictFormat {
    let mut f = argb32(id);
    f.depth = 24;
    f.direct.alpha_shift = 0;
    f.direct.alpha_mask = 0;
    f
}

#[test]
fn direct_type_code_is_the_protocols() {
    assert_eq!(PICT_TYPE_DIRECT, u8::from(PictType::DIRECT));
    assert_ne!(PICT_TYPE_DIRECT, u8::from(PictType::INDEXED));
}

#[test]
fn the_one_argb32_format_is_found() {
    assert_eq!(find_argb32_format(&[rgb24(1), argb32(7), rgb24(9)]), Some(7));
    assert_eq!(find_argb32_format(&[argb32(7)]), Some(7));
    assert_eq!(find_argb32_format(&[rgb24(1), rgb24(2), argb32(0xffff_ffff)]), Some(0xffff_ffff));
}

#[test]
fn no_argb32_format_is_none() {
    assert_eq!(find_argb32_format(&[]), None);
    assert_eq!(find_argb32_format(&[rgb24(1), rgb24(2)]), None);
}

#[test]
fn the_first_of_several_is_taken() {
    assert_eq!(find_argb32_format(&[rgb24(1), argb32(5), argb32(3)]), Some(5));
}

#[test]
fn every_field_of_the_layout_counts() {
    let good = argb32(4);
    assert!(good.is_argb32());

    let mut f = good;
    f.type_ = 0;
    assert!(!f.is_argb32());
    let mut f = good;
    f.depth = 24;
    assert!(!f.is_argb32());
    let mut f = good;
    f.direct.red_shift = 0;
    assert!(!f.is_argb32());
    let mut f = good;
    f.direct.red_mask = 0x7f;
    assert!(!f.is_argb32());
    let mut f = good;
    f.direct.green_shift = 16;
    assert!(!f.is_argb32());
    let mut f = good;
    f.direct.green_mask = 0xffff;
    assert!(!f.is_argb32());
    let mut f = good;
    f.direct.blue_shift = 16;
    assert!(!f.is_argb32());
    let mut f = good;
    f.direct.blue_mask = 0;
    assert!(!f.is_argb32());
    let mut f = good;
    f.direct.alpha_shift = 0;
    assert!(!f.is_argb32());
    let mut f = good;
    f.direct.alpha_mask = 0;
    assert!(!f.is_argb32());

    let mut swapped = good;
    swapped.direct.red_shift = 0;
    swapped.direct.blue_shift = 16;
    assert_eq!(find_argb32_format(&[swapped]), None);
}
