use mainboard::config::Rgb;
use mainboard::error::{
    asset_font, decimal, draw, system_core, system_event_pump, system_ttf, system_video,
    window_init, AssetKind, Error, ReducedSdlError, Subsystem,
};
use mainboard::geometry::{Rect, State};
use mainboard::typing::{apply_edit, edit_for_key, Edit, Key};

fn parts(rect: Rect) -> (u32, u32, u32, u32) {
    (rect.x(), rect.y(), rect.width(), rect.height())
}

#[test]
fn rgb_keeps_its_parts() {
    let colour = Rgb::new(1, 2, 3);
    assert_eq!((colour.red(), colour.green(), colour.blue()), (1, 2, 3));
}

#[test]
fn rgb_named_colours() {
    let parts = |c: Rgb| (c.red(), c.green(), c.blue());
    assert_eq!(parts(Rgb::white()), (255, 255, 255));
    assert_eq!(parts(Rgb::black()), (0, 0, 0));
    assert_eq!(parts(Rgb::almost_white()), (210, 210, 210));
    assert_eq!(parts(Rgb::almost_black()), (46, 46, 46));
}

#[test]
fn rect_keeps_its_parts() {
    assert_eq!(parts(Rect::new(1, 2, 3, 4)), (1, 2, 3, 4));
}

#[test]
fn rect_offsets_move_the_corner() {
    assert_eq!(parts(Rect::new(1, 2, 3, 4).offset_x(10)), (11, 2, 3, 4));
    assert_eq!(parts(Rect::new(1, 2, 3, 4).offset_y(10)), (1, 12, 3, 4));
    assert_eq!(parts(Rect::new(u32::MAX - 1, 0, 0, 0).offset_x(1)), (u32::MAX, 0, 0, 0));
}

#[test]
fn rect_cutoffs_move_the_corner_and_shrink() {
    assert_eq!(parts(Rect::new(1, 2, 30, 40).cutoff_x(10)), (11, 2, 20, 40));
    assert_eq!(parts(Rect::new(1, 2, 30, 40).cutoff_y(10)), (1, 12, 30, 30));
    assert_eq!(parts(Rect::new(1, 2, 30, 40).cutoff_x(30)), (31, 2, 0, 40));
    assert_eq!(parts(Rect::new(1, 2, 30, 40).cutoff_y(40)), (1, 42, 30, 0));
}

#[test]
fn rect_cutoff_of_size_stops_at_zero() {
    assert_eq!(parts(Rect::new(1, 2, 30, 40).cutoff_width(10)), (1, 2, 20, 40));
    assert_eq!(parts(Rect::new(1, 2, 30, 40).cutoff_width(31)), (1, 2, 0, 40));
    assert_eq!(parts(Rect::new(1, 2, 30, 40).cutoff_height(10)), (1, 2, 30, 30));
    assert_eq!(parts(Rect::new(1, 2, 30, 40).cutoff_height(u32::MAX)), (1, 2, 30, 0));
}

#[test]
fn rect_with_size_keeps_the_corner() {
    assert_eq!(parts(Rect::new(1, 2, 30, 40).with_size(5, 6)), (1, 2, 5, 6));
}

#[test]
fn rect_signed_corner_reads_the_bits() {
    let rect = Rect::new(7, u32::MAX, 0, 0);
    assert_eq!(rect.x_signed(), 7);
    assert_eq!(rect.y_signed(), -1);
    let edge = Rect::new(i32::MAX as u32, i32::MAX as u32 + 1, 0, 0);
    assert_eq!(edge.x_signed(), i32::MAX);
    assert_eq!(edge.y_signed(), i32::MIN);
}

#[test]
fn decimal_writes_numbers() {
    assert_eq!(decimal(0), "0");
    assert_eq!(decimal(7), "7");
    assert_eq!(decimal(10), "10");
    assert_eq!(decimal(1234567890), "1234567890");
    assert_eq!(decimal(u32::MAX), "4294967295");
}

#[test]
fn subsystem_names() {
    assert_eq!(Subsystem::Core.name(), "core");
    assert_eq!(Subsystem::Video.name(), "video");
    assert_eq!(Subsystem::EventPump.name(), "event pump");
    assert_eq!(Subsystem::Ttf.name(), "ttf");
}

#[test]
fn asset_kind_names() {
    assert_eq!(AssetKind::Font.name(), "font");
    assert_eq!(AssetKind::Image.name(), "image");
}

#[test]
fn reduced_error_messages() {
    assert_eq!(ReducedSdlError::from(String::from("plain")).message(), "plain");
    assert_eq!(ReducedSdlError::new(String::from("plain")).message(), "plain");
    assert_eq!(
        ReducedSdlError::invalid_title("nul byte").message(),
        "invalid window title (nul byte)"
    );
    assert_eq!(ReducedSdlError::height_overflows(70000).message(), "height too large (70000)");
    assert_eq!(ReducedSdlError::width_overflows(0).message(), "width too large (0)");
    assert_eq!(
        ReducedSdlError::integer_overflows("logical width", 99).message(),
        "value overflowed (99): logical width"
    );
}

#[test]
fn error_builders_pick_the_subsystem() {
    assert!(matches!(
        system_ttf(String::from("a")),
        Error::SystemInit { subsystem: Subsystem::Ttf, explanation } if explanation == "a"
    ));
    assert!(matches!(
        system_video(String::from("b")),
        Error::SystemInit { subsystem: Subsystem::Video, explanation } if explanation == "b"
    ));
    assert!(matches!(
        system_core(String::from("c")),
        Error::SystemInit { subsystem: Subsystem::Core, explanation } if explanation == "c"
    ));
    assert!(matches!(
        system_event_pump(String::from("d")),
        Error::SystemInit { subsystem: Subsystem::EventPump, explanation } if explanation == "d"
    ));
    assert!(matches!(
        asset_font(String::from("e")),
        Error::AssetLoad { kind: AssetKind::Font, explanation } if explanation == "e"
    ));
    assert!(matches!(draw(String::from("f")), Error::Draw(explanation) if explanation == "f"));
    assert!(matches!(
        window_init(ReducedSdlError::from(String::from("g"))),
        Error::WindowInit(inner) if inner.message() == "g"
    ));
}

#[test]
fn error_messages() {
    assert_eq!(
        system_video(String::from("no display")).message(),
        "Failed to initialize SDL feature 'video'. SDL provided an explanation: no display"
    );
    assert_eq!(
        system_event_pump(String::from("busy")).message(),
        "Failed to initialize SDL feature 'event pump'. SDL provided an explanation: busy"
    );
    assert_eq!(
        window_init(ReducedSdlError::width_overflows(5)).message(),
        "Failed to initialize the SDL window: width too large (5)"
    );
    assert_eq!(draw(String::from("lost")).message(), "Error while drawing: lost");
    assert_eq!(
        asset_font(String::from("missing")).message(),
        "Failed to load asset of type 'font'. SDL provided an explanation: missing"
    );
    let image = Error::AssetLoad { kind: AssetKind::Image, explanation: String::from("bad") };
    assert_eq!(
        image.message(),
        "Failed to load asset of type 'image'. SDL provided an explanation: bad"
    );
}

#[test]
fn subdivide_exact_splits_at_the_height() {
    let (top, rest) = Rect::new(5, 10, 800, 600).subdivide_exact(64).unwrap();
    assert_eq!(parts(top), (5, 10, 800, 64));
    assert_eq!(parts(rest), (5, 74, 800, 536));
}

#[test]
fn subdivide_exact_of_the_whole_height_leaves_nothing() {
    let (top, rest) = Rect::new(0, 0, 8, 6).subdivide_exact(6).unwrap();
    assert_eq!(parts(top), (0, 0, 8, 6));
    assert_eq!(parts(rest), (0, 6, 8, 0));
}

#[test]
fn subdivide_exact_needs_the_height() {
    assert!(Rect::new(0, 0, 8, 6).subdivide_exact(7).is_none());
    assert!(Rect::new(0, u32::MAX, 8, 6).subdivide_exact(7).is_none());
}

#[test]
fn subdivide_up_to_gives_a_strip_and_the_rest() {
    let (top, rest) = Rect::new(0, 64, 800, 536).subdivide_up_to(32);
    assert_eq!(parts(top), (0, 64, 800, 32));
    assert_eq!(parts(rest.unwrap()), (0, 96, 800, 504));
}

#[test]
fn subdivide_up_to_of_the_whole_height_has_no_rest() {
    let (top, rest) = Rect::new(0, 64, 800, 32).subdivide_up_to(32);
    assert_eq!(parts(top), (0, 64, 800, 32));
    assert!(rest.is_none());
}

#[test]
fn text_area_is_centred_and_cut() {
    assert_eq!(parts(Rect::new(0, 64, 800, 32).text_area(120, 24)), (0, 68, 120, 24));
    assert_eq!(parts(Rect::new(3, 10, 100, 20).text_area(150, 31)), (3, 5, 100, 20));
    assert_eq!(parts(Rect::new(3, 10, 100, 20).text_area(50, 20)), (3, 10, 50, 20));
    assert_eq!(parts(Rect::new(3, 10, 100, 21).text_area(50, 20)), (3, 10, 50, 20));
    assert_eq!(parts(Rect::new(3, 10, 100, 20).text_area(50, 21)), (3, 10, 50, 20));
}

#[test]
fn text_area_wraps_above_the_origin() {
    assert_eq!(parts(Rect::new(0, 2, 10, 0).text_area(5, 10)), (0, u32::MAX - 2, 5, 0));
}

#[test]
fn sections_follow_each_other() {
    let mut state = State::new(800, 600);
    let prompt = state.new_section(56);
    assert_eq!((prompt.x, prompt.y, prompt.width, prompt.height), (0, 0, 800, 56));
    let first = state.new_section(32);
    assert_eq!((first.x, first.y, first.width, first.height), (0, 56, 800, 32));
    let second = state.new_section(0);
    assert_eq!((second.x, second.y, second.width, second.height), (0, 88, 800, 0));
    let third = state.new_section(u32::MAX);
    assert_eq!((third.y, third.height), (88, u32::MAX));
    let fourth = state.new_section(1);
    assert_eq!(fourth.y, 87);
}

#[test]
fn keys_that_type_a_character() {
    assert_eq!(edit_for_key("A", Key::Other), Edit::Push('a'));
    assert_eq!(edit_for_key("z", Key::Other), Edit::Push('z'));
    assert_eq!(edit_for_key("7", Key::Other), Edit::Push('7'));
    assert_eq!(edit_for_key("\u{c9}", Key::Other), Edit::Push('\u{c9}'));
    assert_eq!(edit_for_key("Space", Key::Space), Edit::Push(' '));
    assert_eq!(edit_for_key(" ", Key::Space), Edit::Push(' '));
    assert_eq!(edit_for_key("A", Key::Backspace), Edit::Push('a'));
    assert_eq!(edit_for_key("Z", Key::Other), Edit::Push('z'));
    assert_eq!(edit_for_key("0", Key::Other), Edit::Push('0'));
}

#[test]
fn keys_that_do_not_type() {
    assert_eq!(edit_for_key("Backspace", Key::Backspace), Edit::Pop);
    assert_eq!(edit_for_key("Escape", Key::Other), Edit::Keep);
    assert_eq!(edit_for_key("-", Key::Other), Edit::Keep);
    assert_eq!(edit_for_key("F1", Key::Other), Edit::Keep);
    assert_eq!(edit_for_key("@", Key::Other), Edit::Keep);
    assert_eq!(edit_for_key("[", Key::Other), Edit::Keep);
    assert_eq!(edit_for_key("Space", Key::Other), Edit::Keep);
}

#[test]
fn edits_change_the_end_of_the_query() {
    let mut query = String::from("ob");
    apply_edit(&mut query, Edit::Push('s'));
    assert_eq!(query, "obs");
    apply_edit(&mut query, Edit::Keep);
    assert_eq!(query, "obs");
    apply_edit(&mut query, Edit::Pop);
    apply_edit(&mut query, Edit::Pop);
    assert_eq!(query, "o");
    apply_edit(&mut query, Edit::Pop);
    apply_edit(&mut query, Edit::Pop);
    assert_eq!(query, "");
}
