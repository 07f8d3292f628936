use statusbar::weather::weather_text;

#[test]
fn weather_answer_is_trimmed() {
    assert_eq!(weather_text("\u{2600}\u{fe0f} +21\u{b0}C\n"), "\u{2600}\u{fe0f} +21\u{b0}C");
    assert_eq!(weather_text("  x y \t\r\n"), "x y");
    assert_eq!(weather_text("\u{a0}\u{3000}x\u{2003}"), "x");
    assert_eq!(weather_text("x"), "x");
}

#[test]
fn weather_of_nothing_is_empty() {
    assert_eq!(weather_text(""), "");
    assert_eq!(weather_text(" \n "), "");
}

#[test]
fn unknown_place_gives_placeholder() {
    assert_eq!(weather_text("Unknown location; please try again\n"), "\u{e4e9} ");
    assert_eq!(weather_text("Unknown"), "\u{e4e9} ");
    assert_eq!(weather_text("  xxUnknownxx  "), "\u{e4e9} ");
}

#[test]
fn marker_is_matched_exactly() {
    assert_eq!(weather_text(" unknown "), "unknown");
    assert_eq!(weather_text(" Unknow n "), "Unknow n");
    assert_eq!(weather_text("Unknow"), "Unknow");
}
