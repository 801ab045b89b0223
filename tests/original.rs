use piglet::animation::easing::get_easing_function;
use piglet::animation::effects::{get_effect, EffectKind};
use piglet::animation::easing::EasingKind;
use piglet::animation::renderer::Renderer;
use piglet::animation::timeline::Timeline;
use piglet::color::palette::ColorPalette;
use piglet::color::ColorEngine;
use piglet::parser::color::Color;
use piglet::parser::duration::parse_duration;
use piglet::parser::gradient::Gradient;
use piglet::utils::ansi::{strip_ansi, visual_width};
use piglet::utils::ascii::AsciiArt;
use piglet::utils::fixed::ONE;

#[test]
fn test_timeline_creation() {
    let timeline = Timeline::new(1000, 30);
    assert_eq!(timeline.total_frames(), 30);
    assert_eq!(timeline.fps(), 30);
}

#[test]
fn test_timeline_progress() {
    let mut timeline = Timeline::new(1000, 10);
    timeline.start(0);

    assert_eq!(timeline.progress(), 0);

    for _ in 0..5 {
        timeline.next_frame();
    }

    assert_eq!(timeline.progress(), ONE / 2);
}

#[test]
fn test_timeline_completion() {
    let mut timeline = Timeline::new(1000, 10);
    timeline.start(0);

    assert!(!timeline.is_complete());

    for _ in 0..10 {
        timeline.next_frame();
    }

    assert!(timeline.is_complete());
}

#[test]
fn test_renderer_creation() {
    let ascii_art = AsciiArt::new("Test".to_string());
    let renderer = Renderer::new(
        ascii_art,
        1000,
        30,
        EffectKind::FadeIn,
        EasingKind::Linear,
        ColorEngine::new(),
    );

    assert_eq!(renderer.timeline().duration_ms(), 1000);
    assert_eq!(renderer.timeline().fps(), 30);
}

#[test]
fn test_parse_milliseconds() {
    assert_eq!(parse_duration("3000ms").unwrap(), 3000);
    assert_eq!(parse_duration("500ms").unwrap(), 500);
}

#[test]
fn test_parse_seconds() {
    assert_eq!(parse_duration("3s").unwrap(), 3000);
    assert_eq!(parse_duration("0.5s").unwrap(), 500);
    assert_eq!(parse_duration("1.5s").unwrap(), 1500);
}

#[test]
fn test_parse_minutes() {
    assert_eq!(parse_duration("1m").unwrap(), 60000);
    assert_eq!(parse_duration("0.5m").unwrap(), 30000);
}

#[test]
fn test_parse_hours() {
    assert_eq!(parse_duration("1h").unwrap(), 3600000);
    assert_eq!(parse_duration("0.5h").unwrap(), 1800000);
}

#[test]
fn test_invalid_format() {
    assert!(parse_duration("invalid").is_err());
    assert!(parse_duration("10").is_err());
    assert!(parse_duration("10x").is_err());
}

#[test]
fn test_strip_ansi() {
    let text = "\x1b[38;2;255;87;51mHello\x1b[0m";
    assert_eq!(strip_ansi(text), "Hello");
}

#[test]
fn test_visual_width() {
    let text = "\x1b[38;2;255;87;51mHi\x1b[0m";
    assert_eq!(visual_width(text), 2);
}

#[test]
fn test_no_ansi() {
    let text = "Plain text";
    assert_eq!(strip_ansi(text), "Plain text");
    assert_eq!(visual_width(text), 10);
}

#[test]
fn test_duration_parser() {
    assert_eq!(parse_duration("1000ms").unwrap(), 1000);
    assert_eq!(parse_duration("1s").unwrap(), 1000);
    assert_eq!(parse_duration("1m").unwrap(), 60000);
    assert_eq!(parse_duration("1h").unwrap(), 3600000);
    assert_eq!(parse_duration("0.5s").unwrap(), 500);
}

#[test]
fn test_color_parser() {
    let color = Color::parse("#FF5733").unwrap();
    assert_eq!(color.r, 255);
    assert_eq!(color.g, 87);
    assert_eq!(color.b, 51);

    let color = Color::parse("red").unwrap();
    assert_eq!(color.r, 255);
    assert_eq!(color.g, 0);
    assert_eq!(color.b, 0);
}

#[test]
fn test_gradient_parser() {
    let gradient = Gradient::parse("linear-gradient(90deg, red, blue)").unwrap();
    assert_eq!(gradient.stops.len(), 2);

    let gradient =
        Gradient::parse("linear-gradient(to right, #FF5733 0%, #33FF57 50%, #3357FF 100%)")
            .unwrap();
    assert_eq!(gradient.stops.len(), 3);
    assert_eq!(gradient.stops[0].position, 0);
    assert_eq!(gradient.stops[1].position, ONE / 2);
    assert_eq!(gradient.stops[2].position, ONE);
}

#[test]
fn test_color_interpolation() {
    let red = Color::new(255, 0, 0);
    let blue = Color::new(0, 0, 255);
    let purple = red.interpolate(&blue, ONE / 2);

    assert_eq!(purple.r, 127);
    assert_eq!(purple.g, 0);
    assert_eq!(purple.b, 127);
}

#[test]
fn test_color_palette() {
    let palette =
        ColorPalette::from_strings(&["red".to_string(), "green".to_string(), "blue".to_string()])
            .unwrap();

    assert_eq!(palette.len(), 3);

    let color = palette.get_color(0);
    assert_eq!(color.r, 255);
    assert_eq!(color.g, 0);
    assert_eq!(color.b, 0);
}

#[test]
fn test_easing_functions() {
    let linear = get_easing_function("linear").unwrap();
    assert_eq!(linear.ease(ONE / 2), ONE / 2);

    let ease_in = get_easing_function("ease-in").unwrap();
    let result = ease_in.ease(ONE / 2);
    assert!((0..=ONE).contains(&result));

    let ease_out_bounce = get_easing_function("ease-out-bounce").unwrap();
    let result = ease_out_bounce.ease(ONE / 2);
    assert!((0..=ONE + ONE / 2).contains(&result));
}

#[test]
fn test_effects() {
    let fade_in = get_effect("fade-in").unwrap();
    assert_eq!(fade_in.name(), "fade-in");

    let typewriter = get_effect("typewriter").unwrap();
    assert_eq!(typewriter.name(), "typewriter");

    let bounce = get_effect("bounce-in").unwrap();
    assert_eq!(bounce.name(), "bounce-in");
}

#[test]
fn test_color_engine() {
    let names = ["red".to_string(), "blue".to_string()];
    let engine = ColorEngine::new().with_palette(Some(&names[..])).unwrap();

    assert!(engine.has_colors());

    let color = engine.get_color(0, 0);
    assert!(color.is_some());
}

#[test]
fn test_gradient_color_at() {
    let gradient = Gradient::parse("linear-gradient(red, blue)").unwrap();

    let color_start = gradient.color_at(0);
    assert_eq!(color_start.r, 255);
    assert_eq!(color_start.b, 0);

    let color_end = gradient.color_at(ONE);
    assert_eq!(color_end.r, 0);
    assert_eq!(color_end.b, 255);

    let color_mid = gradient.color_at(ONE / 2);
    assert!(color_mid.r > 0 && color_mid.r < 255);
    assert!(color_mid.b > 0 && color_mid.b < 255);
}

#[test]
fn test_invalid_duration() {
    assert!(parse_duration("invalid").is_err());
    assert!(parse_duration("10").is_err());
    assert!(parse_duration("10x").is_err());
}

#[test]
fn test_invalid_color() {
    assert!(Color::parse("notacolor").is_err());
    assert!(Color::parse("#GGGGGG").is_err());
}

#[test]
fn test_invalid_effect() {
    assert!(get_effect("not-an-effect").is_err());
}

#[test]
fn test_invalid_easing() {
    assert!(get_easing_function("not-an-easing").is_err());
}
