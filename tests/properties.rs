use piglet::animation::easing::{get_easing_function, EasingKind};
use piglet::animation::effects::{get_effect, list_effects, EffectKind, EffectResult};
use piglet::animation::renderer::{wait_slice, Outcome, Playback, Renderer, POLL_MS};
use piglet::animation::timeline::Timeline;
use piglet::animation::AnimationEngine;
use piglet::color::apply::{apply_color_to_char, apply_color_to_line, apply_gradient_to_text};
use piglet::color::palette::ColorPalette;
use piglet::color::ColorEngine;
use piglet::error::PigletError;
use piglet::figlet::{fonts_in, FigletWrapper};
use piglet::parser::color::Color;
use piglet::parser::duration::parse_duration;
use piglet::parser::gradient::Gradient;
use piglet::utils::ansi::strip_ansi;
use piglet::utils::ascii::AsciiArt;
use piglet::utils::fixed::ONE;
use piglet::utils::terminal::TerminalManager;

#[test]
fn frame_count_is_ceiling() {
    assert_eq!(Timeline::new(1500, 3).total_frames(), 5);
    assert_eq!(Timeline::new(1000, 30).total_frames(), 30);
    assert_eq!(Timeline::new(1, 1).total_frames(), 1);
    assert_eq!(Timeline::new(0, 30).total_frames(), 0);
}

#[test]
fn zero_frames_is_complete_at_full_progress() {
    let t = Timeline::new(0, 30);
    assert!(t.is_complete());
    assert_eq!(t.progress(), ONE);
}

#[test]
fn progress_rises_to_one_and_stays() {
    let mut t = Timeline::new(1000, 3);
    t.start(0);
    let mut seen = vec![t.progress()];
    for _ in 0..5 {
        t.next_frame();
        seen.push(t.progress());
    }
    assert_eq!(seen, vec![0, 3333, 6666, ONE, ONE, ONE]);
    assert!(!t.next_frame());
    assert_eq!(t.current_frame(), 3);
}

#[test]
fn timeline_timing_helpers() {
    let mut t = Timeline::new(1000, 30);
    assert_eq!(t.frame_duration(), 33);
    assert_eq!(t.elapsed(500), 0);
    t.start(100);
    assert_eq!(t.elapsed(350), 250);
    t.reset();
    assert_eq!(t.elapsed(350), 0);
    assert_eq!(t.duration_ms(), 1000);
}

#[test]
fn linear_is_identity() {
    for t in [0, 1, 2500, 5000, 9999, ONE] {
        assert_eq!(EasingKind::Linear.ease(t), t);
    }
}

#[test]
fn bounce_curves_stay_in_unit_range() {
    for kind in [EasingKind::EaseInBounce, EasingKind::EaseOutBounce, EasingKind::EaseInOutBounce] {
        for t in (0..=ONE).step_by(125) {
            let v = kind.ease(t);
            assert!((0..=ONE).contains(&v), "{:?} at {} gave {}", kind, t, v);
        }
        assert_eq!(kind.ease(0), 0);
        assert_eq!(kind.ease(ONE), ONE);
    }
}

#[test]
fn easing_values() {
    assert_eq!(EasingKind::EaseIn.ease(5000), 2500);
    assert_eq!(EasingKind::EaseOut.ease(5000), 7500);
    assert_eq!(EasingKind::EaseInOut.ease(2500), 1250);
    assert_eq!(EasingKind::EaseInOutQuad.ease(7500), 8750);
    assert_eq!(EasingKind::EaseInCubic.ease(5000), 1250);
    assert_eq!(EasingKind::EaseOutCubic.ease(5000), 8750);
    assert_eq!(EasingKind::EaseInOutCubic.ease(ONE), ONE);
    assert_eq!(EasingKind::EaseInBack.ease(ONE), ONE);
    assert_eq!(EasingKind::EaseOutBack.ease(ONE), ONE);
    assert!(EasingKind::EaseInBack.ease(2000) < 0);
    assert!(EasingKind::EaseOutBack.ease(8000) > ONE);
    assert_eq!(EasingKind::EaseInElastic.ease(0), 0);
    assert_eq!(EasingKind::EaseOutElastic.ease(ONE), ONE);
    assert_eq!(EasingKind::EaseInOutElastic.ease(ONE), ONE);
    assert_eq!(EasingKind::EaseOutBounce.ease(5000), 7656);
}

#[test]
fn every_easing_name_is_found() {
    for name in [
        "linear", "ease-in", "ease-out", "ease-in-out", "ease-in-quad", "ease-out-quad",
        "ease-in-out-quad", "ease-in-cubic", "ease-out-cubic", "ease-in-out-cubic",
        "ease-in-back", "ease-out-back", "ease-in-out-back", "ease-in-elastic",
        "ease-out-elastic", "ease-in-out-elastic", "ease-in-bounce", "ease-out-bounce",
        "ease-in-out-bounce",
    ] {
        assert_eq!(get_easing_function(name).unwrap().name(), name);
    }
}

#[test]
fn every_listed_effect_is_found() {
    let names = list_effects();
    assert_eq!(names.len(), 51);
    let mut sorted = names.clone();
    sorted.sort();
    sorted.dedup();
    assert_eq!(sorted.len(), 51);
    for name in names {
        assert_eq!(get_effect(name).unwrap().name(), name);
    }
}

#[test]
fn unknown_names_are_reported() {
    match get_effect("not-an-effect") {
        Err(e) => assert_eq!(e.message(), "Unknown effect: not-an-effect"),
        Ok(_) => panic!("an unknown effect was found"),
    }
    match get_easing_function("not-an-easing") {
        Err(e) => assert_eq!(e.message(), "Unknown easing function: not-an-easing"),
        Ok(_) => panic!("an unknown easing was found"),
    }
}

#[test]
fn palette_is_cyclic() {
    let p = ColorPalette::rainbow();
    for i in 0..7 {
        assert_eq!(p.get_color(i), p.get_color(i + 3 * p.len()));
    }
    assert_eq!(p.get_color(7), Color::new(255, 0, 0));
    assert_eq!(ColorPalette::ocean().get_color(2), Color::new(0x41, 0x69, 0xe1));
    assert_eq!(ColorPalette::new(vec![]).get_color(4), Color::new(255, 255, 255));
    assert!(ColorPalette::new(vec![]).is_empty());
}

#[test]
fn palette_reports_first_bad_color() {
    let names = ["red".to_string(), "nope".to_string(), "also-bad".to_string()];
    match ColorPalette::from_strings(&names) {
        Err(PigletError::InvalidColor(s)) => assert_eq!(s, "nope"),
        other => panic!("unexpected {:?}", other.map(|p| p.len())),
    }
}

#[test]
fn fade_extremes() {
    let art = AsciiArt::new("abc\nde".to_string());
    assert_eq!(art.apply_fade(ONE), art.render());
    assert_eq!(art.apply_fade(0), "   \n   ");
    assert_eq!(art.apply_fade(-3), "   \n   ");
    assert_eq!(art.apply_fade(5000), "~~~\n~~");
    assert_eq!(art.apply_fade(9999), "###\n##");
}

#[test]
fn scale_identity_and_empty() {
    let art = AsciiArt::new("ab\ncd".to_string());
    assert_eq!(art.scale(ONE).render(), "ab\ncd");
    assert_eq!(art.scale(ONE + 50).render(), "ab\ncd");
    assert_eq!(art.scale(0).height(), 0);
    assert_eq!(art.scale(-ONE).height(), 0);
    assert_eq!(art.scale(2 * ONE).render(), "aabb\naabb\nccdd\nccdd");
    assert_eq!(art.scale(ONE / 2).render(), "a");
}

#[test]
fn art_geometry() {
    let art = AsciiArt::new("ab c\n\nxyz\n".to_string());
    assert_eq!(art.height(), 3);
    assert_eq!(art.width(), 4);
    assert_eq!(art.char_count(), 6);
    assert_eq!(art.char_at(3, 0), Some('c'));
    assert_eq!(art.char_at(0, 1), None);
    assert_eq!(art.char_positions()[3], (0, 2, 'x'));
    assert_eq!(art.get_lines(), vec!["ab c".to_string(), String::new(), "xyz".to_string()]);
    let empty = AsciiArt::new(String::new());
    assert_eq!((empty.width(), empty.height()), (0, 0));
}

#[test]
fn typewriter_half_way() {
    let engine = AnimationEngine::new("HI\nHI".to_string(), 1000, 10)
        .with_effect("typewriter")
        .unwrap()
        .with_easing("linear")
        .unwrap();
    let renderer = engine.into_renderer().unwrap();
    let mut play = Playback::new(1000, 10);
    play.start(0);
    for _ in 0..5 {
        assert!(play.checkpoint(false));
        assert!(play.after_paint());
    }
    let p = play.progress();
    assert_eq!(p, ONE / 2);
    assert_eq!(renderer.frame(p).text, "HI\n  ");
    assert_eq!(renderer.frame(0).text, "  \n  ");
    assert_eq!(renderer.frame(ONE).text, "HI\nHI");
}

#[test]
fn typewriter_reverse_and_whitespace() {
    let art = AsciiArt::new("a b\n c".to_string());
    assert_eq!(EffectKind::TypewriterReverse.apply(&art, ONE / 3).text, "a b\n  ");
    assert_eq!(EffectKind::Typewriter.apply(&art, ONE / 2).text, "a  \n  ");
}

#[test]
fn positional_effects() {
    let art = AsciiArt::new("ab\ncd".to_string());
    assert_eq!(EffectKind::SlideInTop.apply(&art, 0).offset_y, -2);
    assert_eq!(EffectKind::SlideInRight.apply(&art, 0).offset_x, 2);
    assert_eq!(EffectKind::SlideInLeft.apply(&art, ONE).offset_x, 0);
    assert_eq!(EffectKind::SlideOutBottom.apply(&art, ONE).offset_y, 12);
    assert_eq!(EffectKind::SlideOutLeft.apply(&art, ONE).offset_x, -12);
    assert_eq!(EffectKind::ShadowDrop.apply(&art, 0).offset_y, -20);
    assert_eq!(EffectKind::ShadowDrop.apply(&art, 0).opacity, 3000);
    assert_eq!(EffectKind::Shake.apply(&art, ONE).offset_x, 0);
    assert_eq!(EffectKind::Blink.apply(&art, 2000).opacity, 0);
    assert_eq!(EffectKind::Blink.apply(&art, 1000).opacity, ONE);
}

#[test]
fn text_effects() {
    let art = AsciiArt::new("ab\ncd".to_string());
    assert_eq!(EffectKind::FlipHorizontal.apply(&art, ONE).text, "ba\ndc");
    assert_eq!(EffectKind::FlipVertical.apply(&art, ONE).text, "cd\nab");
    assert_eq!(EffectKind::TrackingOut.apply(&art, ONE).text, "a   b   \nc   d   ");
    assert_eq!(EffectKind::TrackingIn.apply(&art, ONE).text, "ab\ncd");
    assert_eq!(EffectKind::Rainbow.apply(&art, 1234).text, "ab\ncd");
    assert_eq!(EffectKind::FadeOut.apply(&art, ONE).text, "  \n  ");
    assert_eq!(EffectKind::RotateCenter.apply(&art, 0).text, "ab\ncd");
    assert_eq!(EffectKind::Wave.apply(&art, 0).text, "ab\n cd");
}

#[test]
fn scale_effects() {
    let art = AsciiArt::new("ab\ncd".to_string());
    assert_eq!(EffectKind::ScaleDown.apply(&art, 0).text, "aabb\naabb\nccdd\nccdd");
    assert_eq!(EffectKind::ScaleUp.apply(&art, ONE).scale, ONE);
    assert_eq!(EffectKind::PuffOut.apply(&art, ONE).scale, 1000);
    assert_eq!(EffectKind::FocusIn.apply(&art, ONE).opacity, ONE);
    assert_eq!(EffectKind::FocusIn.apply(&art, 2500).opacity, 5000);
    assert_eq!(EffectKind::BlurOut.apply(&art, ONE).opacity, 0);
}

#[test]
fn effect_result_builders() {
    let r = EffectResult::new("x".to_string()).with_opacity(5).with_offset(1, -2).with_scale(7);
    assert_eq!((r.opacity, r.offset_x, r.offset_y, r.scale), (5, 1, -2, 7));
    assert_eq!(r.text, "x");
}

#[test]
fn cancellation_ends_playback() {
    let mut play = Playback::new(1000, 10);
    play.start(0);
    assert!(play.checkpoint(false));
    assert!(!play.checkpoint(true));
    assert_eq!(play.outcome(), Some(Outcome::Cancelled));
    assert!(!play.checkpoint(false));
    assert_eq!(play.outcome(), Some(Outcome::Cancelled));
    assert_eq!(wait_slice(12), POLL_MS);
    assert_eq!(wait_slice(3), 3);
    assert_eq!(play.wait_budget(40), 60);
    assert_eq!(play.wait_budget(150), 0);
}

#[test]
fn playback_completes_after_last_frame() {
    let mut play = Playback::new(200, 10);
    play.start(0);
    assert!(play.after_paint());
    assert!(play.after_paint());
    assert_eq!(play.outcome(), None);
    assert!(!play.after_paint());
    assert_eq!(play.outcome(), Some(Outcome::Completed));
}

#[test]
fn terminal_cleanup_runs_once() {
    let mut t = TerminalManager::new(80, 24);
    assert!(!t.cleanup());
    t.setup();
    assert!(t.cleanup());
    assert!(!t.cleanup());
    t.refresh_size(100, 30);
    assert_eq!(t.get_size(), (100, 30));
}

#[test]
fn centered_and_offset_layout() {
    let t = TerminalManager::new(10, 5);
    let c = t.print_centered("ab\nc");
    assert_eq!((c[0].x, c[0].y, c[0].text.as_str()), (4, 1, "ab"));
    assert_eq!((c[1].x, c[1].y, c[1].text.as_str()), (4, 2, "c"));
    let o = t.print_offset("ab\nc", 3, 2);
    assert_eq!((o[0].x, o[0].y), (7, 3));
    assert_eq!((o[1].x, o[1].y), (7, 4));
    let cut = t.print_offset("a\nb\nc", 0, 3);
    assert_eq!(cut.len(), 1);
    let left = t.print_offset("ab", -20, 0);
    assert_eq!(left[0].x, 0);
}

#[test]
fn duration_edges() {
    assert_eq!(parse_duration("  2s ").unwrap(), 2000);
    assert_eq!(parse_duration("1.23456789012s").unwrap(), 1234);
    assert_eq!(parse_duration("0ms").unwrap(), 0);
    assert!(parse_duration("1.s").is_err());
    assert!(parse_duration(".5s").is_err());
    assert!(parse_duration("").is_err());
    assert!(parse_duration("-1s").is_err());
    assert_eq!(parse_duration("99999999999999999999h").unwrap(), u64::MAX);
    match parse_duration("10x") {
        Err(PigletError::InvalidDuration(s)) => assert_eq!(s, "10x"),
        _ => panic!("expected an invalid duration"),
    }
}

#[test]
fn ansi_for_color() {
    assert_eq!(Color::new(255, 87, 51).to_ansi(), "\x1b[38;2;255;87;51m");
    assert_eq!(Color::new(0, 7, 10).to_ansi(), "\x1b[38;2;0;7;10m");
}

#[test]
fn strip_lone_escape() {
    assert_eq!(strip_ansi("a\x1bb"), "ab");
    assert_eq!(strip_ansi("\x1b[31"), "");
}

#[test]
fn styled_text_keeps_character_and_adds_color() {
    let red = Color::new(255, 0, 0);
    let s = apply_color_to_char('A', red);
    let forms = ["\x1b[38;2;255;0;0mA\x1b[39m", "\x1b[mA\x1b[m", ""];
    assert!(forms.contains(&s.as_str()), "unexpected {:?}", s);
    let line = apply_color_to_line("a b", &[red]);
    if !s.is_empty() {
        assert_eq!(strip_ansi(&s), "A");
        assert_eq!(strip_ansi(&line), "a b");
    }
    assert_eq!(apply_color_to_line("a b", &[]), "a b");
}

#[test]
fn gradient_text_spreads_colors() {
    let red = Color::new(255, 0, 0);
    let blue = Color::new(0, 0, 255);
    let out = apply_gradient_to_text("ab", &[red, blue]);
    assert_eq!(out, format!("{}{}", apply_color_to_char('a', red), apply_color_to_char('b', blue)));
    assert_eq!(apply_gradient_to_text("", &[red]), "");
    assert_eq!(apply_gradient_to_text("ab", &[]), "ab");
}

#[test]
fn gradient_parse_errors_and_angles() {
    assert!(matches!(Gradient::parse("radial-gradient(red, blue)"), Err(PigletError::InvalidGradient(_))));
    assert!(matches!(Gradient::parse("linear-gradient(red, blue"), Err(PigletError::InvalidGradient(_))));
    assert!(matches!(Gradient::parse("linear-gradient(90deg)"), Err(PigletError::InvalidGradient(_))));
    match Gradient::parse("linear-gradient(red, nocolor)") {
        Err(PigletError::InvalidColor(s)) => assert_eq!(s, "nocolor"),
        _ => panic!("expected an invalid color"),
    }
    assert_eq!(Gradient::parse("linear-gradient(45deg, red, blue)").unwrap().angle, 45 * ONE);
    assert_eq!(Gradient::parse("linear-gradient(to left, red, blue)").unwrap().angle, 270 * ONE);
    assert_eq!(Gradient::parse("linear-gradient(red, blue)").unwrap().angle, 180 * ONE);
    let g = Gradient::parse("linear-gradient(red, lime, blue)").unwrap();
    assert_eq!(g.stops[1].position, ONE / 2);
    assert_eq!(g.colors(3)[1], Color::new(0, 255, 0));
}

#[test]
fn engine_colors_by_mode() {
    let none = ColorEngine::new();
    assert!(!none.has_colors());
    assert_eq!(none.color_at(0), None);
    assert!(none.get_colors(4).is_empty());
    let names = ["red".to_string(), "blue".to_string()];
    let pal = ColorEngine::new().with_palette(Some(&names[..])).unwrap();
    assert_eq!(pal.color_at(3 * ONE / 2), Some(Color::new(0, 0, 255)));
    assert_eq!(pal.color_at(3 * ONE), Some(Color::new(255, 0, 0)));
    assert_eq!(pal.color_at(-5), Some(Color::new(255, 0, 0)));
    assert_eq!(pal.color_at(ONE / 2), Some(Color::new(0, 0, 255)));
    assert_eq!(pal.get_colors(3), vec![Color::new(255, 0, 0), Color::new(0, 0, 255), Color::new(255, 0, 0)]);
    let grad = ColorEngine::new().with_gradient(Some("linear-gradient(red, blue)")).unwrap();
    assert_eq!(grad.color_at(ONE), Some(Color::new(0, 0, 255)));
    assert_eq!(grad.color_at(5 * ONE), Some(Color::new(0, 0, 255)));
    assert!(ColorEngine::new().with_gradient(Some("nope")).is_err());
}

#[test]
fn renderer_colors_frames() {
    let names = ["red".to_string()];
    let colors = ColorEngine::new().with_palette(Some(&names[..])).unwrap();
    let renderer = Renderer::new(
        AsciiArt::new("a".to_string()),
        1000,
        10,
        EffectKind::SlideInTop,
        EasingKind::Linear,
        colors,
    );
    let frame = renderer.frame(ONE);
    assert_eq!(frame.text, apply_color_to_char('a', Color::new(255, 0, 0)));
    assert_eq!(frame.offset_y, 0);
}

#[test]
fn figlet_options_and_fonts() {
    let f = FigletWrapper::new().with_font(Some("big")).with_args(vec!["-c".to_string()]);
    assert_eq!(f.command_args("Hi"), vec!["-f", "big", "-c", "Hi"]);
    assert_eq!(FigletWrapper::new().command_args("Hi"), vec!["Hi"]);
    let fonts = fonts_in("Figlet fonts in this directory:\nbanner\nbig  extra\n   \nslant\n");
    assert_eq!(fonts, vec!["banner", "big", "slant"]);
}
