use color_picker_panel::{
    adjust_with_keyboard, hue_segments, keyboard_adjustment, keyboard_dispatch, parse_arrow_key, respond, sector_rgb,
    segment_rounding, update_hsv_from_position, Adjustment, ArrowKey, Channel, ColorControl,
    ColorPickerDrag, Hsv, HueSegment, PanelInput, PanelResponse, SegmentRounding, Step,
};

#[test]
fn hue_drag_changes_only_hue() {
    let mut hsv = Hsv { h: 0.1f32, s: 0.4, v: 0.7 };
    update_hsv_from_position(&mut hsv, ColorControl::Hue, 0.8, 0.);
    assert_eq!(hsv, Hsv { h: 0.8, s: 0.4, v: 0.7 });
    update_hsv_from_position(&mut hsv, ColorControl::Hue, 0.2, 1.);
    assert_eq!(hsv, Hsv { h: 0.2, s: 0.4, v: 0.7 });
}

#[test]
fn spectrum_drag_sets_saturation_and_value_and_keeps_hue() {
    let mut hsv = Hsv { h: 0.1f32, s: 0.4, v: 0.7 };
    update_hsv_from_position(&mut hsv, ColorControl::Spectrum, 0.25, 0.9);
    assert_eq!(hsv, Hsv { h: 0.1, s: 0.25, v: 0.9 });
}

#[test]
fn repeated_position_update_changes_nothing_more() {
    let mut hsv = Hsv { h: 3u8, s: 4, v: 5 };
    update_hsv_from_position(&mut hsv, ColorControl::Spectrum, 7, 8);
    let once = hsv;
    update_hsv_from_position(&mut hsv, ColorControl::Spectrum, 7, 8);
    assert_eq!(hsv, once);
    assert_eq!(hsv, Hsv { h: 3, s: 7, v: 8 });
}

#[test]
fn channel_reads_back_what_was_written() {
    let mut hsv = Hsv { h: 1u32, s: 2, v: 3 };
    assert_eq!(hsv.channel(Channel::Hue), 1);
    assert_eq!(hsv.channel(Channel::Saturation), 2);
    assert_eq!(hsv.channel(Channel::Value), 3);
    hsv.set_channel(Channel::Saturation, 9);
    assert_eq!(hsv, Hsv { h: 1, s: 9, v: 3 });
    assert_eq!(hsv.channel(Channel::Saturation), 9);
    hsv.set_channel(Channel::Value, 8);
    hsv.set_channel(Channel::Hue, 7);
    assert_eq!(hsv, Hsv { h: 7, s: 9, v: 8 });
}

#[test]
fn writing_the_same_channel_value_keeps_the_colour() {
    let mut hsv = Hsv { h: 1u32, s: 2, v: 3 };
    let before = hsv;
    let s = hsv.channel(Channel::Saturation);
    hsv.set_channel(Channel::Saturation, s);
    assert_eq!(hsv, before);
}

#[test]
fn sector_table_matches_hsv_conversion() {
    // peak, base, falling, rising
    assert_eq!(sector_rgb(0, 'v', 'p', 'q', 't'), ('v', 't', 'p'));
    assert_eq!(sector_rgb(1, 'v', 'p', 'q', 't'), ('q', 'v', 'p'));
    assert_eq!(sector_rgb(2, 'v', 'p', 'q', 't'), ('p', 'v', 't'));
    assert_eq!(sector_rgb(3, 'v', 'p', 'q', 't'), ('p', 'q', 'v'));
    assert_eq!(sector_rgb(4, 'v', 'p', 'q', 't'), ('t', 'p', 'v'));
    assert_eq!(sector_rgb(5, 'v', 'p', 'q', 't'), ('v', 'p', 'q'));
}

#[test]
fn sector_wraps_after_a_full_turn() {
    assert_eq!(sector_rgb(6, 'v', 'p', 'q', 't'), ('v', 't', 'p'));
    assert_eq!(sector_rgb(7, 'v', 'p', 'q', 't'), sector_rgb(1, 'v', 'p', 'q', 't'));
    assert_eq!(sector_rgb(17, 'v', 'p', 'q', 't'), sector_rgb(5, 'v', 'p', 'q', 't'));
}

#[test]
fn sector_conversion_of_pure_colours() {
    // Full saturation and value at the start of each sector: base 0,
    // falling still at the peak, rising still at the base.
    let (peak, base, falling, rising) = (1.0f32, 0.0f32, 1.0f32, 0.0f32);
    assert_eq!(sector_rgb(0, peak, base, falling, rising), (1.0, 0.0, 0.0)); // red
    assert_eq!(sector_rgb(1, peak, base, falling, rising), (1.0, 1.0, 0.0)); // yellow
    assert_eq!(sector_rgb(2, peak, base, falling, rising), (0.0, 1.0, 0.0)); // green
    assert_eq!(sector_rgb(3, peak, base, falling, rising), (0.0, 1.0, 1.0)); // cyan
    assert_eq!(sector_rgb(4, peak, base, falling, rising), (0.0, 0.0, 1.0)); // blue
    assert_eq!(sector_rgb(5, peak, base, falling, rising), (1.0, 0.0, 1.0)); // magenta
}

#[test]
fn sector_ends_meet_next_sector_starts() {
    // At the end of a sector the falling component equals the base and the
    // rising one the peak; at the start of the next it is the other way round.
    for sector in 0usize..6 {
        let end = sector_rgb(sector, 'v', 'p', 'p', 'v');
        let start = sector_rgb(sector + 1, 'v', 'p', 'v', 'p');
        assert_eq!(end, start, "sector {}", sector);
    }
}

#[test]
fn arrow_keys_are_parsed_by_name() {
    assert_eq!(parse_arrow_key("left"), Some(ArrowKey::Left));
    assert_eq!(parse_arrow_key("right"), Some(ArrowKey::Right));
    assert_eq!(parse_arrow_key("up"), Some(ArrowKey::Up));
    assert_eq!(parse_arrow_key("down"), Some(ArrowKey::Down));
    assert_eq!(parse_arrow_key("Left"), None);
    assert_eq!(parse_arrow_key("lef"), None);
    assert_eq!(parse_arrow_key("leftt"), None);
    assert_eq!(parse_arrow_key(""), None);
    assert_eq!(parse_arrow_key("enter"), None);
    assert_eq!(parse_arrow_key("ùp"), None);
}

#[test]
fn spectrum_keys_move_saturation_and_value() {
    let c = ColorControl::Spectrum;
    assert_eq!(
        keyboard_adjustment(c, "left"),
        Some(Adjustment { channel: Channel::Saturation, step: Step::Decrease })
    );
    assert_eq!(
        keyboard_adjustment(c, "right"),
        Some(Adjustment { channel: Channel::Saturation, step: Step::Increase })
    );
    assert_eq!(
        keyboard_adjustment(c, "up"),
        Some(Adjustment { channel: Channel::Value, step: Step::Increase })
    );
    assert_eq!(
        keyboard_adjustment(c, "down"),
        Some(Adjustment { channel: Channel::Value, step: Step::Decrease })
    );
    assert_eq!(keyboard_adjustment(c, "space"), None);
}

#[test]
fn hue_keys_move_only_the_hue() {
    let c = ColorControl::Hue;
    assert_eq!(
        keyboard_adjustment(c, "left"),
        Some(Adjustment { channel: Channel::Hue, step: Step::Decrease })
    );
    assert_eq!(
        keyboard_adjustment(c, "right"),
        Some(Adjustment { channel: Channel::Hue, step: Step::Increase })
    );
    assert_eq!(keyboard_adjustment(c, "up"), None);
    assert_eq!(keyboard_adjustment(c, "down"), None);
    assert_eq!(keyboard_adjustment(c, "tab"), None);
}

#[test]
fn arrow_keys_stop_propagation_even_without_a_step() {
    let up = keyboard_dispatch(ColorControl::Hue, "up");
    assert_eq!(up.adjustment, None);
    assert!(up.stop_propagation);
    let left = keyboard_dispatch(ColorControl::Spectrum, "left");
    assert!(left.adjustment.is_some());
    assert!(left.stop_propagation);
    let other = keyboard_dispatch(ColorControl::Spectrum, "escape");
    assert_eq!(other.adjustment, None);
    assert!(!other.stop_propagation);
}

#[test]
fn hue_strip_has_six_contiguous_segments() {
    let segments = hue_segments();
    assert_eq!(segments.len(), 6);
    assert_eq!(segments[0].start_sixths, 0);
    assert_eq!(segments[5].end_sixths, 6);
    for i in 0usize..5 {
        assert_eq!(segments[i].end_sixths, segments[i + 1].start_sixths);
    }
    assert_eq!(
        segments[2],
        HueSegment { index: 2, start_sixths: 2, end_sixths: 3, rounding: SegmentRounding::Square }
    );
}

#[test]
fn only_outer_hue_segments_are_rounded() {
    let segments = hue_segments();
    assert_eq!(segments[0].rounding, SegmentRounding::BottomLeft);
    assert_eq!(segments[5].rounding, SegmentRounding::BottomRight);
    for i in 1usize..5 {
        assert_eq!(segments[i].rounding, SegmentRounding::Square);
    }
    assert_eq!(segment_rounding(0), SegmentRounding::BottomLeft);
    assert_eq!(segment_rounding(5), SegmentRounding::BottomRight);
    assert_eq!(segment_rounding(3), SegmentRounding::Square);
    assert_eq!(segment_rounding(9), SegmentRounding::Square);
}

#[test]
fn drag_targets_only_its_own_control_and_panel() {
    let drag = ColorPickerDrag::new(42, ColorControl::Spectrum);
    assert!(drag.targets(42, ColorControl::Spectrum));
    assert!(!drag.targets(42, ColorControl::Hue));
    assert!(!drag.targets(43, ColorControl::Spectrum));
}

#[test]
fn mouse_down_focuses_updates_and_stops() {
    let r = respond(7, &PanelInput::MouseDown { control: ColorControl::Hue });
    assert_eq!(
        r,
        PanelResponse {
            focus: Some(ColorControl::Hue),
            start_drag: None,
            update_from_position: Some(ColorControl::Hue),
            adjustment: None,
            stop_propagation: true,
        }
    );
}

#[test]
fn drag_start_records_origin_and_stops() {
    let r = respond(7, &PanelInput::DragStart { control: ColorControl::Spectrum });
    assert_eq!(r.start_drag, Some(ColorPickerDrag { entity_id: 7, control: ColorControl::Spectrum }));
    assert!(r.stop_propagation);
    assert_eq!(r.focus, None);
    assert_eq!(r.update_from_position, None);
}

#[test]
fn drag_move_updates_only_matching_control() {
    let drag = ColorPickerDrag { entity_id: 7, control: ColorControl::Spectrum };
    let own = respond(7, &PanelInput::DragMove { drag, control: ColorControl::Spectrum });
    assert_eq!(own.update_from_position, Some(ColorControl::Spectrum));
    assert!(!own.stop_propagation);
    let other_control = respond(7, &PanelInput::DragMove { drag, control: ColorControl::Hue });
    assert_eq!(other_control.update_from_position, None);
    let other_panel = respond(8, &PanelInput::DragMove { drag, control: ColorControl::Spectrum });
    assert_eq!(other_panel.update_from_position, None);
}

#[test]
fn key_down_steps_and_stops_on_arrows() {
    let r = respond(
        7,
        &PanelInput::KeyDown { control: ColorControl::Spectrum, key: String::from("down") },
    );
    assert_eq!(r.adjustment, Some(Adjustment { channel: Channel::Value, step: Step::Decrease }));
    assert!(r.stop_propagation);
    assert_eq!(r.update_from_position, None);
    let r = respond(7, &PanelInput::KeyDown { control: ColorControl::Hue, key: String::from("a") });
    assert_eq!(r.adjustment, None);
    assert!(!r.stop_propagation);
}

fn clamped_step(x: f32, step: Step) -> f32 {
    match step {
        Step::Decrease => (x - 0.05).max(0.),
        Step::Increase => (x + 0.05).min(1.),
    }
}

#[test]
fn keyboard_steps_only_the_named_channel() {
    let mut hsv = Hsv { h: 0.5f32, s: 0.5, v: 0.5 };
    let a = adjust_with_keyboard(&mut hsv, ColorControl::Spectrum, "right", clamped_step);
    assert_eq!(a, Some(Adjustment { channel: Channel::Saturation, step: Step::Increase }));
    assert_eq!(hsv, Hsv { h: 0.5, s: 0.55, v: 0.5 });
    let a = adjust_with_keyboard(&mut hsv, ColorControl::Spectrum, "down", clamped_step);
    assert_eq!(a, Some(Adjustment { channel: Channel::Value, step: Step::Decrease }));
    assert_eq!(hsv, Hsv { h: 0.5, s: 0.55, v: 0.45 });
    let a = adjust_with_keyboard(&mut hsv, ColorControl::Hue, "left", clamped_step);
    assert_eq!(a, Some(Adjustment { channel: Channel::Hue, step: Step::Decrease }));
    assert_eq!(hsv, Hsv { h: 0.45, s: 0.55, v: 0.45 });
}

#[test]
fn keyboard_without_a_step_keeps_the_colour() {
    let mut hsv = Hsv { h: 0.3f32, s: 0.6, v: 0.9 };
    assert_eq!(adjust_with_keyboard(&mut hsv, ColorControl::Hue, "up", clamped_step), None);
    assert_eq!(adjust_with_keyboard(&mut hsv, ColorControl::Hue, "down", clamped_step), None);
    assert_eq!(adjust_with_keyboard(&mut hsv, ColorControl::Spectrum, "enter", clamped_step), None);
    assert_eq!(hsv, Hsv { h: 0.3, s: 0.6, v: 0.9 });
}

#[test]
fn keyboard_step_is_clamped_by_the_caller() {
    let mut hsv = Hsv { h: 0.0f32, s: 1.0, v: 1.0 };
    adjust_with_keyboard(&mut hsv, ColorControl::Spectrum, "right", clamped_step);
    adjust_with_keyboard(&mut hsv, ColorControl::Spectrum, "up", clamped_step);
    adjust_with_keyboard(&mut hsv, ColorControl::Hue, "left", clamped_step);
    assert_eq!(hsv, Hsv { h: 0.0, s: 1.0, v: 1.0 });
}
