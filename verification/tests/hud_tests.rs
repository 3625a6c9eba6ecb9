use platformer::components::{HudText, JumpState, Vec2i};
use platformer::hud::update_hud;
use platformer::resources::FpsDisplay;
use platformer::utils::format_hud_text;

#[test]
fn hud_text_exact_composition() {
    // fps = 60, move = (0.50, -1.00), jump fired.
    let text = format_hud_text(60, Vec2i { x: 50, y: -100 }, JumpState::Fired);
    assert_eq!(
        text,
        "FPS:   60\nMove: [0.50, -1.00] (WASD/Arrows/Stick)\nJump: Fired (Space/W/Up/South)"
    );
}

#[test]
fn hud_text_lines_carry_the_inputs_in_order() {
    let text = format_hud_text(60, Vec2i { x: 50, y: -100 }, JumpState::Fired);
    let lines: Vec<&str> = text.lines().collect();
    assert_eq!(lines.len(), 3);
    assert!(lines[0].contains("60"));
    assert!(lines[1].contains("0.50"));
    assert!(lines[1].contains("-1.00"));
    assert!(lines[2].contains("Fired"));
}

#[test]
fn hud_text_is_a_pure_function_of_its_inputs() {
    let a = format_hud_text(59, Vec2i { x: -25, y: 0 }, JumpState::Held);
    let b = format_hud_text(59, Vec2i { x: -25, y: 0 }, JumpState::Held);
    assert_eq!(a, b);
}

#[test]
fn fps_field_is_right_aligned_to_width_four() {
    let short = format_hud_text(5, Vec2i { x: 0, y: 0 }, JumpState::Idle);
    assert!(short.starts_with("FPS:    5\n"));
    let exact = format_hud_text(1000, Vec2i { x: 0, y: 0 }, JumpState::Idle);
    assert!(exact.starts_with("FPS: 1000\n"));
    let wide = format_hud_text(12345, Vec2i { x: 0, y: 0 }, JumpState::Idle);
    assert!(wide.starts_with("FPS: 12345\n"));
}

#[test]
fn axis_fields_show_two_decimals() {
    let text = format_hud_text(0, Vec2i { x: 100, y: -5 }, JumpState::Idle);
    assert!(text.contains("[1.00, -0.05]"));
    let text = format_hud_text(0, Vec2i { x: 0, y: 7 }, JumpState::Idle);
    assert!(text.contains("[0.00, 0.07]"));
}

#[test]
fn jump_labels_match_the_states() {
    for (state, label) in [
        (JumpState::Idle, "Idle"),
        (JumpState::Fired, "Fired"),
        (JumpState::Held, "Held"),
        (JumpState::Released, "Released"),
    ] {
        let text = format_hud_text(0, Vec2i { x: 0, y: 0 }, state);
        assert!(text.contains(&format!("Jump: {} (Space", label)));
    }
}

#[test]
fn sample_refreshes_when_the_interval_elapses() {
    let mut display = FpsDisplay {
        timer_ms: 200,
        value: 30,
    };
    let mut hud = Some(HudText {
        content: String::new(),
    });
    // 200 + 100 crosses the 250 ms interval: refresh and wrap to 50.
    update_hud(
        &mut display,
        100,
        Some(90),
        &Some(Vec2i { x: 0, y: 0 }),
        &Some(JumpState::Idle),
        &mut hud,
    );
    assert_eq!(display.value, 90);
    assert_eq!(display.timer_ms, 50);
    assert!(hud.unwrap().content.starts_with("FPS:   90\n"));
}

#[test]
fn sample_is_debounced_between_intervals() {
    let mut display = FpsDisplay {
        timer_ms: 0,
        value: 30,
    };
    let mut hud = Some(HudText {
        content: String::new(),
    });
    // Only 100 of 250 ms accumulated: the previous sample is kept.
    update_hud(
        &mut display,
        100,
        Some(90),
        &Some(Vec2i { x: 0, y: 0 }),
        &Some(JumpState::Idle),
        &mut hud,
    );
    assert_eq!(display.value, 30);
    assert_eq!(display.timer_ms, 100);
    assert!(hud.unwrap().content.starts_with("FPS:   30\n"));
}

#[test]
fn default_zero_sample_refreshes_on_the_first_frame() {
    let mut display = FpsDisplay::default();
    let mut hud = Some(HudText {
        content: String::new(),
    });
    update_hud(
        &mut display,
        16,
        Some(61),
        &Some(Vec2i { x: 0, y: 0 }),
        &Some(JumpState::Idle),
        &mut hud,
    );
    assert_eq!(display.value, 61);
    assert_eq!(display.timer_ms, 16);
}

#[test]
fn absent_measurement_reads_as_zero() {
    let mut display = FpsDisplay {
        timer_ms: 240,
        value: 30,
    };
    let mut hud = Some(HudText {
        content: String::new(),
    });
    update_hud(
        &mut display,
        20,
        None,
        &Some(Vec2i { x: 0, y: 0 }),
        &Some(JumpState::Idle),
        &mut hud,
    );
    assert_eq!(display.value, 0);
}

#[test]
fn absent_sources_skip_the_stage_entirely() {
    let mut display = FpsDisplay {
        timer_ms: 200,
        value: 30,
    };
    let mut hud = Some(HudText {
        content: String::from("before"),
    });
    // Missing jump state: no text written and no time accumulated.
    update_hud(
        &mut display,
        100,
        Some(90),
        &Some(Vec2i { x: 0, y: 0 }),
        &None,
        &mut hud,
    );
    assert_eq!(display.timer_ms, 200);
    assert_eq!(display.value, 30);
    assert_eq!(hud.unwrap().content, "before");
}
