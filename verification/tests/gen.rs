use wspr_beacon::gen::{
    adjust_frequency, format_freq_field, format_u32, state_label, status_line, step_label, title_line, ChannelEffect,
    ChannelState, Control, Direction, Ui, FREQ_MAX_HZ, FREQ_MIN_HZ, LONG_PRESS_TICKS,
};
use wspr_beacon::si5351::{ClockOutput, PLL};

fn channels() -> [ChannelState; 2] {
    [
        ChannelState::new(b"CLK0", PLL::A, ClockOutput::Clk0, 7_000_000),
        ChannelState::new(b"CLK1", PLL::B, ClockOutput::Clk1, 14_000_000),
    ]
}

#[test]
fn formats_numbers() {
    let mut b = [0u8; 10];
    assert_eq!(format_u32(0, &mut b), b"0");
    assert_eq!(format_u32(7, &mut b), b"7");
    assert_eq!(format_u32(1234, &mut b), b"1234");
    assert_eq!(format_u32(u32::MAX, &mut b), b"4294967295");
}

#[test]
fn formats_frequency_fields() {
    let mut b = [0u8; 10];
    assert_eq!(format_freq_field(7_000_000, &mut b), b"7.000M");
    assert_eq!(format_freq_field(14_095_600, &mut b), b"14.09M");
    assert_eq!(format_freq_field(150_000_000, &mut b), b"150.0M");
    assert_eq!(format_freq_field(123_456, &mut b), b"123.4K");
    assert_eq!(format_freq_field(10_050, &mut b), b"10.05K");
    assert_eq!(format_freq_field(4_000, &mut b), b"4.000K");
    assert_eq!(format_freq_field(999, &mut b), b"999H");
    assert_eq!(format_freq_field(0, &mut b), b"0H");
    assert_eq!(format_freq_field(u32::MAX, &mut b), b"4294.9M");
}

#[test]
fn labels() {
    assert_eq!(step_label(0), b"10H");
    assert_eq!(step_label(2), b"500H");
    assert_eq!(step_label(3), b"1K");
    assert_eq!(step_label(6), b"500K");
    assert_eq!(step_label(8), b"10M");
    assert_eq!(state_label(true), b"ON ");
    assert_eq!(state_label(false), b"OFF");
}

#[test]
fn panel_lines() {
    let mut c = channels()[0];
    assert_eq!(&title_line(&c), b"CLK0            ");
    c.draft_freq = 7_000_010;
    assert!(c.has_pending_changes());
    assert_eq!(&title_line(&c), b"CLK0*           ");
    assert_eq!(&status_line(&c, Control::Frequency), b">7.000M 10H  OFF");
    c.draft_step_idx = 6;
    c.draft_enabled = true;
    assert_eq!(&status_line(&c, Control::Step), b" 7.000M>500K ON ");
    assert_eq!(&status_line(&c, Control::State), b" 7.000M 500K>ON ");
    let long = ChannelState::new(b"A VERY LONG CHANNEL", PLL::A, ClockOutput::Clk0, 7);
    assert_eq!(&title_line(&long), b"A VERY LONG CHAN");
}

#[test]
fn adjust_frequency_saturates_at_the_limits() {
    let mut f = 149_999_990;
    adjust_frequency(&mut f, 100, Direction::Clockwise);
    assert_eq!(f, FREQ_MAX_HZ);
    let mut f = 4_005;
    adjust_frequency(&mut f, 10, Direction::Anticlockwise);
    assert_eq!(f, FREQ_MIN_HZ);
    let mut f = 7_000_000;
    adjust_frequency(&mut f, 1_000, Direction::Clockwise);
    assert_eq!(f, 7_001_000);
    adjust_frequency(&mut f, 1_000, Direction::Still);
    assert_eq!(f, 7_001_000);
    let mut f = u32::MAX - 1;
    adjust_frequency(&mut f, 10, Direction::Clockwise);
    assert_eq!(f, FREQ_MAX_HZ);
}

#[test]
fn control_cycle_and_apply() {
    assert_eq!(Control::Frequency.next(), Control::Step);
    assert_eq!(Control::Step.next(), Control::State);
    assert_eq!(Control::State.next(), Control::Frequency);
    let mut c = channels()[0];
    c.draft_freq = 7_100_000;
    c.draft_enabled = true;
    c.draft_step_idx = 4;
    assert_eq!(c.apply(Control::Step), ChannelEffect::Nothing);
    assert_eq!(c.applied_step_idx, 4);
    assert_eq!(c.apply(Control::State), ChannelEffect::Switch);
    assert!(c.applied_enabled);
    assert_eq!(c.apply(Control::Frequency), ChannelEffect::Reprogram);
    assert_eq!(c.applied_freq, 7_100_000);
    assert!(!c.has_pending_changes());
}

/// Hold the button level for `n` samples.
fn hold(ui: &mut Ui, ch: &mut [ChannelState; 2], pressed: bool, n: u32) -> Vec<ChannelEffect> {
    let mut effects = Vec::new();
    for _ in 0..n {
        let out = ui.tick(ch, Direction::Still, pressed);
        if out.effect != ChannelEffect::Nothing {
            effects.push(out.effect);
        }
    }
    effects
}

#[test]
fn first_tick_draws_both_lines() {
    let mut ch = channels();
    let mut ui = Ui::new(false);
    let out = ui.tick(&mut ch, Direction::Still, false);
    assert_eq!(&out.title.unwrap(), b"CLK0            ");
    assert_eq!(&out.status.unwrap(), b">7.000M 10H  OFF");
    let out = ui.tick(&mut ch, Direction::Still, false);
    assert!(out.title.is_none() && out.status.is_none());
}

#[test]
fn encoder_edits_the_draft() {
    let mut ch = channels();
    let mut ui = Ui::new(false);
    let out = ui.tick(&mut ch, Direction::Clockwise, false);
    assert_eq!(ch[0].draft_freq, 7_000_010);
    assert_eq!(&out.title.unwrap(), b"CLK0*           ");
    ui.tick(&mut ch, Direction::Anticlockwise, false);
    assert_eq!(ch[0].draft_freq, 7_000_000);
    assert_eq!(ch[1].draft_freq, 14_000_000);
}

#[test]
fn single_press_selects_next_control_after_window() {
    let mut ch = channels();
    let mut ui = Ui::new(false);
    hold(&mut ui, &mut ch, true, 50);
    hold(&mut ui, &mut ch, false, 50);
    assert_eq!(ui.selected_control, Control::Frequency);
    assert!(ui.pending_short_press);
    hold(&mut ui, &mut ch, false, 400);
    assert_eq!(ui.selected_control, Control::Step);
    // Now the encoder moves the step.
    ui.tick(&mut ch, Direction::Anticlockwise, false);
    assert_eq!(ch[0].draft_step_idx, 8);
}

#[test]
fn double_press_applies_the_selected_control() {
    let mut ch = channels();
    let mut ui = Ui::new(false);
    ui.tick(&mut ch, Direction::Clockwise, false);
    hold(&mut ui, &mut ch, true, 50);
    hold(&mut ui, &mut ch, false, 50);
    hold(&mut ui, &mut ch, true, 50);
    let effects = hold(&mut ui, &mut ch, false, 50);
    assert_eq!(effects, vec![ChannelEffect::Reprogram]);
    assert_eq!(ch[0].applied_freq, 7_000_010);
    assert_eq!(ui.selected_control, Control::Frequency);
    assert!(!ui.pending_short_press);
}

#[test]
fn long_press_switches_channel() {
    let mut ch = channels();
    let mut ui = Ui::new(false);
    hold(&mut ui, &mut ch, true, LONG_PRESS_TICKS as u32 + 30);
    assert_eq!(ui.active_channel, 0);
    let effects = hold(&mut ui, &mut ch, false, 30);
    assert!(effects.is_empty());
    assert_eq!(ui.active_channel, 1);
    assert!(!ui.pending_short_press);
    ui.tick(&mut ch, Direction::Clockwise, false);
    assert_eq!(ch[1].draft_freq, 14_000_010);
}

#[test]
fn bounce_is_ignored() {
    let mut ch = channels();
    let mut ui = Ui::new(false);
    for i in 0..100 {
        ui.tick(&mut ch, Direction::Still, i % 2 == 0);
    }
    assert!(!ui.button_pressed);
    assert!(!ui.pending_short_press);
}

#[test]
fn formatted_fields_live_in_the_buffer() {
    let mut b = [0u8; 10];
    let len = format_u32(1234, &mut b).len();
    assert_eq!(&b[10 - len..], b"1234");
    let mut b = [0u8; 10];
    let len = format_freq_field(14_095_600, &mut b).len();
    assert_eq!(&b[..len], b"14.09M");
}
