use stm32_lib::{
    lcd_clear, lcd_init, lcd_put_cur, lcd_send_cmd, lcd_send_data, lcd_write, lcd_write_str,
};

#[test]
fn command_byte_frames_high_then_low_nibble() {
    let mut out = Vec::new();
    lcd_send_cmd(0x28, &mut out);
    assert_eq!(out, vec![0x2C, 0x28, 0x8C, 0x88]);
}

#[test]
fn data_byte_sets_register_select() {
    let mut out = Vec::new();
    lcd_send_data(b'A', &mut out);
    assert_eq!(out, vec![0x4D, 0x49, 0x1D, 0x19]);
}

#[test]
fn frames_append_after_existing_bytes() {
    let mut out = vec![0xAA];
    lcd_send_cmd(0x01, &mut out);
    assert_eq!(out, vec![0xAA, 0x0C, 0x08, 0x1C, 0x18]);
}

#[test]
fn lcd_write_passes_four_bytes_through() {
    let mut out = Vec::new();
    lcd_write(&mut out, &[1, 2, 3, 4]);
    assert_eq!(out, vec![1, 2, 3, 4]);
}

#[test]
fn cursor_commands_for_both_rows() {
    let mut a = Vec::new();
    lcd_put_cur(&mut a, 1, 5);
    let mut b = Vec::new();
    lcd_send_cmd(0xC5, &mut b);
    assert_eq!(a, b);
    let mut c = Vec::new();
    lcd_put_cur(&mut c, 0, 3);
    let mut d = Vec::new();
    lcd_send_cmd(0x83, &mut d);
    assert_eq!(c, d);
    assert_eq!(c, vec![0x8C, 0x88, 0x3C, 0x38]);
}

#[test]
fn write_str_sends_each_byte_as_data() {
    let mut out = Vec::new();
    lcd_write_str(&mut out, "Hi");
    let mut expected = Vec::new();
    lcd_send_data(b'H', &mut expected);
    lcd_send_data(b'i', &mut expected);
    assert_eq!(out, expected);
    assert_eq!(out.len(), 8);
}

#[test]
fn write_str_of_empty_text_sends_nothing() {
    let mut out = Vec::new();
    lcd_write_str(&mut out, "");
    assert!(out.is_empty());
}

#[test]
fn clear_without_fill_is_one_command() {
    let mut out = Vec::new();
    lcd_clear(&mut out, false);
    assert_eq!(out, vec![0x0C, 0x08, 0x1C, 0x18]);
}

#[test]
fn clear_with_fill_blanks_then_homes() {
    let mut out = Vec::new();
    lcd_clear(&mut out, true);
    assert_eq!(out.len(), 4 * (1 + 70 + 1));
    assert_eq!(&out[0..4], &[0x0C, 0x08, 0x1C, 0x18]);
    for cell in 0..70 {
        let at = 4 + 4 * cell;
        assert_eq!(&out[at..at + 4], &[0x2D, 0x29, 0x0D, 0x09]);
    }
    assert_eq!(&out[out.len() - 4..], &[0x8C, 0x88, 0x0C, 0x08]);
}

#[test]
fn clear_twice_repeats_the_same_bytes() {
    let mut once = Vec::new();
    lcd_clear(&mut once, true);
    let mut twice = Vec::new();
    lcd_clear(&mut twice, true);
    lcd_clear(&mut twice, true);
    assert_eq!(twice.len(), 2 * once.len());
    assert_eq!(&twice[..once.len()], &once[..]);
    assert_eq!(&twice[once.len()..], &once[..]);
}

#[test]
fn init_sequence_order_and_delays() {
    let steps = lcd_init();
    let got: Vec<(u8, u32)> = steps.iter().map(|s| (s.command, s.settle_us)).collect();
    assert_eq!(
        got,
        vec![
            (0x30, 5000),
            (0x30, 150),
            (0x30, 10000),
            (0x20, 10000),
            (0x28, 1000),
            (0x08, 1000),
            (0x01, 2000),
            (0x06, 1000),
            (0x0C, 1000),
        ]
    );
    assert!(got[0].1 >= 4100 && got[1].1 >= 100 && got[2].1 >= 4100 && got[3].1 >= 4100);
}
