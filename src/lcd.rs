use vstd::prelude::*;
use vstd::string::StringSliceAdditionalSpecFns;

verus! {

/// Port-expander bit that keeps the display's backlight on; set in every byte.
pub const LCD_BACKLIGHT: u8 = 0x08;

/// Port-expander bit wired to the display's enable line.
pub const LCD_ENABLE: u8 = 0x04;

/// Port-expander bit wired to the display's register-select line (set for data).
pub const LCD_REGISTER_SELECT: u8 = 0x01;

/// Display command that blanks every cell and returns the cursor to the origin.
pub const CMD_CLEAR: u8 = 0x01;

/// Display command that sets the cursor to DDRAM address 0.
pub const CMD_HOME_ADDRESS: u8 = 0x80;

/// Number of cells that a clear with blank fill overwrites with spaces.
pub const BLANK_FILL_CELLS: usize = 70;

/// Wait after power-on before the first command, in microseconds.
pub const POWER_ON_DELAY_US: u32 = 50000;

/// A byte for the display, tagged with the register it goes to.
#[derive(Clone, Copy, Debug, PartialEq, Eq, Structural)]
pub enum LcdByte {
    /// An instruction (register-select clear).
    Command(u8),
    /// A character for display RAM (register-select set).
    Data(u8),
}

/// The four expander bytes that carry one display byte: the high nibble, then
/// the low nibble, each as an enable-high byte followed by an enable-low byte.
pub open spec fn frame_of(b: LcdByte) -> Seq<u8> {
    let (v, ctl) = match b {
        LcdByte::Command(c) => (c, LCD_BACKLIGHT),
        LcdByte::Data(d) => (d, LCD_BACKLIGHT | LCD_REGISTER_SELECT),
    };
    let hi = v & 0xf0;
    let lo = ((v % 16) * 16) as u8;
    seq![hi | ctl | LCD_ENABLE, hi | ctl, lo | ctl | LCD_ENABLE, lo | ctl]
}

/// The expander bytes for a sequence of display bytes, in order.
pub open spec fn frames(bs: Seq<LcdByte>) -> Seq<u8>
    decreases bs.len(),
{
    if bs.len() == 0 {
        seq![]
    } else {
        frames(bs.drop_last()) + frame_of(bs.last())
    }
}

/// Each byte of a text as a data byte.
pub open spec fn text_bytes(text: Seq<u8>) -> Seq<LcdByte> {
    text.map_values(|c: u8| LcdByte::Data(c))
}

/// `n` spaces as data bytes.
pub open spec fn spaces(n: nat) -> Seq<LcdByte> {
    Seq::new(n, |i: int| LcdByte::Data(0x20))
}

/// What a clear sends: the clear command and, with blank fill, spaces over
/// the first cells and a return of the cursor to address 0.
pub open spec fn clear_bytes(blank_fill: bool) -> Seq<LcdByte> {
    if blank_fill {
        seq![LcdByte::Command(CMD_CLEAR)] + spaces(BLANK_FILL_CELLS as nat) + seq![
            LcdByte::Command(CMD_HOME_ADDRESS),
        ]
    } else {
        seq![LcdByte::Command(CMD_CLEAR)]
    }
}

/// The command that moves the cursor to `col` on `row`.
pub open spec fn cursor_command(row: u8, col: u8) -> u8 {
    if row == 0 {
        0x80u8 | col
    } else {
        0xc0u8 | col
    }
}

/// Sending one more display byte appends its four expander bytes.
pub proof fn lemma_frames_push(bs: Seq<LcdByte>, b: LcdByte)
    ensures
        frames(bs.push(b)) == frames(bs) + frame_of(b),
{
    assert(bs.push(b).drop_last() =~= bs);
}

/// One step of the display's power-on initialisation: a command and the time
/// to let it settle, in microseconds.
#[derive(Clone, Copy, Debug, PartialEq, Eq, Structural)]
pub struct InitStep {
    pub command: u8,
    pub settle_us: u32,
}

/// The initialisation, sent after the power-on delay: three 8-bit probes,
/// the switch to 4-bit mode, then function set (two lines, 5x8 font), display
/// off, clear, entry mode (increment, no shift), display on.
pub open spec fn init_sequence() -> Seq<InitStep> {
    seq![
        InitStep { command: 0x30, settle_us: 5000 },
        InitStep { command: 0x30, settle_us: 150 },
        InitStep { command: 0x30, settle_us: 10000 },
        InitStep { command: 0x20, settle_us: 10000 },
        InitStep { command: 0x28, settle_us: 1000 },
        InitStep { command: 0x08, settle_us: 1000 },
        InitStep { command: CMD_CLEAR, settle_us: 2000 },
        InitStep { command: 0x06, settle_us: 1000 },
        InitStep { command: 0x0C, settle_us: 1000 },
    ]
}

/// The display's initialisation steps, in the order they are sent.
pub fn lcd_init() -> (r: Vec<InitStep>)
    ensures
        r@ == init_sequence(),
{
    let r = vec![
        InitStep { command: 0x30, settle_us: 5000 },
        InitStep { command: 0x30, settle_us: 150 },
        InitStep { command: 0x30, settle_us: 10000 },
        InitStep { command: 0x20, settle_us: 10000 },
        InitStep { command: 0x28, settle_us: 1000 },
        InitStep { command: 0x08, settle_us: 1000 },
        InitStep { command: CMD_CLEAR, settle_us: 2000 },
        InitStep { command: 0x06, settle_us: 1000 },
        InitStep { command: 0x0C, settle_us: 1000 },
    ];
    assert(r@ =~= init_sequence());
    r
}

/// Appends four expander bytes, in order.
pub fn lcd_write(out: &mut Vec<u8>, data: &[u8; 4])
    ensures
        final(out)@ == old(out)@ + data@,
{
    let mut i: usize = 0;
    while i < 4
        invariant
            0 <= i <= 4,
            data@.len() == 4,
            out@ == old(out)@ + data@.subrange(0, i as int),
        decreases 4 - i,
    {
        out.push(data[i]);
        i = i + 1;
        assert(data@.subrange(0, i as int) =~= data@.subrange(0, i - 1) + seq![data@[i - 1]]);
    }
    assert(data@.subrange(0, 4) =~= data@);
}

fn send_byte(out: &mut Vec<u8>, value: u8, ctl: u8)
    ensures
        final(out)@ == old(out)@ + seq![
            (value & 0xf0) | ctl | LCD_ENABLE,
            (value & 0xf0) | ctl,
            ((value % 16) * 16) as u8 | ctl | LCD_ENABLE,
            ((value % 16) * 16) as u8 | ctl,
        ],
{
    let hi: u8 = value & 0xf0;
    let lo: u8 = (value % 16) * 16;
    let data: [u8; 4] = [hi | ctl | LCD_ENABLE, hi | ctl, lo | ctl | LCD_ENABLE, lo | ctl];
    lcd_write(out, &data);
    assert(data@ =~= seq![hi | ctl | LCD_ENABLE, hi | ctl, lo | ctl | LCD_ENABLE, lo | ctl]);
}

/// Appends the four expander bytes that send `cmd` as an instruction.
pub fn lcd_send_cmd(cmd: u8, out: &mut Vec<u8>)
    ensures
        final(out)@ == old(out)@ + frame_of(LcdByte::Command(cmd)),
{
    send_byte(out, cmd, LCD_BACKLIGHT);
}

/// Appends the four expander bytes that send `data` as a character.
pub fn lcd_send_data(data: u8, out: &mut Vec<u8>)
    ensures
        final(out)@ == old(out)@ + frame_of(LcdByte::Data(data)),
{
    send_byte(out, data, LCD_BACKLIGHT | LCD_REGISTER_SELECT);
}

/// Appends the expander bytes that send each byte of `input` as a character.
pub fn lcd_write_str(out: &mut Vec<u8>, input: &str)
    ensures
        final(out)@ == old(out)@ + frames(text_bytes(input.spec_bytes())),
{
    let bytes = input.as_bytes();
    let mut i: usize = 0;
    while i < bytes.len()
        invariant
            0 <= i <= bytes@.len(),
            bytes@ == input.spec_bytes(),
            out@ == old(out)@ + frames(text_bytes(bytes@.subrange(0, i as int))),
        decreases bytes@.len() - i,
    {
        let b = bytes[i];
        lcd_send_data(b, out);
        proof {
            lemma_frames_push(text_bytes(bytes@.subrange(0, i as int)), LcdByte::Data(b));
            assert(text_bytes(bytes@.subrange(0, i + 1)) =~= text_bytes(
                bytes@.subrange(0, i as int),
            ).push(LcdByte::Data(b)));
        }
        i = i + 1;
    }
    assert(bytes@.subrange(0, bytes@.len() as int) =~= bytes@);
}

/// Appends the bytes of a clear: the clear command and, if `blank_fill`,
/// spaces over the first cells followed by a return to address 0.
pub fn lcd_clear(out: &mut Vec<u8>, blank_fill: bool)
    ensures
        final(out)@ == old(out)@ + frames(clear_bytes(blank_fill)),
{
    lcd_send_cmd(CMD_CLEAR, out);
    proof {
        lemma_frames_push(Seq::<LcdByte>::empty(), LcdByte::Command(CMD_CLEAR));
        assert(Seq::<LcdByte>::empty().push(LcdByte::Command(CMD_CLEAR)) =~= seq![
            LcdByte::Command(CMD_CLEAR),
        ]);
        assert(frames(Seq::<LcdByte>::empty()) =~= Seq::<u8>::empty());
        assert(frames(seq![LcdByte::Command(CMD_CLEAR)]) =~= frame_of(LcdByte::Command(CMD_CLEAR)));
    }
    if blank_fill {
        let ghost head = seq![LcdByte::Command(CMD_CLEAR)];
        let mut i: usize = 0;
        while i < BLANK_FILL_CELLS
            invariant
                0 <= i <= BLANK_FILL_CELLS,
                out@ == old(out)@ + frames(head + spaces(i as nat)),
            decreases BLANK_FILL_CELLS - i,
        {
            lcd_send_data(0x20, out);
            proof {
                lemma_frames_push(head + spaces(i as nat), LcdByte::Data(0x20));
                assert(head + spaces(i as nat + 1) =~= (head + spaces(i as nat)).push(
                    LcdByte::Data(0x20),
                ));
            }
            i = i + 1;
        }
        lcd_send_cmd(CMD_HOME_ADDRESS, out);
        proof {
            lemma_frames_push(head + spaces(BLANK_FILL_CELLS as nat), LcdByte::Command(CMD_HOME_ADDRESS));
            assert(clear_bytes(true) =~= (head + spaces(BLANK_FILL_CELLS as nat)).push(
                LcdByte::Command(CMD_HOME_ADDRESS),
            ));
        }
    }
}

/// Appends the instruction that moves the cursor to `col` on `row`.
pub fn lcd_put_cur(out: &mut Vec<u8>, row: u8, col: u8)
    requires
        row <= 1,
    ensures
        final(out)@ == old(out)@ + frame_of(LcdByte::Command(cursor_command(row, col))),
{
    let cmd: u8 = if row == 0 {
        0x80u8 | col
    } else {
        0xc0u8 | col
    };
    lcd_send_cmd(cmd, out);
}

} // verus!
