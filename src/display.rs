use vstd::prelude::*;
use crate::lcd::{LcdByte, CMD_CLEAR, clear_bytes, cursor_command, init_sequence, spaces, InitStep};

verus! {

/// What the display shows and where its cursor stands: one cell per DDRAM
/// address, and the address that the next character goes to.
pub struct DisplayState {
    pub cells: Seq<u8>,
    pub cursor: nat,
}

/// Number of DDRAM addresses.
pub open spec fn ddram_size() -> nat {
    128
}

/// Every cell a space.
pub open spec fn blank_cells() -> Seq<u8> {
    Seq::new(ddram_size(), |i: int| 0x20u8)
}

/// The state right after a clear command: all cells blank, cursor at the origin.
pub open spec fn cleared() -> DisplayState {
    DisplayState { cells: blank_cells(), cursor: 0 }
}

/// The address after `a` in a two-line display: the first line ends at 0x27
/// and continues at 0x40; the second ends at 0x67 and wraps to 0.
pub open spec fn next_address(a: nat) -> nat {
    if a == 0x27 {
        0x40
    } else if a >= 0x67 {
        0
    } else {
        a + 1
    }
}

/// The effect of one display byte. Commands other than clear and set-address
/// change modes that this model does not record.
pub open spec fn apply(s: DisplayState, b: LcdByte) -> DisplayState {
    match b {
        LcdByte::Command(c) => if c == CMD_CLEAR {
            cleared()
        } else if c >= 0x80 {
            DisplayState { cells: s.cells, cursor: (c - 0x80) as nat }
        } else {
            s
        },
        LcdByte::Data(d) => DisplayState {
            cells: s.cells.update(s.cursor as int, d),
            cursor: next_address(s.cursor),
        },
    }
}

/// The effect of a sequence of display bytes, in order.
pub open spec fn apply_all(s: DisplayState, bs: Seq<LcdByte>) -> DisplayState
    decreases bs.len(),
{
    if bs.len() == 0 {
        s
    } else {
        apply_all(apply(s, bs[0]), bs.drop_first())
    }
}

proof fn lemma_apply_all_concat(s: DisplayState, a: Seq<LcdByte>, b: Seq<LcdByte>)
    ensures
        apply_all(s, a + b) == apply_all(apply_all(s, a), b),
    decreases a.len(),
{
    if a.len() == 0 {
        assert(a + b =~= b);
    } else {
        assert((a + b).drop_first() =~= a.drop_first() + b);
        lemma_apply_all_concat(apply(s, a[0]), a.drop_first(), b);
    }
}

proof fn lemma_spaces_keep_blank(s: DisplayState, n: nat)
    requires
        s.cells == blank_cells(),
        s.cursor < ddram_size(),
    ensures
        apply_all(s, spaces(n)).cells == blank_cells(),
    decreases n,
{
    if n > 0 {
        let t = apply(s, LcdByte::Data(0x20));
        assert(t.cells =~= blank_cells());
        assert(spaces(n).drop_first() =~= spaces((n - 1) as nat));
        lemma_spaces_keep_blank(t, (n - 1) as nat);
    }
}

/// A clear leaves the display blank with the cursor at the origin, whatever
/// it showed before; so clearing twice leaves it as clearing once does.
pub proof fn lemma_clear_idempotent(s: DisplayState, blank_fill: bool)
    ensures
        apply_all(s, clear_bytes(blank_fill)) == cleared(),
        apply_all(apply_all(s, clear_bytes(blank_fill)), clear_bytes(blank_fill))
            == apply_all(s, clear_bytes(blank_fill)),
{
    lemma_clear_from_any(s, blank_fill);
    lemma_clear_from_any(cleared(), blank_fill);
}

proof fn lemma_clear_from_any(s: DisplayState, blank_fill: bool)
    ensures
        apply_all(s, clear_bytes(blank_fill)) == cleared(),
{
    let c = clear_bytes(blank_fill);
    let head = seq![LcdByte::Command(CMD_CLEAR)];
    if blank_fill {
        let fill = spaces(70);
        let home = seq![LcdByte::Command(0x80)];
        assert(c =~= head + (fill + home));
        lemma_apply_all_concat(s, head, fill + home);
        assert(head.drop_first() =~= Seq::<LcdByte>::empty());
        assert(apply(s, head[0]) == cleared());
        assert(apply_all(cleared(), head.drop_first()) == cleared());
        assert(apply_all(s, head) == cleared());
        lemma_apply_all_concat(cleared(), fill, home);
        lemma_spaces_keep_blank(cleared(), 70);
        let t = apply_all(cleared(), fill);
        assert(home.drop_first() =~= Seq::<LcdByte>::empty());
        assert(apply_all(t, home) == apply(t, LcdByte::Command(0x80)));
    } else {
        assert(c.drop_first() =~= Seq::<LcdByte>::empty());
        assert(apply(s, c[0]) == cleared());
        assert(apply_all(cleared(), c.drop_first()) == cleared());
    }
}

/// The commands of the initialisation, in order.
pub open spec fn init_commands() -> Seq<LcdByte> {
    init_sequence().map_values(|st: InitStep| LcdByte::Command(st.command))
}

/// Moving the cursor to `col` on a row puts it at that row's base address
/// (0 or 0x40) plus `col`, for a column within the row's 0x40 addresses.
pub proof fn lemma_cursor_address(s: DisplayState, row: u8, col: u8)
    requires
        row <= 1,
        col < 0x40,
    ensures
        apply(s, LcdByte::Command(cursor_command(row, col))).cursor == (if row == 0 {
            0nat
        } else {
            0x40nat
        }) + col as nat,
        apply(s, LcdByte::Command(cursor_command(row, col))).cells == s.cells,
{
    assert(col < 0x40 ==> 0x80u8 | col == 0x80 + col) by (bit_vector);
    assert(col < 0x40 ==> 0xc0u8 | col == 0xc0 + col) by (bit_vector);
}

/// After the initialisation the display is blank with the cursor at the
/// origin, whatever it showed before.
pub proof fn lemma_init_leaves_display_cleared(s: DisplayState)
    ensures
        apply_all(s, init_commands()) == cleared(),
{
    let cs = init_commands();
    assert(cs =~= seq![
        LcdByte::Command(0x30),
        LcdByte::Command(0x30),
        LcdByte::Command(0x30),
        LcdByte::Command(0x20),
        LcdByte::Command(0x28),
        LcdByte::Command(0x08),
        LcdByte::Command(CMD_CLEAR),
        LcdByte::Command(0x06),
        LcdByte::Command(0x0C),
    ]);
    let head = cs.subrange(0, 7);
    let tail = cs.subrange(7, 9);
    assert(cs =~= head + tail);
    lemma_apply_all_concat(s, head, tail);
    let before = head.subrange(0, 6);
    assert(head =~= before + seq![LcdByte::Command(CMD_CLEAR)]);
    lemma_apply_all_concat(s, before, seq![LcdByte::Command(CMD_CLEAR)]);
    let t = apply_all(s, before);
    let clear = seq![LcdByte::Command(CMD_CLEAR)];
    assert(clear.drop_first() =~= Seq::<LcdByte>::empty());
    assert(apply(t, clear[0]) == cleared());
    assert(apply_all(cleared(), clear.drop_first()) == cleared());
    assert(apply_all(t, clear) == cleared());
    assert(tail.drop_first().drop_first() =~= Seq::<LcdByte>::empty());
    assert(apply_all(cleared(), tail) == apply_all(cleared(), tail.drop_first()));
    assert(apply_all(cleared(), tail.drop_first()) == apply_all(cleared(), tail.drop_first().drop_first()));
}

} // verus!
