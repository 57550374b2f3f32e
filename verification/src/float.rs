//! Geometry of the plugin's floating windows.

use vstd::prelude::*;


verus! {

/// The border of a floating window.
#[derive(Debug, Clone, Copy, PartialEq, Eq, Structural)]
pub enum Border {
    Rounded,
}

/// The style of a floating window.
#[derive(Debug, Clone, Copy, PartialEq, Eq, Structural)]
pub enum Style {
    Minimal,
}

/// The placement of a floating window relative to the editor.
#[derive(Debug, Clone, Copy, PartialEq, Eq, Structural)]
pub struct FloatConfig {
    pub row: u32,
    pub col: u32,
    pub width: u32,
    pub height: u32,
    pub border: Border,
    pub style: Style,
    pub zindex: u32,
}

/// The configuration of a floating window with the given position and size:
/// rounded border, minimal style, above normal floats.
pub fn config_builder(row: u32, col: u32, width: u32, height: u32) -> (r: FloatConfig)
    ensures
        r == (FloatConfig { row, col, width, height, border: Border::Rounded, style: Style::Minimal, zindex: 49 }),
{
    FloatConfig { row, col, width, height, border: Border::Rounded, style: Style::Minimal, zindex: 49 }
}

/// The top-left cell of a floating window of the given size centred on a
/// screen of the given size (two cells up and left for the border).
pub fn get_centered_position(width: u32, height: u32, screen_width: u32, screen_height: u32) -> (r: (u32, u32))
    requires
        height <= screen_height,
        width <= screen_width,
        (screen_height - height) / 2 >= 2,
        (screen_width - width) / 2 >= 2,
    ensures
        r == ((((screen_height - height) / 2 - 2) as u32, ((screen_width - width) / 2 - 2) as u32)),
{
    let row = (screen_height - height) / 2 - 2;
    let col = (screen_width - width) / 2 - 2;
    (row, col)
}

/// The top-left cell of a popup beside a window: right of the window (past
/// its border), on the window's top line or on the cursor's line.
pub fn get_popup_pos(win_row: u32, win_col: u32, win_width: u32, cursor_line: Option<u32>) -> (r: (u32, u32))
    requires
        cursor_line matches Some(l) ==> l >= 1 && win_row + l - 1 <= u32::MAX,
        win_col + win_width + 2 <= u32::MAX,
    ensures
        r.0 == win_row + match cursor_line {
            Some(l) => l - 1,
            None => 0,
        },
        r.1 == win_col + win_width + 2,
{
    let offset = match cursor_line {
        Some(l) => l - 1,
        None => 0,
    };
    (win_row + offset, win_col + win_width + 2)
}

/// The greatest byte length among the lines.
pub open spec fn max_byte_len(lines: Seq<String>) -> nat
    decreases lines.len(),
{
    if lines.len() == 0 {
        0
    } else {
        let rest = max_byte_len(lines.drop_last());
        let l = vstd::utf8::encode_utf8(lines.last()@).len();
        if l > rest { l } else { rest }
    }
}

/// The width of a window that shows the lines: the longest line in bytes,
/// plus four columns of padding on each side.
pub fn content_width(lines: &Vec<String>) -> (r: u32)
    requires
        lines@.len() > 0,
        max_byte_len(lines@) + 8 <= usize::MAX,
    ensures
        r == ((max_byte_len(lines@) + 8) as usize) as u32,
{
    let mut best: usize = 0;
    let mut i: usize = 0;
    assert(lines@.take(0) =~= Seq::<String>::empty());
    while i < lines.len()
        invariant
            i <= lines.len(),
            best == max_byte_len(lines@.take(i as int)),
            max_byte_len(lines@) + 8 <= usize::MAX,
        decreases lines.len() - i,
    {
        assert(lines@.take(i + 1).drop_last() =~= lines@.take(i as int));
        proof {
            lemma_max_byte_len_prefix(lines@, i + 1);
        }
        let l = lines[i].as_str().len();
        if l > best {
            best = l;
        }
        i = i + 1;
    }
    assert(lines@.take(lines.len() as int) =~= lines@);
    (best + 8) as u32
}

proof fn lemma_max_byte_len_prefix(lines: Seq<String>, k: int)
    requires
        0 <= k <= lines.len(),
    ensures
        max_byte_len(lines.take(k)) <= max_byte_len(lines),
    decreases lines.len(),
{
    if k < lines.len() {
        assert(lines.drop_last().take(k) =~= lines.take(k));
        lemma_max_byte_len_prefix(lines.drop_last(), k);
    } else {
        assert(lines.take(k) =~= lines);
    }
}

} // verus!
