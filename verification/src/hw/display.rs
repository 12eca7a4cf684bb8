//! Status display support.
//!
//! A backend renders a [`DisplayInfo`] however it pleases. What a backend
//! decides rather than draws - the text of a character-panel row, and which
//! rows a change makes stale - is here.

use vstd::prelude::*;
use vstd::string::StrSliceExecFns;
use crate::beacon::status::DisplayInfo;

verus! {

#[derive(Debug, Clone, Copy, PartialEq, Eq, Structural)]
pub enum DisplayError {
    /// Transport (I2C/SPI/GPIO) failure while updating the panel.
    Bus,
}

/// A status display backend.
pub trait StatusDisplay {
    /// Render `info`.
    ///
    /// Errors are reported by the caller and otherwise ignored: a dead panel
    /// must never stop the beacon from transmitting.
    fn show(&mut self, info: &DisplayInfo) -> Result<(), DisplayError>;
}

/// Character columns per row of a 16x2 character panel.
pub const COLS: usize = 16;

/// DDRAM address of the first cell of each row. The 1602 controller keeps
/// the second row at 0x40, not immediately after the first.
pub const ROW_ADDR: [u8; 2] = [0x00, 0x40];

/// Whether a character can go to the panel as it is: printable ASCII or a
/// space. The controller's character ROM is byte-oriented, so anything else
/// would be mangled on the way out.
pub open spec fn panel_safe(c: char) -> bool {
    0x20 <= (c as u32) <= 0x7e
}

/// The panel byte for a character: itself when safe, `?` otherwise.
pub open spec fn panel_byte(c: char) -> u8 {
    if panel_safe(c) { c as u8 } else { 63u8 }
}

/// A row of text as the panel shows it: the first `COLS` characters,
/// unsafe ones replaced by `?`, padded with spaces. Padding rather than
/// clearing the panel on every update: the panel has no framebuffer, so
/// short text would otherwise leave stale characters behind.
pub open spec fn row_spec(text: Seq<char>, i: int) -> u8 {
    if i < text.len() { panel_byte(text[i]) } else { 32u8 }
}

/// The row shown for `text`.
pub fn row_text(text: &str) -> (r: [u8; COLS])
    ensures
        forall|i: int| 0 <= i < COLS ==> #[trigger] r[i] == row_spec(text@, i),
{
    let mut row: [u8; COLS] = [32u8; COLS];
    let n = text.unicode_len();
    let mut i: usize = 0;
    while i < COLS && i < n
        invariant
            n == text@.len(),
            i <= COLS,
            forall|j: int| 0 <= j < i ==> #[trigger] row[j] == row_spec(text@, j),
            forall|j: int| i <= j < COLS ==> #[trigger] row[j] == 32u8,
        decreases COLS - i,
    {
        let c = text.get_char(i);
        let code: u32 = c as u32;
        row[i] = if 0x20 <= code && code <= 0x7e { code as u8 } else { 63u8 };
        i += 1;
    }
    row
}

/// Which rows of a two-row panel need rewriting to go from `shown` to
/// `info`: the state row when the state changed, the locator row when the
/// square changed; both when nothing is known to be on the panel.
pub fn rows_to_refresh(shown: &Option<DisplayInfo>, info: &DisplayInfo) -> (r: (bool, bool))
    ensures
        r.0 == !(shown matches Some(s) && s.state == info.state),
        r.1 == !(shown matches Some(s) && s.qth == info.qth),
{
    match shown {
        Some(s) => (s.state != info.state, !qth_eq(&s.qth, &info.qth)),
        None => (true, true),
    }
}

fn qth_eq(a: &Option<[u8; 4]>, b: &Option<[u8; 4]>) -> (r: bool)
    ensures
        r == (*a == *b),
{
    match (a, b) {
        (Some(x), Some(y)) => {
            let same = x[0] == y[0] && x[1] == y[1] && x[2] == y[2] && x[3] == y[3];
            if same {
                assert(x@ =~= y@);
                assert(x =~= y);
            } else {
                assert(x@ != y@);
            }
            same
        },
        (None, None) => true,
        _ => false,
    }
}

} // verus!
