use wspr_beacon::beacon::states::State;
use wspr_beacon::beacon::status::{DisplayInfo, Status};
use wspr_beacon::hw::display::{row_text, rows_to_refresh, DisplayError, COLS, ROW_ADDR};

#[test]
fn rows_are_truncated_padded_and_ascii() {
    assert_eq!(&row_text("GPS Wait"), b"GPS Wait        ");
    assert_eq!(&row_text("Calibration failure"), b"Calibration fail");
    assert_eq!(&row_text("Gr\u{fc}\u{df}e\ttab"), b"Gr??e?tab       ");
    assert_eq!(&row_text(""), b"                ");
    assert_eq!(COLS, 16);
    assert_eq!(ROW_ADDR, [0x00, 0x40]);
    assert_eq!(DisplayError::Bus, DisplayError::Bus);
}

#[test]
fn only_changed_rows_are_refreshed() {
    let s = Status::new();
    let info: DisplayInfo = s.display_info();
    assert_eq!(rows_to_refresh(&None, &info), (true, true));
    assert_eq!(rows_to_refresh(&Some(info), &info), (false, false));
    let mut moved = info;
    moved.qth = Some(*b"JN58");
    assert_eq!(rows_to_refresh(&Some(info), &moved), (false, true));
    let mut waiting = info;
    waiting.state = State::TxWait;
    assert_eq!(rows_to_refresh(&Some(info), &waiting), (true, false));
}
