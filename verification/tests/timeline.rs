use t_meter::timeline::{column_of, filled_width, SECONDS_PER_DAY};

#[test]
fn noon_is_the_middle_column() {
    assert_eq!(column_of(43200, 20), 10);
    assert_eq!(filled_width(43200, 20), 10);
}

#[test]
fn midnight_is_the_first_column() {
    assert_eq!(column_of(0, 2), 0);
    assert_eq!(column_of(0, 80), 0);
    assert_eq!(filled_width(0, 80), 0);
}

#[test]
fn the_last_second_stays_on_the_bar() {
    assert_eq!(filled_width(86399, 80), 80);
    assert_eq!(column_of(86399, 80), 79);
    assert_eq!(column_of(86399, 2), 1);
}

#[test]
fn columns_are_rounded_to_the_nearest() {
    // 07:00 on 20 columns is 5.83, 23:00 is 19.17
    assert_eq!(column_of(25200, 20), 6);
    assert_eq!(column_of(82800, 20), 19);
    // 06:00 on 10 columns is exactly 2.5, and halves go up
    assert_eq!(column_of(21600, 10), 3);
    assert_eq!(filled_width(21600, 10), 3);
    // just below the half
    assert_eq!(column_of(21599, 10), 2);
}

#[test]
fn times_past_the_day_take_the_last_column() {
    assert_eq!(column_of(SECONDS_PER_DAY, 20), 19);
    assert_eq!(column_of(90000, 20), 19);
    assert_eq!(column_of(u64::MAX, 20), 19);
    assert_eq!(column_of(5, 1), 0);
}

#[test]
fn every_column_lies_on_the_bar() {
    let widths: [usize; 7] = [2, 3, 7, 20, 80, 211, 65535];
    for width in widths {
        let mut seconds: u64 = 0;
        while seconds < 86400 {
            let pos = column_of(seconds, width);
            assert!(pos < width);
            assert!(filled_width(seconds as u32, width) <= width);
            seconds += 97;
        }
        assert!(column_of(86399, width) < width);
    }
}

#[test]
fn wide_bars_do_not_overflow() {
    assert_eq!(column_of(43200, usize::MAX), usize::MAX / 2 + 1);
    assert_eq!(filled_width(86399, usize::MAX) <= usize::MAX, true);
}
