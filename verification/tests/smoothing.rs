use plato_threshold::smoothing::{moving_average_windows, Window};

fn w(start: usize, end: usize) -> Window {
    Window { start, end }
}

#[test]
fn windows_of_width_three() {
    let windows = moving_average_windows(5, 3).unwrap();
    assert_eq!(windows, vec![w(0, 0), w(0, 1), w(0, 2), w(1, 3), w(2, 4)]);
}

#[test]
fn windows_of_width_one_cover_single_points() {
    let windows = moving_average_windows(3, 1).unwrap();
    assert_eq!(windows, vec![w(0, 0), w(1, 1), w(2, 2)]);
}

#[test]
fn windows_wider_than_the_data_cover_prefixes() {
    let windows = moving_average_windows(4, 10).unwrap();
    assert_eq!(windows, vec![w(0, 0), w(0, 1), w(0, 2), w(0, 3)]);
}

#[test]
fn no_windows_for_empty_data() {
    assert_eq!(moving_average_windows(0, 3), None);
}

#[test]
fn no_windows_for_width_zero() {
    assert_eq!(moving_average_windows(4, 0), None);
}

#[test]
fn window_averages_match_the_moving_average() {
    let data = [1.0, 2.0, 3.0, 4.0, 5.0];
    let averages: Vec<f64> = moving_average_windows(data.len(), 3)
        .unwrap()
        .iter()
        .map(|win| {
            let slice = &data[win.start..=win.end];
            slice.iter().sum::<f64>() / slice.len() as f64
        })
        .collect();
    assert!((averages[0] - 1.0).abs() < 1e-9);
    assert!((averages[2] - 2.0).abs() < 1e-9);
    assert!((averages[4] - 4.0).abs() < 1e-9);
}
