use iot_simulator::sma::{new_instance, SmaWindow};

#[test]
fn it_should_generate() {
    let mut plugin = new_instance::<f32>(10.0, 20.0, 3, 5);

    assert!(plugin.generate(()) > 10.0);
    assert!(plugin.generate(()) < 20.0);
}

#[test]
fn generated_values_stay_in_the_range() {
    let mut plugin = new_instance::<i32>(-3, 4, 0, 1);
    for _ in 0..200 {
        let v = plugin.generate(());
        assert!((-3..4).contains(&v));
    }
    assert_eq!(plugin.range(), (-3, 4));
}

#[test]
fn window_is_filled_by_the_first_sample() {
    let mut window: SmaWindow<i32> = SmaWindow::new(4);
    window.push(7);
    assert_eq!(window.to_vec(), vec![7, 7, 7, 7]);
}

#[test]
fn window_trades_oldest_for_newest() {
    let mut window: SmaWindow<i32> = SmaWindow::new(3);
    window.push(1);
    window.push(2);
    window.push(3);
    assert_eq!(window.to_vec(), vec![3, 2, 1]);
    window.push(4);
    assert_eq!(window.to_vec(), vec![4, 3, 2]);
}

#[test]
fn window_of_size_zero_holds_the_newest_sample() {
    let mut window: SmaWindow<i32> = SmaWindow::new(0);
    window.push(5);
    assert_eq!(window.to_vec(), vec![5]);
    window.push(6);
    assert_eq!(window.to_vec(), vec![6]);
}

#[test]
fn window_size_is_kept_in_a_byte() {
    let mut window: SmaWindow<i32> = SmaWindow::new(258);
    window.push(9);
    assert_eq!(window.to_vec(), vec![9, 9]);
}

#[test]
fn window_holds_only_pushed_samples() {
    let mut window: SmaWindow<i32> = SmaWindow::new(5);
    let samples = [12, 15, 11, 19, 14, 13, 18, 10];
    for s in samples {
        window.push(s);
        for v in window.to_vec() {
            assert!(samples.contains(&v));
            assert!((10..20).contains(&v));
        }
    }
}
