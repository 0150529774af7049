use envmon::button::{ButtonHandle, EdgeInterruptController, SharedButtonCell, Uninitialized};
use envmon::config::{Accuracy, SensorConfig, TemperatureUnit};
use envmon::device::{Device, DEFAULT_SETPOINT_DECI, SETPOINT_STEP_DECI};
use envmon::reading::{DisplayFault, SensorFault, SensorReading};

fn fresh_device() -> Device {
    Device::new(SensorConfig::default())
}

fn reading(t: i32, h: i32, ts: u64) -> SensorReading {
    SensorReading { temperature_deci: t, humidity_deci: h, timestamp: ts }
}

#[test]
fn default_config_is_high_accuracy_celsius() {
    let c = SensorConfig::default();
    assert_eq!(c.accuracy, Accuracy::High);
    assert_eq!(c.unit, TemperatureUnit::Celsius);
}

#[test]
fn new_device_starts_idle_with_default_setpoint() {
    let d = fresh_device();
    assert!(!d.mode.indicator_on);
    assert_eq!(d.mode.setpoint_deci, DEFAULT_SETPOINT_DECI);
    assert_eq!(d.stats.iterations, 0);
    assert_eq!(d.stats.indicator_pulses, 0);
    assert_eq!(d.stats.sample_faults, 0);
    assert_eq!(d.stats.render_faults, 0);
    assert_eq!(d.stats.presses_applied, 0);
}

fn run_faulty_iterations(d: &mut Device, n: u64) {
    for _ in 0..n {
        d.begin_iteration();
        d.observe_sample(Err(SensorFault));
        let _f = d.frame();
        d.observe_render(Ok(()));
        d.end_iteration();
    }
}

#[test]
fn one_fault_does_not_stop_the_loop() {
    let mut d = fresh_device();
    run_faulty_iterations(&mut d, 1);
    assert_eq!(d.stats.iterations, 1);
    assert_eq!(d.stats.indicator_pulses, 1);
    assert_eq!(d.stats.sample_faults, 1);
}

#[test]
fn five_faults_do_not_stop_the_loop() {
    let mut d = fresh_device();
    run_faulty_iterations(&mut d, 5);
    assert_eq!(d.stats.iterations, 5);
    assert_eq!(d.stats.indicator_pulses, 5);
    assert_eq!(d.stats.sample_faults, 5);
}

#[test]
fn hundred_faults_do_not_stop_the_loop() {
    let mut d = fresh_device();
    run_faulty_iterations(&mut d, 100);
    assert_eq!(d.stats.iterations, 100);
    assert_eq!(d.stats.indicator_pulses, 100);
    assert_eq!(d.stats.sample_faults, 100);
}

#[test]
fn scenario_reading_is_drawn_and_flushed() {
    let mut d = fresh_device();
    d.begin_iteration();
    d.observe_sample(Ok(reading(215, 400, 1)));
    let f = d.frame();
    assert_eq!(f.fields.len(), 2);
    assert_eq!(f.fields[0].content, "21.5");
    assert_eq!((f.fields[0].x, f.fields[0].y), (10, 30));
    assert_eq!(f.fields[1].content, "40.0");
    assert_eq!((f.fields[1].x, f.fields[1].y), (10, 50));
    d.observe_render(Ok(()));
    d.end_iteration();
    assert_eq!(d.stats.render_faults, 0);
    assert_eq!(d.stats.iterations, 1);
}

#[test]
fn scenario_three_bus_faults_keep_prior_content() {
    let mut d = fresh_device();
    d.begin_iteration();
    d.observe_sample(Ok(reading(215, 400, 1)));
    d.observe_render(Ok(()));
    d.end_iteration();
    let shown_before = d.frame();
    run_faulty_iterations(&mut d, 3);
    let shown_after = d.frame();
    assert_eq!(d.stats.iterations, 4);
    assert_eq!(d.stats.indicator_pulses, 4);
    assert_eq!(d.stats.sample_faults, 3);
    assert_eq!(shown_after.fields[0].content, shown_before.fields[0].content);
    assert_eq!(shown_after.fields[1].content, shown_before.fields[1].content);
    assert_eq!(shown_after.fields[0].content, "21.5");
}

#[test]
fn scenario_faults_before_any_reading_keep_placeholder() {
    let mut d = fresh_device();
    run_faulty_iterations(&mut d, 3);
    let f = d.frame();
    assert_eq!(d.stats.iterations, 3);
    assert_eq!(d.stats.indicator_pulses, 3);
    assert_eq!(d.stats.sample_faults, 3);
    assert_eq!(f.fields[0].content, "--.-");
    assert_eq!(f.fields[1].content, "--.-");
}

#[test]
fn render_fault_never_prevents_the_next_sample() {
    let mut d = fresh_device();
    d.begin_iteration();
    d.observe_sample(Ok(reading(215, 400, 1)));
    d.observe_render(Err(DisplayFault));
    d.end_iteration();
    assert_eq!(d.stats.render_faults, 1);
    d.begin_iteration();
    d.observe_sample(Ok(reading(230, 390, 2)));
    let f = d.frame();
    d.observe_render(Ok(()));
    d.end_iteration();
    assert_eq!(f.fields[0].content, "23.0");
    assert_eq!(d.stats.iterations, 2);
    assert_eq!(d.stats.sample_faults, 0);
}

#[test]
fn scenario_two_edges_one_decrement() {
    let mut d = fresh_device();
    let mut cell = SharedButtonCell::new();
    cell.install(ButtonHandle::new());
    let mut isr = EdgeInterruptController::new();
    assert_eq!(isr.on_edge(&mut cell), Ok(()));
    assert_eq!(isr.on_edge(&mut cell), Ok(()));
    assert_eq!(d.check_button(&mut cell), Ok(true));
    assert_eq!(d.mode.setpoint_deci, DEFAULT_SETPOINT_DECI - SETPOINT_STEP_DECI);
    assert_eq!(d.stats.presses_applied, 1);
    assert_eq!(d.check_button(&mut cell), Ok(false));
    assert_eq!(d.mode.setpoint_deci, DEFAULT_SETPOINT_DECI - SETPOINT_STEP_DECI);
    assert_eq!(d.stats.presses_applied, 1);
}

#[test]
fn no_press_means_no_setpoint_change() {
    let mut d = fresh_device();
    let mut cell = SharedButtonCell::new();
    cell.install(ButtonHandle::new());
    assert_eq!(d.check_button(&mut cell), Ok(false));
    assert_eq!(d.mode.setpoint_deci, DEFAULT_SETPOINT_DECI);
    assert_eq!(d.stats.presses_applied, 0);
}

#[test]
fn each_press_moves_the_setpoint_one_step() {
    let mut d = fresh_device();
    let mut cell = SharedButtonCell::new();
    cell.install(ButtonHandle::new());
    for k in 1..4u64 {
        cell.service_edge().unwrap();
        assert_eq!(d.check_button(&mut cell), Ok(true));
        assert_eq!(d.mode.setpoint_deci, DEFAULT_SETPOINT_DECI - (k as i32) * SETPOINT_STEP_DECI);
        assert_eq!(d.stats.presses_applied, k);
    }
}

#[test]
fn button_check_before_install_is_uninitialized() {
    let mut d = fresh_device();
    let mut cell = SharedButtonCell::new();
    assert_eq!(d.check_button(&mut cell), Err(Uninitialized));
    assert_eq!(d.mode.setpoint_deci, DEFAULT_SETPOINT_DECI);
}

#[test]
fn indicator_pulses_every_cycle_regardless_of_faults() {
    let mut d = fresh_device();
    d.begin_iteration();
    assert!(d.mode.indicator_on);
    d.observe_sample(Err(SensorFault));
    d.observe_render(Err(DisplayFault));
    d.end_iteration();
    assert!(!d.mode.indicator_on);
    assert_eq!(d.stats.indicator_pulses, 1);
    assert_eq!(d.stats.sample_faults, 1);
    assert_eq!(d.stats.render_faults, 1);
}
