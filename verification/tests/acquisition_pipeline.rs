use vivarium_core::broadcast::BroadcastChannel;
use vivarium_core::peripheral::{PeripheralHandle, ReadError};
use vivarium_core::tasks::{process_adc_channel_0, process_adc_channel_temp, AcquisitionTask, Pipeline};

#[test]
fn reader_slots_match_the_startup_wiring() {
    let mut p = Pipeline::new();
    assert!(p.get_receiver_adc0().is_some());
    assert!(p.get_receiver_adc0().is_some());
    assert!(p.get_receiver_adc0().is_some());
    assert!(p.get_receiver_adc0().is_none());
    assert!(p.get_receiver_adctemp().is_some());
    assert!(p.get_receiver_adctemp().is_some());
    assert!(p.get_receiver_adctemp().is_none());
}

#[test]
fn a_successful_cycle_publishes_both_metrics() {
    let mut p = Pipeline::new();
    let mut rx0 = p.get_receiver_adc0().unwrap();
    let mut rxt = p.get_receiver_adctemp().unwrap();

    p.cycle(Ok(500), Ok(900));

    // Calibration: the seed 4094 and the sample 500 average to 2297,
    // which the consumer rescales to (2297 + 1) * 1000 / 128.
    assert_eq!(process_adc_channel_0(&p.calibration_channel, &mut rx0), Some(17_953));
    // Temperature: the raw sample goes out unconverted.
    assert_eq!(process_adc_channel_temp(&p.temperature_channel, &mut rxt), Some(900));
}

#[test]
fn a_failed_read_publishes_nothing_that_cycle() {
    let mut p = Pipeline::new();
    let mut rxt = p.get_receiver_adctemp().unwrap();

    p.cycle(Err(ReadError::Busy), Err(ReadError::Timeout));
    assert_eq!(process_adc_channel_temp(&p.temperature_channel, &mut rxt), None);

    // The next cycle succeeds; the channel reflects only that cycle's
    // value, with no stale or duplicate publish from the failed one.
    p.cycle(Err(ReadError::Busy), Ok(850));
    assert_eq!(process_adc_channel_temp(&p.temperature_channel, &mut rxt), Some(850));
    assert_eq!(process_adc_channel_temp(&p.temperature_channel, &mut rxt), None);
}

#[test]
fn a_failed_calibration_read_leaves_the_window_alone() {
    let mut p = Pipeline::new();
    let mut rx0 = p.get_receiver_adc0().unwrap();

    p.cycle(Ok(500), Err(ReadError::Timeout));
    // Average of [4094, 500] is 2297, rescaled.
    assert_eq!(process_adc_channel_0(&p.calibration_channel, &mut rx0), Some(17_953));

    p.cycle(Err(ReadError::InvalidChannel), Err(ReadError::Timeout));
    // Nothing was published, so nothing new to observe.
    assert_eq!(process_adc_channel_0(&p.calibration_channel, &mut rx0), None);

    p.cycle(Ok(500), Err(ReadError::Timeout));
    // The failed cycle wrote nothing: the window is [4094, 500, 500],
    // average 1698, rescaled (1698 + 1) * 1000 / 128.
    assert_eq!(process_adc_channel_0(&p.calibration_channel, &mut rx0), Some(13_273));
}

#[test]
fn each_consumer_observes_at_its_own_cadence() {
    let mut p = Pipeline::new();
    let mut fast = p.get_receiver_adc0().unwrap();
    let mut slow = p.get_receiver_adc0().unwrap();

    p.cycle(Ok(100), Err(ReadError::Busy));
    let first = process_adc_channel_0(&p.calibration_channel, &mut fast);
    assert!(first.is_some());

    p.cycle(Ok(200), Err(ReadError::Busy));
    p.cycle(Ok(300), Err(ReadError::Busy));

    // Both now see the same, latest average, however often each polled.
    let a = process_adc_channel_0(&p.calibration_channel, &mut fast);
    let b = process_adc_channel_0(&p.calibration_channel, &mut slow);
    assert_eq!(a, b);
    assert!(a.is_some());
    assert_ne!(a, first);
}

#[test]
fn the_handle_can_be_taken_and_given_back() {
    let mut h = PeripheralHandle::new();
    h.acquire();
    h.release();
    h.acquire();
    h.release();
}

#[test]
fn an_acquisition_task_runs_against_its_own_wiring() {
    let mut handle = PeripheralHandle::new();
    let mut task = AcquisitionTask::new(4094);
    let mut cal_ch = BroadcastChannel::new(1);
    let mut temp_ch = BroadcastChannel::new(1);
    let mut rx = cal_ch.subscribe().unwrap();

    task.cycle(&mut handle, Ok(100), Ok(700), &mut cal_ch, &mut temp_ch);
    // Average of [4094, 100] is 2097.
    assert_eq!(cal_ch.receive(&mut rx), Some(2097));
}
