use snapmaker_proxy::snapmaker_client::{keep_alive_run, keep_alive_tick, normalize_status, TickOutcome};
use snapmaker_proxy::status::{create_status_watch, EnclosureStatus, PrinterStatus};

fn sample_status(name: &str, work_speed_milli: u64) -> PrinterStatus {
    PrinterStatus {
        status: "RUNNING".to_string(),
        x_milli: 12_500,
        y_milli: -3_000,
        z_milli: 200,
        homed: true,
        nozzle_temperature_milli: 209_800,
        nozzle_target_temperature_milli: 210_000,
        heated_bed_temperature_milli: 60_000,
        heated_bed_target_temperature_milli: 60_000,
        work_speed_milli,
        file_name: name.to_string(),
        progress_milli: 42_000,
        estimated_time_milli: 3_600_000,
        elapsed_time_milli: 1_512_000,
        remaining_time_milli: 2_088_000,
        print_status: "Printing".to_string(),
        enclosure: EnclosureStatus { led: 0, fan: 0 },
    }
}

#[test]
fn a_fresh_watch_serves_the_idle_default() {
    let watch = create_status_watch();
    let s = watch.borrow_latest();
    assert_eq!(s.status, "IDLE");
    assert_eq!(s.file_name, "No file loaded");
    assert_eq!(s.print_status, "Idle");
    assert_eq!(s.x_milli, 0);
    assert_eq!(s.work_speed_milli, 0);
    assert!(!s.homed);
    assert_eq!(s.enclosure, EnclosureStatus { led: 0, fan: 0 });
}

#[test]
fn work_speed_is_normalized_from_mm_per_hour_to_mm_per_minute() {
    // A raw device reading of 120 mm/h is published as 2.0 mm/min.
    let raw = sample_status("a.gcode", 120_000);
    let normalized = normalize_status(raw);
    assert_eq!(normalized.work_speed_milli, 2_000);
    // Every other field is carried through untouched.
    assert_eq!(normalized.status, "RUNNING");
    assert_eq!(normalized.x_milli, 12_500);
    assert_eq!(normalized.nozzle_target_temperature_milli, 210_000);
    assert_eq!(normalized.file_name, "a.gcode");
}

#[test]
fn a_successful_tick_publishes_the_merged_snapshot() {
    let mut watch = create_status_watch();
    let enclosure = EnclosureStatus { led: 128, fan: 7 };
    keep_alive_tick(
        &mut watch,
        TickOutcome {
            enclosure: Some(enclosure),
            status: Some(sample_status("a.gcode", 2_000)),
        },
    );
    let s = watch.borrow_latest();
    assert_eq!(s.file_name, "a.gcode");
    assert_eq!(s.enclosure, enclosure);
}

#[test]
fn a_failed_enclosure_fetch_merges_the_default_not_the_prior_reading() {
    let mut watch = create_status_watch();
    keep_alive_tick(
        &mut watch,
        TickOutcome {
            enclosure: Some(EnclosureStatus { led: 255, fan: 255 }),
            status: Some(sample_status("a.gcode", 2_000)),
        },
    );
    // Next tick: the enclosure fetch fails but the status fetch succeeds.
    keep_alive_tick(
        &mut watch,
        TickOutcome {
            enclosure: None,
            status: Some(sample_status("b.gcode", 2_000)),
        },
    );
    let s = watch.borrow_latest();
    assert_eq!(s.file_name, "b.gcode");
    assert_eq!(s.enclosure, EnclosureStatus { led: 0, fan: 0 });
}

#[test]
fn a_failed_status_fetch_leaves_the_previous_snapshot_standing() {
    let mut watch = create_status_watch();
    keep_alive_tick(
        &mut watch,
        TickOutcome {
            enclosure: Some(EnclosureStatus { led: 1, fan: 2 }),
            status: Some(sample_status("a.gcode", 2_000)),
        },
    );
    keep_alive_tick(
        &mut watch,
        TickOutcome {
            enclosure: Some(EnclosureStatus { led: 9, fan: 9 }),
            status: None,
        },
    );
    let s = watch.borrow_latest();
    // The stale snapshot stays visible, its enclosure included.
    assert_eq!(s.file_name, "a.gcode");
    assert_eq!(s.enclosure, EnclosureStatus { led: 1, fan: 2 });
}

#[test]
fn readers_always_see_the_most_recent_successful_snapshot() {
    let mut watch = create_status_watch();
    let failed = TickOutcome {
        enclosure: None,
        status: None,
    };
    let ticks = vec![
        TickOutcome {
            enclosure: Some(EnclosureStatus { led: 3, fan: 4 }),
            status: Some(sample_status("first.gcode", 1_000)),
        },
        failed.clone(),
        TickOutcome {
            enclosure: Some(EnclosureStatus { led: 5, fan: 6 }),
            status: Some(sample_status("second.gcode", 2_000)),
        },
        failed.clone(),
        failed.clone(),
    ];
    keep_alive_run(&mut watch, &ticks);
    let s = watch.borrow_latest();
    assert_eq!(s.file_name, "second.gcode");
    assert_eq!(s.enclosure, EnclosureStatus { led: 5, fan: 6 });
    assert_ne!(s.status, "IDLE");
}

#[test]
fn publishing_replaces_the_snapshot_wholesale() {
    let mut watch = create_status_watch();
    watch.publish(sample_status("direct.gcode", 500));
    let copy = watch.snapshot();
    assert_eq!(copy.file_name, "direct.gcode");
    assert_eq!(copy.work_speed_milli, 500);
    assert_eq!(copy.y_milli, -3_000);
}
