use gpu_status::gpu_status::{
    GpuStatusData, MemorySample, PState, RawSample, UtilizationSample, bytes_to_mib_milli,
    narrow_u8,
};

fn all_present_raw() -> RawSample {
    RawSample {
        utilization: Some(UtilizationSample { gpu: 55, memory: 40 }),
        memory: Some(MemorySample {
            used: 2147483648,
            total: 8589934592,
        }),
        dec_util: Some(12),
        enc_util: Some(7),
        temp: Some(65),
        power: Some(150000),
        p_state: Some(2),
        fan_speed: Some(30),
        tx: Some(500000),
        rx: Some(250000),
    }
}

fn all_absent_raw() -> RawSample {
    RawSample {
        utilization: None,
        memory: None,
        dec_util: None,
        enc_util: None,
        temp: None,
        power: None,
        p_state: None,
        fan_speed: None,
        tx: None,
        rx: None,
    }
}

#[test]
fn a_fully_successful_sample_fills_every_field() {
    let s = GpuStatusData::from_raw(&all_present_raw());
    assert_eq!(s.gpu_util, Some(55));
    assert_eq!(s.mem_util, Some(40));
    assert_eq!(s.mem_used, Some(2048000));
    assert_eq!(s.mem_total, Some(8192000));
    assert_eq!(s.dec_util, Some(12));
    assert_eq!(s.enc_util, Some(7));
    assert_eq!(s.temp, Some(65));
    assert_eq!(s.power, Some(150000));
    assert_eq!(s.p_state, Some(PState::P2));
    assert_eq!(s.fan_speed, Some(30));
    assert_eq!(s.tx, Some(500000));
    assert_eq!(s.rx, Some(250000));
}

#[test]
fn a_fully_failed_sample_is_a_valid_all_absent_snapshot() {
    let s = GpuStatusData::from_raw(&all_absent_raw());
    assert_eq!(s, GpuStatusData::default());
}

#[test]
fn memory_reading_converts_bytes_to_mebibytes() {
    let mut raw = all_absent_raw();
    raw.memory = Some(MemorySample {
        used: 2147483648,
        total: 8589934592,
    });
    let s = GpuStatusData::from_raw(&raw);
    let used_mib = s.mem_used.unwrap() as f64 / 1000.0;
    let total_mib = s.mem_total.unwrap() as f64 / 1000.0;
    assert!((used_mib - 2048.0).abs() < 1e-9);
    assert!((total_mib - 8192.0).abs() < 1e-9);
}

#[test]
fn power_reading_converts_milliwatts_to_watts() {
    let mut raw = all_absent_raw();
    raw.power = Some(150000);
    let s = GpuStatusData::from_raw(&raw);
    let watts = s.power.unwrap() as f64 / 1000.0;
    assert!((watts - 150.0).abs() < 1e-9);
}

#[test]
fn pcie_send_reading_converts_to_mebibytes_per_second() {
    let mut raw = all_absent_raw();
    raw.tx = Some(500000);
    let s = GpuStatusData::from_raw(&raw);
    let tx = s.tx.unwrap() as f64 / 1000.0;
    assert!((tx - 500.0).abs() < 1e-9);
}

#[test]
fn a_failed_decoder_query_leaves_only_dec_util_absent() {
    let mut raw = all_present_raw();
    raw.dec_util = None;
    let s = GpuStatusData::from_raw(&raw);
    assert_eq!(s.dec_util, None);
    assert_eq!(s.gpu_util, Some(55));
    assert_eq!(s.mem_util, Some(40));
    assert_eq!(s.mem_used, Some(2048000));
    assert_eq!(s.mem_total, Some(8192000));
    assert_eq!(s.enc_util, Some(7));
    assert_eq!(s.temp, Some(65));
    assert_eq!(s.power, Some(150000));
    assert_eq!(s.p_state, Some(PState::P2));
    assert_eq!(s.fan_speed, Some(30));
    assert_eq!(s.tx, Some(500000));
    assert_eq!(s.rx, Some(250000));
}

#[test]
fn a_failed_utilization_query_leaves_both_utilization_fields_absent() {
    let mut raw = all_present_raw();
    raw.utilization = None;
    let s = GpuStatusData::from_raw(&raw);
    assert_eq!(s.gpu_util, None);
    assert_eq!(s.mem_util, None);
    assert_eq!(s.mem_used, Some(2048000));
}

#[test]
fn a_failed_memory_query_leaves_both_memory_fields_absent() {
    let mut raw = all_present_raw();
    raw.memory = None;
    let s = GpuStatusData::from_raw(&raw);
    assert_eq!(s.mem_used, None);
    assert_eq!(s.mem_total, None);
    assert_eq!(s.gpu_util, Some(55));
}

#[test]
fn the_default_snapshot_has_every_field_absent() {
    let s = GpuStatusData::default();
    assert_eq!(s.gpu_util, None);
    assert_eq!(s.mem_used, None);
    assert_eq!(s.mem_total, None);
    assert_eq!(s.mem_util, None);
    assert_eq!(s.dec_util, None);
    assert_eq!(s.enc_util, None);
    assert_eq!(s.temp, None);
    assert_eq!(s.power, None);
    assert_eq!(s.p_state, None);
    assert_eq!(s.fan_speed, None);
    assert_eq!(s.tx, None);
    assert_eq!(s.rx, None);
}

#[test]
fn percentages_within_range_pass_through_unchanged() {
    assert_eq!(narrow_u8(0), 0);
    assert_eq!(narrow_u8(100), 100);
    assert_eq!(narrow_u8(255), 255);
}

#[test]
fn pathological_percentages_are_narrowed_not_clamped() {
    assert_eq!(narrow_u8(256), 0);
    assert_eq!(narrow_u8(300), 44);
    assert_eq!(narrow_u8(u32::MAX), 255);
}

#[test]
fn byte_conversion_rounds_toward_zero_in_thousandths_of_a_mebibyte() {
    assert_eq!(bytes_to_mib_milli(0), 0);
    assert_eq!(bytes_to_mib_milli(1048576), 1000);
    assert_eq!(bytes_to_mib_milli(1048575), 999);
    assert_eq!(bytes_to_mib_milli(1), 0);
    assert_eq!(bytes_to_mib_milli(u64::MAX), u64::MAX / 1048576 * 1000 + (u64::MAX % 1048576) * 1000 / 1048576);
}
