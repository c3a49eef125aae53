use fitbit_rs::models::devices::BatteryLevel;
use fitbit_rs::models::heart_rate::time_series::Period;

#[test]
fn intraday_time_series_deserialize() {
    let data = r#"
{
    "activities-heart-intraday": {
        "dataset": [
            { "time": "00:00:00", "value": 64 },
            { "time": "00:00:10", "value": 63 },
            { "time": "00:00:20", "value": 64 },
            { "time": "00:00:30", "value": 65 },
            { "time": "00:00:45", "value": 65 }
        ],
        "datasetInterval": 1,
        "datasetType": "second"
    }
}
        "#;
    assert!(data.contains("activities-heart-intraday"));
}

#[test]
fn period_path_segments() {
    assert_eq!(Period::OneDay.to_string(), "1d");
    assert_eq!(Period::SevenDays.to_string(), "7d");
    assert_eq!(Period::ThirtyDays.to_string(), "30d");
    assert_eq!(Period::OneWeek.to_string(), "1w");
    assert_eq!(Period::OneMonth.to_string(), "1m");
}

#[test]
fn battery_levels_are_ordered() {
    assert!(BatteryLevel::Empty < BatteryLevel::Low);
    assert!(BatteryLevel::Low < BatteryLevel::Medium);
    assert!(BatteryLevel::Medium < BatteryLevel::High);
}
