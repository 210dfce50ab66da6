use auth_service::services::anomaly_detection::{
    extract_ip_subnet, AnomalyConfig, AnomalyDetectionService, AnomalyResult,
};
use auth_service::time::Instant;

#[test]
fn test_brute_force_detection() {
    let config = AnomalyConfig {
        max_failed_attempts: 3,
        lockout_duration_minutes: 15,
        ..Default::default()
    };
    let mut service = AnomalyDetectionService::new(config);

    let ip = "192.168.1.1";

    assert_eq!(service.record_failed_attempt(ip), AnomalyResult::Normal);
    assert_eq!(service.record_failed_attempt(ip), AnomalyResult::Normal);

    let result = service.record_failed_attempt(ip);
    assert!(matches!(result, AnomalyResult::BruteForceDetected { .. }));

    assert!(service.check_ip_lockout(ip).is_some());
}

#[test]
fn test_clear_failed_attempts() {
    let mut service = AnomalyDetectionService::new(AnomalyConfig::default());
    let ip = "192.168.1.1";

    let _ = service.record_failed_attempt(ip);
    let _ = service.record_failed_attempt(ip);
    service.clear_failed_attempts(ip);

    assert_eq!(service.record_failed_attempt(ip), AnomalyResult::Normal);
}

#[test]
fn test_extract_ip_subnet() {
    assert_eq!(extract_ip_subnet("192.168.1.100"), "192.168.1.0/24");
    assert_eq!(extract_ip_subnet("10.0.0.1"), "10.0.0.0/24");
}

fn at(secs: i64) -> Instant {
    Instant { secs, nanos: 0 }
}

#[test]
fn default_anomaly_config_values() {
    let c = AnomalyConfig::default();
    assert_eq!(c.max_failed_attempts, 5);
    assert_eq!(c.lockout_duration_minutes, 15);
    assert_eq!(c.failed_attempt_window_minutes, 30);
    assert_eq!(c.suspicious_travel_time_minutes, 60);
}

#[test]
fn subnet_of_ipv6_and_non_addresses() {
    assert_eq!(extract_ip_subnet("2001:db8:85a3::8a2e:370:7334"), "2001:db8:85a3::/48");
    assert_eq!(extract_ip_subnet("::1"), "0:0:0::/48");
    assert_eq!(extract_ip_subnet("not-an-ip"), "not-an-ip");
    assert_eq!(extract_ip_subnet("256.1.1.1"), "256.1.1.1");
}

#[test]
fn lockout_reports_count_and_end() {
    let config = AnomalyConfig { max_failed_attempts: 2, lockout_duration_minutes: 15, ..Default::default() };
    let mut service = AnomalyDetectionService::new(config);
    let t0 = at(1_700_000_000);
    assert_eq!(service.record_failed_attempt_at("1.2.3.4", t0), AnomalyResult::Normal);
    let r = service.record_failed_attempt_at("1.2.3.4", at(1_700_000_010));
    assert_eq!(
        r,
        AnomalyResult::BruteForceDetected { attempts: 2, lockout_until: at(1_700_000_010 + 900) }
    );
    // the lockout lasts until its end, and is over at it
    assert!(service.check_ip_lockout_at("1.2.3.4", at(1_700_000_010 + 899)).is_some());
    assert!(service.check_ip_lockout_at("1.2.3.4", at(1_700_000_010 + 900)).is_none());
    // other addresses are not affected
    assert!(service.check_ip_lockout_at("1.2.3.5", at(1_700_000_011)).is_none());
}

#[test]
fn failures_older_than_the_window_are_forgotten() {
    let config = AnomalyConfig { max_failed_attempts: 2, failed_attempt_window_minutes: 30, ..Default::default() };
    let mut service = AnomalyDetectionService::new(config);
    assert_eq!(service.record_failed_attempt_at("9.9.9.9", at(1_000_000)), AnomalyResult::Normal);
    // 31 minutes later the first failure no longer counts
    assert_eq!(service.record_failed_attempt_at("9.9.9.9", at(1_000_000 + 31 * 60)), AnomalyResult::Normal);
    // a third one soon after brings the count in the window to two
    assert!(service.record_failed_attempt_at("9.9.9.9", at(1_000_000 + 32 * 60)).is_blocked());
}

#[test]
fn anomaly_flags() {
    assert!(!AnomalyResult::Normal.should_warn());
    assert!(!AnomalyResult::Normal.is_blocked());
    let b = AnomalyResult::BruteForceDetected { attempts: 1, lockout_until: at(0) };
    assert!(b.is_blocked() && b.should_warn());
    let u = AnomalyResult::UnusualPattern { reason: "x".to_string() };
    assert!(u.should_warn() && !u.is_blocked());
}

#[test]
fn new_address_after_known_one_is_unusual() {
    let mut service = AnomalyDetectionService::new(AnomalyConfig::default());
    // the first login from anywhere is normal
    assert_eq!(service.check_login_anomaly_at("u1", "10.0.0.1", None, at(1000)), AnomalyResult::Normal);
    service.record_successful_login_at("u1", "10.0.0.1", None, at(1000));
    // the same address again is normal, even at once
    assert_eq!(service.check_login_anomaly_at("u1", "10.0.0.1", None, at(1030)), AnomalyResult::Normal);
    // another address in the same subnet a day later is a new address
    assert_eq!(
        service.check_login_anomaly_at("u1", "10.0.0.2", None, at(1000 + 86_400)),
        AnomalyResult::UnusualLocation { previous_ip: "10.0.0.1".to_string(), current_ip: "10.0.0.2".to_string() }
    );
    // now it is known
    assert_eq!(service.check_login_anomaly_at("u1", "10.0.0.2", None, at(1000 + 86_500)), AnomalyResult::Normal);
}

#[test]
fn quick_change_of_subnet_is_impossible_travel() {
    let mut service = AnomalyDetectionService::new(AnomalyConfig::default());
    service.record_successful_login_at("u2", "10.0.0.1", Some("ua"), at(5000));
    let r = service.check_login_anomaly_at("u2", "192.168.7.9", None, at(5000 + 5 * 60 + 30));
    assert_eq!(
        r,
        AnomalyResult::ImpossibleTravel {
            previous_location: "10.0.0.0/24".to_string(),
            current_location: "192.168.7.0/24".to_string(),
            time_diff_minutes: 5,
        }
    );
    // a change of subnet within the same minute is impossible travel too
    let r2 = service.check_login_anomaly_at("u2", "172.16.0.1", None, at(5000 + 30));
    assert_eq!(
        r2,
        AnomalyResult::ImpossibleTravel {
            previous_location: "10.0.0.0/24".to_string(),
            current_location: "172.16.0.0/24".to_string(),
            time_diff_minutes: 0,
        }
    );
    // an hour or more later it is not
    let r3 = service.check_login_anomaly_at("u2", "172.16.0.1", None, at(5000 + 3600));
    assert!(matches!(r3, AnomalyResult::UnusualLocation { .. }));
}

#[test]
fn successful_login_clears_failures() {
    let config = AnomalyConfig { max_failed_attempts: 2, ..Default::default() };
    let mut service = AnomalyDetectionService::new(config);
    let _ = service.record_failed_attempt_at("5.5.5.5", at(100));
    assert!(service.record_failed_attempt_at("5.5.5.5", at(101)).is_blocked());
    service.record_successful_login_at("u3", "5.5.5.5", None, at(102));
    assert!(service.check_ip_lockout_at("5.5.5.5", at(103)).is_none());
    assert_eq!(service.record_failed_attempt_at("5.5.5.5", at(104)), AnomalyResult::Normal);
}

#[test]
fn cleanup_keeps_active_lockouts_and_drops_stale_records() {
    let config = AnomalyConfig { max_failed_attempts: 1, lockout_duration_minutes: 60 * 48, ..Default::default() };
    let mut service = AnomalyDetectionService::new(config);
    assert!(service.record_failed_attempt_at("7.7.7.7", at(0)).is_blocked());
    service.cleanup_at(at(86_400 * 1 + 10));
    assert!(service.check_ip_lockout_at("7.7.7.7", at(86_400 + 20)).is_some());
    service.cleanup_at(at(86_400 * 3));
    // the record is gone: a new failure counts from one again
    assert!(service.check_ip_lockout_at("7.7.7.7", at(86_400 * 3)).is_none());
}

#[test]
fn login_dated_before_the_last_is_not_travel() {
    let mut service = AnomalyDetectionService::new(AnomalyConfig::default());
    service.record_successful_login_at("u9", "10.0.0.1", None, at(9000));
    // a reading before the last login (the clock went back) is no travel
    let r = service.check_login_anomaly_at("u9", "192.168.7.9", None, at(9000 - 120));
    assert!(matches!(r, AnomalyResult::UnusualLocation { .. }));
}

#[test]
fn only_failures_after_the_last_clear_count() {
    let config = AnomalyConfig { max_failed_attempts: 3, lockout_duration_minutes: 15, ..Default::default() };
    let mut service = AnomalyDetectionService::new(config);
    let ip = "7.7.7.7";
    assert_eq!(service.record_failed_attempt_at(ip, at(100)), AnomalyResult::Normal);
    assert_eq!(service.record_failed_attempt_at(ip, at(110)), AnomalyResult::Normal);
    service.clear_failed_attempts(ip);
    assert_eq!(service.record_failed_attempt_at(ip, at(120)), AnomalyResult::Normal);
    assert_eq!(service.record_failed_attempt_at(ip, at(130)), AnomalyResult::Normal);
    // another address is not affected by this one's failures
    assert_eq!(service.record_failed_attempt_at("8.8.8.8", at(135)), AnomalyResult::Normal);
    assert!(service.check_ip_lockout_at("8.8.8.8", at(136)).is_none());
    let r = service.record_failed_attempt_at(ip, at(140));
    assert_eq!(r, AnomalyResult::BruteForceDetected { attempts: 3, lockout_until: at(140 + 15 * 60) });
    // the lockout lasts until its end and no longer
    assert_eq!(service.check_ip_lockout_at(ip, at(140 + 15 * 60 - 1)), Some(r));
    assert!(service.check_ip_lockout_at(ip, at(140 + 15 * 60)).is_none());
}
