//! Tests of the health-probe classification, the fixed worker configuration,
//! and the decimal rendering the health messages use.

use backend_supervisor::health::classify_health;
use backend_supervisor::health::get_backend_url;
use backend_supervisor::health::health_endpoint_url;
use backend_supervisor::health::health_timeout_secs;
use backend_supervisor::health::worker_dir_name;
use backend_supervisor::health::worker_program;
use backend_supervisor::health::worker_script;
use backend_supervisor::health::HealthError;
use backend_supervisor::numfmt::decimal_string;

#[test]
fn healthy_on_success_status() {
    let r = classify_health(Ok(200));
    assert_eq!(r, Ok("Backend is healthy".to_string()));
}

#[test]
fn unhealthy_on_server_error_status() {
    let r = classify_health(Ok(503));
    assert_eq!(r, Err(HealthError::UnhealthyStatus(503)));
    assert_eq!(
        HealthError::UnhealthyStatus(503).message(),
        "Backend returned status: 503"
    );
}

#[test]
fn unreachable_on_transport_failure() {
    let r = classify_health(Err("connection refused".to_string()));
    assert_eq!(
        r,
        Err(HealthError::Unreachable("connection refused".to_string()))
    );
    assert_eq!(
        HealthError::Unreachable("connection refused".to_string()).message(),
        "Failed to connect to backend: connection refused"
    );
}

#[test]
fn success_range_boundaries() {
    assert!(classify_health(Ok(199)).is_err());
    assert!(classify_health(Ok(200)).is_ok());
    assert!(classify_health(Ok(204)).is_ok());
    assert!(classify_health(Ok(299)).is_ok());
    assert_eq!(classify_health(Ok(300)), Err(HealthError::UnhealthyStatus(300)));
    assert_eq!(classify_health(Ok(404)), Err(HealthError::UnhealthyStatus(404)));
}

#[test]
fn fixed_addresses_and_timeout() {
    assert_eq!(get_backend_url(), "http://127.0.0.1:8765");
    assert_eq!(health_endpoint_url(), "http://127.0.0.1:8765/health");
    assert_eq!(health_timeout_secs(), 5);
}

#[test]
fn fixed_worker_invocation() {
    assert_eq!(worker_program(), "python");
    assert_eq!(worker_script(), "main.py");
    assert_eq!(worker_dir_name(), "backend");
}

#[test]
fn decimal_rendering_exact_values() {
    assert_eq!(decimal_string(0), "0");
    assert_eq!(decimal_string(7), "7");
    assert_eq!(decimal_string(10), "10");
    assert_eq!(decimal_string(42), "42");
    assert_eq!(decimal_string(200), "200");
    assert_eq!(decimal_string(1000), "1000");
    assert_eq!(decimal_string(65535), "65535");
}
