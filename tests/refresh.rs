use greet_app::refresh::{refresh_result, refresh_signal};

#[test]
fn refresh_signal_is_named_refresh_without_payload() {
    let s = refresh_signal();
    assert_eq!(s.name, "refresh");
    assert!(s.payload.is_none());
}

#[test]
fn refresh_succeeds_when_delivered() {
    assert_eq!(refresh_result(Ok(())), Ok(()));
}

#[test]
fn refresh_failure_keeps_delivery_report() {
    let report = String::from("window not found");
    assert_eq!(refresh_result(Err(report)), Err(String::from("window not found")));
}

#[test]
fn refresh_failure_without_report_is_described() {
    let r = refresh_result(Err(String::new()));
    assert_eq!(r, Err(String::from("the refresh signal could not be delivered")));
}
