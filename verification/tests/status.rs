use self_update_extras::status::{update_result, Status, UpdateOutcome};

#[test]
fn up_to_date_reports_the_current_version() {
    match UpdateOutcome::UpToDate.into_status("1.0.0".to_string()) {
        Status::UpToDate(v) => assert_eq!(v, "1.0.0"),
        Status::Updated(v) => panic!("unexpected update to {v}"),
    }
}

#[test]
fn updated_reports_the_release_version() {
    match UpdateOutcome::Updated("2.0.0".to_string()).into_status("1.0.0".to_string()) {
        Status::Updated(v) => assert_eq!(v, "2.0.0"),
        Status::UpToDate(v) => panic!("unexpected up-to-date at {v}"),
    }
}

#[test]
fn update_result_maps_outcomes_and_keeps_errors() {
    let ok: Result<UpdateOutcome, String> = Ok(UpdateOutcome::UpToDate);
    match update_result(ok, "1.0.0".to_string()) {
        Ok(Status::UpToDate(v)) => assert_eq!(v, "1.0.0"),
        other => panic!("unexpected {other:?}"),
    }
    let err: Result<UpdateOutcome, String> = Err("network down".to_string());
    match update_result(err, "1.0.0".to_string()) {
        Err(e) => assert_eq!(e, "network down"),
        other => panic!("unexpected {other:?}"),
    }
}
