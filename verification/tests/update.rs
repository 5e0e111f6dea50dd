use gpt_shell::json::{parse, Json};
use gpt_shell::update::{
    Attempt, CheckStep, TargetOs, Update, UpdateCheck, UpdateError, MAX_ATTEMPTS,
    REQUEST_TIMEOUT_SECS, RETRY_DELAY_SECS,
};

fn release(tag: &str) -> Json {
    parse(&format!("{{\"tag_name\":\"{}\"}}", tag)).unwrap()
}

fn failed(reason: &str) -> CheckStep {
    CheckStep::Done(Err(UpdateError::CheckFailed(reason.to_string())))
}

#[test]
fn a_release_with_another_version_is_newer() {
    assert_eq!(Update::newer_version(&release("v1.3.0"), "1.2.0"), Ok(Some("1.3.0".to_string())));
    assert_eq!(Update::newer_version(&release("1.3.0"), "1.2.0"), Ok(Some("1.3.0".to_string())));
    assert_eq!(Update::newer_version(&release("v1.1.0"), "1.2.0"), Ok(Some("1.1.0".to_string())));
}

#[test]
fn a_release_with_the_same_version_is_none() {
    assert_eq!(Update::newer_version(&release("v1.2.0"), "1.2.0"), Ok(None));
    assert_eq!(Update::newer_version(&release("1.2.0"), "1.2.0"), Ok(None));
    assert_eq!(Update::newer_version(&release("vv1.2.0"), "1.2.0"), Ok(None));
}

#[test]
fn a_release_without_a_tag_is_invalid() {
    assert_eq!(
        Update::newer_version(&parse("{}").unwrap(), "1.2.0"),
        Err(UpdateError::InvalidReleaseFormat)
    );
    assert_eq!(
        Update::newer_version(&parse("{\"tag_name\":12}").unwrap(), "1.2.0"),
        Err(UpdateError::InvalidReleaseFormat)
    );
}

#[test]
fn a_check_starts_with_three_attempts() {
    assert_eq!(MAX_ATTEMPTS, 3);
    assert_eq!(RETRY_DELAY_SECS, 1);
    assert_eq!(REQUEST_TIMEOUT_SECS, 10);
    assert_eq!(UpdateCheck::new().attempts_left(), 3);
}

#[test]
fn a_release_settles_the_check_at_once() {
    let mut check = UpdateCheck::new();
    let step = check.on_attempt(Attempt::Release(release("v2.0.0")), "1.0.0");
    assert_eq!(step, CheckStep::Done(Ok(Some("2.0.0".to_string()))));
    assert_eq!(check.attempts_left(), 3);
    let same = UpdateCheck::new().on_attempt(Attempt::Release(release("v1.0.0")), "1.0.0");
    assert_eq!(same, CheckStep::Done(Ok(None)));
    let invalid = UpdateCheck::new().on_attempt(Attempt::Release(Json::Null), "1.0.0");
    assert_eq!(invalid, CheckStep::Done(Err(UpdateError::InvalidReleaseFormat)));
}

#[test]
fn no_release_at_all_is_no_update() {
    let mut check = UpdateCheck::new();
    let step = check.on_attempt(
        Attempt::Rejected { status: 404, status_text: "404 Not Found".to_string() },
        "1.0.0",
    );
    assert_eq!(step, CheckStep::Done(Ok(None)));
    assert_eq!(check.attempts_left(), 3);
}

#[test]
fn the_check_gives_up_after_three_failed_attempts() {
    let mut check = UpdateCheck::new();
    let first = check.on_attempt(Attempt::Unreachable("timed out".to_string()), "1.0.0");
    assert_eq!(first, CheckStep::Retry);
    assert_eq!(check.attempts_left(), 2);
    let second = check.on_attempt(
        Attempt::Rejected { status: 500, status_text: "500 Internal Server Error".to_string() },
        "1.0.0",
    );
    assert_eq!(second, CheckStep::Retry);
    assert_eq!(check.attempts_left(), 1);
    let third = check.on_attempt(Attempt::Unreadable("expected value".to_string()), "1.0.0");
    assert_eq!(third, failed("parse response failed: expected value"));
    assert_eq!(check.attempts_left(), 0);
    let fourth = check.on_attempt(Attempt::Release(release("v9")), "1.0.0");
    assert_eq!(fourth, failed("parse response failed: expected value"));
}

#[test]
fn the_reasons_of_failed_attempts() {
    let mut check = UpdateCheck::new();
    check.on_attempt(Attempt::Unreachable("a".to_string()), "1");
    check.on_attempt(Attempt::Unreachable("b".to_string()), "1");
    assert_eq!(
        check.on_attempt(Attempt::Unreachable("dns".to_string()), "1"),
        failed("network request failed: dns")
    );
    let mut check = UpdateCheck::new();
    check.on_attempt(Attempt::Unreachable("a".to_string()), "1");
    check.on_attempt(Attempt::Unreachable("b".to_string()), "1");
    assert_eq!(
        check.on_attempt(
            Attempt::Rejected { status: 503, status_text: "503 Service Unavailable".to_string() },
            "1"
        ),
        failed("API request failed, status code: 503 Service Unavailable")
    );
}

#[test]
fn a_success_after_a_failure_settles_the_check() {
    let mut check = UpdateCheck::new();
    assert_eq!(check.on_attempt(Attempt::Unreachable("x".to_string()), "1.0.0"), CheckStep::Retry);
    assert_eq!(
        check.on_attempt(Attempt::Release(release("v1.0.1")), "1.0.0"),
        CheckStep::Done(Ok(Some("1.0.1".to_string())))
    );
}

#[test]
fn update_errors_say_what_went_wrong() {
    assert_eq!(UpdateError::InvalidReleaseFormat.message(), "invalid release format");
    assert_eq!(UpdateError::CheckFailed("why".to_string()).message(), "check update failed: why");
    assert_eq!(UpdateError::NoAssets.message(), "No assets found");
    assert_eq!(UpdateError::AssetNotFound.message(), "Asset not found");
}

#[test]
fn each_system_has_its_file() {
    assert_eq!(Update::asset_name(TargetOs::Windows), "gpt-windows-amd64.exe");
    assert_eq!(Update::asset_name(TargetOs::MacOs), "gpt-macos-amd64");
    assert_eq!(Update::asset_name(TargetOs::Linux), "gpt-linux-amd64");
}

#[test]
fn the_download_url_is_that_of_the_named_file() {
    let release = parse(
        "{\"assets\":[\
         {\"name\":\"gpt-macos-amd64\",\"browser_download_url\":\"https://dl/mac\"},\
         {\"name\":\"gpt-linux-amd64\",\"browser_download_url\":\"https://dl/linux\"},\
         {\"name\":\"gpt-linux-amd64\",\"browser_download_url\":\"https://dl/second\"}]}",
    )
    .unwrap();
    assert_eq!(Update::download_url(&release, "gpt-linux-amd64"), Ok("https://dl/linux".to_string()));
    assert_eq!(Update::download_url(&release, "gpt-macos-amd64"), Ok("https://dl/mac".to_string()));
    assert_eq!(
        Update::download_url(&release, "gpt-windows-amd64.exe"),
        Err(UpdateError::AssetNotFound)
    );
}

#[test]
fn a_file_without_a_url_is_not_found() {
    let release = parse(
        "{\"assets\":[{\"name\":\"gpt-linux-amd64\"},\
         {\"name\":\"gpt-linux-amd64\",\"browser_download_url\":\"https://dl/second\"}]}",
    )
    .unwrap();
    assert_eq!(Update::download_url(&release, "gpt-linux-amd64"), Err(UpdateError::AssetNotFound));
}

#[test]
fn a_release_without_a_list_of_files_has_no_assets() {
    assert_eq!(
        Update::download_url(&parse("{}").unwrap(), "gpt-linux-amd64"),
        Err(UpdateError::NoAssets)
    );
    assert_eq!(
        Update::download_url(&parse("{\"assets\":{}}").unwrap(), "gpt-linux-amd64"),
        Err(UpdateError::NoAssets)
    );
    assert_eq!(
        Update::download_url(&parse("{\"assets\":[]}").unwrap(), "gpt-linux-amd64"),
        Err(UpdateError::AssetNotFound)
    );
}
