use kuma_services::backup_checker::backends::cron_request;
use kuma_services::backup_checker::backends::parse_cron;
use kuma_services::backup_checker::backends::pbs;
use kuma_services::backup_checker::backends::pfsense;
use kuma_services::backup_checker::backends::pihole;
use kuma_services::backup_checker::backends::timestamp_verdict;
use kuma_services::backup_checker::backends::CheckError;
use kuma_services::backup_checker::backends::CommandOutcome;
use kuma_services::backup_checker::enums::status_of;
use kuma_services::backup_checker::enums::Backend;
use kuma_services::backup_checker::enums::Probe;
use kuma_services::backup_checker::enums::Query;
use kuma_services::backup_checker::enums::Status;
use kuma_services::clock::deserialize_unix_timestamp;
use kuma_services::clock::Timestamp;
use kuma_services::pve_proxy;
use kuma_services::pve_proxy::latest_backup_job;
use kuma_services::pve_proxy::Job;

fn at(secs: i64) -> Timestamp {
    deserialize_unix_timestamp(secs).expect("representable")
}

fn jobs(starts: &[i64]) -> Vec<Job> {
    starts.iter().map(|s| Job { start: at(*s) }).collect()
}

fn journal(text: &str) -> CommandOutcome<Vec<u8>> {
    CommandOutcome::Succeeded(text.as_bytes().to_vec())
}

const DAY: i64 = 86_400;

#[test]
fn proxy_day_boundary() {
    let now = at(10 * DAY);
    assert_eq!(latest_backup_job(&jobs(&[10 * DAY - 3_600]), &now), pve_proxy::Status::Good);
    assert_eq!(latest_backup_job(&jobs(&[9 * DAY]), &now), pve_proxy::Status::Good);
    assert_eq!(latest_backup_job(&jobs(&[9 * DAY - 1]), &now), pve_proxy::Status::Bad);
}

#[test]
fn proxy_reports_bad_after_a_day() {
    let now = at(10 * DAY);
    assert_eq!(latest_backup_job(&jobs(&[8 * DAY]), &now), pve_proxy::Status::Bad);
    assert_eq!(latest_backup_job(&jobs(&[0]), &now), pve_proxy::Status::Bad);
}

#[test]
fn proxy_judges_only_the_first_job() {
    let now = at(10 * DAY);
    assert_eq!(latest_backup_job(&jobs(&[0, 10 * DAY]), &now), pve_proxy::Status::Bad);
    assert_eq!(latest_backup_job(&jobs(&[10 * DAY, 0]), &now), pve_proxy::Status::Good);
}

#[test]
fn proxy_future_jobs_are_bad() {
    let now = at(10 * DAY);
    assert_eq!(latest_backup_job(&jobs(&[10 * DAY + 1]), &now), pve_proxy::Status::Bad);
    assert_eq!(latest_backup_job(&jobs(&[11 * DAY]), &now), pve_proxy::Status::Bad);
    assert_eq!(latest_backup_job(&jobs(&[10 * DAY]), &now), pve_proxy::Status::Good);
}

#[test]
fn proxy_empty_task_list_is_bad() {
    assert_eq!(latest_backup_job(&vec![], &at(10 * DAY)), pve_proxy::Status::Bad);
}

#[test]
fn proxy_counts_the_fraction_of_a_second() {
    let start = jobs(&[DAY]);
    let exactly_a_day = Timestamp::from_parts(2 * DAY, 0).unwrap();
    let a_day_and_a_bit = Timestamp::from_parts(2 * DAY, 500_000_000).unwrap();
    let just_started = Timestamp::from_parts(DAY, 1).unwrap();
    assert_eq!(latest_backup_job(&start, &exactly_a_day), pve_proxy::Status::Good);
    assert_eq!(latest_backup_job(&start, &a_day_and_a_bit), pve_proxy::Status::Bad);
    assert_eq!(latest_backup_job(&start, &just_started), pve_proxy::Status::Good);
}

#[test]
fn proxy_status_bodies() {
    assert_eq!(pve_proxy::Status::Good.text(), "OK");
    assert_eq!(pve_proxy::Status::Bad.text(), "BAD");
    assert_eq!(pve_proxy::Status::Good.json_body(), "{\"status\":\"OK\"}");
    assert_eq!(pve_proxy::Status::Bad.json_body(), "{\"status\":\"BAD\"}");
}

#[test]
fn error_messages() {
    assert_eq!(CheckError::JournalUnavailable.message(), "Failed to get `journalctl` output");
    assert_eq!(CheckError::CommandFailed.message(), "Command failed");
    assert_eq!(CheckError::OutputNotUtf8.message(), "Failed to convert standard out into a string");
    assert_eq!(CheckError::NoTimestamp.message(), "Failed to get the timestamp from cron output");
    assert_eq!(CheckError::MalformedTimestamp.message(), "Failed to parse the datetime string");
    assert_eq!(CheckError::TasksUnavailable.message(), "Failed to get `pvesh` output");
    assert_eq!(CheckError::MalformedTaskList.message(), "Failed to deserialize `pvesh` output");
    assert_eq!(CheckError::NoJobs.message(), "Failed to get first job");
    assert_eq!(CheckError::StaleBackup.message(), "Last job did not run successfully");
}

#[test]
fn cron_requests() {
    let r = cron_request("scp");
    assert_eq!(r.program, "journalctl");
    assert_eq!(r.args, vec!["-t", "CRON", "--since", "today", "-g", "scp", "-o", "short-iso"]);
    let r = pihole::request();
    assert_eq!(r.program, "journalctl");
    assert_eq!(r.args, vec!["-t", "CRON", "--since", "today", "-g", "pihole-FTL", "-o", "short-iso"]);
    let r = pfsense::request();
    assert_eq!(r.args[5], "scp");
}

#[test]
fn pvesh_request() {
    let r = pbs::request();
    assert_eq!(r.program, "pvesh");
    assert_eq!(r.args, vec!["get", "/nodes/pve/tasks", "--typefilter", "vzdump", "--output-format", "json"]);
}

#[test]
fn cron_outcomes() {
    assert_eq!(parse_cron(&CommandOutcome::NotRun), Err(CheckError::JournalUnavailable));
    assert_eq!(parse_cron(&CommandOutcome::Failed), Err(CheckError::CommandFailed));
    assert_eq!(parse_cron(&CommandOutcome::Succeeded(vec![0xfe, 0x20])), Err(CheckError::OutputNotUtf8));
    assert_eq!(parse_cron(&journal("")), Err(CheckError::NoTimestamp));
    assert_eq!(parse_cron(&journal("-- No entries --")), Err(CheckError::MalformedTimestamp));
    assert_eq!(
        parse_cron(&journal("2024-05-01T03:00:01+0200 pve CRON[812]: (root) CMD (scp fw:/cf/conf/config.xml /backup)\n")),
        Ok(())
    );
    assert_eq!(parse_cron(&journal("\n 2024-05-01T03:00:01+02:00 pve CRON[812]: x")), Ok(()));
    assert_eq!(parse_cron(&journal("2024-05-01 03:00:01 pve CRON")), Err(CheckError::MalformedTimestamp));
}

#[test]
fn timestamp_words() {
    assert_eq!(timestamp_verdict(&"2024-12-31T23:59:59-0500".chars().collect()), Ok(()));
    assert_eq!(timestamp_verdict(&"2024-12-31T23:59:59".chars().collect()), Err(CheckError::MalformedTimestamp));
    assert_eq!(timestamp_verdict(&"2024-13-01T00:00:00+0000".chars().collect()), Err(CheckError::MalformedTimestamp));
}

#[test]
fn cron_checks_agree() {
    for outcome in [journal("2024-05-01T03:00:01+0200 x"), journal("nope"), CommandOutcome::Failed] {
        assert_eq!(pihole::check(&outcome), pfsense::check(&outcome));
        assert_eq!(pihole::check(&outcome), parse_cron(&outcome));
    }
}

#[test]
fn task_outcomes() {
    let now = at(10 * DAY);
    assert_eq!(pbs::check(&CommandOutcome::NotRun, &now), Err(CheckError::TasksUnavailable));
    assert_eq!(pbs::check(&CommandOutcome::Failed, &now), Err(CheckError::CommandFailed));
    assert_eq!(pbs::check(&CommandOutcome::Succeeded(None), &now), Err(CheckError::MalformedTaskList));
    assert_eq!(pbs::check(&CommandOutcome::Succeeded(Some(vec![])), &now), Err(CheckError::NoJobs));
    assert_eq!(pbs::check(&CommandOutcome::Succeeded(Some(jobs(&[9 * DAY]))), &now), Ok(()));
    assert_eq!(
        pbs::check(&CommandOutcome::Succeeded(Some(jobs(&[8 * DAY, 10 * DAY]))), &now),
        Err(CheckError::StaleBackup)
    );
}

#[test]
fn task_check_rejects_future_and_fractional_ages() {
    let start = jobs(&[DAY]);
    let a_day_and_a_bit = Timestamp::from_parts(2 * DAY, 1).unwrap();
    let before_start = Timestamp::from_parts(DAY - 1, 999_999_999).unwrap();
    let ok = CommandOutcome::Succeeded(Some(start));
    assert_eq!(pbs::check(&ok, &a_day_and_a_bit), Err(CheckError::StaleBackup));
    assert_eq!(pbs::check(&ok, &before_start), Err(CheckError::StaleBackup));
    assert_eq!(pbs::check(&ok, &at(DAY)), Ok(()));
}

#[test]
fn proxy_and_checker_agree() {
    let now = at(50 * DAY);
    for start in [50 * DAY, 49 * DAY, 49 * DAY - 1, 48 * DAY, 50 * DAY + 1, 51 * DAY, 0] {
        let proxy_ok = latest_backup_job(&jobs(&[start]), &now) == pve_proxy::Status::Good;
        let check_ok = pbs::check(&CommandOutcome::Succeeded(Some(jobs(&[start]))), &now).is_ok();
        assert_eq!(proxy_ok, check_ok);
    }
    let empty_ok = latest_backup_job(&vec![], &now) == pve_proxy::Status::Good;
    assert_eq!(empty_ok, pbs::check(&CommandOutcome::Succeeded(Some(vec![])), &now).is_ok());
}

#[test]
fn backend_requests() {
    assert_eq!(Backend::Pbs.request().program, "pvesh");
    assert_eq!(Backend::PiHole.request().args[5], "pihole-FTL");
    assert_eq!(Backend::PfSense.request().args[5], "scp");
    let q = Query { kind: Backend::PiHole };
    assert_eq!(q.kind.request().program, "journalctl");
}

#[test]
fn backend_statuses() {
    let now = at(10 * DAY);
    assert_eq!(
        Backend::Pbs.status(&Probe::Tasks(CommandOutcome::Succeeded(Some(jobs(&[10 * DAY - 5])))), &now),
        Status::Good
    );
    assert_eq!(
        Backend::Pbs.status(&Probe::Tasks(CommandOutcome::Succeeded(Some(jobs(&[8 * DAY])))), &now),
        Status::Bad { message: "Last job did not run successfully".to_string() }
    );
    assert_eq!(
        Backend::Pbs.status(&Probe::Tasks(CommandOutcome::Succeeded(Some(vec![]))), &now),
        Status::Bad { message: "Failed to get first job".to_string() }
    );
    assert_eq!(
        Backend::PiHole.status(&Probe::Journal(journal("2024-05-01T03:00:01+0200 x")), &now),
        Status::Good
    );
    assert_eq!(
        Backend::PfSense.status(&Probe::Journal(CommandOutcome::NotRun), &now),
        Status::Bad { message: "Failed to get `journalctl` output".to_string() }
    );
}

#[test]
fn checker_status_bodies() {
    assert_eq!(Status::Good.text(), "OK");
    assert_eq!(Status::Good.json_body(), "{\"status\":\"OK\"}");
    let bad = status_of(&Err(CheckError::CommandFailed));
    assert_eq!(bad.text(), "BAD: Command failed");
    assert_eq!(bad.json_body(), "{\"status\":\"BAD: Command failed\"}");
    assert_eq!(status_of(&Ok(())), Status::Good);
    assert_eq!(Status::Good.http_status(), 200);
    assert_eq!(bad.http_status(), 500);
}
