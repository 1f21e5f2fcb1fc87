use vault_insights::batch::FetchOutcome;
use vault_insights::project::partition_at;
use vault_insights::vault::{validate_config, ConfigError, FetchError, Vault};

const NOW: i64 = 1709626830;
const DAY: i64 = 86400;

/// "YYYY-MM-DD HH:MM:SS +0000" for `days` whole days before `NOW`.
fn days_before_now(days: i64) -> String {
    let secs = NOW - days * DAY;
    let (d, rem) = (secs.div_euclid(DAY), secs.rem_euclid(DAY));
    // civil date from days since 1970-01-01
    let z = d + 719468;
    let era = z.div_euclid(146097);
    let doe = z - era * 146097;
    let yoe = (doe - doe / 1460 + doe / 36524 - doe / 146096) / 365;
    let doy = doe - (365 * yoe + yoe / 4 - yoe / 100);
    let mp = (5 * doy + 2) / 153;
    let day = doy - (153 * mp + 2) / 5 + 1;
    let month = if mp < 10 { mp + 3 } else { mp - 9 };
    let year = yoe + era * 400 + if month <= 2 { 1 } else { 0 };
    format!("{:04}-{:02}-{:02} {:02}:{:02}:{:02} +0000", year, month, day, rem / 3600, rem % 3600 / 60, rem % 60)
}

fn document(id: u32, title: &str, comments: &str) -> FetchOutcome {
    FetchOutcome::Body(format!(
        r#"{{"data": {{"id": "{}", "attributes": {{"title": "{}", "roadmap-comments": {}}}}}}}"#,
        id, title, comments
    ))
}

#[test]
fn helper_writes_known_date() {
    assert_eq!(days_before_now(0), "2024-03-05 08:20:30 +0000");
}

#[test]
fn scenario_partial_failure_and_threshold() {
    let ids = [1u32, 2, 3];
    let vault = Vault::new("k", "t", "https://v", &ids);
    let outcomes = vec![
        document(1, "One", &format!(r#"[{{"id": 11, "updated_at": "{}"}}]"#, days_before_now(10))),
        FetchOutcome::Failed,
        document(3, "Three", &format!(r#"[{{"id": 33, "updated_at": "{}"}}]"#, days_before_now(20))),
    ];
    let projects = vault.collect_projects(outcomes).ok().unwrap();
    assert_eq!(projects.len(), 3);
    let (outdated, updated) = partition_at(projects, NOW, 14);
    let o: Vec<String> = outdated.iter().map(|p| p.name.clone()).collect();
    let u: Vec<String> = updated.iter().map(|p| p.name.clone()).collect();
    // Both lists keep the order of the identifiers: project 2 before project 3.
    assert_eq!(o, vec!["Unknown...".to_string(), "Three".to_string()]);
    assert_eq!(u, vec!["One".to_string()]);
    assert_eq!(outdated[0].date_cell(), "--");
    assert_eq!(outdated[0].url_cell(), "");
    assert_eq!(outdated[1].date_cell(), days_before_now(20)[..10].to_string());
    assert_eq!(outdated[1].url_cell(), "https://v/projects/3#status-update-33");
    assert_eq!(updated[0].url_cell(), "https://v/projects/1#status-update-11");
}

#[test]
fn scenario_unauthorized_fails_whole_batch() {
    let ids = [1u32, 2];
    let vault = Vault::new("k", "t", "https://v", &ids);
    let outcomes = vec![document(1, "One", "[]"), FetchOutcome::Unauthorized];
    assert_eq!(vault.collect_projects(outcomes).err(), Some(FetchError::InvalidCredentials));
    let outcomes = vec![FetchOutcome::Body("not json".to_string()), FetchOutcome::Unauthorized];
    assert_eq!(vault.collect_projects(outcomes).err(), Some(FetchError::InvalidCredentials));
}

#[test]
fn scenario_empty_comments_is_outdated_with_placeholders() {
    let ids = [4u32];
    let vault = Vault::new("k", "t", "https://v", &ids);
    let projects = vault.collect_projects(vec![document(4, "Four", "[]")]).ok().unwrap();
    assert_eq!(projects[0].name, "Four");
    assert_eq!(projects[0].date_cell(), "--");
    assert_eq!(projects[0].url_cell(), "");
    let (outdated, updated) = partition_at(projects, NOW, 14);
    assert_eq!(outdated.len(), 1);
    assert!(updated.is_empty());
}

#[test]
fn malformed_document_fails_batch() {
    let ids = [1u32];
    let vault = Vault::new("k", "t", "https://v", &ids);
    let outcomes = vec![FetchOutcome::Failed, FetchOutcome::Body("{oops".to_string())];
    assert_eq!(vault.collect_projects(outcomes).err(), Some(FetchError::MalformedDocument));
}

#[test]
fn empty_batch_gives_no_records() {
    let ids: [u32; 0] = [];
    let vault = Vault::new("k", "t", "https://v", &ids);
    assert_eq!(vault.collect_projects(vec![]).ok().map(|v| v.len()), Some(0));
}

#[test]
fn vault_keeps_configuration() {
    let ids = [7u32, 8];
    let vault = Vault::new("key1", "tok2", "https://v", &ids);
    assert_eq!(vault.key(), "key1");
    assert_eq!(vault.token(), "tok2");
    assert_eq!(vault.vault_url(), "https://v");
    assert_eq!(vault.project_ids(), &[7, 8]);
}

#[test]
fn project_url_joins_base_and_id() {
    let ids = [0u32];
    let vault = Vault::new("k", "t", "https://v.io", &ids);
    assert_eq!(vault.project_url(0), "https://v.io/api/projects/0");
    assert_eq!(vault.project_url(1234), "https://v.io/api/projects/1234");
    assert_eq!(vault.project_url(u32::MAX), "https://v.io/api/projects/4294967295");
}

#[test]
fn config_checks_each_field() {
    assert_eq!(validate_config("", "t", "u"), Err(ConfigError::MissingKey));
    assert_eq!(validate_config("k", "", "u"), Err(ConfigError::MissingToken));
    assert_eq!(validate_config("k", "t", ""), Err(ConfigError::MissingVaultUrl));
    assert_eq!(validate_config("", "", ""), Err(ConfigError::MissingKey));
    assert_eq!(validate_config("k", "t", "u"), Ok(()));
}
