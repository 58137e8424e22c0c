use chrono::NaiveDate;
use fossology::auth::{tokens, tokens_reply, Token, TokenScope, TokensParameters};
use fossology::info::{
    health, health_reply, health_request, info, info_reply, info_request, version, version_reply,
    ApiInformation, ApiInformationV1, ApiLicense, Health, Status,
};
use fossology::job::{
    get_jobs, jobs_reply, schedule_analysis, schedule_reply, Job, JobStatus, ScheduleAgents,
};
use fossology::license::{get_license, license_reply, license_request, License};
use fossology::request::{Body, Field, Method, Payload, Request};
use fossology::resolve::{Connect, Probed};
use fossology::upload::{
    filesearch, filesearch_reply, get_upload_by_id, keep_hits, new_upload_from_file,
    new_upload_reply, upload_reply, FilesearchResponse, Findings, Upload,
};
use fossology::utilities::hash256;
use fossology::{Fossology, FossologyError, FossologyResponse, Info, InfoWithNumber};
use rand::{distributions::Alphanumeric, Rng};

const URI: &str = "http://localhost:8080/repo/api/v1";
const ARCHIVE: &str = "tests/data/base-files_11.tar.xz";

fn recent(version: &str) -> ApiInformation {
    ApiInformation {
        name: "FOSSology API".to_string(),
        description: "Automate your fossology instance using REST API".to_string(),
        version: version.to_string(),
        security: vec!["bearerAuth".to_string()],
        contact: "fossology@fossology.org".to_string(),
        license: ApiLicense {
            name: "GPL-2.0-only".to_string(),
            url: "https://github.com/fossology/fossology/blob/master/LICENSE".to_string(),
        },
    }
}

fn session_with(version: &str, token: &str) -> Fossology {
    match Fossology::new(URI, token).resolve(Probed::Answered(recent(version))) {
        Connect::Ready(fossology) => fossology,
        other => panic!("no session: {:?}", other),
    }
}

fn session(version: &str) -> Fossology {
    session_with(version, "token")
}

/// The body of a response that has the shape of what was asked for.
fn found<T>(raw: &str, value: T) -> Result<Payload<T>, FossologyError> {
    Ok(Payload { raw: raw.as_bytes().to_vec(), success: Some(value), error: None })
}

/// The body of a response in which the server reports an error.
fn reported<T>(code: i32, message: &str) -> Result<Payload<T>, FossologyError> {
    let raw = format!("{{\"code\":{},\"message\":\"{}\",\"type\":\"error\"}}", code, message);
    Ok(Payload {
        raw: raw.into_bytes(),
        success: None,
        error: Some(Info {
            code,
            message: message.to_string(),
            error_type: "error".to_string(),
        }),
    })
}

/// The failure of an operation to which the server answers with a report.
fn report(code: i32, message: &str) -> FossologyError {
    FossologyError::ApiError(Info {
        code,
        message: message.to_string(),
        error_type: "error".to_string(),
    })
}

/// The body of a response that has neither shape.
fn garbled<T>(raw: &[u8]) -> Result<Payload<T>, FossologyError> {
    Ok(Payload { raw: raw.to_vec(), success: None, error: None })
}

fn field(name: &str, value: &str) -> Field {
    Field { name: name.to_string(), value: value.to_string() }
}

fn token_name() -> String {
    rand::thread_rng().sample_iter(&Alphanumeric).take(10).map(char::from).collect::<String>()
}

fn write_session() -> Fossology {
    let fossology = session("1.3.3");
    let name = token_name();
    let params = TokensParameters::new(
        "fossy",
        "fossy",
        &name,
        TokenScope::Write,
        NaiveDate::from_ymd_opt(2021, 10, 30).unwrap(),
    );
    let request = tokens(&fossology, &params);
    assert_eq!(request.url, "http://localhost:8080/repo/api/v1/tokens");
    let token = tokens_reply(found(
        "{\"Authorization\":\"Bearer write-token\"}",
        Token { authorization: "Bearer write-token".to_string() },
    ))
    .unwrap();
    session_with("1.3.3", token.authorization.strip_prefix("Bearer ").unwrap())
}

fn mit() -> License {
    License {
        id: 292,
        short_name: "MIT".to_string(),
        full_name: "MIT License".to_string(),
        text: "Permission is hereby granted, free of charge".to_string(),
        risk: Some(2),
        is_candidate: Some(false),
    }
}

fn upload(id: i32) -> Upload {
    Upload {
        folder_id: 1,
        folder_name: "Software Repository".to_string(),
        id,
        description: String::new(),
        upload_name: "base-files_11.tar.xz".to_string(),
        upload_date: "2021-10-01 10:00:00.000000+00".to_string(),
        assignee: None,
        hash: fossology::upload::Hash {
            sha1: Some("3B9F1B0E3B2A6B1C4D5E6F708192A3B4C5D6E7F8".to_string()),
            md5: Some("0123456789ABCDEF0123456789ABCDEF".to_string()),
            sha256: Some(hash256(b"base-files_11")),
            size: Some(65536),
        },
    }
}

fn job(id: i32, upload_id: i32, status: JobStatus) -> Job {
    Job {
        id,
        name: "base-files_11.tar.xz".to_string(),
        queue_date: "2021-10-01 10:00:00.000000+00".to_string(),
        upload_id: upload_id.to_string(),
        user_id: "3".to_string(),
        group_id: "3".to_string(),
        eta: 0,
        status,
    }
}

fn entry(sha256: &str, uploads: Vec<i32>, message: Option<&str>) -> FilesearchResponse {
    FilesearchResponse {
        hash: fossology::upload::Hash::from_sha256(sha256),
        findings: if uploads.is_empty() {
            None
        } else {
            Some(Findings {
                scanner: vec!["GPL-2.0-only".to_string()],
                conclusion: vec![],
                copyright: vec!["Copyright (C) 1995 the authors".to_string()],
            })
        },
        uploads,
        message: message.map(str::to_string),
    }
}

fn response<T>(r: Result<FossologyResponse<T>, FossologyError>) -> T {
    match r.unwrap() {
        FossologyResponse::Response(value) => value,
        FossologyResponse::ApiError(info) => panic!("the server reports: {:?}", info),
    }
}

fn is_plain(request: &Request) -> bool {
    request.query.is_empty() && request.headers.is_empty() && matches!(request.body, Body::Empty)
}

// Tokens.

#[test]
fn generate_read_token() {
    let fossology = session("1.3.3");

    let token_name = token_name();

    let params = TokensParameters::new(
        "fossy",
        "fossy",
        &token_name,
        TokenScope::Read,
        NaiveDate::from_ymd_opt(2021, 10, 30).unwrap(),
    );

    let request = tokens(&fossology, &params);
    assert_eq!(request.method, Method::Post);
    assert_eq!(request.url, "http://localhost:8080/repo/api/v1/tokens");
    assert_eq!(request.bearer, None);
    match request.body {
        Body::Tokens(sent) => {
            assert_eq!(sent.username(), "fossy");
            assert_eq!(sent.password(), "fossy");
            assert_eq!(sent.token_name(), token_name);
            assert_eq!(sent.token_scope(), TokenScope::Read);
            assert_eq!(*sent.token_expire(), NaiveDate::from_ymd_opt(2021, 10, 30).unwrap());
        }
        other => panic!("not the parameters: {:?}", other),
    }

    let token = tokens_reply(found(
        "{\"Authorization\":\"Bearer eyJ0eXAiOiJKV1Qi\"}",
        Token { authorization: "Bearer eyJ0eXAiOiJKV1Qi".to_string() },
    ))
    .unwrap();

    assert!(token.authorization.starts_with("Bearer"));
}

#[test]
fn generate_write_token() {
    let fossology = session("1.3.3");

    let token_name = token_name();

    let params = TokensParameters::new(
        "fossy",
        "fossy",
        &token_name,
        TokenScope::Write,
        NaiveDate::from_ymd_opt(2021, 10, 30).unwrap(),
    );

    let request = tokens(&fossology, &params);
    assert!(matches!(request.body, Body::Tokens(sent) if sent.token_scope() == TokenScope::Write));
    assert!(request.query.is_empty() && request.headers.is_empty());

    let tokens = tokens_reply(found(
        "{\"Authorization\":\"Bearer eyJ0eXAiOiJKV1Qi\"}",
        Token { authorization: "Bearer eyJ0eXAiOiJKV1Qi".to_string() },
    ))
    .unwrap();

    assert!(tokens.authorization.starts_with("Bearer"));
}

#[test]
fn refused_token_fails_with_the_servers_message() {
    let failure = tokens_reply(reported(404, "Username or password incorrect.")).unwrap_err();

    assert_eq!(failure, report(404, "Username or password incorrect."));
    assert_eq!(failure.to_string(), "Username or password incorrect.");
}

// What the server says of itself.

#[test]
fn api_information() {
    let fossology = session("1.3.3");

    let result = match info(&fossology) {
        Ok(request) => {
            assert_eq!(request.method, Method::Get);
            assert_eq!(request.url, "http://localhost:8080/repo/api/v1/info");
            assert_eq!(request.bearer.as_deref(), Some("token"));
            assert!(is_plain(&request));
            info_reply(found("{\"name\":\"FOSSology API\"}", recent("1.3.3")))
        }
        Err(err) => Err(err),
    };

    match result {
        Ok(info) => {
            assert_eq!(info.name, "FOSSology API");
        }
        Err(err) => {
            match err {
                FossologyError::UnsupportedVersion => {
                    // Ok
                }
                _ => panic!(),
            }
        }
    };
}

#[test]
fn info_is_not_asked_of_a_server_before_1_3_3() {
    assert_eq!(info(&session("1.3.2")).unwrap_err(), FossologyError::UnsupportedVersion);
    assert_eq!(info(&session("1.0.0")).unwrap_err(), FossologyError::UnsupportedVersion);
    assert!(info(&session("1.10.0")).is_ok());
    assert_eq!(
        info(&session("unknown")).unwrap_err(),
        FossologyError::Other("Failed to compare versions".to_string())
    );
    assert_eq!(
        info_request(&session("1.3.3"), false).unwrap_err(),
        FossologyError::UnsupportedVersion
    );
}

#[test]
fn info_that_the_server_refuses_fails_with_its_report() {
    let failure = info_reply(reported(403, "Not authorized")).unwrap_err();
    assert_eq!(failure, report(403, "Not authorized"));
    assert_eq!(failure.to_string(), "Not authorized");

    let failure = version_reply(reported(500, "Internal error")).unwrap_err();
    assert_eq!(failure, report(500, "Internal error"));
    assert_eq!(failure.to_string(), "Internal error");
}

#[test]
fn old_version() {
    let fossology = session("1.3.3");

    let request = version(&fossology);
    assert_eq!(request.method, Method::Get);
    assert_eq!(request.url, "http://localhost:8080/repo/api/v1/version");
    assert_eq!(request.bearer, None);
    assert!(is_plain(&request));

    let info = version_reply(found(
        "{\"version\":\"1.3.3\",\"security\":[\"bearerAuth\"]}",
        ApiInformationV1 { version: "1.3.3".to_string(), security: vec!["bearerAuth".to_string()] },
    ))
    .unwrap();

    assert_eq!(info.security, vec!["bearerAuth"]);
}

#[test]
fn get_health() {
    let fossology = session("1.3.3");

    let request = health(&fossology).unwrap();
    assert_eq!(request.method, Method::Get);
    assert_eq!(request.url, "http://localhost:8080/repo/api/v1/health");
    assert_eq!(request.bearer.as_deref(), Some("token"));
    assert!(is_plain(&request));

    let health = health_reply(found(
        "{\"status\":\"OK\",\"scheduler\":{\"status\":\"OK\"},\"db\":{\"status\":\"OK\"}}",
        Health {
            status: "OK".to_string(),
            scheduler: Status { status: "OK".to_string() },
            db: Status { status: "OK".to_string() },
        },
    ))
    .unwrap();

    assert_eq!(health.status, "OK");
    assert_eq!(health.scheduler.status, "OK");
    assert_eq!(health.db.status, "OK");
}

#[test]
fn health_is_not_asked_of_a_server_before_1_3_3() {
    let fossology = session("1.0.0");

    assert_eq!(health(&fossology).unwrap_err(), FossologyError::UnsupportedVersion);
    assert_eq!(health(&session("1.3.2")).unwrap_err(), FossologyError::UnsupportedVersion);
    assert!(health(&session("1.3.3")).is_ok());
    assert!(health(&session("1.4")).is_ok());
    assert_eq!(
        health_request(&fossology, false).unwrap_err(),
        FossologyError::UnsupportedVersion
    );
    assert!(health_request(&fossology, true).is_ok());
}

#[test]
fn health_that_the_server_cannot_tell_fails_with_its_message() {
    let failure = health_reply(reported(500, "Scheduler is not running")).unwrap_err();

    assert_eq!(failure, report(500, "Scheduler is not running"));
    assert_eq!(failure.to_string(), "Scheduler is not running");
}

// Jobs.

#[test]
fn get_unarchive_job() {
    let fossology = write_session();

    let upload = new_upload_reply(found(
        "{\"code\":201,\"message\":3,\"type\":\"INFO\"}",
        InfoWithNumber { code: 201, message: 3, error_type: "INFO".to_string() },
    ))
    .unwrap();

    let request = get_jobs(&fossology, Some(upload.upload_id), None, None, None);
    assert_eq!(request.method, Method::Get);
    assert_eq!(request.url, "http://localhost:8080/repo/api/v1/jobs");
    assert_eq!(request.bearer.as_deref(), Some("write-token"));
    assert_eq!(request.query, vec![field("upload", "3")]);
    assert!(request.headers.is_empty());
    assert!(matches!(request.body, Body::Empty));

    let jobs = response(jobs_reply(found("[{\"id\":7}]", vec![job(7, 3, JobStatus::Processing)])));

    assert_eq!(jobs.len(), 1);
    assert_eq!(jobs[0].status, JobStatus::Processing)
}

#[test]
fn schedule_jobs() {
    let fossology = write_session();

    let upload = new_upload_reply(found(
        "{\"code\":201,\"message\":3,\"type\":\"INFO\"}",
        InfoWithNumber { code: 201, message: 3, error_type: "INFO".to_string() },
    ))
    .unwrap();

    let jobs = response(jobs_reply(found("[{\"id\":7}]", vec![job(7, 3, JobStatus::Completed)])));

    assert_eq!(jobs.len(), 1);

    let mut schedule = ScheduleAgents::default();
    schedule.analysis.nomos = true;
    schedule.analysis.ojo = true;
    schedule.analysis.copyright_email_author = true;
    schedule.analysis.ecc = true;
    schedule.analysis.keyword = true;

    let request = schedule_analysis(&fossology, 1, upload.upload_id, None, &schedule);
    assert_eq!(request.method, Method::Post);
    assert_eq!(request.url, "http://localhost:8080/repo/api/v1/jobs");
    assert_eq!(request.bearer.as_deref(), Some("write-token"));
    assert!(request.query.is_empty());
    assert_eq!(request.headers, vec![field("folderId", "1"), field("uploadId", "3")]);
    match request.body {
        Body::Agents(agents) => {
            assert!(agents.analysis.nomos && agents.analysis.ojo && agents.analysis.ecc);
            assert!(agents.analysis.copyright_email_author && agents.analysis.keyword);
            assert!(!agents.analysis.bucket && !agents.analysis.mime && !agents.analysis.monk);
            assert!(!agents.analysis.package);
            assert!(!agents.decider.bulk_reused());
        }
        other => panic!("not the agents: {:?}", other),
    }

    let scheduled_job = response(schedule_reply(found(
        "{\"code\":201,\"message\":8,\"type\":\"INFO\"}",
        InfoWithNumber { code: 201, message: 8, error_type: "INFO".to_string() },
    )));

    let jobs = response(jobs_reply(found(
        "[{\"id\":7},{\"id\":8}]",
        vec![job(7, 3, JobStatus::Completed), job(8, 3, JobStatus::Queued)],
    )));

    assert_eq!(jobs.len(), 2);
    assert!(jobs.iter().any(|j| j.id == scheduled_job.id));
}

#[test]
fn jobs_are_asked_for_with_every_filter_in_its_place() {
    let fossology = session("1.3.3");

    let request = get_jobs(&fossology, Some(-12), Some("fossy".to_string()), Some(10), Some(2));

    assert_eq!(request.query, vec![field("upload", "-12")]);
    assert_eq!(
        request.headers,
        vec![field("groupName", "fossy"), field("limit", "10"), field("page", "2")]
    );

    let request = get_jobs(&fossology, None, None, None, Some(3));
    assert!(request.query.is_empty());
    assert_eq!(request.headers, vec![field("page", "3")]);

    let request = get_jobs(&fossology, None, None, None, None);
    assert!(is_plain(&request));
}

#[test]
fn jobs_that_the_server_refuses_fail_with_its_report() {
    let failure = jobs_reply(reported(403, "Upload is not accessible")).unwrap_err();
    assert_eq!(failure, report(403, "Upload is not accessible"));
    assert_eq!(failure.to_string(), "Upload is not accessible");
    match failure {
        FossologyError::ApiError(info) => {
            assert_eq!(info.code, 403);
            assert_eq!(info.message, "Upload is not accessible");
            assert_eq!(info.error_type, "error");
        }
        other => panic!("not the server's report: {:?}", other),
    }

    let failure = schedule_reply(reported(404, "Folder does not exist")).unwrap_err();
    assert_eq!(failure, report(404, "Folder does not exist"));
    assert_eq!(failure.to_string(), "Folder does not exist");
}

#[test]
fn jobs_that_cannot_be_read_are_kept_in_the_failure() {
    let failure = jobs_reply(garbled(b"<html>504</html>")).unwrap_err();
    assert_eq!(failure, FossologyError::UnexpectedResponse("<html>504</html>".to_string()));

    let failure = schedule_reply(garbled(b"not json")).unwrap_err();
    assert_eq!(failure, FossologyError::UnexpectedResponse("not json".to_string()));
}

#[test]
fn analysis_is_scheduled_for_a_group() {
    let fossology = session("1.3.3");
    let schedule = ScheduleAgents::default();

    let request = schedule_analysis(&fossology, 2, 17, Some("lawyers".to_string()), &schedule);

    assert_eq!(
        request.headers,
        vec![field("groupName", "lawyers"), field("folderId", "2"), field("uploadId", "17")]
    );
}

#[test]
fn no_agent_is_scheduled_by_default() {
    let schedule = ScheduleAgents::default();

    let a = &schedule.analysis;
    assert!(!a.bucket && !a.copyright_email_author && !a.ecc && !a.keyword && !a.mime);
    assert!(!a.monk && !a.nomos && !a.ojo && !a.package);
    let d = &schedule.decider;
    assert!(!d.nomos_monk && !d.bulk_reused() && !d.new_scanner && !d.ojo_decider);
    let r = &schedule.reuse;
    assert_eq!(r.reuse_upload, 0);
    assert_eq!(r.reuse_group, "");
    assert!(!r.reuse_main && !r.reuse_enhanced && !r.reuse_report && !r.reuse_copyright);
}

// Licenses.

#[test]
fn get_correct_license() {
    let fossology = write_session();

    let request = get_license(&fossology, "MIT", None).unwrap();
    assert_eq!(request.method, Method::Get);
    assert_eq!(request.url, "http://localhost:8080/repo/api/v1/license/MIT");
    assert_eq!(request.bearer.as_deref(), Some("write-token"));
    assert!(is_plain(&request));

    let mit = license_reply(found("{\"shortName\":\"MIT\"}", mit())).unwrap();

    assert_eq!(mit.full_name, "MIT License");
}

#[test]
fn error_on_invalid_license() {
    let fossology = write_session();

    let request = get_license(&fossology, "does_not_exist", None).unwrap();
    assert_eq!(request.url, "http://localhost:8080/repo/api/v1/license/does_not_exist");

    let err = license_reply(reported(404, "No license found with provided shortName")).unwrap_err();

    assert!(err.to_string().contains("No license found"));
    assert_eq!(err.to_string(), "No license found with provided shortName");
    assert_eq!(err, report(404, "No license found with provided shortName"));
}

#[test]
fn license_is_asked_for_by_path_from_1_3_0_on() {
    for version in ["1.3.0", "1.3.3", "1.10.0", "2.0.0", "1.3"] {
        let fossology = session(version);
        let request = get_license(&fossology, "MIT", Some("fossy")).unwrap();
        assert_eq!(request.url, "http://localhost:8080/repo/api/v1/license/MIT");
        assert_eq!(request.headers, vec![field("groupName", "fossy")]);
        assert_eq!(request.bearer.as_deref(), Some("token"));
    }
}

#[test]
fn license_is_asked_for_by_header_before_1_3_0() {
    for version in ["1.2.9", "1.2.0", "1.0.0", "0.9", "1.2.10"] {
        let fossology = session(version);
        let request = get_license(&fossology, "MIT", Some("fossy")).unwrap();
        assert_eq!(request.method, Method::Get);
        assert_eq!(request.url, "http://localhost:8080/repo/api/v1/license");
        assert_eq!(request.headers, vec![field("shortName", "MIT"), field("groupName", "fossy")]);
        assert_eq!(request.bearer.as_deref(), Some("token"));
        assert!(request.query.is_empty());

        let request = get_license(&fossology, "MIT", None).unwrap();
        assert_eq!(request.headers, vec![field("shortName", "MIT")]);
    }
}

#[test]
fn both_forms_of_asking_give_the_same_license() {
    let by_path = license_request(&session("1.3.3"), "MIT", None, true);
    let by_header = license_request(&session("1.3.3"), "MIT", None, false);
    assert_eq!(by_path.url, "http://localhost:8080/repo/api/v1/license/MIT");
    assert_eq!(by_header.url, "http://localhost:8080/repo/api/v1/license");
    assert_eq!(by_header.headers, vec![field("shortName", "MIT")]);

    let first = license_reply(found("{\"shortName\":\"MIT\"}", mit())).unwrap();
    let second = license_reply(found("{\"shortName\":\"MIT\"}", mit())).unwrap();
    assert_eq!(first.id, second.id);
    assert_eq!(first.short_name, second.short_name);
    assert_eq!(first.full_name, second.full_name);
}

#[test]
fn license_is_not_asked_for_where_versions_cannot_be_compared() {
    let failure = get_license(&session("nightly"), "MIT", None).unwrap_err();

    assert_eq!(failure, FossologyError::Other("Failed to compare versions".to_string()));
}

#[test]
fn body_that_cannot_be_read_is_kept_in_the_failure() {
    let failure = license_reply(garbled(b"<html>502 Bad Gateway</html>")).unwrap_err();
    assert_eq!(
        failure,
        FossologyError::UnexpectedResponse("<html>502 Bad Gateway</html>".to_string())
    );
    assert_eq!(failure.to_string(), "Unexpected response: <html>502 Bad Gateway</html>");

    let failure = license_reply(garbled(b"caf\xC3\xA9 \xFF!")).unwrap_err();
    assert_eq!(failure, FossologyError::UnexpectedResponse("caf\u{e9} \u{fffd}!".to_string()));
}

#[test]
fn body_of_both_shapes_is_read_as_what_was_asked_for() {
    let payload = Payload {
        raw: b"{}".to_vec(),
        success: Some(mit()),
        error: Some(Info { code: 200, message: "ok".to_string(), error_type: "INFO".to_string() }),
    };

    match payload.decode().unwrap() {
        FossologyResponse::Response(license) => assert_eq!(license.short_name, "MIT"),
        FossologyResponse::ApiError(info) => panic!("the server's report: {:?}", info),
    }
}

#[test]
fn reported_error_decodes_to_the_servers_report() {
    let payload: Payload<License> =
        reported(404, "No license found with provided shortName").unwrap();

    match payload.decode().unwrap() {
        FossologyResponse::ApiError(info) => {
            assert_eq!(info.code, 404);
            assert_eq!(info.message, "No license found with provided shortName");
            assert_eq!(info.error_type, "error");
        }
        FossologyResponse::Response(license) => panic!("a license: {:?}", license),
    }
}

#[test]
fn failure_to_send_is_handed_on() {
    let refused = || FossologyError::RequestError("connection refused".to_string());

    assert_eq!(license_reply(Err(refused())).unwrap_err(), refused());
    assert_eq!(tokens_reply(Err(refused())).unwrap_err(), refused());
    assert_eq!(info_reply(Err(refused())).unwrap_err(), refused());
    assert_eq!(version_reply(Err(refused())).unwrap_err(), refused());
    assert_eq!(health_reply(Err(refused())).unwrap_err(), refused());
    assert_eq!(jobs_reply(Err(refused())).unwrap_err(), refused());
    assert_eq!(schedule_reply(Err(refused())).unwrap_err(), refused());
    assert_eq!(upload_reply(Err(refused())).unwrap_err(), refused());
    assert_eq!(filesearch_reply(Err(refused())).unwrap_err(), refused());
    assert_eq!(
        new_upload_reply(Err(FossologyError::FileError("No such file or directory".to_string())))
            .unwrap_err(),
        FossologyError::FileError("No such file or directory".to_string())
    );
}

#[test]
fn response_or_error_of_an_envelope() {
    let ok: FossologyResponse<i32> = FossologyResponse::Response(5);
    assert_eq!(ok.return_response_or_error(), Ok(5));

    let failed: FossologyResponse<i32> = FossologyResponse::ApiError(Info {
        code: 404,
        message: "No license found with provided shortName".to_string(),
        error_type: "error".to_string(),
    });
    let failure = failed.return_response_or_error().unwrap_err();
    assert_eq!(failure, report(404, "No license found with provided shortName"));
    assert_eq!(failure.to_string(), "No license found with provided shortName");
}

// Uploads.

#[test]
fn create_upload_from_file() {
    let fossology = write_session();

    let request = new_upload_from_file(&fossology, 1, ARCHIVE);
    assert_eq!(request.method, Method::Post);
    assert_eq!(request.url, "http://localhost:8080/repo/api/v1/uploads");
    assert_eq!(request.bearer.as_deref(), Some("write-token"));
    assert!(request.query.is_empty());
    assert_eq!(request.headers, vec![field("folderId", "1")]);
    match &request.body {
        Body::File { field, path } => {
            assert_eq!(field, "fileInput");
            assert_eq!(path, ARCHIVE);
        }
        other => panic!("not a file: {:?}", other),
    }

    let upload = new_upload_reply(found(
        "{\"code\":201,\"message\":3,\"type\":\"INFO\"}",
        InfoWithNumber { code: 201, message: 3, error_type: "INFO".to_string() },
    ))
    .unwrap();
    assert_eq!(upload.upload_id, 3);
}

#[test]
fn upload_that_the_server_refuses_fails_with_its_message() {
    let failure = new_upload_reply(reported(404, "folderId must be a positive integer!"));

    assert_eq!(failure.unwrap_err(), report(404, "folderId must be a positive integer!"));
}

#[test]
fn filesearch_for_archive() {
    let fossology = write_session();
    let sha256 = hash256(b"base-files_11");

    let upload = new_upload_reply(found(
        "{\"code\":201,\"message\":3,\"type\":\"INFO\"}",
        InfoWithNumber { code: 201, message: 3, error_type: "INFO".to_string() },
    ))
    .unwrap();

    let hashes = vec![fossology::upload::Hash::from_sha256(&sha256)];

    let request = filesearch(&fossology, &hashes, None);
    assert_eq!(request.method, Method::Post);
    assert_eq!(request.url, "http://localhost:8080/repo/api/v1/filesearch");
    assert_eq!(request.bearer.as_deref(), Some("write-token"));
    assert!(request.query.is_empty() && request.headers.is_empty());
    match request.body {
        Body::Hashes(sent) => {
            assert_eq!(sent.len(), 1);
            assert_eq!(sent[0].sha256.as_deref(), Some(sha256.as_str()));
            assert_eq!(sent[0].sha1, None);
            assert_eq!(sent[0].md5, None);
            assert_eq!(sent[0].size, None);
        }
        other => panic!("not the hashes: {:?}", other),
    }

    let filesearch =
        filesearch_reply(found("[{\"uploads\":[3]}]", vec![entry(&sha256, vec![3], None)]))
            .unwrap();

    assert!(filesearch[0].uploads.contains(&upload.upload_id));
}

#[test]
fn upload_is_retrievable_by_id() {
    let fossology = write_session();

    let upload = new_upload_reply(found(
        "{\"code\":201,\"message\":3,\"type\":\"INFO\"}",
        InfoWithNumber { code: 201, message: 3, error_type: "INFO".to_string() },
    ))
    .unwrap();

    let request = get_upload_by_id(&fossology, upload.upload_id);
    assert_eq!(request.method, Method::Get);
    assert_eq!(request.url, "http://localhost:8080/repo/api/v1/uploads/3");
    assert_eq!(request.bearer.as_deref(), Some("write-token"));
    assert!(is_plain(&request));

    let upload = upload_reply(found("{\"id\":3}", self::upload(upload.upload_id))).unwrap().unwrap();

    assert_eq!(upload.folder_id, 1);
}

#[test]
fn non_existing_upload_id_returns_none() {
    let fossology = write_session();

    let request = get_upload_by_id(&fossology, 99999);
    assert_eq!(request.url, "http://localhost:8080/repo/api/v1/uploads/99999");

    let upload = upload_reply(reported(404, "Upload does not exist")).unwrap();

    assert!(upload.is_none());
}

#[test]
fn upload_that_cannot_be_told_fails_with_the_servers_message() {
    let failure = upload_reply(reported(403, "Upload is not accessible")).unwrap_err();
    assert_eq!(failure, report(403, "Upload is not accessible"));
    assert_eq!(failure.to_string(), "Upload is not accessible");

    let failure = upload_reply(reported(404, "Upload does not exist.")).unwrap_err();
    assert_eq!(failure, report(404, "Upload does not exist."));
}

#[test]
fn non_existing_hash_for_filesearch_works() {
    let fossology = write_session();

    let hashes = vec![fossology::upload::Hash::from_sha256("doesnotexist")];
    let request = filesearch(&fossology, &hashes, None);
    assert!(matches!(request.body, Body::Hashes(sent) if sent.len() == 1));

    let filesearch = filesearch_reply(found(
        "[{\"message\":\"Not found\"}]",
        vec![entry("doesnotexist", vec![], Some("Not found"))],
    ))
    .unwrap();

    assert!(filesearch.is_empty());
}

#[test]
fn filesearch_keeps_the_match_of_two_hashes() {
    let known = hash256(b"base-files_11");

    let found_entries = filesearch_reply(found(
        "[{},{}]",
        vec![entry(&known, vec![3], None), entry("doesnotexist", vec![], Some("Not found"))],
    ))
    .unwrap();

    assert_eq!(found_entries.len(), 1);
    assert_eq!(found_entries[0].hash.sha256.as_deref(), Some(known.as_str()));
    assert_eq!(found_entries[0].uploads, vec![3]);
}

#[test]
fn keep_hits_keeps_the_order_and_every_other_message() {
    let kept = keep_hits(vec![
        entry("a", vec![], Some("Not found")),
        entry("b", vec![1], None),
        entry("c", vec![], Some("not found")),
        entry("d", vec![], Some("Not found")),
        entry("e", vec![2], Some("")),
        entry("f", vec![], Some("Not found.")),
    ]);

    let names: Vec<&str> = kept.iter().map(|e| e.hash.sha256.as_deref().unwrap()).collect();
    assert_eq!(names, vec!["b", "c", "e", "f"]);
    assert!(keep_hits(vec![]).is_empty());
}

#[test]
fn filesearch_that_the_server_refuses_fails_with_its_message() {
    let failure = filesearch_reply(reported(403, "Not authorized")).unwrap_err();
    assert_eq!(failure, report(403, "Not authorized"));
    assert_eq!(failure.to_string(), "Not authorized");
}

#[test]
fn filesearch_is_asked_as_a_group() {
    let fossology = session("1.3.3");
    let hashes = vec![
        fossology::upload::Hash::from_sha1("3B9F"),
        fossology::upload::Hash::from_md5("0123"),
    ];

    let request = filesearch(&fossology, &hashes, Some("fossy".to_string()));

    assert_eq!(request.headers, vec![field("groupName", "fossy")]);
    match request.body {
        Body::Hashes(sent) => {
            assert_eq!(sent[0].sha1.as_deref(), Some("3B9F"));
            assert_eq!(sent[0].md5, None);
            assert_eq!(sent[0].sha256, None);
            assert_eq!(sent[1].md5.as_deref(), Some("0123"));
            assert_eq!(sent[1].sha1, None);
            assert_eq!(sent[1].sha256, None);
            assert_eq!(sent[1].size, None);
        }
        other => panic!("not the hashes: {:?}", other),
    }
}

#[test]
fn hash_of_nothing_known() {
    let hash = fossology::upload::Hash::default();

    assert_eq!(hash.sha1, None);
    assert_eq!(hash.md5, None);
    assert_eq!(hash.sha256, None);
    assert_eq!(hash.size, None);
}
