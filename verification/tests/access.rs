use orpheus_backend::auth::{
    auth_failure, auth_middleware, create_test_token, AuthError, ICPAuth,
};
use orpheus_backend::canister::{
    create_project, create_project_unavailable, list_projects, list_projects_unavailable,
    CreateProjectRequest, Registry,
};
use orpheus_backend::handlers::{
    is_mp3_name, names_mp3, upload_failure, upload_file, upload_file_as, upload_stored,
    UploadError, UploadStep,
};
use orpheus_backend::models::ICPAuthClaim;
use orpheus_backend::text::{contains_char, int_to_string, is_blank, join, push_nat};

fn claim(principal: &str, exp: i64, iat: i64) -> ICPAuthClaim {
    ICPAuthClaim { principal: principal.to_string(), exp, iat }
}

#[test]
fn principals_need_length_and_a_hyphen() {
    assert!(ICPAuth::is_valid_principal("rdmx6-jaaaa-aaaah-qcaiq-cai"));
    assert!(ICPAuth::is_valid_principal("aaaaaaaaaa-"));
    assert!(!ICPAuth::is_valid_principal("aaaaaaaaa-"));
    assert!(!ICPAuth::is_valid_principal("aaaaaaaaaaaaaaaa"));
    assert!(!ICPAuth::is_valid_principal(""));
    assert!(!ICPAuth::is_valid_principal("-"));
    // the length counts bytes: four characters of three bytes and a hyphen
    assert!(ICPAuth::is_valid_principal("\u{20ac}\u{20ac}\u{20ac}\u{20ac}-"));
    assert!(!ICPAuth::is_valid_principal("\u{e9}\u{e9}\u{e9}\u{e9}-"));
}

#[test]
fn claims_are_judged_by_expiry_then_principal() {
    let good = ICPAuth::verify_claim_at(claim("rdmx6-jaaaa-aaaah-qcaiq-cai", 100, 0), 100).unwrap();
    assert_eq!(good.principal, "rdmx6-jaaaa-aaaah-qcaiq-cai");
    assert_eq!(good.exp, 100);
    assert_eq!(good.iat, 0);
    assert_eq!(
        ICPAuth::verify_claim_at(claim("rdmx6-jaaaa-aaaah-qcaiq-cai", 99, 0), 100).unwrap_err(),
        AuthError::Expired
    );
    assert_eq!(
        ICPAuth::verify_claim_at(claim("short", 99, 0), 100).unwrap_err(),
        AuthError::Expired
    );
    assert_eq!(
        ICPAuth::verify_claim_at(claim("short", 100, 0), 100).unwrap_err(),
        AuthError::InvalidPrincipal
    );
}

#[test]
fn claims_are_judged_against_the_clock() {
    assert_eq!(
        ICPAuth::verify_icp_token(Some(claim("rdmx6-jaaaa-aaaah-qcaiq-cai", 1_000, 0))).unwrap_err(),
        AuthError::Expired
    );
    assert!(ICPAuth::verify_icp_token(Some(claim("rdmx6-jaaaa-aaaah-qcaiq-cai", i64::MAX, 0))).is_ok());
    assert_eq!(
        ICPAuth::verify_icp_token(Some(claim("nohyphenatall", i64::MAX, 0))).unwrap_err(),
        AuthError::InvalidPrincipal
    );
    assert_eq!(ICPAuth::verify_icp_token(None).unwrap_err(), AuthError::InvalidFormat);
}

#[test]
fn claims_are_written_as_compact_json() {
    assert_eq!(
        ICPAuth::claim_to_json(&claim("rdmx6-jaaaa-aaaah-qcaiq-cai", 1_700_003_600, 1_700_000_000)),
        "{\"principal\":\"rdmx6-jaaaa-aaaah-qcaiq-cai\",\"exp\":1700003600,\"iat\":1700000000}"
    );
    assert_eq!(
        ICPAuth::claim_to_json(&claim("a\"b\\c\n\u{1}\u{1f}\u{7f}\u{e9}/", -5, i64::MIN)),
        "{\"principal\":\"a\\\"b\\\\c\\n\\u0001\\u001f\u{7f}\u{e9}/\",\"exp\":-5,\"iat\":-9223372036854775808}"
    );
    assert_eq!(
        ICPAuth::claim_to_json(&claim("\u{8}\t\u{c}\r\u{b}", 0, i64::MAX)),
        "{\"principal\":\"\\b\\t\\f\\r\\u000b\",\"exp\":0,\"iat\":9223372036854775807}"
    );
}

#[test]
fn tokens_wrap_the_json_in_base64() {
    let token = ICPAuth::issue_token(&claim("ab-cd", 1, 2)).unwrap();
    assert_eq!(token, "eyJwcmluY2lwYWwiOiJhYi1jZCIsImV4cCI6MSwiaWF0IjoyfQ==");
    assert_eq!(
        ICPAuth::token_payload(&token).unwrap(),
        "{\"principal\":\"ab-cd\",\"exp\":1,\"iat\":2}"
    );
}

#[test]
fn tokens_that_cannot_be_unwrapped_are_turned_down() {
    assert_eq!(ICPAuth::token_payload("not base64!").unwrap_err(), AuthError::InvalidBase64);
    assert_eq!(ICPAuth::token_payload("aGVsbG8").unwrap_err(), AuthError::InvalidBase64);
    assert_eq!(ICPAuth::token_payload("/w==").unwrap_err(), AuthError::InvalidUtf8);
    assert_eq!(ICPAuth::token_payload("aGVsbG8=").unwrap(), "hello");
    assert_eq!(ICPAuth::token_payload("").unwrap(), "");
    assert_eq!(ICPAuth::payload_from_bytes(None).unwrap_err(), AuthError::InvalidBase64);
    assert_eq!(
        ICPAuth::payload_from_bytes(Some(vec![0xc3, 0x28])).unwrap_err(),
        AuthError::InvalidUtf8
    );
    assert_eq!(ICPAuth::payload_from_bytes(Some(vec![0xc3, 0xa9])).unwrap(), "\u{e9}");
}

#[test]
fn the_header_must_carry_a_bearer_token() {
    assert_eq!(auth_middleware(None).unwrap_err(), AuthError::MissingHeader);
    assert_eq!(auth_middleware(Some("Basic abc")).unwrap_err(), AuthError::InvalidScheme);
    assert_eq!(auth_middleware(Some("bearer aGVsbG8=")).unwrap_err(), AuthError::InvalidScheme);
    assert_eq!(auth_middleware(Some("Bearer")).unwrap_err(), AuthError::InvalidScheme);
    assert_eq!(auth_middleware(Some("Bearer aGVsbG8=")).unwrap(), "hello");
    assert_eq!(auth_middleware(Some("Bearer ")).unwrap(), "");
    assert_eq!(auth_middleware(Some("Bearer  aGVsbG8=")).unwrap_err(), AuthError::InvalidBase64);
    assert_eq!(auth_middleware(Some("Bearer /w==")).unwrap_err(), AuthError::InvalidUtf8);
}

#[test]
fn mock_tokens_last_an_hour() {
    let token = ICPAuth::create_mock_token("some-principal-x").unwrap();
    let payload = auth_middleware(Some(&format!("Bearer {}", token))).unwrap();
    let rest = payload.strip_prefix("{\"principal\":\"some-principal-x\",\"exp\":").unwrap();
    let (exp, rest) = rest.split_once(",\"iat\":").unwrap();
    let iat = rest.strip_suffix("}").unwrap();
    let exp: i64 = exp.parse().unwrap();
    let iat: i64 = iat.parse().unwrap();
    assert_eq!(exp, iat + 3600);
    assert!(iat > 1_600_000_000);
    assert!(ICPAuth::verify_icp_token(Some(claim("some-principal-x", exp, iat))).is_ok());
}

#[test]
fn the_test_token_names_the_test_principal() {
    let token = create_test_token().unwrap();
    let payload = ICPAuth::token_payload(&token).unwrap();
    assert!(payload.starts_with("{\"principal\":\"rdmx6-jaaaa-aaaah-qcaiq-cai\",\"exp\":"));
    assert!(payload.ends_with("}"));
}

#[test]
fn mock_claims_are_exact() {
    let made = ICPAuth::mock_claim("p-1", 1_000);
    assert_eq!(made.principal, "p-1");
    assert_eq!(made.iat, 1_000);
    assert_eq!(made.exp, 4_600);
}

#[test]
fn admission_failures_are_worded() {
    let (status, answer) = auth_failure(&AuthError::MissingHeader);
    assert_eq!(status, 401);
    assert_eq!(answer.error, "unauthorized");
    assert_eq!(answer.message, "Missing Authorization header");
    assert_eq!(
        auth_failure(&AuthError::InvalidScheme).1.message,
        "Invalid authorization format. Use 'Bearer <token>'"
    );
    assert_eq!(
        auth_failure(&AuthError::InvalidBase64).1.message,
        "Invalid token: Invalid base64 token"
    );
    assert_eq!(
        auth_failure(&AuthError::InvalidUtf8).1.message,
        "Invalid token: Invalid UTF-8 in token"
    );
    assert_eq!(
        auth_failure(&AuthError::InvalidFormat).1.message,
        "Invalid token: Invalid token format"
    );
    assert_eq!(auth_failure(&AuthError::Expired).1.message, "Invalid token: Token expired");
    assert_eq!(
        auth_failure(&AuthError::InvalidPrincipal).1.message,
        "Invalid token: Invalid principal format"
    );
    assert_eq!(auth_failure(&AuthError::Expired).0, 401);
}

#[test]
fn only_mp3_names_are_accepted() {
    assert!(is_mp3_name("song.mp3"));
    assert!(is_mp3_name("SONG.MP3"));
    assert!(is_mp3_name("a.b.Mp3"));
    assert!(is_mp3_name(".mp3"));
    assert!(!is_mp3_name("song.mp4"));
    assert!(!is_mp3_name("mp3"));
    assert!(!is_mp3_name("song.mp3 "));
    assert!(!is_mp3_name(""));
    assert!(names_mp3("x.mp3"));
    assert!(!names_mp3("x.MP3"));
}

#[test]
fn upload_parts_are_decided_one_by_one() {
    let id = 0xa1a2a3a4b1b2c1c2d1d2d3d4d5d6d7d8u128;
    match upload_file_as(Some("file"), Some("My Song.MP3"), id).unwrap() {
        UploadStep::Store { file_path } => {
            assert_eq!(file_path, "uploads/a1a2a3a4-b1b2-c1c2-d1d2-d3d4d5d6d7d8_My Song.MP3")
        }
        UploadStep::Skip => panic!("the part named file is not passed over"),
    }
    assert!(matches!(upload_file_as(Some("note"), Some("a.mp3"), id), Ok(UploadStep::Skip)));
    assert!(matches!(upload_file_as(None, Some("a.mp3"), id), Ok(UploadStep::Skip)));
    assert!(matches!(upload_file_as(Some("File"), None, id), Ok(UploadStep::Skip)));
    assert!(matches!(upload_file_as(Some("unknown"), None, id), Ok(UploadStep::Skip)));
    assert_eq!(
        upload_file_as(Some("file"), None, id).unwrap_err(),
        UploadError::MissingFilename
    );
    assert_eq!(
        upload_file_as(Some("file"), Some("a.wav"), id).unwrap_err(),
        UploadError::NotMp3
    );
}

#[test]
fn uploads_get_a_fresh_name_each_time() {
    let path = |step: UploadStep| match step {
        UploadStep::Store { file_path } => file_path,
        UploadStep::Skip => panic!("the part named file is not passed over"),
    };
    let one = path(upload_file(Some("file"), Some("a.mp3")).unwrap());
    let two = path(upload_file(Some("file"), Some("a.mp3")).unwrap());
    assert_ne!(one, two);
    assert!(one.starts_with("uploads/"));
    assert!(one.ends_with("_a.mp3"));
    assert_eq!(one.len(), "uploads/".len() + 36 + "_a.mp3".len());
    assert_eq!(upload_file(Some("file"), None).unwrap_err(), UploadError::MissingFilename);
    assert!(matches!(upload_file(Some("other"), None), Ok(UploadStep::Skip)));
}

#[test]
fn upload_answers_are_worded() {
    let done = upload_stored("uploads/x_a.mp3".to_string());
    assert_eq!(done.file_path, "uploads/x_a.mp3");
    assert_eq!(done.message, "File uploaded successfully");
    let all = [
        (UploadError::CreateDirectory, 500, "storage_error", "Failed to create uploads directory"),
        (UploadError::InvalidMultipart, 400, "upload_error", "Invalid multipart data"),
        (UploadError::MissingFilename, 400, "upload_error", "Missing filename"),
        (UploadError::NotMp3, 400, "validation_error", "Only MP3 files are allowed"),
        (UploadError::ReadFailed, 400, "upload_error", "Failed to read file data"),
        (UploadError::SaveFailed, 500, "storage_error", "Failed to save file"),
        (UploadError::WriteFailed, 500, "storage_error", "Failed to write file"),
        (UploadError::NoFile, 400, "upload_error", "No file found in request"),
    ];
    for (error, status, kind, message) in all {
        let (got_status, answer) = upload_failure(&error);
        assert_eq!(got_status, status);
        assert_eq!(answer.error, kind);
        assert_eq!(answer.message, message);
    }
}

#[test]
fn text_tools_scan_and_write() {
    assert!(is_blank(""));
    assert!(is_blank(" \t\r\n\u{b}\u{c}\u{85}\u{a0}\u{1680}\u{2000}\u{200a}\u{2028}\u{2029}\u{202f}\u{205f}\u{3000}"));
    assert!(!is_blank(" a "));
    assert!(!is_blank("\u{200b}"));
    assert!(!is_blank("\u{1c}") || '\u{1c}'.is_whitespace());
    assert!(contains_char("a-b", '-'));
    assert!(!contains_char("ab", '-'));
    assert!(!contains_char("", '-'));
    assert!(contains_char("\u{e9}-", '-'));
    assert_eq!(int_to_string(0), "0");
    assert_eq!(int_to_string(7), "7");
    assert_eq!(int_to_string(10), "10");
    assert_eq!(int_to_string(-10), "-10");
    assert_eq!(int_to_string(1_234_567_890), "1234567890");
    assert_eq!(int_to_string(i64::MAX), "9223372036854775807");
    assert_eq!(int_to_string(i64::MIN), "-9223372036854775808");
    let mut out = String::from("n=");
    push_nat(&mut out, u128::MAX);
    assert_eq!(out, "n=340282366920938463463374607431768211455");
    assert_eq!(join("ab", "cd"), "abcd");
}

#[test]
fn the_registry_numbers_projects_and_lists_by_owner() {
    let alice = vec![1u8, 2, 3];
    let bob = vec![1u8, 2];
    let mut registry = Registry::new();
    let first = create_project(&mut registry, alice.clone(), CreateProjectRequest { name: "one".to_string() });
    assert!(first.success);
    assert_eq!(first.project_id.as_deref(), Some("project_1"));
    assert!(first.error.is_none());
    let second = create_project(&mut registry, bob.clone(), CreateProjectRequest { name: "two".to_string() });
    assert_eq!(second.project_id.as_deref(), Some("project_2"));
    let third = create_project(&mut registry, alice.clone(), CreateProjectRequest { name: "three".to_string() });
    assert_eq!(third.project_id.as_deref(), Some("project_3"));

    let listing = list_projects(&registry, &alice);
    assert!(listing.success);
    assert!(listing.error.is_none());
    let mut mine: Vec<(String, String)> =
        listing.projects.iter().map(|p| (p.id.clone(), p.name.clone())).collect();
    mine.sort();
    assert_eq!(
        mine,
        vec![
            ("project_1".to_string(), "one".to_string()),
            ("project_3".to_string(), "three".to_string())
        ]
    );
    assert!(listing.projects.iter().all(|p| p.owner_principal == alice));
    let theirs = list_projects(&registry, &bob);
    assert_eq!(theirs.projects.len(), 1);
    assert_eq!(theirs.projects[0].id, "project_2");
    assert_eq!(theirs.projects[0].clone().name, "two");
    assert!(list_projects(&registry, &vec![]).projects.is_empty());
    assert!(list_projects(&registry, &vec![1u8]).projects.is_empty());
}

#[test]
fn an_unavailable_registry_is_reported() {
    let created = create_project_unavailable();
    assert!(!created.success);
    assert!(created.project_id.is_none());
    assert_eq!(created.error.as_deref(), Some("Failed to acquire lock"));
    let listed = list_projects_unavailable();
    assert!(!listed.success);
    assert!(listed.projects.is_empty());
    assert_eq!(listed.error.as_deref(), Some("Failed to acquire lock"));
}
