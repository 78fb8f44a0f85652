use pastefile::cli::parse::plan_destination;
use pastefile::cli::parse::unit_seconds_of;
use pastefile::cli::args::{CopyArguments, UploadArguments, UploadOutput};
use pastefile::cli::parse::{
    parse_auth, parse_destination, parse_expire_parts, parse_expire_time, parse_file_name, parse_key_nonce,
    parse_source_file, try_parse_expire_time, DestinationPlan,
};
use pastefile::cli::test::FileTestContext;
use pastefile::cli::transfer::{advance, download_target, url_last_segment};

fn alphanumeric(len: usize, seed: u64) -> String {
    let chars: Vec<char> = "abcdefghijklmnopqrstuvwxyzABCDEFGHIJKLMNOPQRSTUVWXYZ0123456789".chars().collect();
    let mut x = seed.wrapping_mul(6364136223846793005).wrapping_add(1442695040888963407);
    let mut s = String::new();
    for _ in 0..len {
        x = x.wrapping_mul(6364136223846793005).wrapping_add(1442695040888963407);
        s.push(chars[((x >> 33) % chars.len() as u64) as usize]);
    }
    s
}

#[test]
fn test_parse_key_nonce() {
    let key = alphanumeric(32, 7);
    let nonce = alphanumeric(19, 11);
    parse_key_nonce(&format!("{key}:{nonce}")).unwrap();
    let result = parse_key_nonce("key:nonce");
    assert!(result.is_err());
}

#[test]
fn test_parse_auth() {
    let username = "B0GSdaC2jRs".to_string();
    let password = "p@ss w0rd:with:colons".to_string();
    let (actual_user, actual_pass) = parse_auth(&format!("{username}:{password}")).unwrap();
    assert_eq!(username, actual_user);
    assert_eq!(password, actual_pass);
    let result = parse_auth("test");
    assert!(result.is_err());
}

#[test]
fn test_parse_expire_time() {
    assert_eq!(parse_expire_time("1 s").unwrap(), 1);
    assert_eq!(parse_expire_time("10 sec").unwrap(), 10);
    assert_eq!(parse_expire_time("10 min").unwrap(), 600);
    assert_eq!(parse_expire_time("10 day").unwrap(), 864000);
    assert_eq!(parse_expire_time("1 week").unwrap(), 604800);
    assert_eq!(parse_expire_time("1 hour").unwrap(), 3600);
    assert_eq!(parse_expire_time("1 y").unwrap(), 31104000);
    let result = parse_expire_time("125y");
    assert!(result.is_err());
}

#[test]
fn parse_auth_without_colon_names_the_input() {
    let e = parse_auth("test").unwrap_err();
    assert_eq!(e.message, "Invalid username:password: no `:` found in test");
}

#[test]
fn parse_auth_splits_at_the_first_colon() {
    let (u, p) = parse_auth("a:b:c").unwrap();
    assert_eq!(u, "a");
    assert_eq!(p, "b:c");
    let (u, p) = parse_auth(":").unwrap();
    assert_eq!(u, "");
    assert_eq!(p, "");
}

#[test]
fn parse_expire_time_units_and_case() {
    assert_eq!(parse_expire_time("2 MONTH").unwrap(), 2 * 2592000);
    assert_eq!(parse_expire_time("3 Minute").unwrap(), 180);
    assert_eq!(parse_expire_time("  4\td  ").unwrap(), 4 * 86400);
    assert_eq!(parse_expire_time("1 year").unwrap(), 31104000);
    assert_eq!(parse_expire_time("5 w").unwrap(), 5 * 604800);
    assert_eq!(parse_expire_time("+7 h").unwrap(), 7 * 3600);
    assert_eq!(parse_expire_time("0 second").unwrap(), 0);
}

#[test]
fn parse_expire_time_errors() {
    assert_eq!(parse_expire_time("10 fortnights").unwrap_err().message, "Invalid expire time format");
    assert_eq!(parse_expire_time("10").unwrap_err().message, "Invalid expire time format");
    assert_eq!(parse_expire_time("1 2 3").unwrap_err().message, "Invalid expire time format");
    assert_eq!(parse_expire_time("ten min").unwrap_err().message, "invalid digit found in string");
    assert_eq!(parse_expire_time("-1 min").unwrap_err().message, "invalid digit found in string");
    assert_eq!(
        parse_expire_time("99999999999999999999 s").unwrap_err().message,
        "number too large to fit in target type"
    );
}

#[test]
fn parse_expire_parts_gives_number_and_unit() {
    assert_eq!(parse_expire_parts("12 hour").unwrap(), (12, 3600));
}

#[test]
fn try_parse_expire_time_reports_overflow() {
    assert!(try_parse_expire_time("18446744073709551615 min").is_none());
    assert_eq!(try_parse_expire_time("3 min").unwrap().unwrap(), 180);
    assert!(try_parse_expire_time("x min").unwrap().is_err());
}

#[test]
fn parse_key_nonce_checks_lengths_and_ascii() {
    let key = alphanumeric(32, 1);
    let nonce = alphanumeric(19, 2);
    let kn = parse_key_nonce(&format!("{key}:{nonce}")).unwrap();
    assert_eq!(kn.key.as_slice(), key.as_bytes());
    assert_eq!(kn.nonce.as_slice(), nonce.as_bytes());
    assert_eq!(
        parse_key_nonce("no colon here").unwrap_err().message,
        "Invalid key:nonce: no `:` found in no colon here"
    );
    assert_eq!(
        parse_key_nonce(&format!("{}:{nonce}", alphanumeric(31, 3))).unwrap_err().message,
        "The key should be 32 characters in length."
    );
    assert_eq!(
        parse_key_nonce(&format!("{key}:{}", alphanumeric(20, 4))).unwrap_err().message,
        "The nonce should be 19 characters in length."
    );
    assert_eq!(
        parse_key_nonce(&format!("{key}:é{}", alphanumeric(18, 5))).unwrap_err().message,
        "ASCII characters should be used for the `key_nonce`."
    );
}

#[test]
fn parse_file_name_needs_an_extension() {
    assert_eq!(parse_file_name("notes.txt").unwrap(), "notes.txt");
    assert_eq!(parse_file_name("notes").unwrap_err().message, "The file name should include an extension.");
    assert!(parse_file_name(".hidden").is_err());
}

#[test]
fn test_parse_source_file() {
    // "foo/bar/file.txt" does not exist, so making it canonical fails
    let canonical = Err("foo/bar/file.txt: No such file or directory (os error 2)".to_string());
    let result = parse_source_file(canonical, false);
    assert!(result.is_err());
}

#[test]
fn parse_source_file_refuses_directories() {
    assert_eq!(parse_source_file(Ok("/tmp/a.txt".to_string()), false).unwrap(), "/tmp/a.txt");
    assert_eq!(
        parse_source_file(Ok("/tmp".to_string()), true).unwrap_err().message,
        "The source file option should be set to the path file."
    );
    assert_eq!(parse_source_file(Err("gone".to_string()), false).unwrap_err().message, "gone");
}

#[test]
fn parse_destination_plans() {
    match parse_destination("file_name.txt") {
        DestinationPlan::Ready(d) => assert_eq!(d, "file_name.txt"),
        other => panic!("unexpected {other:?}"),
    }
    match parse_destination("./file_name.txt") {
        DestinationPlan::JoinToCanonicalParent { parent, file_name } => {
            assert_eq!(parent, ".");
            assert_eq!(file_name, "file_name.txt");
        }
        other => panic!("unexpected {other:?}"),
    }
    match parse_destination("/foo/bar/test.txt") {
        DestinationPlan::JoinToCanonicalParent { parent, file_name } => {
            assert_eq!(parent, "/foo/bar");
            assert_eq!(file_name, "test.txt");
        }
        other => panic!("unexpected {other:?}"),
    }
    match parse_destination("..") {
        DestinationPlan::Canonicalize(d) => assert_eq!(d, ".."),
        other => panic!("unexpected {other:?}"),
    }
    match parse_destination("/") {
        DestinationPlan::Canonicalize(d) => assert_eq!(d, "/"),
        other => panic!("unexpected {other:?}"),
    }
}

#[test]
fn upload_output_names() {
    assert_eq!(UploadOutput::QrCode.to_string(), "qr-code");
    assert_eq!(UploadOutput::Url.to_string(), "url");
    assert_eq!(UploadOutput::UrlPath.to_string(), "url-path");
    assert_eq!(UploadOutput::Json.to_string(), "json");
}

#[test]
fn arguments_give_the_query() {
    let up = UploadArguments {
        server_addr: "http://localhost:8080".to_string(),
        auth: None,
        code_length: Some(5),
        progress_bar: false,
        expire: Some(60),
        allow_manual_deletion: Some(false),
        max_download: Some(2),
        output: UploadOutput::Json,
        source_file: "/tmp/a.txt".to_string(),
        key_nonce: None,
    };
    let q = up.query_param();
    assert_eq!(q.code_length, Some(5));
    assert_eq!(q.expire_secs, Some(60));
    assert_eq!(q.allow_manual_deletion, Some(false));
    assert_eq!(q.max_download, Some(2));
    assert!(q.qr_code_format.is_none());
    let cp = CopyArguments {
        server_addr: "http://localhost:8080".to_string(),
        auth: Some(("u".to_string(), "p".to_string())),
        code_length: None,
        expire: None,
        allow_manual_deletion: None,
        max_download: Some(9),
        output: UploadOutput::Url,
        key_nonce: None,
    };
    let q = cp.query_param();
    assert_eq!(q.code_length, None);
    assert_eq!(q.max_download, Some(9));
}

#[test]
fn file_test_context_names_its_directory() {
    assert_eq!(FileTestContext::with_suffix("abc").temp_path, "test_dir_abc");
}

#[test]
fn transfer_progress_is_capped_at_the_total() {
    let p = advance(90, 20, 100);
    assert_eq!(p.done, 110);
    assert_eq!(p.position, 100);
    assert!(p.finished);
    let p = advance(10, 20, 100);
    assert_eq!(p.done, 30);
    assert_eq!(p.position, 30);
    assert!(!p.finished);
    assert!(advance(50, 50, 100).finished);
}

#[test]
fn download_target_in_a_directory() {
    assert_eq!(url_last_segment("abc/file.txt"), "file.txt");
    assert_eq!(url_last_segment("file.txt"), "file.txt");
    assert_eq!(url_last_segment("abc/"), "");
    assert_eq!(download_target("abc/file.txt", "/tmp/dir", true), "/tmp/dir/file.txt");
    assert_eq!(download_target("abc/file.txt", "/tmp/dir/", true), "/tmp/dir/file.txt");
    assert_eq!(download_target("abc/file.txt", "/tmp/out.txt", false), "/tmp/out.txt");
}

#[test]
fn plan_destination_cases() {
    match plan_destination("a/b.txt", Some("b.txt".to_string()), Some("a".to_string())) {
        DestinationPlan::JoinToCanonicalParent { parent, file_name } => {
            assert_eq!(parent, "a");
            assert_eq!(file_name, "b.txt");
        }
        other => panic!("unexpected {other:?}"),
    }
    match plan_destination("b.txt", Some("b.txt".to_string()), Some(String::new())) {
        DestinationPlan::Ready(d) => assert_eq!(d, "b.txt"),
        other => panic!("unexpected {other:?}"),
    }
    match plan_destination("..", None, Some(String::new())) {
        DestinationPlan::Canonicalize(d) => assert_eq!(d, ".."),
        other => panic!("unexpected {other:?}"),
    }
}

#[test]
fn units_of_time() {
    assert_eq!(unit_seconds_of("min"), Some(60));
    assert_eq!(unit_seconds_of("month"), Some(2592000));
    assert_eq!(unit_seconds_of("MIN"), None);
    assert_eq!(unit_seconds_of("fortnight"), None);
}
