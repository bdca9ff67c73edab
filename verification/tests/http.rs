use gpui_updater::http::{
    build, check_response, download_request, get_json, get_string, on_chunk, start_download, ChunkAction,
    HttpStatus, USER_AGENT,
};
use gpui_updater::text::{decimal_string, equals_ignore_ascii_case, hex_string, parse_u64};
use gpui_updater::error::http_err;
use gpui_updater::Error;

fn status(code: u16, text: &str) -> HttpStatus {
    HttpStatus { code, text: text.to_string() }
}

#[test]
fn requests_send_the_user_agent_first() {
    let r = build("https://api.github.com/x", &[("accept".to_string(), "application/json".to_string())]);
    assert_eq!(r.url, "https://api.github.com/x");
    assert_eq!(
        r.headers,
        vec![
            ("user-agent".to_string(), USER_AGENT.to_string()),
            ("accept".to_string(), "application/json".to_string()),
        ]
    );
    let d = download_request("https://x/a", &[]);
    assert_eq!(
        d.headers,
        vec![
            ("user-agent".to_string(), USER_AGENT.to_string()),
            ("accept".to_string(), "application/octet-stream".to_string()),
        ]
    );
}

#[test]
fn responses_other_than_success_are_http_errors() {
    assert_eq!(check_response("https://x", Ok(status(200, "200 OK"))), Ok(()));
    assert_eq!(check_response("https://x", Ok(status(299, "299"))), Ok(()));
    assert_eq!(
        check_response("https://x/y", Ok(status(404, "404 Not Found"))),
        Err(Error::Http("GET https://x/y -> 404 Not Found".to_string()))
    );
    assert_eq!(
        check_response("https://x", Ok(status(302, "302 Found"))),
        Err(Error::Http("GET https://x -> 302 Found".to_string()))
    );
    assert_eq!(check_response("https://x", Err("dns failure".to_string())), Err(http_err("dns failure".to_string())));
}

#[test]
fn bodies_are_read_only_after_success() {
    assert_eq!(get_string("https://x", Ok(status(200, "200 OK")), || Ok("body".to_string())), Ok("body".to_string()));
    assert_eq!(
        get_string("https://x", Ok(status(200, "200 OK")), || Err("reset".to_string())),
        Err(Error::Http("reset".to_string()))
    );
    let r = get_string("https://x", Ok(status(500, "500 Internal Server Error")), || -> Result<String, String> {
        panic!("body read after failure")
    });
    assert_eq!(r, Err(Error::Http("GET https://x -> 500 Internal Server Error".to_string())));
    assert_eq!(get_json("https://x", Ok(status(200, "200 OK")), || Ok::<u32, String>(7)), Ok(7));
    assert_eq!(
        get_json("https://x", Ok(status(200, "200 OK")), || Err::<u32, String>("expected value".to_string())),
        Err(Error::Parse("expected value".to_string()))
    );
}

#[test]
fn download_progress_counts_bytes() {
    let mut p = start_download("https://x", Ok(status(200, "200 OK")), Some("3")).unwrap();
    assert_eq!((p.downloaded, p.total), (0, Some(3)));
    assert!(matches!(on_chunk(&mut p, 2), ChunkAction::WriteAndReport { len: 2, downloaded: 2, total: Some(3) }));
    assert!(matches!(on_chunk(&mut p, 1), ChunkAction::WriteAndReport { len: 1, downloaded: 3, total: Some(3) }));
    assert!(matches!(on_chunk(&mut p, 0), ChunkAction::Finish));
    assert_eq!(p.downloaded, 3);
    let p = start_download("https://x", Ok(status(200, "200 OK")), None).unwrap();
    assert_eq!(p.total, None);
    let p = start_download("https://x", Ok(status(200, "200 OK")), Some("chunked")).unwrap();
    assert_eq!(p.total, None);
    assert!(start_download("https://x", Ok(status(404, "404 Not Found")), Some("3")).is_err());
}

#[test]
fn decimal_numbers() {
    assert_eq!(parse_u64("0"), Some(0));
    assert_eq!(parse_u64("+12"), Some(12));
    assert_eq!(parse_u64("18446744073709551615"), Some(u64::MAX));
    assert_eq!(parse_u64("18446744073709551616"), None);
    assert_eq!(parse_u64(""), None);
    assert_eq!(parse_u64("+"), None);
    assert_eq!(parse_u64("-1"), None);
    assert_eq!(parse_u64(" 1"), None);
    assert_eq!(parse_u64("12a"), None);
    for n in [0u64, 7, 10, 99, 100, 12345, u64::MAX] {
        assert_eq!(parse_u64(&n.to_string()), Some(n));
        assert_eq!(decimal_string(n as u128), n.to_string());
    }
    assert_eq!(decimal_string(u128::MAX), u128::MAX.to_string());
}

#[test]
fn text_helpers() {
    assert!(equals_ignore_ascii_case("EXE", "exe"));
    assert!(!equals_ignore_ascii_case("exe", "ex"));
    assert!(!equals_ignore_ascii_case("É", "é"));
    assert_eq!(hex_string(&[0x00, 0x0f, 0xab, 0xff]), "000fabff");
}
