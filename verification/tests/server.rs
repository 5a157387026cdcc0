use rust_sp_web::server::{database_url, logs_request, static_path, static_reply, StaticReply};

#[test]
fn builds_database_url() {
    assert_eq!(
        database_url("user", "pw", "db.example:5432", "sensors"),
        "postgres://user:pw@db.example:5432/sensors"
    );
}

#[test]
fn empty_path_asks_for_not_found_page() {
    assert_eq!(static_path(""), "404.html");
}

#[test]
fn public_prefixes_are_removed() {
    assert_eq!(static_path("public/js/app.js"), "js/app.js");
    assert_eq!(static_path("public/public/css/site.css"), "css/site.css");
    assert_eq!(static_path("img/logo.png"), "img/logo.png");
    assert_eq!(static_path("public/"), "");
    assert_eq!(static_path("js/public/x.js"), "js/public/x.js");
}

#[test]
fn serves_found_file_with_its_type() {
    match static_reply("index.html", true, true) {
        StaticReply::File { status, path, content_type } => {
            assert_eq!(status, 200);
            assert_eq!(path, "index.html");
            assert_eq!(content_type, "text/html");
        }
        StaticReply::Text { .. } => panic!("expected the file"),
    }
    match static_reply("js/app.js", true, false) {
        StaticReply::File { content_type, .. } => assert_eq!(content_type, "text/javascript"),
        StaticReply::Text { .. } => panic!("expected the file"),
    }
    match static_reply("data/blob", true, false) {
        StaticReply::File { content_type, .. } => {
            assert_eq!(content_type, "application/octet-stream")
        }
        StaticReply::Text { .. } => panic!("expected the file"),
    }
}

#[test]
fn missing_file_gets_not_found_page() {
    match static_reply("nothing.css", false, true) {
        StaticReply::File { status, path, content_type } => {
            assert_eq!(status, 404);
            assert_eq!(path, "404.html");
            assert_eq!(content_type, "text/html");
        }
        StaticReply::Text { .. } => panic!("expected the not-found page"),
    }
}

#[test]
fn missing_everything_gets_plain_text() {
    match static_reply("nothing.css", false, false) {
        StaticReply::Text { status, body } => {
            assert_eq!(status, 404);
            assert_eq!(body, "Not Found");
        }
        StaticReply::File { .. } => panic!("expected plain text"),
    }
}

#[test]
fn script_requests_are_not_logged() {
    assert!(!logs_request("/public/js/app.js"));
    assert!(!logs_request("/public/app_js/main.js"));
    assert!(logs_request("/public/css/site.css"));
    assert!(logs_request("/report_th_1"));
    assert!(logs_request("/public/js"));
    assert!(logs_request(""));
}
