use rust_sp_web::routes::login::{get_login, login_succeeded, post_login, LoginAction, LoginRequest};
use rust_sp_web::routes::report_th_1::{
    chart_disk, chart_memory, get_report_th_1, post_report_th_1, sensor_chart_query, ChartRequest,
    ReportAction,
};
use rust_sp_web::routes::system_info::{
    get_system_info, mebibytes_with_commas, post_system_info, system_disk, system_memory,
    SystemInfoAction,
};
use rust_sp_web::routes::Page;

fn some(s: &str) -> Option<String> {
    Some(s.to_string())
}

fn chart_request(day_night: Option<String>, step: Option<String>) -> ChartRequest {
    ChartRequest {
        day_night,
        step,
        start_date: some("2024-01-01"),
        end_date: some("2024-01-31"),
    }
}

const CHART_HEAD: &str = "\n                select\tto_char(ts, 'MM-DD') AS 일자,\n                        time_bucket('";
const CHART_MIDDLE: &str = "', ts) AS 시간대,\n                        ROUND(avg((데이터->>'온도')::numeric), 2) as 온도,\n                        ROUND(avg((데이터->>'습도')::numeric), 2) as 습도,\n                        ROUND(avg((데이터->>'조도')::numeric), 2) as 조도\n                from    센서데이터\n                where   일자 between $1::date and $2::date\n                ";
const CHART_TAIL: &str = "\n                group by to_char(ts, 'MM-DD'), 시간대\n                order by 일자, 시간대\n                ";

fn expected_chart(width: &str, filter: &str) -> String {
    format!("{}{}{}{}{}", CHART_HEAD, width, CHART_MIDDLE, filter, CHART_TAIL)
}

#[test]
fn login_page_template() {
    let t = get_login();
    assert_eq!(t.pid, "login");
    assert_eq!(t.data, "-");
}

#[test]
fn login_checks_credentials() {
    let action = post_login(
        "post_login",
        LoginRequest { user_id: some("kim"), user_password: some("secret") },
    );
    match action {
        LoginAction::CheckCredentials { query, params, session_user } => {
            assert_eq!(
                query,
                "select count(아이디) as 인증 from 사용자 where 아이디 = $1 and 비밀번호 = $2"
            );
            assert_eq!(params, vec!["kim".to_string(), "secret".to_string()]);
            assert_eq!(session_user, "kim");
        }
        LoginAction::Unknown { .. } => panic!("expected a credentials check"),
    }
}

#[test]
fn login_with_missing_fields_uses_placeholder() {
    let action = post_login("post_login", LoginRequest { user_id: None, user_password: None });
    match action {
        LoginAction::CheckCredentials { params, session_user, .. } => {
            assert_eq!(params, vec!["???".to_string(), "???".to_string()]);
            assert_eq!(session_user, "???");
        }
        LoginAction::Unknown { .. } => panic!("expected a credentials check"),
    }
}

#[test]
fn unknown_login_action() {
    let action = post_login("post_check", LoginRequest { user_id: some("kim"), user_password: None });
    match action {
        LoginAction::Unknown { body } => assert_eq!(body, "{\"인증\":\"???\"}"),
        LoginAction::CheckCredentials { .. } => panic!("expected an unknown action"),
    }
}

#[test]
fn only_a_single_match_logs_in() {
    assert!(login_succeeded(Some(1)));
    assert!(!login_succeeded(Some(0)));
    assert!(!login_succeeded(Some(2)));
    assert!(!login_succeeded(Some(-1)));
    assert!(!login_succeeded(None));
}

#[test]
fn report_page_requires_login() {
    match get_report_th_1(None) {
        Page::Redirect { to } => assert_eq!(to, "/"),
        Page::Render(_) => panic!("expected a redirect"),
    }
    match get_report_th_1(some("kim")) {
        Page::Render(t) => {
            assert_eq!(t.uid, "kim");
            assert_eq!(t.data, "-");
        }
        Page::Redirect { .. } => panic!("expected the page"),
    }
}

#[test]
fn report_actions_require_login() {
    for id in ["post_chart_1", "post_chart_2", "other"] {
        match post_report_th_1(id, false, chart_request(some("ju"), some("m1"))) {
            ReportAction::Redirect { to } => assert_eq!(to, "/"),
            _ => panic!("expected a redirect"),
        }
    }
}

#[test]
fn day_chart_by_minute() {
    match post_report_th_1("post_chart_1", true, chart_request(some("ju"), some("m1"))) {
        ReportAction::SensorChart { query, params } => {
            assert_eq!(
                query,
                expected_chart("1 minutes", " and ts::time >= '08:00' and ts::time < '19:00' ")
            );
            assert_eq!(params, vec!["2024-01-01".to_string(), "2024-01-31".to_string()]);
        }
        _ => panic!("expected the sensor chart"),
    }
}

#[test]
fn chart_steps_and_filters() {
    assert_eq!(
        sensor_chart_query("ya", "m10"),
        expected_chart("10 minutes", " and (ts::time >= '19:00' or ts::time < '08:00') ")
    );
    assert_eq!(sensor_chart_query("", "h1"), expected_chart("1 hour", ""));
    assert_eq!(sensor_chart_query("all", "d1"), expected_chart("1 day", ""));
    assert_eq!(sensor_chart_query("ju", "y1"), expected_chart("???", " and ts::time >= '08:00' and ts::time < '19:00' "));
}

#[test]
fn chart_with_missing_fields() {
    let request = ChartRequest { day_night: None, step: None, start_date: None, end_date: None };
    match post_report_th_1("post_chart_1", true, request) {
        ReportAction::SensorChart { query, params } => {
            assert_eq!(query, expected_chart("???", ""));
            assert_eq!(params, vec!["???".to_string(), "???".to_string()]);
        }
        _ => panic!("expected the sensor chart"),
    }
}

#[test]
fn status_chart_and_unknown_report_action() {
    assert!(matches!(
        post_report_th_1("post_chart_2", true, chart_request(None, None)),
        ReportAction::SystemStatus
    ));
    match post_report_th_1("post_chart_3", true, chart_request(None, None)) {
        ReportAction::Unknown { body } => assert_eq!(body, "{\"report_th_1\":\"???\"}"),
        _ => panic!("expected an unknown action"),
    }
}

#[test]
fn chart_units() {
    let m = chart_memory(16 * 1024 * 1024 * 1024, 1023);
    assert_eq!(m.total_mb, 16 * 1024 * 1024);
    assert_eq!(m.used_mb, 0);
    let d = chart_disk("/".to_string(), 5 * 1024 * 1024 * 1024 + 7, 1024 * 1024 * 1024 - 1);
    assert_eq!(d.mount, "/");
    assert_eq!(d.avail_gb, 5);
    assert_eq!(d.total_gb, 0);
}

#[test]
fn status_page_requires_login() {
    match get_system_info(None) {
        Page::Redirect { to } => assert_eq!(to, "/"),
        Page::Render(_) => panic!("expected a redirect"),
    }
    match get_system_info(some("lee")) {
        Page::Render(t) => {
            assert_eq!(t.uid, "lee");
            assert_eq!(t.data, "-");
        }
        Page::Redirect { .. } => panic!("expected the page"),
    }
}

#[test]
fn status_actions() {
    assert!(matches!(post_system_info("get_system_info", false), SystemInfoAction::Redirect { .. }));
    assert!(matches!(post_system_info("get_system_info", true), SystemInfoAction::SystemStatus));
    match post_system_info("x", true) {
        SystemInfoAction::Unknown { body } => assert_eq!(body, "{\"report_th_1\":\"???\"}"),
        _ => panic!("expected an unknown action"),
    }
}

#[test]
fn status_figures_in_mebibytes() {
    assert_eq!(mebibytes_with_commas(u64::MAX), "17,592,186,044,415");
    assert_eq!(mebibytes_with_commas(1024 * 1024 - 1), "0");
    let m = system_memory(16 * 1024 * 1024 * 1024, 123456789 * 1024 * 1024);
    assert_eq!(m.total_mb, "16,384");
    assert_eq!(m.used_mb, "123,456,789");
    let d = system_disk("/data".to_string(), 2048 * 1024 * 1024, 999 * 1024 * 1024);
    assert_eq!(d.mount, "/data");
    assert_eq!(d.avail_mb, "2,048");
    assert_eq!(d.total_mb, "999");
}
