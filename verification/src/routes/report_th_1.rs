use vstd::prelude::*;
use crate::routes::{Page, redirect_to_login, login_location, missing_field};
use crate::text::{str_eq, string_or, text_or};

verus! {

/// The data of the sensor report page template.
pub struct IndexTemplate {
    pub uid: String,
    pub data: String,
}

/// The fields of a chart request body that the report logic reads, `None`
/// where the body has no such string: the day or night selection (`주야`),
/// the time step (`단계`), and the first and last day (`시작일`, `종료일`).
pub struct ChartRequest {
    pub day_night: Option<String>,
    pub step: Option<String>,
    pub start_date: Option<String>,
    pub end_date: Option<String>,
}

/// What a `POST /report_th_1/{id}` request asks of the server.
pub enum ReportAction {
    /// No user is logged in: send the client to `to`.
    Redirect { to: String },
    /// Run `query` with `params` bound to `$1` and `$2`; the rows are the reply.
    SensorChart { query: String, params: Vec<String> },
    /// Reply with the state of the machine (processors, memory, disks,
    /// temperature).
    SystemStatus,
    /// An action that does not exist: the reply is the JSON text `body`.
    Unknown { body: String },
}

/// Memory figures of the machine status chart, each the byte count divided
/// by 1024.
pub struct ChartMemory {
    pub total_mb: u64,
    pub used_mb: u64,
}

/// One disk of the machine status chart, its space in units of 1024^3 bytes.
pub struct ChartDisk {
    pub mount: String,
    pub avail_gb: u64,
    pub total_gb: u64,
}

/// The condition on the time of day that the chart query adds: day time
/// (`ju`, 08:00 to 19:00), night time (`ya`), or none.
pub open spec fn time_of_day_filter(day_night: Seq<char>) -> Seq<char> {
    if day_night == "ju"@ {
        " and ts::time >= '08:00' and ts::time < '19:00' "@
    } else if day_night == "ya"@ {
        " and (ts::time >= '19:00' or ts::time < '08:00') "@
    } else {
        ""@
    }
}

/// The width of the time buckets of the chart: `m1`, `m10`, `h1`, `d1`, or
/// `???` for any other step.
pub open spec fn bucket_width(step: Seq<char>) -> Seq<char> {
    if step == "m1"@ {
        "1 minutes"@
    } else if step == "m10"@ {
        "10 minutes"@
    } else if step == "h1"@ {
        "1 hour"@
    } else if step == "d1"@ {
        "1 day"@
    } else {
        "???"@
    }
}

/// The sensor chart query: per day and time bucket of width `width`, the
/// averages of temperature, humidity and illuminance between the dates `$1`
/// and `$2`, restricted by `filter`.
pub open spec fn sensor_chart_sql(width: Seq<char>, filter: Seq<char>) -> Seq<char> {
    "\n                select\tto_char(ts, 'MM-DD') AS 일자,\n                        time_bucket('"@ + width + "', ts) AS 시간대,\n                        ROUND(avg((데이터->>'온도')::numeric), 2) as 온도,\n                        ROUND(avg((데이터->>'습도')::numeric), 2) as 습도,\n                        ROUND(avg((데이터->>'조도')::numeric), 2) as 조도\n                from    센서데이터\n                where   일자 between $1::date and $2::date\n                "@ + filter + "\n                group by to_char(ts, 'MM-DD'), 시간대\n                order by 일자, 시간대\n                "@
}

/// The reply to an unknown report action.
pub open spec fn unknown_report_reply() -> Seq<char> {
    "{\"report_th_1\":\"???\"}"@
}

/// The report page: a logged-in user (`user_id`) gets the page with `uid`
/// set to the user and `data` to `-`; anyone else is sent to the login page.
pub fn get_report_th_1(user_id: Option<String>) -> (r: Page<IndexTemplate>)
    ensures
        user_id is None ==> (r matches Page::Redirect { to } && to@ == login_location()),
        user_id matches Some(u) ==> (r matches Page::Render(t) && t.uid@ == u@ && t.data@ == "-"@),
{
    match user_id {
        Some(u) => Page::Render(IndexTemplate { uid: u, data: String::from_str("-") }),
        None => redirect_to_login(),
    }
}

/// The time-of-day condition for the selection `day_night`.
fn time_of_day_filter_text(day_night: &str) -> (r: String)
    ensures
        r@ == time_of_day_filter(day_night@),
{
    if str_eq(day_night, "ju") {
        String::from_str(" and ts::time >= '08:00' and ts::time < '19:00' ")
    } else if str_eq(day_night, "ya") {
        String::from_str(" and (ts::time >= '19:00' or ts::time < '08:00') ")
    } else {
        String::from_str("")
    }
}

/// The bucket width for the step `step`.
fn bucket_width_text(step: &str) -> (r: String)
    ensures
        r@ == bucket_width(step@),
{
    if str_eq(step, "m1") {
        String::from_str("1 minutes")
    } else if str_eq(step, "m10") {
        String::from_str("10 minutes")
    } else if str_eq(step, "h1") {
        String::from_str("1 hour")
    } else if str_eq(step, "d1") {
        String::from_str("1 day")
    } else {
        String::from_str("???")
    }
}

/// Builds the sensor chart query for the selection `day_night` and the step
/// `step`.
pub fn sensor_chart_query(day_night: &str, step: &str) -> (r: String)
    ensures
        r@ == sensor_chart_sql(bucket_width(step@), time_of_day_filter(day_night@)),
{
    let width = bucket_width_text(step);
    let filter = time_of_day_filter_text(day_night);
    let mut sql = String::from_str("\n                select\tto_char(ts, 'MM-DD') AS 일자,\n                        time_bucket('");
    sql.append(width.as_str());
    sql.append("', ts) AS 시간대,\n                        ROUND(avg((데이터->>'온도')::numeric), 2) as 온도,\n                        ROUND(avg((데이터->>'습도')::numeric), 2) as 습도,\n                        ROUND(avg((데이터->>'조도')::numeric), 2) as 조도\n                from    센서데이터\n                where   일자 between $1::date and $2::date\n                ");
    sql.append(filter.as_str());
    sql.append("\n                group by to_char(ts, 'MM-DD'), 시간대\n                order by 일자, 시간대\n                ");
    sql
}

/// Decides what a report request with the action `id` does. Without a
/// logged-in user every action sends the client to the login page. With one,
/// `post_chart_1` queries the sensor chart for `request` (with `???` in place
/// of a missing field), `post_chart_2` reports the machine status, and any
/// other action is unknown.
pub fn post_report_th_1(id: &str, logged_in: bool, request: ChartRequest) -> (r: ReportAction)
    ensures
        !logged_in ==> (r matches ReportAction::Redirect { to } && to@ == login_location()),
        logged_in && id@ == "post_chart_1"@ ==> (r matches ReportAction::SensorChart {
            query,
            params,
        } && query@ == sensor_chart_sql(
            bucket_width(text_or(request.step, missing_field())),
            time_of_day_filter(text_or(request.day_night, missing_field())),
        ) && params@.len() == 2 && params@[0]@ == text_or(request.start_date, missing_field())
            && params@[1]@ == text_or(request.end_date, missing_field())),
        logged_in && id@ == "post_chart_1"@ ==> (r matches ReportAction::SensorChart {
            params,
            ..
        } && (request.start_date matches Some(d) ==> params@[0]@ == d@) && (
        request.end_date matches Some(d) ==> params@[1]@ == d@) && (request.start_date is None
            ==> params@[0]@ == "???"@) && (request.end_date is None ==> params@[1]@ == "???"@)),
        logged_in && id@ == "post_chart_2"@ ==> r is SystemStatus,
        logged_in && id@ != "post_chart_1"@ && id@ != "post_chart_2"@ ==> (r matches ReportAction::Unknown {
            body,
        } && body@ == unknown_report_reply()),
{
    proof {
        reveal_strlit("post_chart_1");
        reveal_strlit("post_chart_2");
        assert("post_chart_1"@[11] != "post_chart_2"@[11]);
    }
    if !logged_in {
        return ReportAction::Redirect { to: String::from_str("/") };
    }
    if str_eq(id, "post_chart_1") {
        let day_night = string_or(request.day_night, "???");
        let step = string_or(request.step, "???");
        let query = sensor_chart_query(day_night.as_str(), step.as_str());
        let mut params: Vec<String> = Vec::new();
        params.push(string_or(request.start_date, "???"));
        params.push(string_or(request.end_date, "???"));
        ReportAction::SensorChart { query, params }
    } else if str_eq(id, "post_chart_2") {
        ReportAction::SystemStatus
    } else {
        ReportAction::Unknown { body: String::from_str("{\"report_th_1\":\"???\"}") }
    }
}

/// The memory figures of the machine status chart from the total and used
/// memory in bytes.
pub fn chart_memory(total_bytes: u64, used_bytes: u64) -> (r: ChartMemory)
    ensures
        r.total_mb == total_bytes / 1024,
        r.used_mb == used_bytes / 1024,
{
    ChartMemory { total_mb: total_bytes / 1024, used_mb: used_bytes / 1024 }
}

/// One disk of the machine status chart from its mount point and its
/// available and total space in bytes.
pub fn chart_disk(mount: String, available_bytes: u64, total_bytes: u64) -> (r: ChartDisk)
    ensures
        r.mount@ == mount@,
        r.avail_gb == available_bytes / 1024 / 1024 / 1024,
        r.total_gb == total_bytes / 1024 / 1024 / 1024,
{
    ChartDisk {
        mount,
        avail_gb: available_bytes / 1024 / 1024 / 1024,
        total_gb: total_bytes / 1024 / 1024 / 1024,
    }
}

/// Every step keeps the time-of-day condition of the selection: day time
/// (`ju`) adds the 08:00 to 19:00 condition and night time (`ya`) its
/// complement, right after the date condition and before the grouping; any
/// other selection adds none. The step changes only the bucket width.
pub proof fn law_time_filter_follows_selection(day_night: Seq<char>, step: Seq<char>)
    ensures
        day_night == "ju"@ ==> sensor_chart_sql(bucket_width(step), time_of_day_filter(day_night))
            == "\n                select\tto_char(ts, 'MM-DD') AS 일자,\n                        time_bucket('"@ + bucket_width(step) + "', ts) AS 시간대,\n                        ROUND(avg((데이터->>'온도')::numeric), 2) as 온도,\n                        ROUND(avg((데이터->>'습도')::numeric), 2) as 습도,\n                        ROUND(avg((데이터->>'조도')::numeric), 2) as 조도\n                from    센서데이터\n                where   일자 between $1::date and $2::date\n                "@ + " and ts::time >= '08:00' and ts::time < '19:00' "@ + "\n                group by to_char(ts, 'MM-DD'), 시간대\n                order by 일자, 시간대\n                "@,
        day_night == "ya"@ ==> sensor_chart_sql(bucket_width(step), time_of_day_filter(day_night))
            == "\n                select\tto_char(ts, 'MM-DD') AS 일자,\n                        time_bucket('"@ + bucket_width(step) + "', ts) AS 시간대,\n                        ROUND(avg((데이터->>'온도')::numeric), 2) as 온도,\n                        ROUND(avg((데이터->>'습도')::numeric), 2) as 습도,\n                        ROUND(avg((데이터->>'조도')::numeric), 2) as 조도\n                from    센서데이터\n                where   일자 between $1::date and $2::date\n                "@ + " and (ts::time >= '19:00' or ts::time < '08:00') "@ + "\n                group by to_char(ts, 'MM-DD'), 시간대\n                order by 일자, 시간대\n                "@,
        day_night != "ju"@ && day_night != "ya"@ ==> sensor_chart_sql(
            bucket_width(step),
            time_of_day_filter(day_night),
        ) == "\n                select\tto_char(ts, 'MM-DD') AS 일자,\n                        time_bucket('"@ + bucket_width(step) + "', ts) AS 시간대,\n                        ROUND(avg((데이터->>'온도')::numeric), 2) as 온도,\n                        ROUND(avg((데이터->>'습도')::numeric), 2) as 습도,\n                        ROUND(avg((데이터->>'조도')::numeric), 2) as 조도\n                from    센서데이터\n                where   일자 between $1::date and $2::date\n                "@ + "\n                group by to_char(ts, 'MM-DD'), 시간대\n                order by 일자, 시간대\n                "@,
{
    reveal_strlit("");
    reveal_strlit("ju");
    reveal_strlit("ya");
    assert("ju"@[0] != "ya"@[0]);
    let w = bucket_width(step);
    if day_night != "ju"@ && day_night != "ya"@ {
        assert("\n                select\tto_char(ts, 'MM-DD') AS 일자,\n                        time_bucket('"@ + w + "', ts) AS 시간대,\n                        ROUND(avg((데이터->>'온도')::numeric), 2) as 온도,\n                        ROUND(avg((데이터->>'습도')::numeric), 2) as 습도,\n                        ROUND(avg((데이터->>'조도')::numeric), 2) as 조도\n                from    센서데이터\n                where   일자 between $1::date and $2::date\n                "@ + ""@ + "\n                group by to_char(ts, 'MM-DD'), 시간대\n                order by 일자, 시간대\n                "@ =~= "\n                select\tto_char(ts, 'MM-DD') AS 일자,\n                        time_bucket('"@ + w + "', ts) AS 시간대,\n                        ROUND(avg((데이터->>'온도')::numeric), 2) as 온도,\n                        ROUND(avg((데이터->>'습도')::numeric), 2) as 습도,\n                        ROUND(avg((데이터->>'조도')::numeric), 2) as 조도\n                from    센서데이터\n                where   일자 between $1::date and $2::date\n                "@ + "\n                group by to_char(ts, 'MM-DD'), 시간대\n                order by 일자, 시간대\n                "@);
    }
}

/// The bucket width of each step: one minute, ten minutes, one hour, one
/// day, and `???` for any other step.
pub proof fn law_bucket_width_of_step(step: Seq<char>)
    ensures
        step == "m1"@ ==> bucket_width(step) == "1 minutes"@,
        step == "m10"@ ==> bucket_width(step) == "10 minutes"@,
        step == "h1"@ ==> bucket_width(step) == "1 hour"@,
        step == "d1"@ ==> bucket_width(step) == "1 day"@,
        step != "m1"@ && step != "m10"@ && step != "h1"@ && step != "d1"@ ==> bucket_width(step)
            == "???"@,
{
    reveal_strlit("m1");
    reveal_strlit("m10");
    reveal_strlit("h1");
    reveal_strlit("d1");
    assert("m1"@.len() != "m10"@.len() && "m1"@[0] != "h1"@[0] && "m1"@[0] != "d1"@[0]);
    assert("m10"@.len() != "h1"@.len() && "m10"@.len() != "d1"@.len());
    assert("h1"@[0] != "d1"@[0]);
}

/// Two queries for the same selection and different steps agree everywhere
/// but in the bucket width: the same 89 characters before it and the same
/// text after it.
pub proof fn law_step_changes_only_bucket(day_night: Seq<char>, step1: Seq<char>, step2: Seq<char>)
    ensures
        ({
            let w1 = bucket_width(step1);
            let w2 = bucket_width(step2);
            let q1 = sensor_chart_sql(w1, time_of_day_filter(day_night));
            let q2 = sensor_chart_sql(w2, time_of_day_filter(day_night));
            &&& q1.take(89) == q2.take(89)
            &&& q1.subrange(89, 89 + w1.len() as int) == w1
            &&& q2.subrange(89, 89 + w2.len() as int) == w2
            &&& q1.skip(89 + w1.len() as int) == q2.skip(89 + w2.len() as int)
        }),
{
    reveal_strlit("\n                select\tto_char(ts, 'MM-DD') AS 일자,\n                        time_bucket('");
    let f = time_of_day_filter(day_night);
    let w1 = bucket_width(step1);
    let w2 = bucket_width(step2);
    let head = "\n                select\tto_char(ts, 'MM-DD') AS 일자,\n                        time_bucket('"@;
    let rest = "', ts) AS 시간대,\n                        ROUND(avg((데이터->>'온도')::numeric), 2) as 온도,\n                        ROUND(avg((데이터->>'습도')::numeric), 2) as 습도,\n                        ROUND(avg((데이터->>'조도')::numeric), 2) as 조도\n                from    센서데이터\n                where   일자 between $1::date and $2::date\n                "@ + f + "\n                group by to_char(ts, 'MM-DD'), 시간대\n                order by 일자, 시간대\n                "@;
    let q1 = sensor_chart_sql(w1, f);
    let q2 = sensor_chart_sql(w2, f);
    assert(q1 =~= head + w1 + rest);
    assert(q2 =~= head + w2 + rest);
    assert(q1.take(89) =~= head);
    assert(q2.take(89) =~= head);
    assert(q1.subrange(89, 89 + w1.len() as int) =~= w1);
    assert(q2.subrange(89, 89 + w2.len() as int) =~= w2);
    assert(q1.skip(89 + w1.len() as int) =~= rest);
    assert(q2.skip(89 + w2.len() as int) =~= rest);
}

} // verus!
