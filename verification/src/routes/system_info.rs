use vstd::prelude::*;
use crate::comm::util::{decimal_text, format_i128_with_commas, group_by_thousands};
use crate::routes::{Page, redirect_to_login, login_location};
use crate::text::str_eq;

verus! {

/// The data of the machine status page template.
pub struct IndexTemplate {
    pub uid: String,
    pub data: String,
}

/// What a `POST /system_info/{id}` request asks of the server.
pub enum SystemInfoAction {
    /// No user is logged in: send the client to `to`.
    Redirect { to: String },
    /// Reply with the state of the machine (processors, memory, disks,
    /// temperature).
    SystemStatus,
    /// An action that does not exist: the reply is the JSON text `body`.
    Unknown { body: String },
}

/// Memory figures of the status page: mebibytes, with thousands separators.
pub struct SystemMemory {
    pub total_mb: String,
    pub used_mb: String,
}

/// One disk of the status page: its mount point and its available and total
/// space in mebibytes, with thousands separators.
pub struct SystemDisk {
    pub mount: String,
    pub avail_mb: String,
    pub total_mb: String,
}

/// The text shown for a byte count: whole mebibytes (rounded down) in
/// decimal with thousands separators.
pub open spec fn mebibytes_text(bytes: u64) -> Seq<char> {
    group_by_thousands(decimal_text((bytes / 1024 / 1024) as int))
}

/// The reply to an unknown status action.
pub open spec fn unknown_status_reply() -> Seq<char> {
    "{\"report_th_1\":\"???\"}"@
}

/// The status page: a logged-in user (`user_id`) gets the page with `uid`
/// set to the user and `data` to `-`; anyone else is sent to the login page.
pub fn get_system_info(user_id: Option<String>) -> (r: Page<IndexTemplate>)
    ensures
        user_id is None ==> (r matches Page::Redirect { to } && to@ == login_location()),
        user_id matches Some(u) ==> (r matches Page::Render(t) && t.uid@ == u@ && t.data@ == "-"@),
{
    match user_id {
        Some(u) => Page::Render(IndexTemplate { uid: u, data: String::from_str("-") }),
        None => redirect_to_login(),
    }
}

/// Decides what a status request with the action `id` does. Without a
/// logged-in user every action sends the client to the login page. With one,
/// `get_system_info` reports the machine status and any other action is
/// unknown.
pub fn post_system_info(id: &str, logged_in: bool) -> (r: SystemInfoAction)
    ensures
        !logged_in ==> (r matches SystemInfoAction::Redirect { to } && to@ == login_location()),
        logged_in && id@ == "get_system_info"@ ==> r is SystemStatus,
        logged_in && id@ != "get_system_info"@ ==> (r matches SystemInfoAction::Unknown { body }
            && body@ == unknown_status_reply()),
{
    if !logged_in {
        SystemInfoAction::Redirect { to: String::from_str("/") }
    } else if str_eq(id, "get_system_info") {
        SystemInfoAction::SystemStatus
    } else {
        SystemInfoAction::Unknown { body: String::from_str("{\"report_th_1\":\"???\"}") }
    }
}

/// A byte count as shown on the status page.
pub fn mebibytes_with_commas(bytes: u64) -> (r: String)
    ensures
        r@ == mebibytes_text(bytes),
{
    format_i128_with_commas((bytes / 1024 / 1024) as i128)
}

/// The memory figures of the status page from the total and used memory in
/// bytes.
pub fn system_memory(total_bytes: u64, used_bytes: u64) -> (r: SystemMemory)
    ensures
        r.total_mb@ == mebibytes_text(total_bytes),
        r.used_mb@ == mebibytes_text(used_bytes),
{
    SystemMemory {
        total_mb: mebibytes_with_commas(total_bytes),
        used_mb: mebibytes_with_commas(used_bytes),
    }
}

/// One disk of the status page from its mount point and its available and
/// total space in bytes.
pub fn system_disk(mount: String, available_bytes: u64, total_bytes: u64) -> (r: SystemDisk)
    ensures
        r.mount@ == mount@,
        r.avail_mb@ == mebibytes_text(available_bytes),
        r.total_mb@ == mebibytes_text(total_bytes),
{
    SystemDisk {
        mount,
        avail_mb: mebibytes_with_commas(available_bytes),
        total_mb: mebibytes_with_commas(total_bytes),
    }
}

} // verus!
