use vstd::prelude::*;

pub mod login;
pub mod report_th_1;
pub mod system_info;

verus! {

/// What a page request gets: a redirect to another location, or the page
/// rendered from its template data.
pub enum Page<T> {
    Redirect { to: String },
    Render(T),
}

/// The location that requests without a logged-in user are sent to.
pub open spec fn login_location() -> Seq<char> {
    "/"@
}

/// The value used for a field that the request body does not hold as a string.
pub open spec fn missing_field() -> Seq<char> {
    "???"@
}

/// A redirect to the login page.
pub fn redirect_to_login<T>() -> (r: Page<T>)
    ensures
        r matches Page::Redirect { to } && to@ == login_location(),
{
    Page::Redirect { to: String::from_str("/") }
}

} // verus!
