use vstd::prelude::*;
use crate::text::{push_char, strip_prefix};

verus! {

/// What `mime_guess` gives for a file extension: the first media type
/// registered for it, or `application/octet-stream` when there is none.
pub uninterp spec fn guessed_mime(extension: Seq<char>) -> Seq<char>;

/// `mime_guess::from_ext(extension).first_or_octet_stream()`, as text: the
/// media type registered for `extension` in mime_guess's compiled-in table
/// (looked up without regard to case), `application/octet-stream` when the
/// extension is empty or has no entry. Its result depends on `extension`
/// alone and is named by `guessed_mime`; the table entries stated here are
/// those of `js`, `css` and `html`.
#[verifier::external_body]
fn mime_of_extension(extension: &str) -> (r: String)
    ensures
        r@ == guessed_mime(extension@),
        extension@.len() == 0 ==> r@ == "application/octet-stream"@,
        extension@ == "js"@ ==> r@ == "text/javascript"@,
        extension@ == "css"@ ==> r@ == "text/css"@,
        extension@ == "html"@ ==> r@ == "text/html"@,
{
    let mime = mime_guess::from_ext(extension).first_or_octet_stream();
    String::from(mime.as_ref())
}

/// `p` without the trailing separators and trailing `.` components that a
/// path ignores when it names its file.
pub open spec fn trim_path_end(p: Seq<char>) -> Seq<char>
    decreases p.len(),
{
    if p.len() > 0 && p.last() == '/' {
        trim_path_end(p.drop_last())
    } else if p.len() >= 2 && p.last() == '.' && p[p.len() - 2] == '/' {
        trim_path_end(p.drop_last())
    } else {
        p
    }
}

/// The characters of `q` after its last `/` (all of `q` when it has none).
pub open spec fn last_segment(q: Seq<char>) -> Seq<char>
    decreases q.len(),
{
    if q.len() == 0 {
        q
    } else if q.last() == '/' {
        Seq::empty()
    } else {
        last_segment(q.drop_last()).push(q.last())
    }
}

/// The file name of a path, as `Path::file_name` gives it on Unix: its last
/// component, unless that is empty, `.` or `..`.
pub open spec fn file_name(p: Seq<char>) -> Option<Seq<char>> {
    let seg = last_segment(trim_path_end(p));
    if seg.len() == 0 || seg == seq!['.'] || seg == seq!['.', '.'] {
        None
    } else {
        Some(seg)
    }
}

/// The index of the last `.` of `s`, or -1 when it has none.
pub open spec fn last_dot(s: Seq<char>) -> int
    decreases s.len(),
{
    if s.len() == 0 {
        -1
    } else if s.last() == '.' {
        s.len() - 1
    } else {
        last_dot(s.drop_last())
    }
}

/// The extension of a path, as `Path::extension` gives it: what follows the
/// last `.` of the file name, unless that `.` is the name's first character.
pub open spec fn path_extension(p: Seq<char>) -> Option<Seq<char>> {
    match file_name(p) {
        None => None,
        Some(name) => if last_dot(name) <= 0 {
            None
        } else {
            Some(name.skip(last_dot(name) + 1))
        },
    }
}

/// The content type served for the file `path`: the type guessed from its
/// extension, with an empty extension when it has none.
pub open spec fn content_type_of(path: Seq<char>) -> Seq<char> {
    match path_extension(path) {
        Some(e) => guessed_mime(e),
        None => guessed_mime(Seq::empty()),
    }
}

proof fn lemma_last_segment_extend(q: Seq<char>, start: int, end: int)
    requires
        0 <= start <= end <= q.len(),
        forall|i: int| start <= i < end ==> q[i] != '/',
    ensures
        last_segment(q.take(end)) == last_segment(q.take(start)) + q.subrange(start, end),
    decreases end - start,
{
    if end > start {
        lemma_last_segment_extend(q, start, end - 1);
        assert(q.take(end).drop_last() == q.take(end - 1));
        assert(q.subrange(start, end) == q.subrange(start, end - 1).push(q[end - 1]));
    }
}

proof fn lemma_last_dot_prefix(s: Seq<char>, i: int)
    requires
        0 <= i <= s.len(),
        forall|j: int| i <= j < s.len() ==> s[j] != '.',
    ensures
        last_dot(s) == last_dot(s.take(i)),
    decreases s.len() - i,
{
    if i < s.len() {
        lemma_last_dot_prefix(s, i + 1);
        assert(s.take(i + 1).drop_last() == s.take(i));
    } else {
        assert(s.take(i) == s);
    }
}

proof fn lemma_last_dot_bounds(s: Seq<char>)
    ensures
        -1 <= last_dot(s) < s.len(),
        last_dot(s) >= 0 ==> s[last_dot(s)] == '.',
    decreases s.len(),
{
    if s.len() > 0 && s.last() != '.' {
        lemma_last_dot_bounds(s.drop_last());
    }
}

/// The characters of `s`, one per element.
fn chars_of(s: &str) -> (r: Vec<char>)
    ensures
        r@ == s@,
{
    let n = s.unicode_len();
    let mut out: Vec<char> = Vec::new();
    let mut i: usize = 0;
    while i < n
        invariant
            n == s@.len(),
            i <= n,
            out@ == s@.take(i as int),
        decreases n - i,
    {
        out.push(s.get_char(i));
        i = i + 1;
        assert(out@ =~= s@.take(i as int));
    }
    assert(s@.take(n as int) =~= s@);
    out
}

/// The length of `v` once its trailing separators and trailing `.`
/// components are dropped.
fn trimmed_end(v: &Vec<char>) -> (end: usize)
    ensures
        end <= v@.len(),
        v@.take(end as int) == trim_path_end(v@),
{
    let mut end = v.len();
    assert(v@.take(end as int) =~= v@);
    while end > 0 && (v[end - 1] == '/' || (end >= 2 && v[end - 1] == '.' && v[end - 2] == '/'))
        invariant
            end <= v@.len(),
            trim_path_end(v@.take(end as int)) == trim_path_end(v@),
        decreases end,
    {
        assert(v@.take(end as int).drop_last() =~= v@.take(end - 1));
        end = end - 1;
    }
    end
}

/// Where the last component of `v[..end]` starts.
fn segment_start(v: &Vec<char>, end: usize) -> (start: usize)
    requires
        end <= v@.len(),
    ensures
        start <= end,
        last_segment(v@.take(end as int)) == v@.subrange(start as int, end as int),
{
    let mut start = end;
    while start > 0 && v[start - 1] != '/'
        invariant
            start <= end <= v@.len(),
            forall|i: int| start <= i < end ==> v@[i] != '/',
        decreases start,
    {
        start = start - 1;
    }
    proof {
        lemma_last_segment_extend(v@, start as int, end as int);
        if start > 0 {
            assert(v@.take(start as int).last() == '/');
        } else {
            assert(v@.take(0) =~= Seq::<char>::empty());
        }
    }
    start
}

/// The elements of `v` from `from` up to `to`.
fn copy_range(v: &Vec<char>, from: usize, to: usize) -> (r: Vec<char>)
    requires
        from <= to <= v@.len(),
    ensures
        r@ == v@.subrange(from as int, to as int),
{
    let mut out: Vec<char> = Vec::new();
    let mut i = from;
    while i < to
        invariant
            from <= i <= to <= v@.len(),
            out@ == v@.subrange(from as int, i as int),
        decreases to - i,
    {
        out.push(v[i]);
        i = i + 1;
        assert(out@ =~= v@.subrange(from as int, i as int));
    }
    out
}

/// One more than the index of the last `.` of `name` (0 when it has none).
fn after_last_dot(name: &Vec<char>) -> (k: usize)
    ensures
        k <= name@.len(),
        k as int - 1 == last_dot(name@),
{
    let len = name.len();
    let mut k = len;
    while k > 0 && name[k - 1] != '.'
        invariant
            k <= len == name@.len(),
            forall|j: int| k <= j < len ==> name@[j] != '.',
        decreases k,
    {
        k = k - 1;
    }
    proof {
        lemma_last_dot_prefix(name@, k as int);
        if k > 0 {
            assert(name@.take(k as int).last() == '.');
        } else {
            assert(name@.take(0) =~= Seq::<char>::empty());
        }
    }
    k
}

/// The elements of `v` from `from` on, as a string.
fn string_from(v: &Vec<char>, from: usize) -> (r: String)
    requires
        from <= v@.len(),
    ensures
        r@ == v@.skip(from as int),
{
    let mut out = String::new();
    let mut j = from;
    while j < v.len()
        invariant
            from <= j <= v@.len(),
            out@ == v@.subrange(from as int, j as int),
        decreases v@.len() - j,
    {
        push_char(&mut out, v[j]);
        j = j + 1;
        assert(out@ =~= v@.subrange(from as int, j as int));
    }
    assert(out@ =~= v@.skip(from as int));
    out
}

/// The extension of `path`, as `Path::extension` gives it, or `None`.
fn extension_of(path: &str) -> (r: Option<String>)
    ensures
        match r {
            Some(e) => path_extension(path@) == Some(e@),
            None => path_extension(path@) is None,
        },
{
    let v = chars_of(path);
    let end = trimmed_end(&v);
    let start = segment_start(&v, end);
    let name = copy_range(&v, start, end);
    assert(name@ == last_segment(trim_path_end(path@)));
    let len = name.len();
    if len == 0 || (len == 1 && name[0] == '.') || (len == 2 && name[0] == '.' && name[1] == '.') {
        proof {
            if len == 1 {
                assert(name@ =~= seq!['.']);
            }
            if len == 2 {
                assert(name@ =~= seq!['.', '.']);
            }
        }
        return None;
    }
    proof {
        if name@ == seq!['.'] {
            assert(name@[0] == '.');
        }
        if name@ == seq!['.', '.'] {
            assert(name@[0] == '.' && name@[1] == '.');
        }
    }
    assert(file_name(path@) == Some(name@));
    let k = after_last_dot(&name);
    if k <= 1 {
        return None;
    }
    Some(string_from(&name, k))
}

/// The content type of the file `path`: the media type registered for its
/// extension (what follows the last `.` of its name), or
/// `application/octet-stream` when it has no extension or the extension has
/// no entry.
fn mime_of_path(path: &str) -> (r: String)
    ensures
        r@ == content_type_of(path@),
        path_extension(path@) is None ==> r@ == "application/octet-stream"@,
        path_extension(path@) == Some("js"@) ==> r@ == "text/javascript"@,
        path_extension(path@) == Some("css"@) ==> r@ == "text/css"@,
        path_extension(path@) == Some("html"@) ==> r@ == "text/html"@,
{
    match extension_of(path) {
        Some(e) => mime_of_extension(e.as_str()),
        None => {
            let r = mime_of_extension("");
            proof {
                reveal_strlit("");
                assert(""@ =~= Seq::<char>::empty());
            }
            r
        },
    }
}

/// The reply to a request for a static file.
pub enum StaticReply {
    /// Send the embedded file `path` with the status and content type given.
    File { status: u16, path: String, content_type: String },
    /// Send `body` as plain text with the status given.
    Text { status: u16, body: String },
}

/// The directory prefix that request paths may carry before a file name.
pub open spec fn public_prefix() -> Seq<char> {
    seq!['p', 'u', 'b', 'l', 'i', 'c', '/']
}

/// The page served when a file is missing.
pub open spec fn not_found_page() -> Seq<char> {
    seq!['4', '0', '4', '.', 'h', 't', 'm', 'l']
}

/// `path` with every leading `public/` taken off, one after the other.
pub open spec fn without_public_prefixes(path: Seq<char>) -> Seq<char>
    decreases path.len(),
{
    if public_prefix().is_prefix_of(path) {
        without_public_prefixes(path.skip(7))
    } else {
        path
    }
}

/// The name of the embedded file that a request path asks for: `404.html`
/// for an empty path, else the path without its leading `public/` prefixes.
pub open spec fn static_file_name(path: Seq<char>) -> Seq<char> {
    if path.len() == 0 {
        not_found_page()
    } else {
        without_public_prefixes(path)
    }
}

/// Whether a request for `path` is written to the request log: requests
/// for the script folders `/public/js/` and `/public/app_js/` are not.
pub open spec fn logged_path(path: Seq<char>) -> bool {
    !("/public/js/"@.is_prefix_of(path) || "/public/app_js/"@.is_prefix_of(path))
}

/// Decides whether the request for `path` is logged.
pub fn logs_request(path: &str) -> (r: bool)
    ensures
        r == logged_path(path@),
{
    let in_js = strip_prefix(path, "/public/js/").is_some();
    let in_app_js = strip_prefix(path, "/public/app_js/").is_some();
    !(in_js || in_app_js)
}

/// A request is left out of the log exactly when its path starts with
/// `/public/js/` or `/public/app_js/`: every other path, under `/public/`
/// or not, is logged.
pub proof fn law_only_script_folders_unlogged(path: Seq<char>)
    ensures
        !logged_path(path) <==> (seq!['/', 'p', 'u', 'b', 'l', 'i', 'c', '/', 'j', 's', '/'].is_prefix_of(path)
            || seq!['/', 'p', 'u', 'b', 'l', 'i', 'c', '/', 'a', 'p', 'p', '_', 'j', 's', '/'].is_prefix_of(path)),
        !seq!['/', 'p', 'u', 'b', 'l', 'i', 'c', '/'].is_prefix_of(path) ==> logged_path(path),
{
    reveal_strlit("/public/js/");
    reveal_strlit("/public/app_js/");
    assert("/public/js/"@ =~= seq!['/', 'p', 'u', 'b', 'l', 'i', 'c', '/', 'j', 's', '/']);
    assert("/public/app_js/"@ =~= seq!['/', 'p', 'u', 'b', 'l', 'i', 'c', '/', 'a', 'p', 'p', '_', 'j', 's', '/']);
    let pub_dir = seq!['/', 'p', 'u', 'b', 'l', 'i', 'c', '/'];
    if !pub_dir.is_prefix_of(path) {
        if "/public/js/"@.is_prefix_of(path) {
            assert(pub_dir =~= path.subrange(0, 8)) by {
                assert forall|i: int| 0 <= i < 8 implies pub_dir[i] == path.subrange(0, 8)[i] by {
                    assert(path[i] == "/public/js/"@[i]);
                }
            }
        }
        if "/public/app_js/"@.is_prefix_of(path) {
            assert(pub_dir =~= path.subrange(0, 8)) by {
                assert forall|i: int| 0 <= i < 8 implies pub_dir[i] == path.subrange(0, 8)[i] by {
                    assert(path[i] == "/public/app_js/"@[i]);
                }
            }
        }
    }
}

/// The address of the PostgreSQL database `db` on `server`, for the user
/// `id` with the password `password`.
pub open spec fn postgres_url(
    id: Seq<char>,
    password: Seq<char>,
    server: Seq<char>,
    db: Seq<char>,
) -> Seq<char> {
    "postgres://"@ + id + ":"@ + password + "@"@ + server + "/"@ + db
}

/// Builds the address of the database from the configured user, password,
/// server and database name.
pub fn database_url(id: &str, password: &str, server: &str, db: &str) -> (r: String)
    ensures
        r@ == postgres_url(id@, password@, server@, db@),
{
    let mut url = String::from_str("postgres://");
    url.append(id);
    url.append(":");
    url.append(password);
    url.append("@");
    url.append(server);
    url.append("/");
    url.append(db);
    url
}

/// The name of the embedded file that the request path `path` asks for.
pub fn static_path(path: &str) -> (r: String)
    ensures
        r@ == static_file_name(path@),
        !public_prefix().is_prefix_of(r@),
{
    proof {
        reveal_strlit("public/");
        reveal_strlit("404.html");
        assert("public/"@ =~= public_prefix());
    }
    if path.is_empty() {
        assert("404.html"@[0] != public_prefix()[0]);
        return String::from_str("404.html");
    }
    let mut rest: &str = path;
    loop
        invariant
            without_public_prefixes(rest@) == without_public_prefixes(path@),
            "public/"@ == public_prefix(),
        ensures
            without_public_prefixes(rest@) == without_public_prefixes(path@),
            !public_prefix().is_prefix_of(rest@),
        decreases rest@.len(),
    {
        match strip_prefix(rest, "public/") {
            Some(tail) => {
                rest = tail;
            },
            None => {
                break;
            },
        }
    }
    String::from_str(rest)
}

/// The reply to a request for the embedded file `path` (a name given by
/// `static_path`): the file itself when `path_found`, else the not-found
/// page with status 404 when `not_found_page_found`, else the text
/// `Not Found` with status 404.
pub fn static_reply(path: &str, path_found: bool, not_found_page_found: bool) -> (r: StaticReply)
    ensures
        path_found ==> (r matches StaticReply::File { status, path: p, content_type } && status
            == 200 && p@ == path@ && content_type@ == content_type_of(path@)),
        !path_found && not_found_page_found ==> (r matches StaticReply::File {
            status,
            path: p,
            content_type,
        } && status == 404 && p@ == not_found_page() && content_type@ == content_type_of(
            not_found_page(),
        )),
        path_found && path_extension(path@) is None ==> (r matches StaticReply::File {
            content_type,
            ..
        } && content_type@ == "application/octet-stream"@),
        path_found && path_extension(path@) == Some("js"@) ==> (r matches StaticReply::File {
            content_type,
            ..
        } && content_type@ == "text/javascript"@),
        path_found && path_extension(path@) == Some("css"@) ==> (r matches StaticReply::File {
            content_type,
            ..
        } && content_type@ == "text/css"@),
        path_found && path_extension(path@) == Some("html"@) ==> (r matches StaticReply::File {
            content_type,
            ..
        } && content_type@ == "text/html"@),
        !path_found && !not_found_page_found ==> (r matches StaticReply::Text { status, body }
            && status == 404 && body@ == "Not Found"@),
{
    proof {
        reveal_strlit("404.html");
    }
    if path_found {
        StaticReply::File {
            status: 200,
            path: String::from_str(path),
            content_type: mime_of_path(path),
        }
    } else if not_found_page_found {
        StaticReply::File {
            status: 404,
            path: String::from_str("404.html"),
            content_type: mime_of_path("404.html"),
        }
    } else {
        StaticReply::Text { status: 404, body: String::from_str("Not Found") }
    }
}

/// The extension of a file is what follows the last `.` of its name, however
/// many other dots the name holds: for a path `a.e` whose extension part `e`
/// is not empty and holds neither `.` nor `/`, and whose part before the dot
/// does not end the directory (`a` is not empty and does not end in `/`),
/// the extension is `e`, and the file is served with the type guessed for
/// `e` (so `js/jquery.min.js` is served as `js`, not as `min`).
pub proof fn law_extension_after_last_dot(a: Seq<char>, e: Seq<char>)
    requires
        a.len() > 0,
        a.last() != '/',
        e.len() > 0,
        forall|i: int| 0 <= i < e.len() ==> e[i] != '.' && e[i] != '/',
    ensures
        path_extension(a + seq!['.'] + e) == Some(e),
        content_type_of(a + seq!['.'] + e) == guessed_mime(e),
{
    let p = a + seq!['.'] + e;
    let ad = a + seq!['.'];
    assert(p.last() == e.last());
    assert(trim_path_end(p) == p);
    assert(p.take(p.len() as int) =~= p);
    assert(p.take(ad.len() as int) =~= ad);
    lemma_last_segment_extend(p, ad.len() as int, p.len() as int);
    assert(p.subrange(ad.len() as int, p.len() as int) =~= e);
    assert(ad.drop_last() =~= a);
    let la = last_segment(a);
    assert(a.drop_last().push(a.last()) =~= a);
    assert(la.len() > 0);
    let seg = la.push('.') + e;
    assert(last_segment(p) == seg);
    assert(seg.len() >= 3);
    lemma_last_dot_prefix(seg, la.len() as int + 1);
    assert(seg.take(la.len() as int + 1).last() == '.');
    assert(seg.take(la.len() as int + 1).drop_last() =~= la);
    assert(last_dot(seg) == la.len());
    assert(seg.skip(la.len() as int + 1) =~= e);
}

/// Taking off the leading `public/` prefixes leaves none.
proof fn lemma_no_public_prefix_left(path: Seq<char>)
    ensures
        !public_prefix().is_prefix_of(without_public_prefixes(path)),
    decreases path.len(),
{
    if public_prefix().is_prefix_of(path) {
        lemma_no_public_prefix_left(path.skip(7));
    }
}

/// Resolving a file name a second time changes nothing, as long as the first
/// resolution did not leave an empty name (the path `public/` resolves to the
/// empty name, which resolves to `404.html`).
pub proof fn law_static_path_idempotent(path: Seq<char>)
    requires
        static_file_name(path).len() > 0,
    ensures
        static_file_name(static_file_name(path)) == static_file_name(path),
{
    let name = static_file_name(path);
    if path.len() == 0 {
        assert(name[0] != public_prefix()[0]);
    } else {
        lemma_no_public_prefix_left(path);
    }
}

} // verus!
