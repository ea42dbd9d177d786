//! The LAN web console: reading an HTTP request, authenticating its bearer
//! key, deciding what it may see (administrator or analyst views), and
//! framing the HTTP response.
use vstd::prelude::*;
use crate::models::LanServerSettings;
use crate::text::{
    chars_eq, contains, find_char, find_chars, find_first, from_chars, lines_of, lowercase_of,
    owned, split_char, split_chars, split_ws, split_ws_chars, starts_with, starts_with_chars,
    strip_cr, strip_prefixes, strip_prefixes_chars, to_chars, to_lower, to_upper, trim,
    trim_chars, u64_to_string, uppercase_of, utf8_byte_len, utf8_byte_len_exec, views, decimal,
    str_eq,
};

verus! {

// ───────────────────────────── request text ─────────────────────────────

/// The lines of some text.
pub fn lines_exec(s: &[char]) -> (r: Vec<Vec<char>>)
    ensures
        r@.map_values(|l: Vec<char>| l@) == lines_of(s@),
{
    let pieces = split_chars(s, '\n');
    let ghost p = split_char(s@, '\n');
    proof {
        crate::text::lemma_split_char_nonempty(s@, '\n');
    }
    let n = pieces.len();
    let mut out: Vec<Vec<char>> = Vec::new();
    let mut i: usize = 0;
    while i + 1 < n
        invariant
            n == pieces@.len(),
            n == p.len(),
            n >= 1,
            i + 1 <= n,
            forall|k: int| 0 <= k < n ==> #[trigger] pieces@[k]@ == p[k],
            out@.map_values(|l: Vec<char>| l@) == p.take(i as int).map_values(|l: Seq<char>| strip_cr(l)),
        decreases n - i,
    {
        let line = &pieces[i];
        let stripped = if line.len() > 0 && line[line.len() - 1] == '\r' {
            crate::text::slice_chars(line.as_slice(), 0, line.len() - 1)
        } else {
            crate::text::slice_chars(line.as_slice(), 0, line.len())
        };
        assert(stripped@ == strip_cr(p[i as int])) by {
            if line@.len() > 0 && line@.last() == '\r' {
                assert(stripped@ =~= line@.drop_last());
            } else {
                assert(stripped@ =~= line@);
            }
        }
        let ghost before = out@.map_values(|l: Vec<char>| l@);
        let ghost sv = stripped@;
        out.push(stripped);
        assert(out@.map_values(|l: Vec<char>| l@) =~= before.push(sv));
        assert(p.take(i + 1).map_values(|l: Seq<char>| strip_cr(l)) =~= p.take(i as int).map_values(
            |l: Seq<char>| strip_cr(l),
        ).push(strip_cr(p[i as int])));
        i = i + 1;
        assert(out@.map_values(|l: Vec<char>| l@) =~= p.take(i as int).map_values(
            |l: Seq<char>| strip_cr(l),
        ));
    }
    assert(p.take(i as int) =~= p.drop_last());
    let last = &pieces[n - 1];
    if last.len() > 0 {
        let copy = crate::text::slice_chars(last.as_slice(), 0, last.len());
        assert(copy@ =~= p.last());
        let ghost before = out@.map_values(|l: Vec<char>| l@);
        out.push(copy);
        assert(out@.map_values(|l: Vec<char>| l@) =~= before.push(p.last()));
    }
    out
}

/// The text after the first `:` of a line, or nothing.
pub open spec fn after_colon(l: Seq<char>) -> Seq<char> {
    match find_first(l, seq![':']) {
        Some(k) => l.skip(k + 1),
        None => Seq::<char>::empty(),
    }
}

/// The value of the first `Authorization:` header among some lines.
pub open spec fn auth_value(ls: Seq<Seq<char>>) -> Option<Seq<char>>
    decreases ls.len(),
{
    if ls.len() == 0 {
        None
    } else if starts_with(lowercase_of(ls[0]), "authorization:"@) {
        Some(trim(after_colon(ls[0])))
    } else {
        auth_value(ls.drop_first())
    }
}

/// The request line of a request: its method, and its path without the
/// query; `None` when the first line has fewer than two words.
pub open spec fn request_target(req: Seq<char>) -> Option<(Seq<char>, Seq<char>)> {
    let ls = lines_of(req);
    let first = if ls.len() > 0 {
        ls[0]
    } else {
        Seq::<char>::empty()
    };
    let parts = split_ws(first);
    if parts.len() < 2 {
        None
    } else {
        let full = parts[1];
        let path = match find_first(full, seq!['?']) {
            Some(k) => full.take(k),
            None => full,
        };
        Some((parts[0], path))
    }
}

/// The body of a request: the text between the first blank line and the next
/// one.
pub open spec fn request_body(req: Seq<char>) -> Seq<char> {
    match find_first(req, "\r\n\r\n"@) {
        None => Seq::<char>::empty(),
        Some(i) => {
            let rest = req.skip(i + 4);
            match find_first(rest, "\r\n\r\n"@) {
                Some(j) => rest.take(j),
                None => rest,
            }
        },
    }
}

// ─────────────────────────────── accounts ───────────────────────────────

/// The role of a requester.
#[derive(Clone, Copy, Debug, PartialEq, Eq, Structural)]
pub enum Role {
    Admin,
    User,
    Guest,
}

/// The views an administrator sees: all of them.
pub open spec fn all_views() -> Seq<Seq<char>> {
    seq!["dashboard"@, "logs"@, "alerts"@, "rules"@, "network"@]
}

/// What a requester may do.
pub struct Authorization {
    pub is_auth: bool,
    pub role: Role,
    pub allowed_views: Vec<String>,
}

/// Who a bearer value identifies: the administrator key gives every view, the
/// analyst key the analyst's views, anything else (or no header) nothing.
pub open spec fn spec_authorize(header: Option<Seq<char>>, s: LanServerSettings) -> (bool, Role, Seq<Seq<char>>) {
    match header {
        Some(tok) => {
            let clean = trim(strip_prefixes(tok, "Bearer "@));
            if clean == s.admin_access_key@ {
                (true, Role::Admin, all_views())
            } else if clean == s.user_access_key@ {
                (true, Role::User, views(s.user_allowed_views@))
            } else {
                (false, Role::Guest, Seq::<Seq<char>>::empty())
            }
        },
        None => (false, Role::Guest, Seq::<Seq<char>>::empty()),
    }
}

/// A requester may see a view: authenticated, and the view is among theirs or
/// they are the administrator.
pub open spec fn may_see(a: (bool, Role, Seq<Seq<char>>), view: Seq<char>) -> bool {
    a.0 && (a.2.contains(view) || a.1 == Role::Admin)
}

/// What `serde_json::from_str::<serde_json::Value>` reads from a login body:
/// `None` when it is not JSON, else its `username` and `access_key` members
/// when they are strings.
pub uninterp spec fn json_login_fields(body: Seq<char>) -> Option<(Option<Seq<char>>, Option<Seq<char>>)>;

/// Parses a login body with `serde_json::from_str` and reads its `username`
/// and `access_key` members as strings (`Value::as_str`). The contract names
/// the result only.
#[verifier::external_body]
fn parse_login_body(body: &str) -> (r: Option<(Option<String>, Option<String>)>)
    ensures
        match r {
            None => json_login_fields(body@) is None,
            Some((u, k)) => json_login_fields(body@) == Some((
                match u {
                    Some(x) => Some(x@),
                    None => None,
                },
                match k {
                    Some(x) => Some(x@),
                    None => None,
                },
            )),
        },
{
    let v: serde_json::Value = serde_json::from_str(body).ok()?;
    Some((v["username"].as_str().map(|s| s.to_string()), v["access_key"].as_str().map(|s| s.to_string())))
}

// ──────────────────────────────── routing ────────────────────────────────

/// What the console answers to a request.
#[derive(Clone, Copy, Debug, PartialEq, Eq, Structural)]
pub enum Route {
    Preflight,
    LoginAdmin,
    LoginUser,
    LoginRejected,
    MalformedLogin,
    Stats,
    Timeseries,
    Logs,
    Alerts,
    Network,
    Rules,
    Forbidden,
    Index,
    NotFound,
}

/// The answer to a login body: the administrator or analyst account when
/// both the username (trimmed) and the key (trimmed, in upper case) match it.
pub open spec fn login_route(body: Seq<char>, s: LanServerSettings) -> (Route, Seq<char>) {
    match json_login_fields(trim(body)) {
        None => (Route::MalformedLogin, Seq::<char>::empty()),
        Some((u, k)) => {
            let user = trim(
                match u {
                    Some(x) => x,
                    None => Seq::<char>::empty(),
                },
            );
            let key = uppercase_of(
                trim(
                    match k {
                        Some(x) => x,
                        None => Seq::<char>::empty(),
                    },
                ),
            );
            if user == s.admin_username@ && key == uppercase_of(s.admin_access_key@) {
                (Route::LoginAdmin, user)
            } else if user == s.user_username@ && key == uppercase_of(s.user_access_key@) {
                (Route::LoginUser, user)
            } else {
                (Route::LoginRejected, user)
            }
        },
    }
}

/// A data route, or `Forbidden` when the requester may not see its view.
pub open spec fn guarded(a: (bool, Role, Seq<Seq<char>>), view: Seq<char>, r: Route) -> Route {
    if may_see(a, view) {
        r
    } else {
        Route::Forbidden
    }
}

/// The answer to a request: `None` when its request line is incomplete (the
/// connection is closed without answer), else the route and, for a login,
/// the username it named.
pub open spec fn spec_handle(req: Seq<char>, s: LanServerSettings) -> Option<(Route, Seq<char>)> {
    match request_target(req) {
        None => None,
        Some((method, path)) => {
            let a = spec_authorize(auth_value(lines_of(req)), s);
            let empty = Seq::<char>::empty();
            Some(
                if method == "OPTIONS"@ {
                    (Route::Preflight, empty)
                } else if method == "POST"@ && path == "/api/auth/login"@ {
                    login_route(request_body(req), s)
                } else if method == "GET"@ && path == "/api/stats"@ {
                    (guarded(a, "dashboard"@, Route::Stats), empty)
                } else if method == "GET"@ && path == "/api/timeseries"@ {
                    (guarded(a, "dashboard"@, Route::Timeseries), empty)
                } else if method == "GET"@ && path == "/api/logs"@ {
                    (guarded(a, "logs"@, Route::Logs), empty)
                } else if method == "GET"@ && path == "/api/alerts"@ {
                    (guarded(a, "alerts"@, Route::Alerts), empty)
                } else if method == "GET"@ && path == "/api/network"@ {
                    (guarded(a, "network"@, Route::Network), empty)
                } else if method == "GET"@ && path == "/api/rules"@ {
                    (guarded(a, "rules"@, Route::Rules), empty)
                } else if method == "GET"@ && (path == "/"@ || path == "/index.html"@) {
                    (Route::Index, empty)
                } else {
                    (Route::NotFound, empty)
                },
            )
        },
    }
}

fn auth_value_exec(ls: &Vec<Vec<char>>) -> (r: Option<Vec<char>>)
    ensures
        match r {
            Some(v) => auth_value(ls@.map_values(|l: Vec<char>| l@)) == Some(v@),
            None => auth_value(ls@.map_values(|l: Vec<char>| l@)) is None,
        },
{
    let ghost lv = ls@.map_values(|l: Vec<char>| l@);
    let prefix = to_chars("authorization:");
    let mut i: usize = 0;
    assert(lv.skip(0) =~= lv);
    while i < ls.len()
        invariant
            i <= ls@.len(),
            lv == ls@.map_values(|l: Vec<char>| l@),
            prefix@ == "authorization:"@,
            auth_value(lv) == auth_value(lv.skip(i as int)),
        decreases ls@.len() - i,
    {
        assert(lv.skip(i as int).drop_first() =~= lv.skip(i + 1));
        assert(lv.skip(i as int)[0] == ls@[i as int]@);
        let line = from_chars(ls[i].as_slice());
        let low = to_lower(line.as_str());
        let lc = to_chars(low.as_str());
        if starts_with_chars(lc.as_slice(), prefix.as_slice()) {
            let l = ls[i].as_slice();
            let value: Vec<char> = match find_char(l, ':') {
                Some(k) => crate::text::slice_chars(l, k + 1, l.len()),
                None => Vec::new(),
            };
            assert(value@ == after_colon(ls@[i as int]@)) by {
                if value@.len() > 0 || find_first(l@, seq![':']) is Some {
                    assert(l@.subrange(find_first(l@, seq![':'])->0 + 1, l@.len() as int) =~= l@.skip(find_first(l@, seq![':'])->0 + 1));
                }
            }
            return Some(trim_chars(value.as_slice()));
        }
        i = i + 1;
    }
    None
}

fn authorize_exec(header: &Option<Vec<char>>, s: &LanServerSettings) -> (r: Authorization)
    ensures
        (r.is_auth, r.role, views(r.allowed_views@)) == spec_authorize(
            match header {
                Some(h) => Some(h@),
                None => None,
            },
            *s,
        ),
{
    match header {
        Some(tok) => {
            let bearer = to_chars("Bearer ");
            let stripped = strip_prefixes_chars(tok.as_slice(), bearer.as_slice());
            let clean = trim_chars(stripped.as_slice());
            let admin = to_chars(s.admin_access_key.as_str());
            let user = to_chars(s.user_access_key.as_str());
            if chars_eq(clean.as_slice(), admin.as_slice()) {
                let mut v: Vec<String> = Vec::new();
                v.push(owned("dashboard"));
                v.push(owned("logs"));
                v.push(owned("alerts"));
                v.push(owned("rules"));
                v.push(owned("network"));
                assert(views(v@) =~= all_views());
                Authorization { is_auth: true, role: Role::Admin, allowed_views: v }
            } else if chars_eq(clean.as_slice(), user.as_slice()) {
                let v = clone_strings(&s.user_allowed_views);
                Authorization { is_auth: true, role: Role::User, allowed_views: v }
            } else {
                let v: Vec<String> = Vec::new();
                assert(views(v@) =~= Seq::<Seq<char>>::empty());
                Authorization { is_auth: false, role: Role::Guest, allowed_views: v }
            }
        },
        None => {
            let v: Vec<String> = Vec::new();
            assert(views(v@) =~= Seq::<Seq<char>>::empty());
            Authorization { is_auth: false, role: Role::Guest, allowed_views: v }
        },
    }
}

/// A copy of a list of strings.
pub fn clone_strings(v: &Vec<String>) -> (r: Vec<String>)
    ensures
        views(r@) == views(v@),
{
    let mut out: Vec<String> = Vec::new();
    let mut i: usize = 0;
    while i < v.len()
        invariant
            i <= v@.len(),
            views(out@) == views(v@).take(i as int),
        decreases v@.len() - i,
    {
        let ghost before = views(out@);
        let c = v[i].clone();
        assert(c@ == v@[i as int]@);
        out.push(c);
        assert(views(out@) =~= before.push(v@[i as int]@));
        i = i + 1;
        assert(views(out@) =~= views(v@).take(i as int));
    }
    assert(views(v@).take(v@.len() as int) =~= views(v@));
    out
}

fn contains_view(vs: &Vec<String>, view: &str) -> (r: bool)
    ensures
        r == views(vs@).contains(view@),
{
    let mut i: usize = 0;
    while i < vs.len()
        invariant
            i <= vs@.len(),
            forall|k: int| 0 <= k < i ==> views(vs@)[k] != view@,
        decreases vs@.len() - i,
    {
        if str_eq(vs[i].as_str(), view) {
            assert(views(vs@)[i as int] == view@);
            return true;
        }
        i = i + 1;
    }
    false
}

fn guarded_exec(a: &Authorization, view: &str, r: Route) -> (out: Route)
    ensures
        out == guarded((a.is_auth, a.role, views(a.allowed_views@)), view@, r),
{
    if a.is_auth && (contains_view(&a.allowed_views, view) || a.role == Role::Admin) {
        r
    } else {
        Route::Forbidden
    }
}

fn request_body_exec(req: &[char]) -> (r: Vec<char>)
    ensures
        r@ == request_body(req@),
{
    let sep = to_chars("\r\n\r\n");
    proof {
        reveal_strlit("\r\n\r\n");
    }
    assert(sep@.len() == 4);
    match find_chars(req, sep.as_slice()) {
        None => Vec::new(),
        Some(i) => {
            let rest = crate::text::slice_chars(req, i + 4, req.len());
            assert(rest@ =~= req@.skip(i + 4));
            match find_chars(rest.as_slice(), sep.as_slice()) {
                Some(j) => {
                    let b = crate::text::slice_chars(rest.as_slice(), 0, j);
                    assert(b@ =~= rest@.take(j as int));
                    b
                },
                None => rest,
            }
        },
    }
}

fn login_route_exec(req: &[char], s: &LanServerSettings) -> (r: (Route, String))
    ensures
        (r.0, r.1@) == login_route(request_body(req@), *s),
{
    let body = request_body_exec(req);
    let tb = trim_chars(body.as_slice());
    let tbs = from_chars(tb.as_slice());
    match parse_login_body(tbs.as_str()) {
        None => (Route::MalformedLogin, String::new()),
        Some((u, k)) => {
            let uraw: String = match u {
                Some(x) => x,
                None => String::new(),
            };
            let kraw: String = match k {
                Some(x) => x,
                None => String::new(),
            };
            let uc = to_chars(uraw.as_str());
            let user_c = trim_chars(uc.as_slice());
            let user = from_chars(user_c.as_slice());
            let kc = to_chars(kraw.as_str());
            let key_t = from_chars(trim_chars(kc.as_slice()).as_slice());
            let key = to_upper(key_t.as_str());
            let admin_key = to_upper(s.admin_access_key.as_str());
            let user_key = to_upper(s.user_access_key.as_str());
            if str_eq(user.as_str(), s.admin_username.as_str()) && str_eq(key.as_str(), admin_key.as_str()) {
                (Route::LoginAdmin, user)
            } else if str_eq(user.as_str(), s.user_username.as_str()) && str_eq(key.as_str(), user_key.as_str()) {
                (Route::LoginUser, user)
            } else {
                (Route::LoginRejected, user)
            }
        },
    }
}

/// Reads a request and decides how the console answers it: `None` when the
/// request line is incomplete, else the route and, for a login, the username.
pub fn handle_request(req: &str, settings: &LanServerSettings) -> (r: Option<(Route, String)>)
    ensures
        match r {
            None => spec_handle(req@, *settings) is None,
            Some((route, user)) => spec_handle(req@, *settings) == Some((route, user@)),
        },
{
    let rc = to_chars(req);
    let ls = lines_exec(rc.as_slice());
    let first: Vec<char> = if ls.len() > 0 {
        crate::text::slice_chars(ls[0].as_slice(), 0, ls[0].len())
    } else {
        Vec::new()
    };
    assert(first@ =~= (if lines_of(req@).len() > 0 {
        lines_of(req@)[0]
    } else {
        Seq::<char>::empty()
    }));
    let parts = split_ws_chars(first.as_slice());
    if parts.len() < 2 {
        return None;
    }
    let method = from_chars(parts[0].as_slice());
    let full = parts[1].as_slice();
    let path_c: Vec<char> = match find_char(full, '?') {
        Some(k) => {
            let p = crate::text::slice_chars(full, 0, k);
            assert(p@ =~= full@.take(k as int));
            p
        },
        None => crate::text::slice_chars(full, 0, full.len()),
    };
    assert(path_c@ =~= request_target(req@).unwrap().1);
    let path = from_chars(path_c.as_slice());
    let m = method.as_str();
    let p = path.as_str();
    let header = auth_value_exec(&ls);
    let a = authorize_exec(&header, settings);
    let empty = String::new();
    if str_eq(m, "OPTIONS") {
        Some((Route::Preflight, empty))
    } else if str_eq(m, "POST") && str_eq(p, "/api/auth/login") {
        let (route, user) = login_route_exec(rc.as_slice(), settings);
        Some((route, user))
    } else if str_eq(m, "GET") && str_eq(p, "/api/stats") {
        Some((guarded_exec(&a, "dashboard", Route::Stats), empty))
    } else if str_eq(m, "GET") && str_eq(p, "/api/timeseries") {
        Some((guarded_exec(&a, "dashboard", Route::Timeseries), empty))
    } else if str_eq(m, "GET") && str_eq(p, "/api/logs") {
        Some((guarded_exec(&a, "logs", Route::Logs), empty))
    } else if str_eq(m, "GET") && str_eq(p, "/api/alerts") {
        Some((guarded_exec(&a, "alerts", Route::Alerts), empty))
    } else if str_eq(m, "GET") && str_eq(p, "/api/network") {
        Some((guarded_exec(&a, "network", Route::Network), empty))
    } else if str_eq(m, "GET") && str_eq(p, "/api/rules") {
        Some((guarded_exec(&a, "rules", Route::Rules), empty))
    } else if str_eq(m, "GET") && (str_eq(p, "/") || str_eq(p, "/index.html")) {
        Some((Route::Index, empty))
    } else {
        Some((Route::NotFound, empty))
    }
}

// ─────────────────────────────── responses ───────────────────────────────

/// An HTTP/1.1 response with the console's fixed headers; the length counts
/// the bytes of the body in UTF-8.
pub open spec fn spec_http_response(status: Seq<char>, content_type: Seq<char>, body: Seq<char>) -> Seq<char> {
    "HTTP/1.1 "@ + status + "\r\nContent-Type: "@ + content_type + "\r\nContent-Length: "@ + decimal(
        utf8_byte_len(body),
    ) + "\r\nAccess-Control-Allow-Origin: *\r\nAccess-Control-Allow-Methods: GET, POST, OPTIONS\r\nAccess-Control-Allow-Headers: Authorization, Content-Type, Accept, Origin\r\nConnection: close\r\n\r\n"@
        + body
}

/// Frames an HTTP response.
pub fn http_response(status: &str, content_type: &str, body: &str) -> (r: String)
    requires
        utf8_byte_len(body@) <= usize::MAX,
    ensures
        r@ == spec_http_response(status@, content_type@, body@),
{
    let bc = to_chars(body);
    let len = utf8_byte_len_exec(bc.as_slice());
    let mut s = owned("HTTP/1.1 ");
    s.append(status);
    s.append("\r\nContent-Type: ");
    s.append(content_type);
    s.append("\r\nContent-Length: ");
    s.append(u64_to_string(len as u64).as_str());
    s.append("\r\nAccess-Control-Allow-Origin: *\r\nAccess-Control-Allow-Methods: GET, POST, OPTIONS\r\nAccess-Control-Allow-Headers: Authorization, Content-Type, Accept, Origin\r\nConnection: close\r\n\r\n");
    s.append(body);
    s
}

/// The status line of the answers whose body does not come from the
/// database: preflight, refused or malformed logins, refusals, the page and
/// unknown paths.
pub open spec fn fixed_status(r: Route) -> Option<(Seq<char>, Seq<char>, Seq<char>)> {
    match r {
        Route::Preflight => Some(("204 No Content"@, "text/plain"@, ""@)),
        Route::MalformedLogin => Some(("400 Bad Request"@, "application/json"@, "{\"error\":\"Requête JSON invalide\"}"@)),
        Route::Forbidden => Some(("403 Forbidden"@, "application/json"@, "{\"error\":\"Accès refusé\"}"@)),
        Route::NotFound => Some(("404 Not Found"@, "text/plain"@, "Page introuvable"@)),
        _ => None,
    }
}

/// Status, content type and body of the answers that need no data.
pub fn fixed_response(r: Route) -> (out: Option<(&'static str, &'static str, &'static str)>)
    ensures
        match out {
            Some((a, b, c)) => fixed_status(r) == Some((a@, b@, c@)),
            None => fixed_status(r) is None,
        },
{
    match r {
        Route::Preflight => Some(("204 No Content", "text/plain", "")),
        Route::MalformedLogin => Some(("400 Bad Request", "application/json", "{\"error\":\"Requête JSON invalide\"}")),
        Route::Forbidden => Some(("403 Forbidden", "application/json", "{\"error\":\"Accès refusé\"}")),
        Route::NotFound => Some(("404 Not Found", "text/plain", "Page introuvable")),
        _ => None,
    }
}

/// The address of the console for a local address and port.
pub fn console_url(ip: &str, port: u16) -> (r: String)
    ensures
        r@ == "http://"@ + ip@ + ":"@ + decimal(port as nat),
{
    let mut s = owned("http://");
    s.append(ip);
    s.append(":");
    s.append(u64_to_string(port as u64).as_str());
    s
}

/// Whether an address found for this machine can be shown to other hosts:
/// not the unspecified address and not the loopback address.
pub fn usable_local_ip(ip: &str) -> (r: bool)
    ensures
        r == (ip@ != "0.0.0.0"@ && ip@ != "127.0.0.1"@),
{
    !str_eq(ip, "0.0.0.0") && !str_eq(ip, "127.0.0.1")
}

// ───────────────────────────────── access keys ─────────────────────────────────

/// The characters of an access key: capitals and digits, without the ones
/// that read alike (O, 0, 1, I).
pub const ACCESS_KEY_CHARSET: &'static str = "ABCDEFGHJKLMNPQRSTUVWXYZ23456789";

/// The length of an access key.
pub const ACCESS_KEY_LENGTH: usize = 7;

/// A number drawn uniformly below `bound` by the thread's generator
/// (`rand::Rng::gen_range` on `rand::thread_rng()`, over `0..bound`). The
/// contract states only that it is below `bound`: which number comes depends
/// on chance.
#[verifier::external_body]
fn random_below(bound: usize) -> (r: usize)
    requires
        bound > 0,
    ensures
        r < bound,
{
    rand::Rng::gen_range(&mut rand::thread_rng(), 0..bound)
}

/// The key spelt by draws from the key alphabet: the character at each drawn
/// position, in order.
pub fn key_from_draws(d: &[usize]) -> (k: String)
    requires
        forall|i: int| 0 <= i < d@.len() ==> #[trigger] d@[i] < 32,
    ensures
        k@ == Seq::new(d@.len(), |i: int| ACCESS_KEY_CHARSET@[d@[i] as int]),
{
    let alphabet = to_chars(ACCESS_KEY_CHARSET);
    proof {
        reveal_strlit("ABCDEFGHJKLMNPQRSTUVWXYZ23456789");
    }
    assert(alphabet@.len() == 32);
    let mut key: Vec<char> = Vec::new();
    let mut i: usize = 0;
    while i < d.len()
        invariant
            i <= d@.len(),
            alphabet@ == ACCESS_KEY_CHARSET@,
            alphabet@.len() == 32,
            forall|j: int| 0 <= j < d@.len() ==> #[trigger] d@[j] < 32,
            key@ == Seq::new(i as nat, |j: int| ACCESS_KEY_CHARSET@[d@[j] as int]),
        decreases d@.len() - i,
    {
        let c = alphabet[d[i]];
        key.push(c);
        i = i + 1;
        assert(key@ =~= Seq::new(i as nat, |j: int| ACCESS_KEY_CHARSET@[d@[j] as int]));
    }
    from_chars(key.as_slice())
}

/// A new access key: seven characters drawn at random from the key alphabet.
pub fn generate_random_access_key() -> (r: Result<String, String>)
    ensures
        r matches Ok(k) && k@.len() == ACCESS_KEY_LENGTH && forall|i: int|
            0 <= i < k@.len() ==> ACCESS_KEY_CHARSET@.contains(#[trigger] k@[i]),
{
    let mut draws: Vec<usize> = Vec::new();
    let mut i: usize = 0;
    while i < ACCESS_KEY_LENGTH
        invariant
            i <= ACCESS_KEY_LENGTH,
            draws@.len() == i,
            forall|j: int| 0 <= j < draws@.len() ==> #[trigger] draws@[j] < 32,
        decreases ACCESS_KEY_LENGTH - i,
    {
        draws.push(random_below(32));
        i = i + 1;
    }
    let k = key_from_draws(draws.as_slice());
    proof {
        reveal_strlit("ABCDEFGHJKLMNPQRSTUVWXYZ23456789");
        assert forall|i: int| 0 <= i < k@.len() implies ACCESS_KEY_CHARSET@.contains(#[trigger] k@[i]) by {
            assert(ACCESS_KEY_CHARSET@[draws@[i] as int] == k@[i]);
        }
    }
    Ok(k)
}

// ───────────────────────────────── laws ─────────────────────────────────

/// Without a valid key, every data view of the console is refused.
pub proof fn law_guest_refused(view: Seq<char>, r: Route)
    ensures
        guarded((false, Role::Guest, Seq::<Seq<char>>::empty()), view, r) == Route::Forbidden,
{
}

/// The administrator key opens every view.
pub proof fn law_admin_sees_everything(tok: Seq<char>, s: LanServerSettings, view: Seq<char>, r: Route)
    requires
        trim(strip_prefixes(tok, "Bearer "@)) == s.admin_access_key@,
    ensures
        guarded(spec_authorize(Some(tok), s), view, r) == r,
{
}

/// An analyst key opens exactly the views configured for analysts (unless it
/// is also the administrator key).
pub proof fn law_analyst_views(tok: Seq<char>, s: LanServerSettings, view: Seq<char>, r: Route)
    requires
        trim(strip_prefixes(tok, "Bearer "@)) == s.user_access_key@,
        s.user_access_key@ != s.admin_access_key@,
        r != Route::Forbidden,
    ensures
        (guarded(spec_authorize(Some(tok), s), view, r) == r) <==> views(s.user_allowed_views@).contains(view),
{
}

/// A request with no `Authorization` header never reaches the logs, the
/// alerts, the statistics, the network map or the rules.
pub proof fn law_no_header_no_data(req: Seq<char>, s: LanServerSettings)
    requires
        auth_value(lines_of(req)) is None,
        spec_handle(req, s) is Some,
    ensures
        spec_handle(req, s).unwrap().0 != Route::Stats,
        spec_handle(req, s).unwrap().0 != Route::Timeseries,
        spec_handle(req, s).unwrap().0 != Route::Logs,
        spec_handle(req, s).unwrap().0 != Route::Alerts,
        spec_handle(req, s).unwrap().0 != Route::Network,
        spec_handle(req, s).unwrap().0 != Route::Rules,
{
}

} // verus!
