//! Wiring of the service: which endpoint answers which request, and where it listens.
use vstd::prelude::*;

verus! {

/// The base URL under which the service is reachable from outside.
#[derive(Clone)]
pub struct ApplicationBaseUrl(pub String);

/// The request methods the service answers.
#[derive(Clone, Copy, Debug, PartialEq, Eq, Structural)]
pub enum Method {
    Get,
    Post,
}

/// The endpoints of the service.
#[derive(Clone, Copy, Debug, PartialEq, Eq, Structural)]
pub enum Endpoint {
    Home,
    LoginForm,
    Login,
    HealthCheck,
    Subscribe,
    Confirm,
    PublishNewsletter,
    AdminDashboard,
    ChangePasswordForm,
    ChangePassword,
    LogOut,
}

/// One entry of the route table.
pub struct Route {
    pub method: Method,
    pub path: &'static str,
    pub endpoint: Endpoint,
}

/// The mathematical value of a [`Route`].
pub open spec fn route_view(r: Route) -> (Method, Seq<char>, Endpoint) {
    (r.method, r.path@, r.endpoint)
}

/// The route table, in the order the routes are registered.
pub open spec fn route_table() -> Seq<(Method, Seq<char>, Endpoint)> {
    seq![
        (Method::Get, "/"@, Endpoint::Home),
        (Method::Get, "/login"@, Endpoint::LoginForm),
        (Method::Post, "/login"@, Endpoint::Login),
        (Method::Get, "/health_check"@, Endpoint::HealthCheck),
        (Method::Post, "/subscriptions"@, Endpoint::Subscribe),
        (Method::Get, "/subscriptions/confirm"@, Endpoint::Confirm),
        (Method::Post, "/newsletters"@, Endpoint::PublishNewsletter),
        (Method::Get, "/admin/dashboard"@, Endpoint::AdminDashboard),
        (Method::Get, "/admin/password"@, Endpoint::ChangePasswordForm),
        (Method::Post, "/admin/password"@, Endpoint::ChangePassword),
        (Method::Post, "/admin/logout"@, Endpoint::LogOut),
    ]
}

fn route(method: Method, path: &'static str, endpoint: Endpoint) -> (r: Route)
    ensures
        route_view(r) == (method, path@, endpoint),
{
    Route { method, path, endpoint }
}

/// The routes of the service.
pub fn routes() -> (v: Vec<Route>)
    ensures
        v@.map_values(|r: Route| route_view(r)) == route_table(),
{
    let mut v: Vec<Route> = Vec::new();
    v.push(route(Method::Get, "/", Endpoint::Home));
    v.push(route(Method::Get, "/login", Endpoint::LoginForm));
    v.push(route(Method::Post, "/login", Endpoint::Login));
    v.push(route(Method::Get, "/health_check", Endpoint::HealthCheck));
    v.push(route(Method::Post, "/subscriptions", Endpoint::Subscribe));
    v.push(route(Method::Get, "/subscriptions/confirm", Endpoint::Confirm));
    v.push(route(Method::Post, "/newsletters", Endpoint::PublishNewsletter));
    v.push(route(Method::Get, "/admin/dashboard", Endpoint::AdminDashboard));
    v.push(route(Method::Get, "/admin/password", Endpoint::ChangePasswordForm));
    v.push(route(Method::Post, "/admin/password", Endpoint::ChangePassword));
    v.push(route(Method::Post, "/admin/logout", Endpoint::LogOut));
    assert(v@.map_values(|r: Route| route_view(r)) =~= route_table());
    v
}

/// No two routes share both method and path, so registering them never conflicts, and no
/// endpoint is registered twice.
pub proof fn lemma_routes_distinct()
    ensures
        forall|i: int, j: int|
            0 <= i < j < route_table().len() ==> {
                &&& (route_table()[i].0, route_table()[i].1) != (route_table()[j].0, route_table()[j].1)
                &&& route_table()[i].2 != route_table()[j].2
            },
{
    reveal_strlit("/");
    reveal_strlit("/login");
    reveal_strlit("/health_check");
    reveal_strlit("/subscriptions");
    reveal_strlit("/subscriptions/confirm");
    reveal_strlit("/newsletters");
    reveal_strlit("/admin/dashboard");
    reveal_strlit("/admin/password");
    reveal_strlit("/admin/logout");
    let t = route_table();
    let lens = seq![1int, 6, 6, 13, 14, 22, 12, 16, 15, 15, 13];
    assert forall|k: int| 0 <= k < t.len() implies #[trigger] t[k].1.len() == lens[k] by {
        assert("/"@.len() == 1);
        assert("/login"@.len() == 6);
        assert("/health_check"@.len() == 13);
        assert("/subscriptions"@.len() == 14);
        assert("/subscriptions/confirm"@.len() == 22);
        assert("/newsletters"@.len() == 12);
        assert("/admin/dashboard"@.len() == 16);
        assert("/admin/password"@.len() == 15);
        assert("/admin/logout"@.len() == 13);
    }
    assert forall|i: int, j: int| 0 <= i < j < t.len() implies {
        &&& (t[i].0, t[i].1) != (t[j].0, t[j].1)
        &&& t[i].2 != t[j].2
    } by {
        assert(t[i].1.len() == lens[i]);
        assert(t[j].1.len() == lens[j]);
    }
}


/// Whether some route leads to `e`.
pub open spec fn is_routed(e: Endpoint) -> bool {
    exists|i: int| 0 <= i < route_table().len() && #[trigger] route_table()[i].2 == e
}

/// Whether an endpoint takes a submission (a form, a body, or an action on the session)
/// rather than serving a page or a probe.
pub open spec fn receives_submission(e: Endpoint) -> bool {
    ||| e is Login
    ||| e is Subscribe
    ||| e is PublishNewsletter
    ||| e is ChangePassword
    ||| e is LogOut
}

/// Every endpoint is reachable, and under the method its purpose calls for: the endpoints that
/// take a submission are registered under `POST`, the pages and the probe under `GET`. Each
/// form is submitted to the path its page is served from, the subscription form goes to
/// `/subscriptions`, and every endpoint stands at its own path under its own method.
pub proof fn lemma_routes_serve_every_endpoint()
    ensures
        forall|i: int|
            0 <= i < route_table().len() ==> (#[trigger] route_table()[i].0 == Method::Post) == receives_submission(
                route_table()[i].2,
            ),
        forall|e: Endpoint| #[trigger] is_routed(e),
        route_table().contains((Method::Post, "/subscriptions"@, Endpoint::Subscribe)),
        route_table().contains((Method::Get, "/login"@, Endpoint::LoginForm)),
        route_table().contains((Method::Post, "/login"@, Endpoint::Login)),
        route_table().contains((Method::Get, "/admin/password"@, Endpoint::ChangePasswordForm)),
        route_table().contains((Method::Post, "/admin/password"@, Endpoint::ChangePassword)),
        route_table().contains((Method::Get, "/health_check"@, Endpoint::HealthCheck)),
        route_table().contains((Method::Get, "/"@, Endpoint::Home)),
        route_table().contains((Method::Get, "/subscriptions/confirm"@, Endpoint::Confirm)),
        route_table().contains((Method::Post, "/newsletters"@, Endpoint::PublishNewsletter)),
        route_table().contains((Method::Get, "/admin/dashboard"@, Endpoint::AdminDashboard)),
        route_table().contains((Method::Post, "/admin/logout"@, Endpoint::LogOut)),
{
    let t = route_table();
    assert forall|e: Endpoint| #[trigger] is_routed(e) by {
        let i: int = match e {
            Endpoint::Home => 0,
            Endpoint::LoginForm => 1,
            Endpoint::Login => 2,
            Endpoint::HealthCheck => 3,
            Endpoint::Subscribe => 4,
            Endpoint::Confirm => 5,
            Endpoint::PublishNewsletter => 6,
            Endpoint::AdminDashboard => 7,
            Endpoint::ChangePasswordForm => 8,
            Endpoint::ChangePassword => 9,
            Endpoint::LogOut => 10,
        };
        assert(t[i].2 == e);
        assert(0 <= i < t.len());
    }
    assert(t[4] == (Method::Post, "/subscriptions"@, Endpoint::Subscribe));
    assert(t[1] == (Method::Get, "/login"@, Endpoint::LoginForm));
    assert(t[2] == (Method::Post, "/login"@, Endpoint::Login));
    assert(t[8] == (Method::Get, "/admin/password"@, Endpoint::ChangePasswordForm));
    assert(t[9] == (Method::Post, "/admin/password"@, Endpoint::ChangePassword));
    assert(t[3] == (Method::Get, "/health_check"@, Endpoint::HealthCheck));
    assert(t[0] == (Method::Get, "/"@, Endpoint::Home));
    assert(t[5] == (Method::Get, "/subscriptions/confirm"@, Endpoint::Confirm));
    assert(t[6] == (Method::Post, "/newsletters"@, Endpoint::PublishNewsletter));
    assert(t[7] == (Method::Get, "/admin/dashboard"@, Endpoint::AdminDashboard));
    assert(t[10] == (Method::Post, "/admin/logout"@, Endpoint::LogOut));
}

/// The decimal digit for `d` (for `d < 10`).
pub open spec fn digit_char(d: nat) -> char {
    seq!['0', '1', '2', '3', '4', '5', '6', '7', '8', '9'][d as int]
}

/// The decimal notation of `n`, without leading zeros.
pub open spec fn decimal(n: nat) -> Seq<char>
    decreases n,
{
    if n < 10 {
        seq![digit_char(n)]
    } else {
        decimal(n / 10).push(digit_char(n % 10))
    }
}

fn digit_str(d: u16) -> (s: &'static str)
    requires
        d < 10,
    ensures
        s@ == seq![digit_char(d as nat)],
{
    proof {
        reveal_strlit("0");
        reveal_strlit("1");
        reveal_strlit("2");
        reveal_strlit("3");
        reveal_strlit("4");
        reveal_strlit("5");
        reveal_strlit("6");
        reveal_strlit("7");
        reveal_strlit("8");
        reveal_strlit("9");
    }
    let s = if d == 0 {
        "0"
    } else if d == 1 {
        "1"
    } else if d == 2 {
        "2"
    } else if d == 3 {
        "3"
    } else if d == 4 {
        "4"
    } else if d == 5 {
        "5"
    } else if d == 6 {
        "6"
    } else if d == 7 {
        "7"
    } else if d == 8 {
        "8"
    } else {
        "9"
    };
    assert(s@ =~= seq![digit_char(d as nat)]);
    s
}

fn append_decimal(s: &mut String, n: u16)
    ensures
        final(s)@ == old(s)@ + decimal(n as nat),
    decreases n,
{
    if n >= 10 {
        append_decimal(s, n / 10);
    }
    s.append(digit_str(n % 10));
    assert(s@ =~= old(s)@ + decimal(n as nat));
}

/// The address the service listens on: the host, a colon, and the port in decimal.
pub open spec fn listen_address_view(host: Seq<char>, port: u16) -> Seq<char> {
    host + ":"@ + decimal(port as nat)
}

/// The address the service listens on: the host, a colon, and the port in decimal.
pub fn listen_address(host: &str, port: u16) -> (a: String)
    ensures
        a@ == listen_address_view(host@, port),
{
    let mut a = host.to_owned();
    a.append(":");
    append_decimal(&mut a, port);
    assert(a@ =~= listen_address_view(host@, port));
    a
}

/// Whether `c` is one of the ten decimal digits.
pub open spec fn is_digit(c: char) -> bool {
    '0' <= c && c <= '9'
}

/// The number that a string of decimal digits denotes, most significant digit first.
pub open spec fn digits_value(s: Seq<char>) -> int
    decreases s.len(),
{
    if s.len() == 0 {
        0
    } else {
        digits_value(s.drop_last()) * 10 + (s.last() as int - '0' as int)
    }
}

proof fn lemma_digit_char(d: nat)
    requires
        d < 10,
    ensures
        digit_char(d) as int == '0' as int + d,
        is_digit(digit_char(d)),
{
    assert(seq!['0', '1', '2', '3', '4', '5', '6', '7', '8', '9'][d as int] as int == 48 + d);
}

/// The decimal notation of `n` reads back as `n`: it is a non-empty string of digits, without
/// a leading zero unless it is "0", whose value is `n`.
pub proof fn lemma_decimal_reads_back(n: nat)
    ensures
        decimal(n).len() >= 1,
        forall|i: int| 0 <= i < decimal(n).len() ==> is_digit(#[trigger] decimal(n)[i]),
        decimal(n)[0] == '0' ==> n == 0,
        digits_value(decimal(n)) == n,
    decreases n,
{
    lemma_digit_char(n % 10);
    if n < 10 {
        assert(decimal(n) =~= seq![digit_char(n)]);
        assert(decimal(n).drop_last() =~= Seq::<char>::empty());
        assert(digits_value(Seq::<char>::empty()) == 0);
        assert(digits_value(decimal(n)) == digits_value(decimal(n).drop_last()) * 10 + (decimal(n).last() as int
            - '0' as int));
        if decimal(n)[0] == '0' {
            assert(digit_char(n) as int == '0' as int);
        }
    } else {
        lemma_decimal_reads_back(n / 10);
        let prefix = decimal(n / 10);
        assert(decimal(n) == prefix.push(digit_char(n % 10)));
        assert(decimal(n).drop_last() =~= prefix);
        assert(decimal(n)[0] == prefix[0]);
        assert forall|i: int| 0 <= i < decimal(n).len() implies is_digit(#[trigger] decimal(n)[i]) by {
            if i < prefix.len() {
                assert(decimal(n)[i] == prefix[i]);
            }
        }
        assert(decimal(n).last() == digit_char(n % 10));
        assert(digits_value(decimal(n)) == digits_value(prefix) * 10 + (digit_char(n % 10) as int - '0' as int));
        assert(digits_value(decimal(n)) == (n / 10) * 10 + n % 10);
        assert((n / 10) * 10 + n % 10 == n) by (nonlinear_arith);
        if decimal(n)[0] == '0' {
            assert(prefix[0] == '0');
            assert(n / 10 == 0);
            assert(false);
        }
    }
}

/// The listening address is the host, then a colon, then the port written in decimal digits
/// that read back as the port.
pub proof fn lemma_listen_address_reads_back(host: Seq<char>, port: u16)
    ensures
        listen_address_view(host, port).subrange(0, host.len() as int) == host,
        listen_address_view(host, port)[host.len() as int] == ':',
        digits_value(
            listen_address_view(host, port).subrange(
                host.len() + 1int,
                listen_address_view(host, port).len() as int,
            ),
        ) == port,
        forall|i: int|
            host.len() + 1 <= i < listen_address_view(host, port).len() ==> is_digit(
                #[trigger] listen_address_view(host, port)[i],
            ),
{
    reveal_strlit(":");
    lemma_decimal_reads_back(port as nat);
    let a = listen_address_view(host, port);
    let d = decimal(port as nat);
    assert(a.subrange(0, host.len() as int) =~= host);
    assert(a.subrange(host.len() + 1int, a.len() as int) =~= d);
    assert forall|i: int| host.len() + 1 <= i < a.len() implies is_digit(#[trigger] a[i]) by {
        assert(a[i] == d[i - host.len() - 1]);
    }
}

} // verus!
