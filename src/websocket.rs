//! The real-time channel's text protocol: a frame holds one or more
//! slash-led commands separated by `&&`; each is routed to a command of the
//! dispatcher, or answered with an error text.

use vstd::prelude::*;
use vstd::string::{StrSliceExecFns, StringExecFns};
use crate::packages::{sensor_named, Sensors};
use crate::text::{lower_of, str_eq, to_lowercase};

verus! {

/// Whether `c` has the Unicode White_Space property, the whitespace that
/// `str::trim` removes.
pub open spec fn is_white_space(c: char) -> bool {
    let u = c as u32;
    (0x9 <= u && u <= 0xd) || u == 0x20 || u == 0x85 || u == 0xa0 || u == 0x1680 || (0x2000 <= u
        && u <= 0x200a) || u == 0x2028 || u == 0x2029 || u == 0x202f || u == 0x205f || u == 0x3000
}

/// `s` without its leading whitespace.
pub open spec fn trim_start_of(s: Seq<char>) -> Seq<char>
    decreases s.len(),
{
    if s.len() > 0 && is_white_space(s[0]) {
        trim_start_of(s.skip(1))
    } else {
        s
    }
}

/// `s` without its trailing whitespace.
pub open spec fn trim_end_of(s: Seq<char>) -> Seq<char>
    decreases s.len(),
{
    if s.len() > 0 && is_white_space(s.last()) {
        trim_end_of(s.drop_last())
    } else {
        s
    }
}

/// `s` without its leading and trailing whitespace.
pub open spec fn trim_of(s: Seq<char>) -> Seq<char> {
    trim_end_of(trim_start_of(s))
}

/// Whether `c` is whitespace.
pub fn white_space(c: char) -> (r: bool)
    ensures
        r == is_white_space(c),
{
    let u = c as u32;
    (0x9 <= u && u <= 0xd) || u == 0x20 || u == 0x85 || u == 0xa0 || u == 0x1680 || (0x2000 <= u
        && u <= 0x200a) || u == 0x2028 || u == 0x2029 || u == 0x202f || u == 0x205f || u == 0x3000
}

/// `s` without its leading and trailing whitespace.
pub fn trim(s: &str) -> (r: &str)
    ensures
        r@ == trim_of(s@),
{
    let n = s.unicode_len();
    let mut i: usize = 0;
    assert(s@.skip(0) =~= s@);
    while i < n && white_space(s.get_char(i))
        invariant
            n == s@.len(),
            i <= n,
            trim_start_of(s@.skip(i as int)) == trim_start_of(s@),
        decreases n - i,
    {
        assert(s@.skip(i as int).skip(1) =~= s@.skip(i as int + 1));
        i = i + 1;
    }
    assert(s@.skip(i as int) =~= s@.subrange(i as int, n as int));
    if i < n {
        assert(s@.skip(i as int)[0] == s@[i as int]);
    }
    assert(trim_start_of(s@) == s@.subrange(i as int, n as int));
    let mut j: usize = n;
    while j > i && white_space(s.get_char(j - 1))
        invariant
            n == s@.len(),
            i <= j <= n,
            trim_end_of(s@.subrange(i as int, j as int)) == trim_end_of(
                s@.subrange(i as int, n as int),
            ),
        decreases j,
    {
        assert(s@.subrange(i as int, j as int).drop_last() =~= s@.subrange(
            i as int,
            j as int - 1,
        ));
        j = j - 1;
    }
    if j > i {
        assert(s@.subrange(i as int, j as int).last() == s@[j as int - 1]);
    }
    s.substring_char(i, j)
}

/// The connection parameters of the real-time channel.
#[derive(Clone, Debug, PartialEq, Eq)]
pub struct WebsocketQuery {
    /// Pattern selecting the messages this connection receives.
    pub filter: Option<String>,
}

impl WebsocketQuery {
    /// The filter pattern the connection asked for, if any.
    pub fn pattern(&self) -> (r: Option<&str>)
        ensures
            match self.filter {
                Some(f) => r is Some && r->Some_0@ == f@,
                None => r is None,
            },
    {
        match &self.filter {
            Some(f) => Some(f.as_str()),
            None => None,
        }
    }
}

/// Splits on `&&` from left to right; `cur` is the piece read so far.
pub open spec fn split_scan(s: Seq<char>, cur: Seq<char>) -> Seq<Seq<char>>
    decreases s.len(),
{
    if s.len() == 0 {
        seq![cur]
    } else if s.len() >= 2 && s[0] == '&' && s[1] == '&' {
        seq![cur] + split_scan(s.skip(2), Seq::empty())
    } else {
        split_scan(s.skip(1), cur.push(s[0]))
    }
}

/// The pieces of a frame between its `&&` separators, in order.
pub open spec fn split_amps(s: Seq<char>) -> Seq<Seq<char>> {
    split_scan(s, Seq::empty())
}

/// Splits a frame into its pieces between `&&` separators, in order.
pub fn split_commands(text: &str) -> (r: Vec<String>)
    ensures
        r@.map_values(|p: String| p@) == split_amps(text@),
{
    let n = text.unicode_len();
    let mut out: Vec<String> = Vec::new();
    let mut start: usize = 0;
    let mut i: usize = 0;
    assert(text@.skip(0) =~= text@);
    assert(text@.subrange(0, 0) =~= Seq::<char>::empty());
    assert(out@.map_values(|p: String| p@) =~= Seq::<Seq<char>>::empty());
    assert(Seq::<Seq<char>>::empty() + split_amps(text@) =~= split_amps(text@));
    while i < n
        invariant
            n == text@.len(),
            start <= i <= n,
            out@.map_values(|p: String| p@) + split_scan(
                text@.skip(i as int),
                text@.subrange(start as int, i as int),
            ) == split_amps(text@),
        decreases n - i,
    {
        let ghost rest = text@.skip(i as int);
        let ghost cur = text@.subrange(start as int, i as int);
        if i + 1 < n && text.get_char(i) == '&' && text.get_char(i + 1) == '&' {
            let ghost before = out@.map_values(|p: String| p@);
            out.push(String::from_str(text.substring_char(start, i)));
            assert(out@.map_values(|p: String| p@) =~= before.push(cur));
            assert(rest.skip(2) =~= text@.skip(i as int + 2));
            assert(text@.subrange(i as int + 2, i as int + 2) =~= Seq::<char>::empty());
            assert(split_scan(rest, cur) == seq![cur] + split_scan(rest.skip(2), Seq::empty()));
            assert(before.push(cur) + split_scan(rest.skip(2), Seq::empty()) =~= before + (seq![cur]
                + split_scan(rest.skip(2), Seq::empty())));
            i = i + 2;
            start = i;
        } else {
            assert(rest.skip(1) =~= text@.skip(i as int + 1));
            assert(cur.push(rest[0]) =~= text@.subrange(start as int, i as int + 1));
            i = i + 1;
        }
    }
    let ghost before = out@.map_values(|p: String| p@);
    let ghost cur = text@.subrange(start as int, n as int);
    out.push(String::from_str(text.substring_char(start, n)));
    assert(text@.skip(n as int) =~= Seq::<char>::empty());
    assert(out@.map_values(|p: String| p@) =~= before.push(cur));
    assert(before.push(cur) =~= before + seq![cur]);
    out
}

/// Whether `s` begins with `p`.
pub open spec fn has_prefix(s: Seq<char>, p: Seq<char>) -> bool {
    p.len() <= s.len() && s.take(p.len() as int) == p
}

/// Whether `s` ends with `p`.
pub open spec fn has_suffix(s: Seq<char>, p: Seq<char>) -> bool {
    p.len() <= s.len() && s.skip(s.len() - p.len()) == p
}

/// `s` without its leading slashes.
pub open spec fn strip_slashes(s: Seq<char>) -> Seq<char>
    decreases s.len(),
{
    if s.len() > 0 && s[0] == '/' {
        strip_slashes(s.skip(1))
    } else {
        s
    }
}

/// Whether `s` begins with `p`.
pub fn starts_with(s: &str, p: &str) -> (r: bool)
    ensures
        r == has_prefix(s@, p@),
{
    let n = s.unicode_len();
    let m = p.unicode_len();
    if m > n {
        return false;
    }
    str_eq(s.substring_char(0, m), p)
}

/// Whether `s` ends with `p`.
pub fn ends_with(s: &str, p: &str) -> (r: bool)
    ensures
        r == has_suffix(s@, p@),
{
    let n = s.unicode_len();
    let m = p.unicode_len();
    if m > n {
        return false;
    }
    let tail = s.substring_char(n - m, n);
    assert(tail@ =~= s@.skip(n - m));
    str_eq(tail, p)
}

/// What follows the first `k` characters of `s`.
fn after(s: &str, k: usize) -> (r: &str)
    requires
        k <= s@.len(),
    ensures
        r@ == s@.skip(k as int),
{
    let n = s.unicode_len();
    let r = s.substring_char(k, n);
    assert(r@ =~= s@.skip(k as int));
    r
}

/// `s` without its leading slashes.
pub fn trim_slashes(s: &str) -> (r: &str)
    ensures
        r@ == strip_slashes(s@),
{
    let n = s.unicode_len();
    let mut i: usize = 0;
    assert(s@.skip(0) =~= s@);
    while i < n && s.get_char(i) == '/'
        invariant
            n == s@.len(),
            i <= n,
            strip_slashes(s@.skip(i as int)) == strip_slashes(s@),
        decreases n - i,
    {
        assert(s@.skip(i as int).skip(1) =~= s@.skip(i as int + 1));
        i = i + 1;
    }
    after(s, i)
}

/// Where a text command is routed.
#[derive(Clone, Debug, PartialEq, Eq)]
pub enum Route {
    Read { sensor: Sensors, cached: bool },
    GetLedAll,
    /// Set a user LED; the payload is the request body as JSON text.
    SetLed(String),
    SetNeopixel(String),
    PwmEnable(String),
    PwmFrequency(String),
    PwmChannelValue(String),
    /// Report how many real-time subscribers are connected.
    GetConnected,
}

/// The mathematical content of a route.
pub enum RouteView {
    Read { sensor: Sensors, cached: bool },
    GetLedAll,
    SetLed(Seq<char>),
    SetNeopixel(Seq<char>),
    PwmEnable(Seq<char>),
    PwmFrequency(Seq<char>),
    PwmChannelValue(Seq<char>),
    GetConnected,
}

impl View for Route {
    type V = RouteView;

    open spec fn view(&self) -> RouteView {
        match self {
            Route::Read { sensor, cached } => RouteView::Read { sensor: *sensor, cached: *cached },
            Route::GetLedAll => RouteView::GetLedAll,
            Route::SetLed(p) => RouteView::SetLed(p@),
            Route::SetNeopixel(p) => RouteView::SetNeopixel(p@),
            Route::PwmEnable(p) => RouteView::PwmEnable(p@),
            Route::PwmFrequency(p) => RouteView::PwmFrequency(p@),
            Route::PwmChannelValue(p) => RouteView::PwmChannelValue(p@),
            Route::GetConnected => RouteView::GetConnected,
        }
    }
}

/// Why a text command could not be routed.
#[derive(Clone, Debug, PartialEq, Eq)]
pub enum RouteError {
    /// The command does not start with a slash.
    MissingSlash,
    /// No command has this path.
    UnknownCommand,
    /// An output path that names no actuator command.
    InvalidSelection,
    /// No sensor has this (lower-cased) name.
    UnknownSensor(String),
}

/// The mathematical content of a routing error.
pub enum RouteErrorView {
    MissingSlash,
    UnknownCommand,
    InvalidSelection,
    UnknownSensor(Seq<char>),
}

impl View for RouteError {
    type V = RouteErrorView;

    open spec fn view(&self) -> RouteErrorView {
        match self {
            RouteError::MissingSlash => RouteErrorView::MissingSlash,
            RouteError::UnknownCommand => RouteErrorView::UnknownCommand,
            RouteError::InvalidSelection => RouteErrorView::InvalidSelection,
            RouteError::UnknownSensor(n) => RouteErrorView::UnknownSensor(n@),
        }
    }
}

/// The route of `input/<rest>`: a sensor name, optionally followed by
/// `/cached`.
pub open spec fn read_route(rest: Seq<char>) -> Result<RouteView, RouteErrorView> {
    let cached = has_suffix(rest, "/cached"@);
    let name = if cached {
        rest.take(rest.len() - "/cached"@.len())
    } else {
        rest
    };
    match sensor_named(lower_of(name)) {
        Some(sensor) => Ok(RouteView::Read { sensor, cached }),
        None => Err(RouteErrorView::UnknownSensor(lower_of(name))),
    }
}

/// The route of a command path (leading slashes removed).
pub open spec fn route_of(p: Seq<char>) -> Result<RouteView, RouteErrorView> {
    if has_prefix(p, "input/"@) {
        read_route(p.skip("input/"@.len() as int))
    } else if p == "output/userled"@ {
        Ok(RouteView::GetLedAll)
    } else if has_prefix(p, "output/userled/"@) {
        Ok(RouteView::SetLed(p.skip("output/userled/"@.len() as int)))
    } else if has_prefix(p, "output/neopixel/"@) {
        Ok(RouteView::SetNeopixel(p.skip("output/neopixel/"@.len() as int)))
    } else if has_prefix(p, "output/pwm/enable/"@) {
        Ok(RouteView::PwmEnable(p.skip("output/pwm/enable/"@.len() as int)))
    } else if has_prefix(p, "output/pwm/frequency/"@) {
        Ok(RouteView::PwmFrequency(p.skip("output/pwm/frequency/"@.len() as int)))
    } else if has_prefix(p, "output/pwm/channel/value/"@) {
        Ok(RouteView::PwmChannelValue(p.skip("output/pwm/channel/value/"@.len() as int)))
    } else if p == "output/get_connected"@ {
        Ok(RouteView::GetConnected)
    } else if p == "output"@ || has_prefix(p, "output/"@) {
        Err(RouteErrorView::InvalidSelection)
    } else {
        Err(RouteErrorView::UnknownCommand)
    }
}

/// The route of one (trimmed) text command.
pub open spec fn request_route(request: Seq<char>) -> Result<RouteView, RouteErrorView> {
    if has_prefix(request, "/"@) {
        route_of(strip_slashes(request))
    } else {
        Err(RouteErrorView::MissingSlash)
    }
}

/// The view of a routing result.
pub open spec fn result_view(r: Result<Route, RouteError>) -> Result<RouteView, RouteErrorView> {
    match r {
        Ok(route) => Ok(route@),
        Err(e) => Err(e@),
    }
}

/// Routes `input/<rest>`.
fn route_read(rest: &str) -> (r: Result<Route, RouteError>)
    ensures
        result_view(r) == read_route(rest@),
{
    let cached = ends_with(rest, "/cached");
    let name = if cached {
        let n = rest.unicode_len();
        let m = "/cached".unicode_len();
        let name = rest.substring_char(0, n - m);
        assert(name@ =~= rest@.take(rest@.len() - "/cached"@.len()));
        name
    } else {
        rest
    };
    let lower = to_lowercase(name);
    match Sensors::from_lowercase(lower.as_str()) {
        Some(sensor) => Ok(Route::Read { sensor, cached }),
        None => Err(RouteError::UnknownSensor(lower)),
    }
}

/// Routes one text command (already trimmed): it must start with a slash,
/// then name a sensor read or an actuator command; a write carries its
/// body as JSON text after the command's path.
pub fn request_endpoint(request: &str) -> (r: Result<Route, RouteError>)
    ensures
        result_view(r) == request_route(request@),
{
    if !starts_with(request, "/") {
        return Err(RouteError::MissingSlash);
    }
    let p = trim_slashes(request);
    if starts_with(p, "input/") {
        route_read(after(p, "input/".unicode_len()))
    } else if str_eq(p, "output/userled") {
        Ok(Route::GetLedAll)
    } else if starts_with(p, "output/userled/") {
        Ok(Route::SetLed(String::from_str(after(p, "output/userled/".unicode_len()))))
    } else if starts_with(p, "output/neopixel/") {
        Ok(Route::SetNeopixel(String::from_str(after(p, "output/neopixel/".unicode_len()))))
    } else if starts_with(p, "output/pwm/enable/") {
        Ok(Route::PwmEnable(String::from_str(after(p, "output/pwm/enable/".unicode_len()))))
    } else if starts_with(p, "output/pwm/frequency/") {
        Ok(Route::PwmFrequency(String::from_str(after(p, "output/pwm/frequency/".unicode_len()))))
    } else if starts_with(p, "output/pwm/channel/value/") {
        Ok(
            Route::PwmChannelValue(
                String::from_str(after(p, "output/pwm/channel/value/".unicode_len())),
            ),
        )
    } else if str_eq(p, "output/get_connected") {
        Ok(Route::GetConnected)
    } else if str_eq(p, "output") || starts_with(p, "output/") {
        Err(RouteError::InvalidSelection)
    } else {
        Err(RouteError::UnknownCommand)
    }
}

/// Splits a frame into its commands, trims each, and routes it; one
/// result per command, in order.
pub fn handle_frame(text: &str) -> (r: Vec<Result<Route, RouteError>>)
    ensures
        r@.len() == split_amps(text@).len(),
        forall|i: int|
            0 <= i < r@.len() ==> result_view(#[trigger] r@[i]) == request_route(
                trim_of(split_amps(text@)[i]),
            ),
{
    let pieces = split_commands(text);
    assert(pieces@.len() == split_amps(text@).len()) by {
        assert(pieces@.map_values(|p: String| p@).len() == pieces@.len());
    }
    let mut out: Vec<Result<Route, RouteError>> = Vec::new();
    let mut i: usize = 0;
    while i < pieces.len()
        invariant
            pieces@.map_values(|p: String| p@) == split_amps(text@),
            pieces@.len() == split_amps(text@).len(),
            i <= pieces@.len(),
            out@.len() == i,
            forall|k: int|
                0 <= k < i ==> result_view(#[trigger] out@[k]) == request_route(
                    trim_of(split_amps(text@)[k]),
                ),
        decreases pieces@.len() - i,
    {
        assert(pieces@[i as int]@ == split_amps(text@)[i as int]) by {
            assert(pieces@.map_values(|p: String| p@)[i as int] == pieces@[i as int]@);
        }
        let request = trim(pieces[i].as_str());
        out.push(request_endpoint(request));
        i = i + 1;
    }
    out
}

/// The acknowledgement of a routed command.
pub fn ack_text() -> (r: String)
    ensures
        r@ == "\"Ok: Command received\""@,
{
    String::from_str("\"Ok: Command received\"")
}

impl RouteError {
    /// The error text answered for `request`.
    pub fn text(&self, request: &str) -> (r: String)
        ensures
            r@ == match self@ {
                RouteErrorView::MissingSlash => "\"Error: Invalid command:\" "@ + request@
                    + ", missing / ?"@,
                RouteErrorView::UnknownCommand => "\"Error: Invalid command:\" "@ + request@,
                RouteErrorView::InvalidSelection => "\"Error: Invalid command selected\""@,
                RouteErrorView::UnknownSensor(n) => "\"Error: "@ + n
                    + " is not a valid Sensors variant\""@,
            },
    {
        match self {
            RouteError::MissingSlash => String::from_str("\"Error: Invalid command:\" ").concat(
                request,
            ).concat(", missing / ?"),
            RouteError::UnknownCommand => String::from_str("\"Error: Invalid command:\" ").concat(
                request,
            ),
            RouteError::InvalidSelection => String::from_str("\"Error: Invalid command selected\""),
            RouteError::UnknownSensor(n) => String::from_str("\"Error: ").concat(
                n.as_str(),
            ).concat(" is not a valid Sensors variant\""),
        }
    }
}

} // verus!
