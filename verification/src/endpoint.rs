//! Where the mux daemon is: TCP endpoints, and the paths of its socket.

use vstd::prelude::*;

use crate::dongle::text_view;
use crate::text::{decimal, push_decimal};

verus! {

/// The number that decimal digits stand for.
pub open spec fn digits_value(s: Seq<char>) -> nat
    decreases s.len(),
{
    if s.len() == 0 {
        0
    } else {
        10 * digits_value(s.drop_last()) + (s.last() as u32 - '0' as u32) as nat
    }
}

/// A decimal digit.
pub open spec fn is_digit(c: char) -> bool {
    '0' <= c <= '9'
}

/// Decimal digits and nothing else, at least one.
pub open spec fn all_digits(s: Seq<char>) -> bool {
    s.len() > 0 && forall|i: int| 0 <= i < s.len() ==> is_digit(#[trigger] s[i])
}

/// The text without a leading `+`.
pub open spec fn without_sign(s: Seq<char>) -> Seq<char> {
    if s.len() > 0 && s[0] == '+' {
        s.skip(1)
    } else {
        s
    }
}

/// The port number that a text stands for: decimal digits, at least one, that
/// a `+` may precede, and a value of at most 65535.
pub open spec fn port_number(s: Seq<char>) -> Option<u16> {
    if all_digits(without_sign(s)) && digits_value(without_sign(s)) <= 0xffff {
        Some(digits_value(without_sign(s)) as u16)
    } else {
        None
    }
}

/// `str::parse::<u16>`: reads an optional `+` followed by decimal digits and
/// nothing else, and refuses a number that does not fit.
#[verifier::external_body]
fn parse_port(s: &str) -> (r: Option<u16>)
    ensures
        r == port_number(s@),
{
    s.parse::<u16>().ok()
}

/// `str::rsplit_once(':')`: what stands before and after the last colon;
/// `None` where there is no colon.
#[verifier::external_body]
fn rsplit_colon(s: &str) -> (r: Option<(&str, &str)>)
    ensures
        r is Some <==> s@.contains(':'),
        r matches Some((before, after)) ==> s@ == before@ + seq![':'] + after@,
        r matches Some((_, after)) ==> !after@.contains(':'),
{
    s.rsplit_once(':')
}

/// Where the text after the last colon starts; 0 where there is no colon.
pub open spec fn after_colon(s: Seq<char>) -> int
    decreases s.len(),
{
    if s.len() == 0 {
        0
    } else if s.last() == ':' {
        s.len() as int
    } else {
        after_colon(s.drop_last())
    }
}

/// The endpoint that a text stands for: `host:port`, or a port alone. The
/// local host is meant where none is named.
pub open spec fn endpoint(s: Seq<char>) -> Option<(Seq<char>, u16)> {
    let at = after_colon(s);
    match port_number(s.skip(at)) {
        Some(port) => Some(
            if at <= 1 {
                ("localhost"@, port)
            } else {
                (s.take(at - 1), port)
            },
        ),
        None => None,
    }
}

proof fn lemma_after_colon(h: Seq<char>, p: Seq<char>)
    requires
        !p.contains(':'),
    ensures
        after_colon(h + seq![':'] + p) == h.len() + 1,
    decreases p.len(),
{
    let s = h + seq![':'] + p;
    if p.len() == 0 {
        assert(s.last() == ':');
    } else {
        assert(p[p.len() - 1] != ':');
        assert(s.drop_last() =~= h + seq![':'] + p.drop_last());
        assert forall|c: char| p.drop_last().contains(c) implies p.contains(c) by {
            let i = choose|i: int| 0 <= i < p.drop_last().len() && p.drop_last()[i] == c;
            assert(p[i] == c);
        }
        lemma_after_colon(h, p.drop_last());
    }
}

proof fn lemma_no_colon(s: Seq<char>)
    requires
        !s.contains(':'),
    ensures
        after_colon(s) == 0,
    decreases s.len(),
{
    if s.len() > 0 {
        assert(s[s.len() - 1] != ':');
        assert forall|c: char| s.drop_last().contains(c) implies s.contains(c) by {
            let i = choose|i: int| 0 <= i < s.drop_last().len() && s.drop_last()[i] == c;
            assert(s[i] == c);
        }
        lemma_no_colon(s.drop_last());
    }
}

/// Host and port, the host as a sequence.
pub open spec fn endpoint_view(e: Option<(String, u16)>) -> Option<(Seq<char>, u16)> {
    match e {
        Some((host, port)) => Some((host@, port)),
        None => None,
    }
}

/// Reads an endpoint.
pub fn parse_tcp_endpoint(addr: &str) -> (r: Option<(String, u16)>)
    ensures
        endpoint_view(r) == endpoint(addr@),
{
    match rsplit_colon(addr) {
        Some((h, p)) => {
            proof {
                lemma_after_colon(h@, p@);
                assert(addr@.skip(h@.len() as int + 1) =~= p@);
                assert(addr@.take(h@.len() as int) =~= h@);
            }
            match parse_port(p) {
                Some(port) => {
                    let host = if h.is_empty() { "localhost".to_owned() } else { h.to_owned() };
                    Some((host, port))
                },
                None => None,
            }
        },
        None => {
            proof {
                lemma_no_colon(addr@);
                assert(addr@.skip(0) =~= addr@);
            }
            match parse_port(addr) {
                Some(port) => Some(("localhost".to_owned(), port)),
                None => None,
            }
        },
    }
}

/// `host:port`.
pub open spec fn endpoint_text(host: Seq<char>, port: u16) -> Seq<char> {
    host + ":"@ + decimal(port as nat)
}

/// Writes an endpoint.
pub fn format_endpoint(host: &str, port: u16) -> (r: String)
    ensures
        r@ == endpoint_text(host@, port),
{
    let mut s = host.to_owned();
    s.append(":");
    push_decimal(&mut s, port as u64);
    s
}

/// What is written as an endpoint is read back as that endpoint, whatever the
/// host, unless it is empty.
pub proof fn endpoint_round_trip(host: Seq<char>, port: u16)
    requires
        host.len() > 0,
    ensures
        endpoint(endpoint_text(host, port)) == Some((host, port)),
{
    reveal_strlit(":");
    let p = decimal(port as nat);
    let s = endpoint_text(host, port);
    assert(s =~= host + seq![':'] + p);
    lemma_decimal(port as nat);
    assert(!p.contains(':')) by {
        if p.contains(':') {
            let i = choose|i: int| 0 <= i < p.len() && p[i] == ':';
            assert(is_digit(p[i]));
        }
    }
    lemma_after_colon(host, p);
    assert(s.skip(host.len() as int + 1) =~= p);
    assert(s.take(host.len() as int) =~= host);
    assert(is_digit(p[0]));
}

proof fn lemma_decimal(n: nat)
    ensures
        all_digits(decimal(n)),
        digits_value(decimal(n)) == n,
    decreases n,
{
    if n < 10 {
        assert(decimal(n).drop_last() =~= Seq::empty());
        assert(digits_value(decimal(n).drop_last()) == 0);
    } else {
        lemma_decimal(n / 10);
        assert(decimal(n).drop_last() =~= decimal(n / 10));
    }
}

// ---------------------------------------------------------------------
// The mux socket
// ---------------------------------------------------------------------

/// What the host says of the mux daemon.
#[derive(Debug, Clone)]
pub struct MuxEnv {
    /// The platform has Unix sockets.
    pub unix: bool,
    /// `DONGLORA_MUX_TCP`.
    pub mux_tcp: Option<String>,
    /// `DONGLORA_MUX`.
    pub mux: Option<String>,
    /// `XDG_RUNTIME_DIR`.
    pub xdg_runtime_dir: Option<String>,
}

/// What the host says of the mux daemon, as sequences.
pub struct EnvView {
    pub unix: bool,
    pub mux_tcp: Option<Seq<char>>,
    pub mux: Option<Seq<char>>,
    pub xdg_runtime_dir: Option<Seq<char>>,
}

impl View for MuxEnv {
    type V = EnvView;

    open spec fn view(&self) -> EnvView {
        EnvView {
            unix: self.unix,
            mux_tcp: text_view(self.mux_tcp),
            mux: text_view(self.mux),
            xdg_runtime_dir: text_view(self.xdg_runtime_dir),
        }
    }
}

impl EnvView {
    /// The mux socket under a runtime directory.
    pub open spec fn under(dir: Seq<char>) -> Seq<char> {
        dir + "/donglora/mux.sock"@
    }

    /// Where the mux socket is expected.
    pub open spec fn default_path(self) -> Seq<char> {
        match (self.mux, self.xdg_runtime_dir) {
            (Some(path), _) => path,
            (None, Some(dir)) => Self::under(dir),
            (None, None) => "/tmp/donglora-mux.sock"@,
        }
    }

    /// Where the mux socket is looked for, in order. A path that is set is the
    /// only one.
    pub open spec fn candidates(self) -> Seq<Seq<char>> {
        match (self.mux, self.xdg_runtime_dir) {
            (Some(path), _) => seq![path],
            (None, Some(dir)) => seq![Self::under(dir), "/tmp/donglora-mux.sock"@],
            (None, None) => seq!["/tmp/donglora-mux.sock"@],
        }
    }

    /// The TCP endpoint that is set, where it can be read.
    pub open spec fn tcp(self) -> Option<(Seq<char>, u16)> {
        match self.mux_tcp {
            Some(s) => endpoint(s),
            None => None,
        }
    }
}

fn socket_under(dir: &String) -> (r: String)
    ensures
        r@ == EnvView::under(dir@),
{
    let mut s = dir.clone();
    s.append("/donglora/mux.sock");
    s
}

/// Where the mux socket is expected: `DONGLORA_MUX`, or else under
/// `XDG_RUNTIME_DIR`, or else under `/tmp`.
pub fn default_socket_path(env: &MuxEnv) -> (r: String)
    ensures
        r@ == env@.default_path(),
{
    match (&env.mux, &env.xdg_runtime_dir) {
        (Some(path), _) => path.clone(),
        (None, Some(dir)) => socket_under(dir),
        (None, None) => "/tmp/donglora-mux.sock".to_owned(),
    }
}

/// The views of a list of texts.
pub open spec fn text_views(s: Seq<String>) -> Seq<Seq<char>> {
    s.map_values(|t: String| t@)
}

/// Where the mux socket is looked for, in order.
pub fn mux_socket_candidates(env: &MuxEnv) -> (r: Vec<String>)
    ensures
        text_views(r@) == env@.candidates(),
{
    let mut out: Vec<String> = Vec::new();
    match (&env.mux, &env.xdg_runtime_dir) {
        (Some(path), _) => {
            out.push(path.clone());
        },
        (None, Some(dir)) => {
            out.push(socket_under(dir));
            out.push("/tmp/donglora-mux.sock".to_owned());
        },
        (None, None) => {
            out.push("/tmp/donglora-mux.sock".to_owned());
        },
    }
    assert(text_views(out@) =~= env@.candidates());
    out
}

/// The TCP endpoint that is set in the environment.
pub fn tcp_endpoint(env: &MuxEnv) -> (r: Option<(String, u16)>)
    ensures
        endpoint_view(r) == env@.tcp(),
{
    match &env.mux_tcp {
        Some(s) => parse_tcp_endpoint(s.as_str()),
        None => None,
    }
}

/// A search for the mux socket.
#[derive(Debug)]
pub struct SocketSearch {
    candidates: Vec<String>,
    at: usize,
}

/// The state of a search: the paths, and which one is looked at.
#[verifier::ext_equal]
pub struct SearchView {
    pub candidates: Seq<Seq<char>>,
    pub at: int,
}

impl View for SocketSearch {
    type V = SearchView;

    closed spec fn view(&self) -> SearchView {
        SearchView { candidates: text_views(self.candidates@), at: self.at as int }
    }
}

/// What a search does after a look at a path.
#[derive(Debug)]
pub enum SearchStep {
    /// The socket is there.
    Found(String),
    /// Look at the next path.
    Next(SocketSearch),
    /// There is no socket.
    Absent,
}

/// What a search does after a look at a path, with views inside.
pub enum SearchStepView {
    Found(Seq<char>),
    Next(SearchView),
    Absent,
}

impl View for SearchStep {
    type V = SearchStepView;

    open spec fn view(&self) -> SearchStepView {
        match self {
            SearchStep::Found(path) => SearchStepView::Found(path@),
            SearchStep::Next(search) => SearchStepView::Next(search@),
            SearchStep::Absent => SearchStepView::Absent,
        }
    }
}

impl SearchView {
    /// A path is looked at.
    pub open spec fn wf(self) -> bool {
        0 <= self.at < self.candidates.len()
    }

    /// The path that is looked at.
    pub open spec fn path(self) -> Seq<char> {
        self.candidates[self.at]
    }

    /// What follows a look at the path.
    pub open spec fn after(self, present: bool) -> SearchStepView {
        if present {
            SearchStepView::Found(self.path())
        } else if self.at + 1 < self.candidates.len() {
            SearchStepView::Next(SearchView { at: self.at + 1, ..self })
        } else {
            SearchStepView::Absent
        }
    }

    /// What the search leads to where `there` tells which paths are there.
    pub open spec fn result(self, there: spec_fn(Seq<char>) -> bool) -> Option<Seq<char>>
        decreases self.candidates.len() - self.at,
    {
        if !self.wf() {
            None
        } else {
            match self.after(there(self.path())) {
                SearchStepView::Found(path) => Some(path),
                SearchStepView::Next(search) => if search == (SearchView { at: self.at + 1, ..self }) {
                    search.result(there)
                } else {
                    None
                },
                SearchStepView::Absent => None,
            }
        }
    }
}

/// Looks for the mux socket in the places where it can be.
pub fn find_mux_socket(env: &MuxEnv) -> (r: SocketSearch)
    ensures
        r@ == (SearchView { candidates: env@.candidates(), at: 0 }),
        r@.wf(),
{
    let candidates = mux_socket_candidates(env);
    assert(text_views(candidates@).len() == candidates@.len());
    let r = SocketSearch { candidates, at: 0 };
    assert(r@ =~= (SearchView { candidates: env@.candidates(), at: 0 }));
    r
}

impl SocketSearch {
    #[verifier::type_invariant]
    spec fn inv(self) -> bool {
        self.at < self.candidates@.len()
    }

    /// The path to look at.
    pub fn path(&self) -> (r: String)
        ensures
            self@.wf(),
            r@ == self@.path(),
    {
        proof {
            use_type_invariant(self);
        }
        self.candidates[self.at].clone()
    }

    /// Takes whether there is something at the path.
    pub fn on_checked(self, present: bool) -> (r: SearchStep)
        ensures
            self@.wf(),
            r@ == self@.after(present),
    {
        proof {
            use_type_invariant(&self);
        }
        if present {
            return SearchStep::Found(self.path());
        }
        let SocketSearch { candidates, at } = self;
        let len: usize = candidates.len();
        if at + 1 < len {
            SearchStep::Next(SocketSearch { candidates, at: at + 1 })
        } else {
            SearchStep::Absent
        }
    }
}

/// The search finds the first path in order at which something is, and fails
/// only where there is nothing at any of them.
pub proof fn search_finds_the_first(s: SearchView, there: spec_fn(Seq<char>) -> bool)
    requires
        s.wf(),
    ensures
        match s.result(there) {
            Some(path) => there(path) && exists|i: int|
                #![trigger s.candidates[i]]
                s.at <= i < s.candidates.len() && s.candidates[i] == path && forall|j: int|
                    s.at <= j < i ==> !there(#[trigger] s.candidates[j]),
            None => forall|j: int| s.at <= j < s.candidates.len() ==> !there(#[trigger] s.candidates[j]),
        },
    decreases s.candidates.len() - s.at,
{
    let here = s.candidates[s.at];
    if !there(here) && s.at + 1 < s.candidates.len() {
        let next = SearchView { at: s.at + 1, ..s };
        search_finds_the_first(next, there);
        assert(s.result(there) == next.result(there));
    }
}

/// The first socket is the expected one, and a path that is set is the only
/// one that is considered.
pub proof fn socket_priority(env: EnvView)
    ensures
        env.candidates().len() >= 1,
        env.candidates()[0] == env.default_path(),
        env.mux is Some ==> env.candidates() == seq![env.mux->0],
        env.mux is None ==> env.candidates().last() == "/tmp/donglora-mux.sock"@,
{
}

/// Where the mux socket is: the path that is set and no other; or else under
/// the runtime directory, and then under `/tmp`; or else under `/tmp` alone.
pub proof fn socket_places(env: EnvView, path: Seq<char>, dir: Seq<char>)
    ensures
        env.mux == Some(path) ==> env.default_path() == path && env.candidates() == seq![path],
        env.mux is None && env.xdg_runtime_dir == Some(dir) ==> env.default_path() == dir + "/donglora/mux.sock"@
            && env.candidates() == seq![dir + "/donglora/mux.sock"@, "/tmp/donglora-mux.sock"@],
        env.mux is None && env.xdg_runtime_dir is None ==> env.default_path() == "/tmp/donglora-mux.sock"@
            && env.candidates() == seq!["/tmp/donglora-mux.sock"@],
{
}

/// A number is a port exactly where it is at most 65535; a `+` before it and
/// zeros before it change nothing, and what is not a number is no port.
pub proof fn ports_are_numbers(n: nat, s: Seq<char>)
    ensures
        n <= 65535 ==> port_number(decimal(n)) == Some(n as u16),
        n > 65535 ==> port_number(decimal(n)) is None,
        port_number(seq!['+'] + decimal(n)) == port_number(decimal(n)),
        port_number(seq!['0'] + decimal(n)) == port_number(decimal(n)),
        port_number(s) is Some ==> s.len() > 0 && forall|i: int|
            0 <= i < s.len() ==> ('0' <= #[trigger] s[i] <= '9' || (i == 0 && s.len() > 1 && s[i] == '+')),
{
    lemma_decimal(n);
    let d = decimal(n);
    assert(is_digit(d[0]));
    assert((seq!['+'] + d).skip(1) =~= d);
    lemma_leading_zero(d);
    assert forall|i: int| 0 <= i < (seq!['0'] + d).len() implies is_digit(#[trigger] (seq!['0'] + d)[i]) by {
        if i > 0 {
            assert(is_digit(d[i - 1]));
        }
    }
    if port_number(s) is Some {
        let w = without_sign(s);
        assert forall|i: int| 0 <= i < s.len() implies ('0' <= #[trigger] s[i] <= '9' || (i == 0 && s.len() > 1 && s[i]
            == '+')) by {
            if s[0] == '+' {
                if i > 0 {
                    assert(is_digit(w[i - 1]));
                }
            } else {
                assert(is_digit(w[i]));
            }
        }
    }
}

proof fn lemma_leading_zero(d: Seq<char>)
    ensures
        digits_value(seq!['0'] + d) == digits_value(d),
    decreases d.len(),
{
    let z = seq!['0'] + d;
    if d.len() == 0 {
        assert(z.drop_last() =~= Seq::empty());
        assert(digits_value(z.drop_last()) == 0);
    } else {
        lemma_leading_zero(d.drop_last());
        assert(z.drop_last() =~= seq!['0'] + d.drop_last());
    }
}

/// An endpoint is a host, a colon and a port, the last colon counts; without a
/// host, and without a colon, the local host is meant; and where the port is
/// none, there is no endpoint.
pub proof fn endpoints_are_read(host: Seq<char>, p: Seq<char>)
    requires
        !p.contains(':'),
    ensures
        endpoint(host.push(':') + p) is Some <==> port_number(p) is Some,
        endpoint(p) is Some <==> port_number(p) is Some,
        port_number(p) matches Some(port) ==> {
            &&& host.len() > 0 ==> endpoint(host.push(':') + p) == Some((host, port))
            &&& endpoint(seq![':'] + p) == Some(("localhost"@, port))
            &&& endpoint(p) == Some(("localhost"@, port))
        },
{
    let s = host.push(':') + p;
    let bare = Seq::<char>::empty().push(':') + p;
    assert(s =~= host + seq![':'] + p);
    assert(bare =~= Seq::<char>::empty() + seq![':'] + p);
    assert(bare =~= seq![':'] + p);
    lemma_after_colon(host, p);
    lemma_after_colon(Seq::empty(), p);
    lemma_no_colon(p);
    assert(s.skip(host.len() as int + 1) =~= p);
    assert(bare.skip(1) =~= p);
    assert(p.skip(0) =~= p);
    assert(s.take(host.len() as int) =~= host);
}

/// The endpoint of the environment is the one that `DONGLORA_MUX_TCP` names.
pub proof fn environment_names_the_endpoint(env: EnvView, text: Seq<char>)
    ensures
        env.mux_tcp is None ==> env.tcp() is None,
        env.mux_tcp == Some(text) ==> env.tcp() == endpoint(text),
{
}

/// A search looks at the paths one after the other: where there is something at
/// a path, that path is found; otherwise the next one is looked at, and after
/// the last one there is none.
pub proof fn search_goes_through_the_paths(s: SearchView)
    requires
        0 <= s.at < s.candidates.len(),
    ensures
        s.path() == s.candidates[s.at],
        s.after(true) == SearchStepView::Found(s.candidates[s.at]),
        s.at + 1 < s.candidates.len() ==> (s.after(false) matches SearchStepView::Next(n) && n.candidates == s.candidates
            && n.at == s.at + 1),
        s.at + 1 == s.candidates.len() ==> s.after(false) is Absent,
{
}

/// What contracts say of an endpoint is what the endpoint is.
pub proof fn views_keep_endpoints(host: String, port: u16)
    ensures
        endpoint_view(Some((host, port))) == Some((host@, port)),
        endpoint_view(None) is None,
{
}

} // verus!
