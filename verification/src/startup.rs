//! What the server settles at startup: the host name it is reached by, and
//! the options that its environment and its arguments give.

use vstd::prelude::*;
use vstd::string::StringExecFns;
use crate::text::{
    chars_of, eq_ignore_ascii_case, has_prefix, same_ignoring_case, split, split_at_char, str_eq,
    strip_prefix, trim, trimmed,
};

verus! {

/// A host name as it is announced: a name with a dot as it is, any other
/// with `.local` added.
pub open spec fn normalized_host(host: Seq<char>) -> Seq<char> {
    if host.contains('.') {
        host
    } else {
        host + ".local"@
    }
}

/// Makes a host name fit to be announced.
pub fn normalize_hostname(host: String) -> (out: String)
    ensures
        out@ == normalized_host(host@),
{
    let chars: Vec<char> = chars_of(host.as_str());
    let mut i: usize = 0;
    while i < chars.len()
        invariant
            i <= chars@.len(),
            chars@ == host@,
            forall|j: int| 0 <= j < i ==> chars@[j] != '.',
        decreases chars@.len() - i,
    {
        if chars[i] == '.' {
            return host;
        }
        i = i + 1;
    }
    host.concat(".local")
}

/// The host name that a raw value stands for: its text without
/// surrounding white space, normalized; none where that text is empty or
/// is `localhost` in any case.
pub open spec fn usable_host(raw: Seq<char>) -> Option<Seq<char>> {
    let name = trimmed(raw);
    if name.len() == 0 || same_ignoring_case(name, "localhost"@) {
        None
    } else {
        Some(normalized_host(name))
    }
}

/// Reads a host name off a raw value.
pub fn usable_hostname(raw: &str) -> (host: Option<String>)
    ensures
        host.deep_view() == usable_host(raw@),
{
    let name: String = trim(raw);
    if name.as_str().unicode_len() == 0 || eq_ignore_ascii_case(name.as_str(), "localhost") {
        None
    } else {
        Some(normalize_hostname(name))
    }
}

/// The raw host name that counts: the first of the three environment
/// values that is set, else what the operating system reports.
pub open spec fn chosen_raw_host(
    hostname: Option<Seq<char>>,
    host: Option<Seq<char>>,
    computername: Option<Seq<char>>,
    os_host: Seq<char>,
) -> Seq<char> {
    match hostname {
        Some(h) => h,
        None => match host {
            Some(h) => h,
            None => match computername {
                Some(h) => h,
                None => os_host,
            },
        },
    }
}

/// Settles the machine's host name from the values of `HOSTNAME`, `HOST`
/// and `COMPUTERNAME`, as far as they are set, and from what the operating
/// system reports.
pub fn detect_hostname(
    hostname: Option<String>,
    host: Option<String>,
    computername: Option<String>,
    os_host: &str,
) -> (found: Option<String>)
    ensures
        found.deep_view() == usable_host(
            chosen_raw_host(
                hostname.deep_view(),
                host.deep_view(),
                computername.deep_view(),
                os_host@,
            ),
        ),
{
    match hostname {
        Some(h) => usable_hostname(h.as_str()),
        None => match host {
            Some(h) => usable_hostname(h.as_str()),
            None => match computername {
                Some(h) => usable_hostname(h.as_str()),
                None => usable_hostname(os_host),
            },
        },
    }
}

/// The order of two texts: character by character, a proper prefix first.
pub open spec fn text_lt(a: Seq<char>, b: Seq<char>) -> bool
    decreases a.len(),
{
    if b.len() == 0 {
        false
    } else if a.len() == 0 {
        true
    } else if a[0] != b[0] {
        a[0] < b[0]
    } else {
        text_lt(a.drop_first(), b.drop_first())
    }
}

/// Of two different texts one comes before the other.
pub proof fn lemma_text_order_total(a: Seq<char>, b: Seq<char>)
    ensures
        a == b || text_lt(a, b) || text_lt(b, a),
        !(text_lt(a, b) && text_lt(b, a)),
        a == b ==> !text_lt(a, b),
    decreases a.len(),
{
    if a.len() > 0 && b.len() > 0 && a[0] == b[0] {
        lemma_text_order_total(a.drop_first(), b.drop_first());
        if a.drop_first() == b.drop_first() {
            assert(b =~= seq![b[0]] + b.drop_first());
        }
    }
}

/// The order of texts is transitive.
pub proof fn lemma_text_order_transitive(a: Seq<char>, b: Seq<char>, c: Seq<char>)
    requires
        text_lt(a, b),
        text_lt(b, c),
    ensures
        text_lt(a, c),
    decreases a.len(),
{
    if a.len() > 0 && a[0] == b[0] && b[0] == c[0] {
        lemma_text_order_transitive(a.drop_first(), b.drop_first(), c.drop_first());
    }
}

/// Whether one text comes before another.
pub fn text_before(a: &[char], b: &[char]) -> (before: bool)
    ensures
        before == text_lt(a@, b@),
{
    let mut i: usize = 0;
    assert(a@.subrange(0, a@.len() as int) =~= a@);
    assert(b@.subrange(0, b@.len() as int) =~= b@);
    loop
        invariant
            i <= a@.len(),
            i <= b@.len(),
            text_lt(a@, b@) == text_lt(
                a@.subrange(i as int, a@.len() as int),
                b@.subrange(i as int, b@.len() as int),
            ),
        decreases a@.len() - i,
    {
        let ghost x = a@.subrange(i as int, a@.len() as int);
        let ghost y = b@.subrange(i as int, b@.len() as int);
        if i >= b.len() {
            return false;
        }
        if i >= a.len() {
            return true;
        }
        if a[i] != b[i] {
            return a[i] < b[i];
        }
        assert(x.drop_first() =~= a@.subrange(i as int + 1, a@.len() as int));
        assert(y.drop_first() =~= b@.subrange(i as int + 1, b@.len() as int));
        i = i + 1;
    }
}

/// A list of host names in strictly ascending order.
pub open spec fn ascending(hosts: Seq<Seq<char>>) -> bool {
    forall|i: int| 0 <= i && i + 1 < hosts.len() ==> text_lt(#[trigger] hosts[i], hosts[i + 1])
}

/// How many names at the start of the list come before `name`.
pub open spec fn rank(hosts: Seq<Seq<char>>, name: Seq<char>) -> int
    decreases hosts.len(),
{
    if hosts.len() == 0 || !text_lt(hosts[0], name) {
        0
    } else {
        1 + rank(hosts.drop_first(), name)
    }
}

/// The list with a name added in its place; a name that is listed is not
/// added again.
pub open spec fn with_host(hosts: Seq<Seq<char>>, name: Seq<char>) -> Seq<Seq<char>> {
    if hosts.contains(name) {
        hosts
    } else {
        hosts.insert(rank(hosts, name), name)
    }
}

/// The rank is the first position whose name does not come before `name`.
pub proof fn lemma_rank(hosts: Seq<Seq<char>>, name: Seq<char>, k: int)
    requires
        0 <= k <= hosts.len(),
        forall|i: int| 0 <= i < k ==> text_lt(hosts[i], name),
        k == hosts.len() || !text_lt(hosts[k], name),
    ensures
        rank(hosts, name) == k,
    decreases hosts.len(),
{
    if hosts.len() > 0 && k > 0 {
        let rest = hosts.drop_first();
        lemma_rank(rest, name, k - 1);
    }
}

/// The rank lies within the list, with only earlier names before it.
pub proof fn lemma_rank_bounds(hosts: Seq<Seq<char>>, name: Seq<char>)
    ensures
        0 <= rank(hosts, name) <= hosts.len(),
        forall|i: int| 0 <= i < rank(hosts, name) ==> text_lt(hosts[i], name),
        rank(hosts, name) == hosts.len() || !text_lt(hosts[rank(hosts, name)], name),
    decreases hosts.len(),
{
    if hosts.len() > 0 && text_lt(hosts[0], name) {
        let rest = hosts.drop_first();
        lemma_rank_bounds(rest, name);
        assert forall|i: int| 0 <= i < rank(hosts, name) implies text_lt(hosts[i], name) by {
            if i > 0 {
                assert(rest[i - 1] == hosts[i]);
            }
        }
    }
}

/// A name put in at its rank keeps the list in strictly ascending order.
proof fn lemma_insert_ascending(hosts: Seq<Seq<char>>, name: Seq<char>)
    requires
        ascending(hosts),
        !hosts.contains(name),
    ensures
        ascending(hosts.insert(rank(hosts, name), name)),
{
    let k = rank(hosts, name);
    lemma_rank_bounds(hosts, name);
    let out = hosts.insert(k, name);
    assert forall|i: int| 0 <= i && i + 1 < out.len() implies text_lt(#[trigger] out[i], out[i + 1]) by {
        if i == k {
            lemma_text_order_total(hosts[k], name);
        }
    }
}

/// A list with a name put in holds that name and what it held before,
/// nothing else.
proof fn lemma_insert_members(hosts: Seq<Seq<char>>, k: int, name: Seq<char>, other: Seq<char>)
    requires
        0 <= k <= hosts.len(),
    ensures
        hosts.insert(k, name).contains(other) <==> (other == name || hosts.contains(other)),
{
    let out = hosts.insert(k, name);
    assert(out[k] == name);
    if hosts.contains(other) {
        let i = choose|i: int| 0 <= i < hosts.len() && hosts[i] == other;
        if i < k {
            assert(out[i] == other);
        } else {
            assert(out[i + 1] == other);
        }
    }
}

/// Adding a name keeps the list in strictly ascending order, and the list
/// then holds that name and what it held before, nothing else.
pub proof fn lemma_with_host(hosts: Seq<Seq<char>>, name: Seq<char>)
    requires
        ascending(hosts),
    ensures
        ascending(with_host(hosts, name)),
        with_host(hosts, name).contains(name),
        forall|other: Seq<char>|
            with_host(hosts, name).contains(other) <==> (other == name || hosts.contains(other)),
{
    if !hosts.contains(name) {
        lemma_rank_bounds(hosts, name);
        lemma_insert_ascending(hosts, name);
        lemma_insert_members(hosts, rank(hosts, name), name, name);
        assert forall|other: Seq<char>|
            with_host(hosts, name).contains(other) <==> (other == name || hosts.contains(
                other,
            )) by {
            lemma_insert_members(hosts, rank(hosts, name), name, other);
        }
    }
}

/// Adds a host name to a list in ascending order.
pub fn insert_host(hosts: &mut Vec<String>, name: String)
    ensures
        final(hosts).deep_view() == with_host(old(hosts).deep_view(), name@),
{
    let ghost before = hosts.deep_view();
    let n: usize = hosts.len();
    let mut i: usize = 0;
    while i < n
        invariant
            i <= n,
            n == hosts@.len(),
            hosts.deep_view() == before,
            forall|j: int| 0 <= j < i ==> before[j] != name@,
        decreases n - i,
    {
        assert(before[i as int] == hosts@[i as int]@);
        if str_eq(hosts[i].as_str(), name.as_str()) {
            return;
        }
        i = i + 1;
    }
    let key: Vec<char> = chars_of(name.as_str());
    let mut k: usize = 0;
    let mut placed: bool = false;
    while k < n && !placed
        invariant
            k <= n,
            n == hosts@.len(),
            hosts.deep_view() == before,
            key@ == name@,
            forall|j: int| 0 <= j < k ==> text_lt(before[j], name@),
            placed ==> k < n && !text_lt(before[k as int], name@),
        decreases n - k + (if placed { 0int } else { 1int }),
    {
        let here: Vec<char> = chars_of(hosts[k].as_str());
        if text_before(here.as_slice(), key.as_slice()) {
            k = k + 1;
        } else {
            placed = true;
        }
    }
    proof {
        lemma_rank(before, name@, k as int);
    }
    hosts.insert(k, name);
}

/// The values of the environment variables that the startup options read,
/// as far as they are set: `NOIRTTY_INSECURE`, `NOIRTTY_HTTPS`,
/// `NOIRTTY_RESET_AUTH`, `NOIRTTY_HOST` and `NOIRTTY_CERT_HOSTS`.
#[derive(Debug, PartialEq, Eq)]
pub struct TlsEnv {
    pub insecure: Option<String>,
    pub https: Option<String>,
    pub reset_auth: Option<String>,
    pub host: Option<String>,
    pub cert_hosts: Option<String>,
}

/// The startup options.
#[derive(Debug, PartialEq, Eq)]
pub struct TlsOptions {
    /// Serve over HTTPS; the default.
    pub use_https: bool,
    /// The host names for the certificate, in ascending order.
    pub cert_hosts: Vec<String>,
    /// Drop the stored credential at startup.
    pub reset_auth: bool,
    /// The host that clients reach the server by, if one is known.
    pub rp_host: Option<String>,
}

/// The startup options as contracts see them.
pub struct TlsOptionsView {
    pub use_https: bool,
    pub cert_hosts: Seq<Seq<char>>,
    pub reset_auth: bool,
    pub rp_host: Option<Seq<char>>,
}

impl View for TlsOptions {
    type V = TlsOptionsView;

    open spec fn view(&self) -> TlsOptionsView {
        TlsOptionsView {
            use_https: self.use_https,
            cert_hosts: self.cert_hosts.deep_view(),
            reset_auth: self.reset_auth,
            rp_host: self.rp_host.deep_view(),
        }
    }
}

/// A value that switches something on: `1`, or `true` in any case.
pub open spec fn is_on(value: Seq<char>) -> bool {
    value == "1"@ || same_ignoring_case(value, "true"@)
}

/// A value that switches something off: `0`, or `false` in any case.
pub open spec fn is_off(value: Seq<char>) -> bool {
    value == "0"@ || same_ignoring_case(value, "false"@)
}

/// One of the names that every certificate carries.
pub open spec fn is_local_name(name: Seq<char>) -> bool {
    name == "localhost"@ || name == "127.0.0.1"@ || name == "::1"@
}

/// The list with the names of `pieces` added, each without surrounding
/// white space; an empty one is left out.
pub open spec fn with_pieces(hosts: Seq<Seq<char>>, pieces: Seq<Seq<char>>) -> Seq<Seq<char>>
    decreases pieces.len(),
{
    if pieces.len() == 0 {
        hosts
    } else {
        let name = trimmed(pieces[0]);
        with_pieces(
            if name.len() == 0 {
                hosts
            } else {
                with_host(hosts, name)
            },
            pieces.drop_first(),
        )
    }
}

/// The list with the names of a comma-separated value added.
pub open spec fn with_listed(hosts: Seq<Seq<char>>, value: Seq<char>) -> Seq<Seq<char>> {
    with_pieces(hosts, split_at_char(value, ','))
}

/// The names that every certificate carries, in ascending order.
pub open spec fn local_names() -> Seq<Seq<char>> {
    with_host(with_host(with_host(Seq::<Seq<char>>::empty(), "localhost"@), "127.0.0.1"@), "::1"@)
}

/// The options that the environment alone gives.
pub open spec fn from_env(
    insecure: Option<Seq<char>>,
    https: Option<Seq<char>>,
    reset_auth: Option<Seq<char>>,
    host: Option<Seq<char>>,
    cert_hosts: Option<Seq<char>>,
) -> TlsOptionsView {
    let named = match host {
        Some(h) => with_host(local_names(), h),
        None => local_names(),
    };
    TlsOptionsView {
        use_https: !((insecure matches Some(v) && is_on(v)) || (https matches Some(v) && is_off(
            v,
        ))),
        cert_hosts: match cert_hosts {
            Some(v) => with_listed(named, v),
            None => named,
        },
        reset_auth: reset_auth matches Some(v) && is_on(v),
        rp_host: host,
    }
}

/// The rest of an argument after a prefix.
pub open spec fn after_prefix(arg: Seq<char>, prefix: Seq<char>) -> Seq<char> {
    arg.subrange(prefix.len() as int, arg.len() as int)
}

/// The options after one more argument. An argument that is not known
/// changes nothing.
pub open spec fn with_arg(o: TlsOptionsView, arg: Seq<char>) -> TlsOptionsView {
    if arg == "--insecure"@ || arg == "--http"@ {
        TlsOptionsView { use_https: false, ..o }
    } else if arg == "--reset-auth"@ {
        TlsOptionsView { reset_auth: true, ..o }
    } else if has_prefix(arg, "--host="@) {
        TlsOptionsView {
            rp_host: Some(after_prefix(arg, "--host="@)),
            cert_hosts: with_host(o.cert_hosts, after_prefix(arg, "--host="@)),
            ..o
        }
    } else if has_prefix(arg, "--cert-hosts="@) {
        TlsOptionsView {
            cert_hosts: with_listed(o.cert_hosts, after_prefix(arg, "--cert-hosts="@)),
            ..o
        }
    } else {
        o
    }
}

/// The options after a run of arguments, taken in order.
pub open spec fn with_args(o: TlsOptionsView, args: Seq<Seq<char>>) -> TlsOptionsView
    decreases args.len(),
{
    if args.len() == 0 {
        o
    } else {
        with_args(with_arg(o, args[0]), args.drop_first())
    }
}

/// The first name of the list that is not a local name.
pub open spec fn first_public(hosts: Seq<Seq<char>>) -> Option<Seq<char>>
    decreases hosts.len(),
{
    if hosts.len() == 0 {
        None
    } else if !is_local_name(hosts[0]) {
        Some(hosts[0])
    } else {
        first_public(hosts.drop_first())
    }
}

/// The options with the host settled: where neither the environment nor
/// an argument named one, it is the machine's host name, which then joins
/// the list, or else the first listed name that is not local.
pub open spec fn settled(o: TlsOptionsView, detected: Option<Seq<char>>) -> TlsOptionsView {
    if o.rp_host is Some {
        o
    } else {
        match detected {
            Some(h) => TlsOptionsView { rp_host: Some(h), cert_hosts: with_host(o.cert_hosts, h), ..o },
            None => TlsOptionsView { rp_host: first_public(o.cert_hosts), ..o },
        }
    }
}

/// The startup options that the environment, the arguments after the
/// program's name and the machine's host name give.
pub open spec fn tls_options(
    insecure: Option<Seq<char>>,
    https: Option<Seq<char>>,
    reset_auth: Option<Seq<char>>,
    host: Option<Seq<char>>,
    cert_hosts: Option<Seq<char>>,
    args: Seq<Seq<char>>,
    detected: Option<Seq<char>>,
) -> TlsOptionsView {
    settled(with_args(from_env(insecure, https, reset_auth, host, cert_hosts), args), detected)
}

/// Whether a value switches something on.
pub fn value_is_on(value: &str) -> (on: bool)
    ensures
        on == is_on(value@),
{
    str_eq(value, "1") || eq_ignore_ascii_case(value, "true")
}

/// Whether a value switches something off.
pub fn value_is_off(value: &str) -> (off: bool)
    ensures
        off == is_off(value@),
{
    str_eq(value, "0") || eq_ignore_ascii_case(value, "false")
}

/// Adds the names of a comma-separated value to a list in ascending order.
pub fn insert_listed_hosts(hosts: &mut Vec<String>, value: &str)
    ensures
        final(hosts).deep_view() == with_listed(old(hosts).deep_view(), value@),
{
    let pieces: Vec<String> = split(value, ',');
    let ghost all = pieces.deep_view();
    let ghost start = hosts.deep_view();
    let mut i: usize = 0;
    assert(all.subrange(0, all.len() as int) =~= all);
    while i < pieces.len()
        invariant
            i <= pieces@.len(),
            all == pieces.deep_view(),
            all == split_at_char(value@, ','),
            with_pieces(hosts.deep_view(), all.subrange(i as int, all.len() as int)) == with_pieces(
                start,
                all,
            ),
        decreases pieces@.len() - i,
    {
        let ghost rest = all.subrange(i as int, all.len() as int);
        assert(rest.drop_first() =~= all.subrange(i as int + 1, all.len() as int));
        let name: String = trim(pieces[i].as_str());
        if name.as_str().unicode_len() != 0 {
            insert_host(hosts, name);
        }
        i = i + 1;
    }
}

/// Whether a name is one of those that every certificate carries.
pub fn name_is_local(name: &str) -> (local: bool)
    ensures
        local == is_local_name(name@),
{
    str_eq(name, "localhost") || str_eq(name, "127.0.0.1") || str_eq(name, "::1")
}

/// The first name of a list that is not a local name.
pub fn first_public_host(hosts: &Vec<String>) -> (found: Option<String>)
    ensures
        found.deep_view() == first_public(hosts.deep_view()),
{
    let ghost all = hosts.deep_view();
    let mut i: usize = 0;
    assert(all.subrange(0, all.len() as int) =~= all);
    while i < hosts.len()
        invariant
            i <= hosts@.len(),
            all == hosts.deep_view(),
            first_public(all.subrange(i as int, all.len() as int)) == first_public(all),
        decreases hosts@.len() - i,
    {
        let ghost rest = all.subrange(i as int, all.len() as int);
        assert(rest.drop_first() =~= all.subrange(i as int + 1, all.len() as int));
        if !name_is_local(hosts[i].as_str()) {
            return Some(hosts[i].clone());
        }
        i = i + 1;
    }
    None
}

/// Applies one argument to the options.
fn apply_arg(options: &mut TlsOptions, arg: &str)
    ensures
        final(options)@ == with_arg(old(options)@, arg@),
{
    if str_eq(arg, "--insecure") || str_eq(arg, "--http") {
        options.use_https = false;
    } else if str_eq(arg, "--reset-auth") {
        options.reset_auth = true;
    } else if let Some(value) = strip_prefix(arg, "--host=") {
        options.rp_host = Some(value.clone());
        insert_host(&mut options.cert_hosts, value);
    } else if let Some(value) = strip_prefix(arg, "--cert-hosts=") {
        insert_listed_hosts(&mut options.cert_hosts, value.as_str());
    }
}

/// Works out the startup options. `args` are the arguments after the
/// program's name, and `detected` is the machine's host name, if it has a
/// usable one.
pub fn parse_tls_args(env: TlsEnv, args: &Vec<String>, detected: Option<String>) -> (options:
    TlsOptions)
    ensures
        options@ == tls_options(
            env.insecure.deep_view(),
            env.https.deep_view(),
            env.reset_auth.deep_view(),
            env.host.deep_view(),
            env.cert_hosts.deep_view(),
            args.deep_view(),
            detected.deep_view(),
        ),
{
    let mut hosts: Vec<String> = Vec::new();
    assert(hosts.deep_view() =~= Seq::<Seq<char>>::empty());
    insert_host(&mut hosts, String::from_str("localhost"));
    insert_host(&mut hosts, String::from_str("127.0.0.1"));
    insert_host(&mut hosts, String::from_str("::1"));
    let mut options = TlsOptions { use_https: true, cert_hosts: hosts, reset_auth: false, rp_host: None };
    if let Some(value) = &env.insecure {
        if value_is_on(value.as_str()) {
            options.use_https = false;
        }
    }
    if let Some(value) = &env.https {
        if value_is_off(value.as_str()) {
            options.use_https = false;
        }
    }
    if let Some(value) = &env.reset_auth {
        if value_is_on(value.as_str()) {
            options.reset_auth = true;
        }
    }
    if let Some(value) = &env.host {
        options.rp_host = Some(value.clone());
        insert_host(&mut options.cert_hosts, value.clone());
    }
    if let Some(value) = &env.cert_hosts {
        insert_listed_hosts(&mut options.cert_hosts, value.as_str());
    }
    let ghost base = options@;
    let ghost all = args.deep_view();
    assert(base == from_env(
        env.insecure.deep_view(),
        env.https.deep_view(),
        env.reset_auth.deep_view(),
        env.host.deep_view(),
        env.cert_hosts.deep_view(),
    ));
    let mut i: usize = 0;
    assert(all.subrange(0, all.len() as int) =~= all);
    while i < args.len()
        invariant
            i <= args@.len(),
            all == args.deep_view(),
            with_args(options@, all.subrange(i as int, all.len() as int)) == with_args(base, all),
        decreases args@.len() - i,
    {
        let ghost rest = all.subrange(i as int, all.len() as int);
        assert(rest.drop_first() =~= all.subrange(i as int + 1, all.len() as int));
        apply_arg(&mut options, args[i].as_str());
        i = i + 1;
    }
    if options.rp_host.is_none() {
        match detected {
            Some(host) => {
                options.rp_host = Some(host.clone());
                insert_host(&mut options.cert_hosts, host);
            },
            None => {
                options.rp_host = first_public_host(&options.cert_hosts);
            },
        }
    }
    options
}

/// The host names for the certificate come out in strictly ascending
/// order, whatever the environment and the arguments give.
pub proof fn lemma_pieces_ascending(hosts: Seq<Seq<char>>, pieces: Seq<Seq<char>>)
    requires
        ascending(hosts),
    ensures
        ascending(with_pieces(hosts, pieces)),
    decreases pieces.len(),
{
    if pieces.len() > 0 {
        let name = trimmed(pieces[0]);
        if name.len() != 0 {
            lemma_with_host(hosts, name);
            lemma_pieces_ascending(with_host(hosts, name), pieces.drop_first());
        } else {
            lemma_pieces_ascending(hosts, pieces.drop_first());
        }
    }
}

/// Arguments keep the list of host names in strictly ascending order.
pub proof fn lemma_args_ascending(o: TlsOptionsView, args: Seq<Seq<char>>)
    requires
        ascending(o.cert_hosts),
    ensures
        ascending(with_args(o, args).cert_hosts),
    decreases args.len(),
{
    if args.len() > 0 {
        let arg = args[0];
        lemma_with_host(o.cert_hosts, after_prefix(arg, "--host="@));
        lemma_pieces_ascending(
            o.cert_hosts,
            split_at_char(after_prefix(arg, "--cert-hosts="@), ','),
        );
        lemma_args_ascending(with_arg(o, arg), args.drop_first());
    }
}

/// The startup options list the certificate's host names in strictly
/// ascending order, so that none occurs twice.
pub proof fn lemma_cert_hosts_ascending(
    insecure: Option<Seq<char>>,
    https: Option<Seq<char>>,
    reset_auth: Option<Seq<char>>,
    host: Option<Seq<char>>,
    cert_hosts: Option<Seq<char>>,
    args: Seq<Seq<char>>,
    detected: Option<Seq<char>>,
)
    ensures
        ascending(
            tls_options(insecure, https, reset_auth, host, cert_hosts, args, detected).cert_hosts,
        ),
{
    let empty = Seq::<Seq<char>>::empty();
    lemma_with_host(empty, "localhost"@);
    lemma_with_host(with_host(empty, "localhost"@), "127.0.0.1"@);
    lemma_with_host(with_host(with_host(empty, "localhost"@), "127.0.0.1"@), "::1"@);
    let named = match host {
        Some(h) => with_host(local_names(), h),
        None => local_names(),
    };
    if host is Some {
        lemma_with_host(local_names(), host->0);
    }
    if cert_hosts is Some {
        lemma_pieces_ascending(named, split_at_char(cert_hosts->0, ','));
    }
    let env = from_env(insecure, https, reset_auth, host, cert_hosts);
    lemma_args_ascending(env, args);
    let o = with_args(env, args);
    if detected is Some {
        lemma_with_host(o.cert_hosts, detected->0);
    }
}

} // verus!
