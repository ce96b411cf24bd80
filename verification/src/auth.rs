//! The authorization gate: bearer-token checking against a configured key
//! list, then a per-token rate limit.
//!
//! The key list is a comma-separated string; entries are trimmed of ASCII
//! whitespace and empty entries are dropped. With no keys configured,
//! every request passes.
use vstd::prelude::*;
use vstd::string::StrSliceExecFns;

verus! {

/// Default per-token quota: requests per minute.
pub const DEFAULT_RATE_LIMIT_PER_MINUTE: u32 = 60;

/// ASCII whitespace, as trimmed from configured keys.
pub open spec fn is_ascii_space(c: char) -> bool {
    c == ' ' || c == '\t' || c == '\n' || c == '\r'
}

/// The first position at or after `i` holding no whitespace.
pub open spec fn ltrim_idx(s: Seq<char>, i: int) -> int
    decreases s.len() - i,
{
    if 0 <= i < s.len() && is_ascii_space(s[i]) {
        ltrim_idx(s, i + 1)
    } else {
        i
    }
}

/// The last position at or before `j` with no whitespace just before it.
pub open spec fn rtrim_idx(s: Seq<char>, j: int) -> int
    decreases j,
{
    if 0 < j <= s.len() && is_ascii_space(s[j - 1]) {
        rtrim_idx(s, j - 1)
    } else {
        j
    }
}

/// `s` with leading and trailing ASCII whitespace removed.
pub open spec fn trim_spaces(s: Seq<char>) -> Seq<char> {
    let a = ltrim_idx(s, 0);
    let b = rtrim_idx(s, s.len() as int);
    if a <= b {
        s.subrange(a, b)
    } else {
        Seq::<char>::empty()
    }
}

proof fn lemma_ltrim_bounds(s: Seq<char>, i: int)
    requires
        0 <= i <= s.len(),
    ensures
        i <= ltrim_idx(s, i) <= s.len(),
    decreases s.len() - i,
{
    if i < s.len() && is_ascii_space(s[i]) {
        lemma_ltrim_bounds(s, i + 1);
    }
}

proof fn lemma_rtrim_bounds(s: Seq<char>, j: int)
    requires
        0 <= j <= s.len(),
    ensures
        0 <= rtrim_idx(s, j) <= j,
    decreases j,
{
    if 0 < j && is_ascii_space(s[j - 1]) {
        lemma_rtrim_bounds(s, j - 1);
    }
}

fn char_is_space(c: char) -> (r: bool)
    ensures
        r == is_ascii_space(c),
{
    c == ' ' || c == '\t' || c == '\n' || c == '\r'
}

/// Remove leading and trailing ASCII whitespace.
pub fn trim_ascii_spaces(s: &str) -> (r: String)
    ensures
        r@ == trim_spaces(s@),
{
    let n = s.unicode_len();
    proof {
        lemma_ltrim_bounds(s@, 0);
    }
    let mut a: usize = 0;
    while a < n && char_is_space(s.get_char(a))
        invariant
            n == s@.len(),
            0 <= a <= n,
            ltrim_idx(s@, 0) == ltrim_idx(s@, a as int),
        decreases n - a,
    {
        a = a + 1;
    }
    if a == n {
        proof {
            lemma_rtrim_bounds(s@, n as int);
            if ltrim_idx(s@, 0) <= rtrim_idx(s@, n as int) {
                assert(s@.subrange(ltrim_idx(s@, 0), rtrim_idx(s@, n as int)) =~= Seq::<
                    char,
                >::empty());
            }
        }
        return String::new();
    }
    proof {
        lemma_rtrim_bounds(s@, n as int);
    }
    let mut b: usize = n;
    while b > a && char_is_space(s.get_char(b - 1))
        invariant
            n == s@.len(),
            a < n,
            !is_ascii_space(s@[a as int]),
            a < b <= n,
            rtrim_idx(s@, n as int) == rtrim_idx(s@, b as int),
        decreases b,
    {
        b = b - 1;
    }
    proof {
        assert(rtrim_idx(s@, b as int) == b);
        assert(ltrim_idx(s@, a as int) == a);
    }
    s.substring_char(a, b).to_owned()
}

/// The comma-separated tokens of `s`, given the part of the current token
/// already read.
pub open spec fn csv_tokens(s: Seq<char>, cur: Seq<char>) -> Seq<Seq<char>>
    decreases s.len(),
{
    if s.len() == 0 {
        seq![cur]
    } else if s[0] == ',' {
        seq![cur] + csv_tokens(s.drop_first(), Seq::<char>::empty())
    } else {
        csv_tokens(s.drop_first(), cur.push(s[0]))
    }
}

/// The comma-separated tokens of `s`, untrimmed.
pub open spec fn split_commas(s: Seq<char>) -> Seq<Seq<char>> {
    csv_tokens(s, Seq::<char>::empty())
}

/// The keys among a token list: each token trimmed, empty ones dropped.
pub open spec fn keys_of_tokens(ts: Seq<Seq<char>>) -> Seq<Seq<char>>
    decreases ts.len(),
{
    if ts.len() == 0 {
        Seq::<Seq<char>>::empty()
    } else {
        (if trim_spaces(ts[0]).len() == 0 {
            Seq::<Seq<char>>::empty()
        } else {
            seq![trim_spaces(ts[0])]
        }) + keys_of_tokens(ts.drop_first())
    }
}

/// The configured keys of a comma-separated list.
pub open spec fn api_keys_of(s: Seq<char>) -> Seq<Seq<char>> {
    keys_of_tokens(split_commas(s))
}

fn split_commas_exec(s: &str) -> (r: Vec<String>)
    ensures
        r@.len() == split_commas(s@).len(),
        forall|i: int| 0 <= i < r@.len() ==> r@[i]@ == split_commas(s@)[i],
{
    let n = s.unicode_len();
    let mut done: Vec<String> = Vec::new();
    let mut cur = String::new();
    let mut i: usize = 0;
    proof {
        assert(s@.skip(0) =~= s@);
        assert(Seq::new(done@.len(), |k: int| done@[k]@) + csv_tokens(s@, cur@) =~= csv_tokens(
            s@,
            cur@,
        ));
    }
    while i < n
        invariant
            n == s@.len(),
            0 <= i <= n,
            split_commas(s@) == Seq::new(done@.len(), |k: int| done@[k]@) + csv_tokens(
                s@.skip(i as int),
                cur@,
            ),
        decreases n - i,
    {
        let ghost pre_done = Seq::new(done@.len(), |k: int| done@[k]@);
        let c = s.get_char(i);
        proof {
            assert(s@.skip(i as int)[0] == s@[i as int]);
            assert(s@.skip(i as int).drop_first() =~= s@.skip(i + 1));
        }
        if c == ',' {
            done.push(cur);
            cur = String::new();
            proof {
                assert(Seq::new(done@.len(), |k: int| done@[k]@) =~= pre_done.push(
                    done@[done@.len() - 1]@,
                ));
                assert(pre_done.push(done@[done@.len() - 1]@) + csv_tokens(
                    s@.skip(i + 1),
                    Seq::<char>::empty(),
                ) =~= pre_done + (seq![done@[done@.len() - 1]@] + csv_tokens(
                    s@.skip(i + 1),
                    Seq::<char>::empty(),
                )));
            }
        } else {
            cur.push(c);
        }
        i = i + 1;
    }
    proof {
        assert(s@.skip(n as int) =~= Seq::<char>::empty());
    }
    let ghost pre_done = Seq::new(done@.len(), |k: int| done@[k]@);
    done.push(cur);
    proof {
        assert(Seq::new(done@.len(), |k: int| done@[k]@) =~= pre_done.push(
            done@[done@.len() - 1]@,
        ));
        assert(pre_done.push(done@[done@.len() - 1]@) =~= pre_done + seq![done@[done@.len() - 1]@]);
    }
    done
}

proof fn lemma_keys_take_step(ts: Seq<Seq<char>>, i: int)
    requires
        0 <= i < ts.len(),
    ensures
        keys_of_tokens(ts.subrange(0, i + 1)) == keys_of_tokens(ts.subrange(0, i)) + (if trim_spaces(
            ts[i],
        ).len() == 0 {
            Seq::<Seq<char>>::empty()
        } else {
            seq![trim_spaces(ts[i])]
        }),
    decreases i,
{
    let a = ts.subrange(0, i + 1);
    let b = ts.subrange(0, i);
    let tail = (if trim_spaces(ts[i]).len() == 0 {
        Seq::<Seq<char>>::empty()
    } else {
        seq![trim_spaces(ts[i])]
    });
    if i == 0 {
        assert(a.drop_first() =~= Seq::<Seq<char>>::empty());
        assert(b =~= Seq::<Seq<char>>::empty());
        assert(a[0] == ts[0]);
        assert(keys_of_tokens(a) =~= keys_of_tokens(b) + tail);
    } else {
        lemma_keys_take_step(ts.drop_first(), i - 1);
        assert(a.drop_first() =~= ts.drop_first().subrange(0, i));
        assert(b.drop_first() =~= ts.drop_first().subrange(0, i - 1));
        assert(ts.drop_first()[i - 1] == ts[i]);
        assert(a[0] == ts[0] && b[0] == ts[0]);
        assert(keys_of_tokens(a) =~= keys_of_tokens(b) + tail);
    }
}

/// Parse a comma-separated key list: split, trim, drop empty entries.
pub fn parse_api_keys(s: &str) -> (r: Vec<String>)
    ensures
        r@.len() == api_keys_of(s@).len(),
        forall|i: int| 0 <= i < r@.len() ==> r@[i]@ == api_keys_of(s@)[i],
{
    let tokens = split_commas_exec(s);
    let ghost ts = split_commas(s@);
    proof {
        assert(Seq::new(tokens@.len(), |k: int| tokens@[k]@) =~= ts);
    }
    let n = tokens.len();
    let mut keys: Vec<String> = Vec::new();
    let mut i: usize = 0;
    while i < n
        invariant
            n == tokens@.len(),
            ts == split_commas(s@),
            ts.len() == n,
            forall|k: int| 0 <= k < n ==> tokens@[k]@ == ts[k],
            0 <= i <= n,
            keys@.len() == keys_of_tokens(ts.subrange(0, i as int)).len(),
            forall|k: int|
                0 <= k < keys@.len() ==> keys@[k]@ == keys_of_tokens(ts.subrange(0, i as int))[k],
        decreases n - i,
    {
        proof {
            lemma_keys_take_step(ts, i as int);
        }
        let t = trim_ascii_spaces(tokens[i].as_str());
        if !t.as_str().is_empty() {
            keys.push(t);
        }
        i = i + 1;
    }
    proof {
        assert(ts.subrange(0, n as int) =~= ts);
    }
    keys
}

/// The token of a `Bearer <token>` authorization header.
pub open spec fn bearer_token_of(h: Seq<char>) -> Option<Seq<char>> {
    if h.len() >= 7 && h.subrange(0, 7) == "Bearer "@ {
        Some(h.skip(7))
    } else {
        None
    }
}

/// Strip the `Bearer ` prefix off an authorization header.
pub fn bearer_token(h: &str) -> (r: Option<String>)
    ensures
        match r {
            Some(t) => bearer_token_of(h@) == Some(t@),
            None => bearer_token_of(h@) is None,
        },
{
    let n = h.unicode_len();
    if n < 7 {
        return None;
    }
    let prefix = h.substring_char(0, 7).to_owned();
    if prefix == String::from_str("Bearer ") {
        let token = h.substring_char(7, n).to_owned();
        proof {
            assert(h@.subrange(7, n as int) =~= h@.skip(7));
        }
        Some(token)
    } else {
        None
    }
}

/// Whether `token` stands in the key list.
pub open spec fn key_matches(keys: Seq<Seq<char>>, token: Seq<char>) -> bool {
    exists|i: int| 0 <= i < keys.len() && keys[i] == token
}

fn token_in_keys(keys: &Vec<String>, token: &String) -> (r: bool)
    ensures
        r == key_matches(Seq::new(keys@.len(), |i: int| keys@[i]@), token@),
{
    let ghost kv = Seq::new(keys@.len(), |i: int| keys@[i]@);
    let n = keys.len();
    let mut i: usize = 0;
    while i < n
        invariant
            n == keys@.len(),
            kv == Seq::new(keys@.len(), |k: int| keys@[k]@),
            0 <= i <= n,
            forall|k: int| 0 <= k < i ==> kv[k] != token@,
        decreases n - i,
    {
        if keys[i] == *token {
            assert(kv[i as int] == token@);
            return true;
        }
        i = i + 1;
    }
    false
}

/// A reason a request is rejected.
#[derive(Clone, Copy, Debug, PartialEq, Eq, Structural)]
pub enum AuthError {
    Unauthorized,
    RateLimitExceeded,
}

impl AuthError {
    /// The human-readable message of this failure.
    pub fn message(&self) -> (r: String)
        ensures
            *self == AuthError::Unauthorized ==> r@ == "Unauthorized"@,
            *self == AuthError::RateLimitExceeded ==> r@ == "Rate limit exceeded"@,
    {
        match self {
            AuthError::Unauthorized => String::from_str("Unauthorized"),
            AuthError::RateLimitExceeded => String::from_str("Rate limit exceeded"),
        }
    }
}

/// The keyed token-bucket limiter. governor's limiter type takes trait
/// bounds that no declaration here can carry, so the struct is held
/// opaque.
#[verifier::external_body]
struct RateGate {
    limiter: governor::RateLimiter<
        String,
        governor::state::keyed::DefaultKeyedStateStore<String>,
        governor::clock::DefaultClock,
    >,
}

impl RateGate {
    /// Relies on governor's `RateLimiter::keyed` and `Quota::per_minute`: a
    /// per-key token bucket replenishing `per_minute` cells each minute.
    #[verifier::external_body]
    fn new(per_minute: u32) -> (r: RateGate)
        requires
            1 <= per_minute,
    {
        let quota = governor::Quota::per_minute(core::num::NonZeroU32::new(per_minute).unwrap());
        RateGate { limiter: governor::RateLimiter::keyed(quota) }
    }

    /// Relies on governor's `check_key`: whether this call conforms to the
    /// key's quota. The outcome depends on the clock and on earlier calls,
    /// so nothing is promised of it.
    #[verifier::external_body]
    fn check(&self, token: &String) -> (r: bool) {
        self.limiter.check_key(token).is_ok()
    }
}

/// The authorization gate: the configured keys and the rate limiter.
pub struct AuthGate {
    keys: Vec<String>,
    limiter: RateGate,
}

impl AuthGate {
    /// The configured keys.
    pub closed spec fn spec_keys(self) -> Seq<Seq<char>> {
        Seq::new(self.keys@.len(), |i: int| self.keys@[i]@)
    }

    /// A gate over the comma-separated key list, with the given per-token
    /// quota.
    pub fn new(keys_csv: &str, per_minute: u32) -> (r: AuthGate)
        requires
            1 <= per_minute,
        ensures
            r.spec_keys() == api_keys_of(keys_csv@),
    {
        let keys = parse_api_keys(keys_csv);
        let gate = AuthGate { keys, limiter: RateGate::new(per_minute) };
        proof {
            assert(gate.spec_keys() =~= api_keys_of(keys_csv@));
        }
        gate
    }
}

/// The token of an optional authorization header.
pub open spec fn spec_header_token(h: Option<&str>) -> Option<Seq<char>> {
    match h {
        None => None,
        Some(s) => bearer_token_of(s@),
    }
}

/// Gate one request: pass everything when no key is configured; otherwise
/// demand a configured bearer token, then hold it to its rate quota.
pub fn authorize_request(gate: &AuthGate, auth_header: Option<&str>) -> (r: Result<(), AuthError>)
    ensures
        gate.spec_keys().len() == 0 ==> r is Ok,
        gate.spec_keys().len() > 0 && spec_header_token(auth_header) is None ==> r == Err::<
            (),
            AuthError,
        >(AuthError::Unauthorized),
        gate.spec_keys().len() > 0 && (spec_header_token(auth_header) matches Some(t)
            && !key_matches(gate.spec_keys(), t)) ==> r == Err::<(), AuthError>(
            AuthError::Unauthorized,
        ),
        gate.spec_keys().len() > 0 && (spec_header_token(auth_header) matches Some(t)
            && key_matches(gate.spec_keys(), t)) ==> (r is Ok || r == Err::<(), AuthError>(
            AuthError::RateLimitExceeded,
        )),
        r == Err::<(), AuthError>(AuthError::RateLimitExceeded) ==> (spec_header_token(auth_header)
            matches Some(t) && key_matches(gate.spec_keys(), t)),
{
    if gate.keys.len() == 0 {
        return Ok(());
    }
    match auth_header {
        None => Err(AuthError::Unauthorized),
        Some(h) => {
            match bearer_token(h) {
                None => Err(AuthError::Unauthorized),
                Some(token) => {
                    if token_in_keys(&gate.keys, &token) {
                        if gate.limiter.check(&token) {
                            Ok(())
                        } else {
                            Err(AuthError::RateLimitExceeded)
                        }
                    } else {
                        Err(AuthError::Unauthorized)
                    }
                },
            }
        },
    }
}

} // verus!
