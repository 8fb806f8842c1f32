//! Device-identity headers: their lifetime and the header sets made from
//! them.
use vstd::prelude::*;
use std::time::SystemTime;
use crate::error::AuthError;
use crate::headers::{distinct_keys, holds_key, index_of_key, lemma_pairs_map_at, lemma_push_pair,
    pairs_map, Headers};
use crate::records::{dict_entries, new_record, no_entries, put_text, Node};
use crate::text::{after_marks, bracket_from, chars_of, extend_chars, find_bracket, skip_marks,
    slice_of, string_of};

verus! {

/// `std::time::SystemTime`, carried as an opaque value.
#[verifier::external_type_specification]
#[verifier::external_body]
pub struct ExSystemTime(SystemTime);

/// The lowercase form of a string.
pub uninterp spec fn lowercased(s: Seq<char>) -> Seq<char>;

/// Reads the clock through `SystemTime::elapsed`: the time since `since` in
/// nanoseconds, which is all that a `Duration` holds, or nothing where the
/// clock stands before it. What comes back differs from call to call, so
/// nothing is said of it.
#[verifier::external_body]
fn elapsed_nanos(since: &SystemTime) -> (r: Option<u128>) {
    match since.elapsed() {
        Ok(d) => Some(d.as_nanos()),
        Err(_) => None,
    }
}

/// Calls `str::to_lowercase`, whose result depends on the string alone.
#[verifier::external_body]
fn lowercase(s: &str) -> (r: String)
    ensures
        r@ == lowercased(s@),
{
    s.to_lowercase()
}

/// The nanoseconds of one second.
pub const NANOS_PER_SEC: u128 = 1_000_000_000;

/// Data older than this many nanoseconds, 60 seconds, is refreshed before
/// its next use.
pub const REFRESH_AFTER_NANOS: u128 = 60_000_000_000;

/// Data of this age in nanoseconds, 90 seconds, or older, is never used.
pub const VALID_BELOW_NANOS: u128 = 90_000_000_000;

/// Data of this age in nanoseconds is due for a refresh: it is older than
/// 60 seconds, by however little. An unknown age counts as due.
pub open spec fn stale_at(age: Option<u128>) -> bool {
    match age {
        Some(nanos) => nanos > REFRESH_AFTER_NANOS,
        None => true,
    }
}

/// Data of this age in nanoseconds may still be presented: it is younger
/// than 90 seconds. An unknown age does not count as valid.
pub open spec fn valid_at(age: Option<u128>) -> bool {
    match age {
        Some(nanos) => nanos < VALID_BELOW_NANOS,
        None => false,
    }
}

/// Tells whether data of the given age is due for a refresh.
pub fn needs_refresh_at(age: Option<u128>) -> (r: bool)
    ensures
        r == stale_at(age),
{
    match age {
        Some(nanos) => nanos > REFRESH_AFTER_NANOS,
        None => true,
    }
}

/// Tells whether data of the given age may still be presented.
pub fn is_valid_at(age: Option<u128>) -> (r: bool)
    ensures
        r == valid_at(age),
{
    match age {
        Some(nanos) => nanos < VALID_BELOW_NANOS,
        None => false,
    }
}

/// Data that is not due for a refresh is valid: whoever refreshes when a
/// refresh is due never presents invalid data. Between the two limits data
/// is due and still valid.
pub proof fn lemma_refresh_precedes_expiry(age: Option<u128>)
    ensures
        !stale_at(age) ==> valid_at(age),
        age matches Some(nanos) && REFRESH_AFTER_NANOS < nanos < VALID_BELOW_NANOS ==> stale_at(
            age,
        ) && valid_at(age),
{
}

/// The whole seconds of an age in nanoseconds, as far as 64 bits hold them.
pub open spec fn whole_seconds(nanos: u128) -> u64 {
    if nanos / NANOS_PER_SEC <= u64::MAX {
        (nanos / NANOS_PER_SEC) as u64
    } else {
        u64::MAX
    }
}

/// Rounds an age in nanoseconds down to whole seconds.
pub fn whole_secs(nanos: u128) -> (secs: u64)
    ensures
        secs == whole_seconds(nanos),
{
    let q: u128 = nanos / NANOS_PER_SEC;
    if q <= 18_446_744_073_709_551_615u128 {
        q as u64
    } else {
        u64::MAX
    }
}

/// The name of the header that carries the client description.
pub open spec fn client_info_name() -> Seq<char> {
    "X-Mme-Client-Info"@
}

/// The client description that a rewritten header names.
pub open spec fn client_description() -> Seq<char> {
    "com.apple.AuthKit/1 (com.apple.dt.Xcode/3594.4.19)"@
}

/// The bounds of the client description in a header value: it begins
/// behind the third `<` and ends before the next angle bracket, or at the
/// end of the value. Nothing where the value holds fewer than three `<`.
pub open spec fn client_segment(value: Seq<char>) -> Option<(int, int)> {
    match after_marks(value, '<', 0, 3) {
        Some(a) => Some((a, bracket_from(value, a))),
        None => None,
    }
}

/// A header value with its client description replaced: what stands in
/// front of the description and behind it stays as it is.
pub open spec fn rewritten_value(value: Seq<char>) -> Option<Seq<char>> {
    match client_segment(value) {
        Some((a, b)) => Some(
            value.subrange(0, a) + client_description() + value.subrange(b, value.len() as int),
        ),
        None => None,
    }
}

/// Rewrites the client description in a header value.
pub fn rewrite_client_info(value: &str) -> (r: Option<String>)
    ensures
        match r {
            Some(out) => rewritten_value(value@) == Some(out@),
            None => rewritten_value(value@) is None,
        },
{
    let chars = chars_of(value);
    let start = match skip_marks(chars.as_slice(), '<', 3) {
        Some(a) => a,
        None => { return None; },
    };
    let end = find_bracket(chars.as_slice(), start);
    let mut out = slice_of(chars.as_slice(), 0, start);
    extend_chars(&mut out, chars_of("com.apple.AuthKit/1 (com.apple.dt.Xcode/3594.4.19)").as_slice());
    extend_chars(&mut out, slice_of(chars.as_slice(), end, chars.len()).as_slice());
    Some(string_of(out.as_slice()))
}

/// The two headers that name the application.
pub open spec fn with_app_info(m: Map<Seq<char>, Seq<char>>) -> Map<Seq<char>, Seq<char>> {
    m.insert("X-Apple-App-Info"@, "com.apple.gs.xcode.auth"@).insert(
        "X-Xcode-Version"@,
        "11.2 (11B41)"@,
    )
}

/// The six headers of locale and provisioning data.
pub open spec fn with_cpd(m: Map<Seq<char>, Seq<char>>) -> Map<Seq<char>, Seq<char>> {
    m.insert("bootstrap"@, "true"@).insert("icscrec"@, "true"@).insert("loc"@, "en_GB"@).insert(
        "pbe"@,
        "false"@,
    ).insert("prkgen"@, "true"@).insert("svct"@, "iCloud"@)
}

/// The headers with the fixed ones that were asked for.
pub open spec fn with_fixed(m: Map<Seq<char>, Seq<char>>, cpd: bool, app_info: bool) -> Map<
    Seq<char>,
    Seq<char>,
> {
    let a = if app_info {
        with_app_info(m)
    } else {
        m
    };
    if cpd {
        with_cpd(a)
    } else {
        a
    }
}

/// The header set made from a base set: the base set with the fixed headers
/// that were asked for. With `client_info` the client header is rewritten
/// first; where the base set has no such header, or its value has no client
/// description, the base set comes back as it is, without any fixed header.
pub open spec fn generated(
    base: Map<Seq<char>, Seq<char>>,
    cpd: bool,
    client_info: bool,
    app_info: bool,
) -> Map<Seq<char>, Seq<char>> {
    if client_info {
        if base.contains_key(client_info_name()) {
            match rewritten_value(base[client_info_name()]) {
                Some(value) => with_fixed(base.insert(client_info_name(), value), cpd, app_info),
                None => base,
            }
        } else {
            base
        }
    } else {
        with_fixed(base, cpd, app_info)
    }
}

/// What `generate` returns.
pub open spec fn generate_outcome(
    base: Map<Seq<char>, Seq<char>>,
    is_valid: bool,
    cpd: bool,
    client_info: bool,
    app_info: bool,
    r: Result<Headers, AuthError>,
) -> bool {
    if is_valid {
        r matches Ok(h) && h@ == generated(base, cpd, client_info, app_info)
    } else {
        r == Err::<Headers, AuthError>(AuthError::StaleIdentity)
    }
}

/// Makes the header set for a request from the base set. Data that is not
/// valid gives no headers at all.
pub fn generate(base: &Headers, is_valid: bool, cpd: bool, client_info: bool, app_info: bool) -> (r:
    Result<Headers, AuthError>)
    ensures
        generate_outcome(base@, is_valid, cpd, client_info, app_info, r),
{
    if !is_valid {
        return Err(AuthError::StaleIdentity);
    }
    let mut headers = base.duplicate();
    if client_info {
        let rewritten = match base.get("X-Mme-Client-Info") {
            Some(v) => rewrite_client_info(v.as_str()),
            None => None,
        };
        match rewritten {
            Some(v) => {
                headers.insert("X-Mme-Client-Info".to_owned(), v);
            },
            None => {
                return Ok(headers);
            },
        }
    }
    if app_info {
        headers.insert("X-Apple-App-Info".to_owned(), "com.apple.gs.xcode.auth".to_owned());
        headers.insert("X-Xcode-Version".to_owned(), "11.2 (11B41)".to_owned());
    }
    if cpd {
        headers.insert("bootstrap".to_owned(), "true".to_owned());
        headers.insert("icscrec".to_owned(), "true".to_owned());
        headers.insert("loc".to_owned(), "en_GB".to_owned());
        headers.insert("pbe".to_owned(), "false".to_owned());
        headers.insert("prkgen".to_owned(), "true".to_owned());
        headers.insert("svct".to_owned(), "iCloud".to_owned());
    }
    Ok(headers)
}

/// A name of `m` has the same lowercase form as `header`.
pub open spec fn names_header(m: Map<Seq<char>, Seq<char>>, name: Seq<char>, header: Seq<char>)
    -> bool {
    m.contains_key(name) && lowercased(name) == lowercased(header)
}

/// The first entry of `pairs` whose name has the lowercase form `wanted` is
/// the one at `i`.
pub open spec fn first_named(pairs: Seq<(Seq<char>, Seq<char>)>, wanted: Seq<char>, i: int)
    -> bool {
    &&& 0 <= i < pairs.len()
    &&& lowercased(pairs[i].0) == wanted
    &&& forall|j: int| 0 <= j < i ==> lowercased((#[trigger] pairs[j]).0) != wanted
}

/// Looks a header up without regard to case and returns its value in
/// lowercase. Where several names differ in case alone, the entry that is
/// held first counts.
pub fn lookup_header(headers: &Headers, header: &str) -> (r: Result<String, AuthError>)
    ensures
        match r {
            Ok(value) => (exists|name: Seq<char>| #[trigger]
                names_header(headers@, name, header@) && value@ == lowercased(headers@[name]))
                && (exists|i: int| #[trigger]
                first_named(headers.pairs(), lowercased(header@), i) && value@ == lowercased(
                    headers.pairs()[i].1,
                )),
            Err(e) => e == AuthError::DeveloperSessionRequestFailed && forall|name: Seq<char>|
                !#[trigger] names_header(headers@, name, header@),
        },
{
    let wanted = lowercase(header);
    let n = headers.len();
    let mut i: usize = 0;
    while i < n
        invariant
            i <= n,
            n == headers.pairs().len(),
            distinct_keys(headers.pairs()),
            wanted@ == lowercased(header@),
            forall|j: int| 0 <= j < i ==> lowercased((#[trigger] headers.pairs()[j]).0) != wanted@,
        decreases n - i,
    {
        let name = lowercase(headers.name_at(i).as_str());
        if name == wanted {
            proof {
                lemma_pairs_map_at(headers.pairs(), i as int);
                assert(names_header(headers@, headers.pairs()[i as int].0, header@));
                assert(first_named(headers.pairs(), lowercased(header@), i as int));
            }
            return Ok(lowercase(headers.value_at(i).as_str()));
        }
        i += 1;
    }
    proof {
        assert forall|name: Seq<char>| !#[trigger] names_header(headers@, name, header@) by {
            if headers@.contains_key(name) {
                let j = index_of_key(headers.pairs(), name);
                assert(headers.pairs()[j].0 == name);
            }
        }
    }
    Err(AuthError::DeveloperSessionRequestFailed)
}

/// The dictionary that holds each header as a string.
pub open spec fn text_entries(m: Map<Seq<char>, Seq<char>>) -> Map<Seq<char>, Node> {
    m.map_values(|v: Seq<char>| Node::Text(v))
}

/// Writes a header set as a property-list dictionary of strings.
pub fn headers_to_plist(headers: &Headers) -> (d: plist::Dictionary)
    ensures
        dict_entries(d) == text_entries(headers@),
{
    let mut d = new_record();
    let n = headers.len();
    let mut i: usize = 0;
    assert(text_entries(pairs_map(headers.pairs().take(0))) =~= no_entries());
    while i < n
        invariant
            i <= n,
            n == headers.pairs().len(),
            distinct_keys(headers.pairs()),
            dict_entries(d) == text_entries(pairs_map(headers.pairs().take(i as int))),
        decreases n - i,
    {
        let ghost pairs = headers.pairs();
        let ghost seen = pairs.take(i as int);
        proof {
            assert(pairs.take(i + 1) =~= seen.push(pairs[i as int]));
            assert(distinct_keys(seen)) by {
                assert forall|a: int, b: int| 0 <= a < b < seen.len() implies (
                #[trigger] seen[a]).0 != (#[trigger] seen[b]).0 by {
                    assert(seen[a] == pairs[a] && seen[b] == pairs[b]);
                }
            }
            assert(!holds_key(seen, pairs[i as int].0)) by {
                if holds_key(seen, pairs[i as int].0) {
                    let j = index_of_key(seen, pairs[i as int].0);
                    assert(seen[j] == pairs[j]);
                    assert(pairs[j].0 != pairs[i as int].0);
                }
            }
            lemma_push_pair(seen, pairs[i as int].0, pairs[i as int].1);
            assert(text_entries(pairs_map(seen).insert(pairs[i as int].0, pairs[i as int].1))
                =~= text_entries(pairs_map(seen)).insert(
                pairs[i as int].0,
                Node::Text(pairs[i as int].1),
            ));
        }
        put_text(&mut d, headers.name_at(i).as_str(), headers.value_at(i).clone());
        i += 1;
    }
    assert(headers.pairs().take(i as int) =~= headers.pairs());
    d
}

/// Device-identity data: the base headers and the moment they were made.
/// Refreshed data is a new value; this one never changes.
#[derive(Debug)]
pub struct AnisetteData {
    pub base_headers: Headers,
    pub generated_at: SystemTime,
}

impl AnisetteData {
    /// Holds base headers that were made at `generated_at`.
    pub fn new(base_headers: Headers, generated_at: SystemTime) -> (data: AnisetteData)
        ensures
            data.base_headers == base_headers,
            data.generated_at == generated_at,
    {
        AnisetteData { base_headers, generated_at }
    }

    /// The data that takes this one's place once new base headers were made.
    pub fn refresh(&self, base_headers: Headers, generated_at: SystemTime) -> (data: AnisetteData)
        ensures
            data.base_headers == base_headers,
            data.generated_at == generated_at,
    {
        AnisetteData::new(base_headers, generated_at)
    }

    /// The age of the data in nanoseconds, read off the clock; nothing where
    /// the clock stands before the moment the data was made.
    pub fn age_nanos(&self) -> (age: Option<u128>) {
        elapsed_nanos(&self.generated_at)
    }

    /// The age of the data in whole seconds, read off the clock; nothing
    /// where the clock stands before the moment the data was made.
    pub fn age_secs(&self) -> (age: Option<u64>) {
        match self.age_nanos() {
            Some(nanos) => Some(whole_secs(nanos)),
            None => None,
        }
    }

    /// Reads the clock and tells whether the data is due for a refresh.
    pub fn needs_refresh(&self) -> (r: bool) {
        needs_refresh_at(self.age_nanos())
    }

    /// Reads the clock and tells whether the data may still be presented.
    pub fn is_valid(&self) -> (r: bool) {
        is_valid_at(self.age_nanos())
    }

    /// Reads the clock and makes the header set for a request. Whatever the
    /// clock says, the outcome is the set that `generate` makes from the base
    /// headers, or the error for data that is no longer valid.
    pub fn generate_headers(&self, cpd: bool, client_info: bool, app_info: bool) -> (r: Result<
        Headers,
        AuthError,
    >)
        ensures
            match r {
                Ok(h) => h@ == generated(self.base_headers@, cpd, client_info, app_info),
                Err(e) => e == AuthError::StaleIdentity,
            },
    {
        generate(&self.base_headers, self.is_valid(), cpd, client_info, app_info)
    }

    /// Reads the clock and writes the header set for a request as a
    /// property-list dictionary.
    pub fn to_plist(&self, cpd: bool, client_info: bool, app_info: bool) -> (r: Result<
        plist::Dictionary,
        AuthError,
    >)
        ensures
            match r {
                Ok(d) => dict_entries(d) == text_entries(
                    generated(self.base_headers@, cpd, client_info, app_info),
                ),
                Err(e) => e == AuthError::StaleIdentity,
            },
    {
        match self.generate_headers(cpd, client_info, app_info) {
            Ok(h) => Ok(headers_to_plist(&h)),
            Err(e) => Err(e),
        }
    }

    /// Reads the clock and looks one header of the full set up, without
    /// regard to case.
    pub fn get_header(&self, header: &str) -> (r: Result<String, AuthError>)
        ensures
            match r {
                Ok(value) => exists|name: Seq<char>| #[trigger]
                    names_header(generated(self.base_headers@, true, true, true), name, header@)
                        && value@ == lowercased(
                        generated(self.base_headers@, true, true, true)[name],
                    ),
                Err(e) => e == AuthError::StaleIdentity || (e
                    == AuthError::DeveloperSessionRequestFailed && forall|name: Seq<char>|
                    !#[trigger] names_header(
                        generated(self.base_headers@, true, true, true),
                        name,
                        header@,
                    )),
            },
    {
        match self.generate_headers(true, true, true) {
            Ok(h) => lookup_header(&h, header),
            Err(e) => Err(e),
        }
    }
}

} // verus!
