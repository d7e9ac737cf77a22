//! Talking to the package registry: building API URLs, performing one
//! blocking HTTP GET, and decoding the two payloads the orchestrator reads —
//! the reverse-dependency listing of the component, and the version listing
//! of one dependent.

use vstd::prelude::*;
use vstd::string::StringExecFns;
use vstd::utf8::{encode_utf8, valid_utf8};
use crate::results::{Error, RevDep, RevDepName, VersionNumber};

verus! {

/// The registry API endpoint for a crate, or for one call on a crate.
pub fn crate_url(krate: &str, call: Option<&str>) -> (url: String)
    ensures
        call matches Some(c) ==> url@ == "https://crates.io/api/v1/crates/"@ + krate@ + "/"@
            + c@,
        call is None ==> url@ == "https://crates.io/api/v1/crates/"@ + krate@,
{
    let mut url = String::from_str("https://crates.io/api/v1/crates/");
    url.append(krate);
    match call {
        Some(c) => {
            url.append("/");
            url.append(c);
            url
        },
        None => url,
    }
}

/// Relies on curl's `Easy` handle (`url`, `transfer`, `write_function`,
/// `perform`, `response_code`): performs one blocking HTTP GET and hands back
/// the status code and the raw response body. What comes back depends on the
/// network, so nothing is promised of it.
#[verifier::external_body]
fn http_get(url: &str) -> (r: Result<(u32, Vec<u8>), ()>) {
    let mut easy = curl::easy::Easy::new();
    easy.url(url).map_err(|_| ())?;
    let mut body: Vec<u8> = Vec::new();
    {
        let mut transfer = easy.transfer();
        let collect = |data: &[u8]| { body.extend_from_slice(data); Ok(data.len()) };
        transfer.write_function(collect).map_err(|_| ())?;
        transfer.perform().map_err(|_| ())?;
    }
    let code = easy.response_code().map_err(|_| ())?;
    Ok((code, body))
}

/// Relies on String::from_utf8: succeeds exactly on valid UTF-8, and the
/// returned string holds exactly the given bytes.
#[verifier::external_body]
fn string_from_utf8(bytes: Vec<u8>) -> (r: Option<String>)
    ensures
        r is Some <==> valid_utf8(bytes@),
        r matches Some(s) ==> encode_utf8(s@) == bytes@,
{
    String::from_utf8(bytes).ok()
}

/// Turn a raw response body into text, rejecting bytes that are not UTF-8.
pub fn body_to_string(bytes: Vec<u8>) -> (r: Result<String, Error>)
    ensures
        r is Ok <==> valid_utf8(bytes@),
        r matches Ok(s) ==> encode_utf8(s@) == bytes@,
        r matches Err(e) ==> e == Error::Utf8Error,
{
    match string_from_utf8(bytes) {
        Some(s) => Ok(s),
        None => Err(Error::Utf8Error),
    }
}

/// Classify one fetched response: any status other than 200 is a protocol
/// error carrying that code, and a 200 body must be UTF-8 text, which is
/// returned exactly.
pub fn classify_response(code: u32, body: Vec<u8>) -> (r: Result<String, Error>)
    ensures
        code != 200 ==> r == Result::<String, Error>::Err(Error::HttpError(code)),
        code == 200 ==> (r is Ok <==> valid_utf8(body@)),
        code == 200 ==> (r matches Ok(s) ==> encode_utf8(s@) == body@),
        code == 200 ==> (r matches Err(e) ==> e == Error::Utf8Error),
{
    if code != 200 {
        Err(Error::HttpError(code))
    } else {
        body_to_string(body)
    }
}

/// Fetch one URL and return its body as text. Fails on a transport error, on
/// any status other than 200, and on a body that is not UTF-8 — each as its
/// own error kind.
pub fn http_get_to_string(url: &str) -> (r: Result<String, Error>)
    ensures
        r matches Err(e) ==> e is CurlError || e is HttpError || e is Utf8Error,
        r matches Err(Error::HttpError(code)) ==> code != 200,
{
    match http_get(url) {
        Err(_) => Err(Error::CurlError),
        Ok((code, body)) => classify_response(code, body),
    }
}

/// The views of a list of names.
pub open spec fn name_views(names: Seq<String>) -> Seq<Seq<char>> {
    names.map_values(|n: String| n@)
}

/// The deepest container nesting a payload may have before it is handed to
/// the decoder: the decoder recurses once per level, so depth is bounded
/// ahead of the call, and anything deeper is rejected as undecodable.
pub const MAX_JSON_DEPTH: usize = 64;

/// One step of the depth scan over a payload's bytes. The state is
/// (depth, deepest so far, inside a string literal, just after a backslash).
/// Inside a string literal — delimited by `"` (0x22), with `\` (0x5c)
/// escaping the next byte — brackets do not nest; outside one, `[` (0x5b)
/// and `{` (0x7b) open a container and `]` (0x5d) and `}` (0x7d) close one,
/// the count never dropping below zero. Every byte of a multi-byte character
/// is 0x80 or above, so matching single bytes finds exactly these characters.
pub open spec fn scan_step(st: (int, int, bool, bool), b: u8) -> (int, int, bool, bool) {
    if st.2 {
        if st.3 {
            (st.0, st.1, true, false)
        } else if b == 0x5c {
            (st.0, st.1, true, true)
        } else if b == 0x22 {
            (st.0, st.1, false, false)
        } else {
            (st.0, st.1, true, false)
        }
    } else {
        if b == 0x22 {
            (st.0, st.1, true, false)
        } else if b == 0x5b || b == 0x7b {
            (st.0 + 1, if st.0 + 1 > st.1 { st.0 + 1 } else { st.1 }, false, false)
        } else if b == 0x5d || b == 0x7d {
            (if st.0 > 0 { st.0 - 1 } else { 0 }, st.1, false, false)
        } else {
            (st.0, st.1, false, false)
        }
    }
}

/// The scan state after the first `n` bytes of the payload.
pub open spec fn scan_prefix(s: Seq<u8>, n: int) -> (int, int, bool, bool)
    decreases n,
{
    if n <= 0 {
        (0, 0, false, false)
    } else {
        scan_step(scan_prefix(s, n - 1), s[n - 1])
    }
}

/// The deepest container nesting of the whole payload.
pub open spec fn max_json_depth(s: Seq<u8>) -> int {
    scan_prefix(s, s.len() as int).1
}

/// Measure a payload's deepest container nesting, iteratively, so that the
/// recursive decoder is never asked to follow more levels than the bound.
pub fn scan_depth(s: &str) -> (d: usize)
    ensures
        d == max_json_depth(encode_utf8(s@)),
{
    let bytes = s.as_bytes();
    let mut depth: usize = 0;
    let mut max: usize = 0;
    let mut in_string: bool = false;
    let mut escaped: bool = false;
    let mut i: usize = 0;
    while i < bytes.len()
        invariant
            i <= bytes@.len(),
            depth <= i,
            max <= i,
            (depth as int, max as int, in_string, escaped) == scan_prefix(bytes@, i as int),
            bytes@ == encode_utf8(s@),
        decreases bytes@.len() - i,
    {
        let b = bytes[i];
        if in_string {
            if escaped {
                escaped = false;
            } else if b == 0x5c {
                escaped = true;
            } else if b == 0x22 {
                in_string = false;
            }
        } else {
            if b == 0x22 {
                in_string = true;
            } else if b == 0x5b || b == 0x7b {
                depth = depth + 1;
                if depth > max {
                    max = depth;
                }
            } else if b == 0x5d || b == 0x7d {
                if depth > 0 {
                    depth = depth - 1;
                }
            }
        }
        i = i + 1;
    }
    max
}

/// The names listed under `dependencies` in a reverse-dependency payload,
/// when the text decodes as one; what the decoder yields is a function of
/// the text alone.
pub uninterp spec fn rev_deps_of(body: Seq<char>) -> Option<Seq<Seq<char>>>;

/// Relies on rustc_serialize::json (`Json::from_str` and the object, array
/// and string accessors): decodes the reverse-dependency payload and
/// extracts the `crate_id` of every entry under `dependencies`. The result
/// depends on the text alone. The decoder recurses once per nesting level,
/// so callers must bound the depth first.
#[verifier::external_body]
fn decode_rev_deps(s: &str) -> (r: Option<Vec<String>>)
    requires
        max_json_depth(encode_utf8(s@)) <= MAX_JSON_DEPTH as int,
    ensures
        r is Some <==> rev_deps_of(s@) is Some,
        r matches Some(v) ==> rev_deps_of(s@) == Some(name_views(v@)),
{
    let json = rustc_serialize::json::Json::from_str(s).ok()?;
    let deps = json.find("dependencies")?.as_array()?;
    let mut out: Vec<String> = Vec::new();
    for dep in deps {
        out.push(dep.find("crate_id")?.as_string()?.to_string());
    }
    Some(out)
}

/// Decode a reverse-dependency payload into the listed dependent names. A
/// payload nested deeper than the decoder's bound is rejected as
/// undecodable, before the decoder sees it.
pub fn parse_rev_deps(s: &str) -> (r: Result<Vec<RevDepName>, Error>)
    ensures
        max_json_depth(encode_utf8(s@)) <= MAX_JSON_DEPTH as int ==> (r is Ok <==> rev_deps_of(
            s@,
        ) is Some),
        r matches Ok(v) ==> rev_deps_of(s@) == Some(name_views(v@)),
        r matches Err(e) ==> e == Error::JsonDecode,
{
    if scan_depth(s) > MAX_JSON_DEPTH {
        return Err(Error::JsonDecode);
    }
    match decode_rev_deps(s) {
        Some(v) => Ok(v),
        None => Err(Error::JsonDecode),
    }
}

/// List the reverse dependents of the component, in the order the registry
/// reports them, by fetching and decoding its reverse-dependency listing.
pub fn get_rev_deps(crate_name: &str) -> (r: Result<Vec<RevDepName>, Error>)
    ensures
        r matches Err(e) ==> e is CurlError || e is HttpError || e is Utf8Error
            || e is JsonDecode,
        r matches Err(Error::HttpError(code)) ==> code != 200,
{
    let url = crate_url(crate_name, Some("reverse_dependencies"));
    let body = match http_get_to_string(url.as_str()) {
        Ok(b) => b,
        Err(e) => return Err(e),
    };
    parse_rev_deps(body.as_str())
}

/// One published version of a dependent, as the registry lists it.
#[derive(Debug)]
pub struct RegistryVersion {
    pub num: VersionNumber,
}

/// A dependent's registry record: its published versions, newest first.
#[derive(Debug)]
pub struct RegistryCrate {
    pub versions: Vec<RegistryVersion>,
}

/// The version numbers a crate record carries.
pub open spec fn version_nums(k: RegistryCrate) -> Seq<Seq<char>> {
    k.versions@.map_values(|rv: RegistryVersion| rv.num@)
}

/// The numbers listed under `versions` in a crate payload, when the text
/// decodes as one; a function of the text alone.
pub uninterp spec fn crate_versions_of(body: Seq<char>) -> Option<Seq<Seq<char>>>;

/// Relies on rustc_serialize::json (`Json::from_str` and the object, array
/// and string accessors): decodes a crate payload and extracts the `num` of
/// every entry under `versions`. The result depends on the text alone. The
/// decoder recurses once per nesting level, so callers must bound the depth
/// first.
#[verifier::external_body]
fn decode_crate_versions(s: &str) -> (r: Option<Vec<String>>)
    requires
        max_json_depth(encode_utf8(s@)) <= MAX_JSON_DEPTH as int,
    ensures
        r is Some <==> crate_versions_of(s@) is Some,
        r matches Some(v) ==> crate_versions_of(s@) == Some(name_views(v@)),
{
    let json = rustc_serialize::json::Json::from_str(s).ok()?;
    let versions = json.find("versions")?.as_array()?;
    let mut out: Vec<String> = Vec::new();
    for vers in versions {
        out.push(vers.find("num")?.as_string()?.to_string());
    }
    Some(out)
}

/// Decode a crate payload into its registry record. A payload nested deeper
/// than the decoder's bound is rejected as undecodable, before the decoder
/// sees it.
pub fn parse_crate(s: &str) -> (r: Result<RegistryCrate, Error>)
    ensures
        max_json_depth(encode_utf8(s@)) <= MAX_JSON_DEPTH as int ==> (r
            is Ok <==> crate_versions_of(s@) is Some),
        r matches Ok(k) ==> crate_versions_of(s@) == Some(version_nums(k)),
        r matches Err(e) ==> e == Error::JsonDecode,
{
    if scan_depth(s) > MAX_JSON_DEPTH {
        return Err(Error::JsonDecode);
    }
    let mut nums = match decode_crate_versions(s) {
        Some(v) => v,
        None => return Err(Error::JsonDecode),
    };
    let ghost all = nums@;
    let mut versions: Vec<RegistryVersion> = Vec::new();
    proof {
        assert(versions@.map_values(|rv: RegistryVersion| rv.num@) + name_views(nums@)
            =~= name_views(all));
    }
    while nums.len() > 0
        invariant
            versions@.map_values(|rv: RegistryVersion| rv.num@) + name_views(nums@) == name_views(
                all,
            ),
        decreases nums@.len(),
    {
        let num = nums.remove(0);
        versions.push(RegistryVersion { num });
        proof {
            assert(versions@.map_values(|rv: RegistryVersion| rv.num@) + name_views(nums@)
                =~= name_views(all));
        }
    }
    let k = RegistryCrate { versions };
    proof {
        assert(version_nums(k) =~= versions@.map_values(|rv: RegistryVersion| rv.num@)
            + name_views(nums@));
    }
    Ok(k)
}

/// Choose the testable version from a dependent's registry record: its
/// current version, the newest listed, keeping the dependent's name. A
/// record that decodes but lists no version yields nothing testable and is
/// rejected as undecodable.
pub fn select_latest(name: RevDepName, krate: RegistryCrate) -> (r: Result<RevDep, Error>)
    ensures
        krate.versions@.len() > 0 ==> (r matches Ok(rd) && rd.name == name && rd.vers
            == krate.versions@[0].num),
        krate.versions@.len() == 0 ==> (r matches Err(e) && e == Error::JsonDecode),
{
    let mut record = krate;
    if record.versions.len() == 0 {
        return Err(Error::JsonDecode);
    }
    let latest = record.versions.remove(0);
    Ok(RevDep { name, vers: latest.num })
}

/// Bind a dependent name to its current (newest) published version via the
/// registry. On success the dependent keeps exactly the name that was asked
/// for and the version chosen by `select_latest` from the decoded record;
/// every failure is scoped to this one dependent.
pub fn resolve_rev_dep_version(name: RevDepName) -> (r: Result<RevDep, Error>)
    ensures
        r matches Ok(rd) ==> rd.name == name,
        r matches Err(e) ==> e is CurlError || e is HttpError || e is Utf8Error
            || e is JsonDecode,
        r matches Err(Error::HttpError(code)) ==> code != 200,
{
    let url = crate_url(name.as_str(), None);
    let body = match http_get_to_string(url.as_str()) {
        Ok(b) => b,
        Err(e) => return Err(e),
    };
    let krate = match parse_crate(body.as_str()) {
        Ok(k) => k,
        Err(e) => return Err(e),
    };
    select_latest(name, krate)
}

} // verus!
