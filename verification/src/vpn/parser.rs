//! Facts read out of the client's output: the session path, the byte
//! counters and the tunnel's address.

use vstd::prelude::*;
use vstd::string::*;
use crate::text::{decimal_u64, parse_u64};

verus! {

/// What `regex::Regex::new` and `Regex::find` give for a pattern and a text:
/// `None` where the pattern does not compile, `Some(None)` where it compiles
/// and matches nowhere, else the text of the first match.
pub uninterp spec fn regex_find(pattern: Seq<char>, text: Seq<char>) -> Option<Option<Seq<char>>>;

/// What `regex::Regex::new`, `Regex::captures` and `Captures::get` give for a
/// pattern, a text and a group's number: `None` where the pattern does not
/// compile, `Some(None)` where it matches nowhere, `Some(Some(None))` where
/// the group took no part in the first match, else the group's text.
pub uninterp spec fn regex_capture(pattern: Seq<char>, text: Seq<char>, group: nat) -> Option<
    Option<Option<Seq<char>>>,
>;

/// Compiles `pattern` with `regex::Regex::new` and searches `text` with
/// `Regex::find`, handing out the matched text. The outcome depends on the
/// two texts alone and is named by `regex_find`.
#[verifier::external_body]
pub(crate) fn find_first(pattern: &str, text: &str) -> (found: Option<Option<String>>)
    ensures
        found.deep_view() == regex_find(pattern@, text@),
{
    match regex::Regex::new(pattern) {
        Ok(re) => Some(re.find(text).map(|m| m.as_str().to_string())),
        Err(_) => None,
    }
}

/// Compiles `pattern` with `regex::Regex::new`, searches `text` with
/// `Regex::captures` and hands out the text of one group of the first match.
/// The outcome depends on the arguments alone and is named by `regex_capture`.
#[verifier::external_body]
pub(crate) fn capture_first(pattern: &str, text: &str, group: usize) -> (found: Option<
    Option<Option<String>>,
>)
    ensures
        found.deep_view() == regex_capture(pattern@, text@, group as nat),
{
    match regex::Regex::new(pattern) {
        Ok(re) => Some(re.captures(text).map(|c| c.get(group).map(|m| m.as_str().to_string()))),
        Err(_) => None,
    }
}

/// The directory under which the client names its sessions.
pub open spec fn session_prefix() -> Seq<char> {
    "/net/openvpn/v3/sessions/"@
}

/// The pattern of a session path written out in full.
pub open spec fn direct_path_pattern() -> Seq<char> {
    "/net/openvpn/v3/sessions/[a-zA-Z0-9_]+"@
}

/// The pattern of a line that is labelled `Path:` and holds a session path.
pub open spec fn labeled_path_pattern() -> Seq<char> {
    "(?m)^\\s*Path:\\s*(/net/openvpn/v3/sessions/[a-zA-Z0-9_]+)"@
}

/// The pattern of a bare session identifier.
pub open spec fn identifier_pattern() -> Seq<char> {
    "[a-f0-9]{8}s[a-f0-9]{4}s[a-f0-9]{4}s[a-f0-9]{4}s[a-f0-9]{12}"@
}

/// The session path that three searches settle on: the direct match where
/// there is one, else the labelled line's group, else the bare identifier
/// under the session prefix. A search whose pattern did not compile ends the
/// choice with nothing.
pub open spec fn chosen_session_path(
    direct: Option<Option<Seq<char>>>,
    labeled: Option<Option<Option<Seq<char>>>>,
    identifier: Option<Option<Seq<char>>>,
) -> Option<Seq<char>> {
    match direct {
        None => None,
        Some(Some(path)) => Some(path),
        Some(None) => match labeled {
            None => None,
            Some(Some(group)) => group,
            Some(None) => match identifier {
                Some(Some(id)) => Some(session_prefix() + id),
                _ => None,
            },
        },
    }
}

/// The session path that a listing holds, by the three searches in order.
pub open spec fn session_path_in(output: Seq<char>) -> Option<Seq<char>> {
    chosen_session_path(
        regex_find(direct_path_pattern(), output),
        regex_capture(labeled_path_pattern(), output, 1),
        regex_find(identifier_pattern(), output),
    )
}

/// Settles on a session path from the outcomes of the three searches.
pub fn choose_session_path(
    direct: Option<Option<String>>,
    labeled: Option<Option<Option<String>>>,
    identifier: Option<Option<String>>,
) -> (path: Option<String>)
    ensures
        path.deep_view() == chosen_session_path(
            direct.deep_view(),
            labeled.deep_view(),
            identifier.deep_view(),
        ),
{
    match direct {
        None => None,
        Some(Some(path)) => Some(path),
        Some(None) => match labeled {
            None => None,
            Some(Some(group)) => group,
            Some(None) => match identifier {
                Some(Some(id)) => {
                    let path = String::from_str("/net/openvpn/v3/sessions/").concat(id.as_str());
                    Some(path)
                },
                _ => None,
            },
        },
    }
}

/// Extract the session path from the output of `openvpn3 sessions-list`.
pub fn extract_session_path(output: &str) -> (path: Option<String>)
    ensures
        path.deep_view() == session_path_in(output@),
{
    let direct = find_first("/net/openvpn/v3/sessions/[a-zA-Z0-9_]+", output);
    let labeled = capture_first(
        "(?m)^\\s*Path:\\s*(/net/openvpn/v3/sessions/[a-zA-Z0-9_]+)",
        output,
        1,
    );
    let identifier = find_first(
        "[a-f0-9]{8}s[a-f0-9]{4}s[a-f0-9]{4}s[a-f0-9]{4}s[a-f0-9]{12}",
        output,
    );
    choose_session_path(direct, labeled, identifier)
}

/// The outcome of one search for a capture group.
pub type Capture = Option<Option<Option<String>>>;

/// The patterns under which the client reports the bytes received, in the
/// order in which they are tried.
pub open spec fn inbound_patterns() -> Seq<Seq<char>> {
    seq![
        "BYTES_IN[.\\s]+(\\d+)"@,
        "BYTES_IN\\s*:\\s*(\\d+)"@,
        "bytes_in\\s*:\\s*(\\d+)"@,
        "RX bytes\\s*:\\s*(\\d+)"@,
    ]
}

/// The patterns under which the client reports the bytes sent, in the order
/// in which they are tried.
pub open spec fn outbound_patterns() -> Seq<Seq<char>> {
    seq![
        "BYTES_OUT[.\\s]+(\\d+)"@,
        "BYTES_OUT\\s*:\\s*(\\d+)"@,
        "bytes_out\\s*:\\s*(\\d+)"@,
        "TX bytes\\s*:\\s*(\\d+)"@,
    ]
}

/// The counter that one search gives: the captured group read as a decimal
/// number, where the search found the group and the number fits.
pub open spec fn counter_of(capture: Option<Option<Option<Seq<char>>>>) -> Option<u64> {
    match capture {
        Some(Some(Some(digits))) => decimal_u64(digits),
        _ => None,
    }
}

/// The counter that the first `upto` patterns give on a text: that of the
/// first pattern whose search gives one.
pub open spec fn first_counter(patterns: Seq<Seq<char>>, output: Seq<char>, upto: nat) -> Option<
    u64,
>
    decreases upto,
{
    if upto == 0 {
        None
    } else {
        match first_counter(patterns, output, (upto - 1) as nat) {
            Some(value) => Some(value),
            None => counter_of(regex_capture(patterns[upto - 1], output, 1)),
        }
    }
}

/// Both counters of a text, or nothing where either is missing.
pub open spec fn both_counters(inbound: Option<u64>, outbound: Option<u64>) -> Option<(u64, u64)> {
    match (inbound, outbound) {
        (Some(bytes_in), Some(bytes_out)) => Some((bytes_in, bytes_out)),
        _ => None,
    }
}

/// The pair of counters that a statistics report holds.
pub open spec fn counters_in(output: Seq<char>) -> Option<(u64, u64)> {
    both_counters(
        first_counter(inbound_patterns(), output, 4),
        first_counter(outbound_patterns(), output, 4),
    )
}

/// The texts of a list of patterns.
pub open spec fn pattern_views(patterns: Seq<&'static str>) -> Seq<Seq<char>> {
    Seq::new(patterns.len(), |i: int| patterns[i]@)
}

/// Reads the counter out of the outcome of one search.
pub fn counter_from_capture(capture: Capture) -> (value: Option<u64>)
    ensures
        value == counter_of(capture.deep_view()),
{
    match capture {
        Some(Some(Some(digits))) => parse_u64(digits.as_str()),
        _ => None,
    }
}

/// Tries the patterns in order on a text and reads the first counter found.
pub fn scan_counter(patterns: &Vec<&'static str>, output: &str) -> (value: Option<u64>)
    ensures
        value == first_counter(pattern_views(patterns@), output@, patterns@.len()),
{
    let mut i: usize = 0;
    while i < patterns.len()
        invariant
            i <= patterns.len(),
            first_counter(pattern_views(patterns@), output@, i as nat) is None,
        decreases patterns.len() - i,
    {
        let capture = capture_first(patterns[i], output, 1);
        let value = counter_from_capture(capture);
        if value.is_some() {
            proof {
                lemma_first_counter_stays(
                    pattern_views(patterns@),
                    output@,
                    (i + 1) as nat,
                    patterns@.len(),
                );
            }
            return value;
        }
        i = i + 1;
    }
    None
}

/// Once a counter is found, later patterns do not change it.
pub proof fn lemma_first_counter_stays(
    patterns: Seq<Seq<char>>,
    output: Seq<char>,
    found: nat,
    upto: nat,
)
    requires
        found <= upto,
        first_counter(patterns, output, found) is Some,
    ensures
        first_counter(patterns, output, upto) == first_counter(patterns, output, found),
    decreases upto,
{
    if found < upto {
        lemma_first_counter_stays(patterns, output, found, (upto - 1) as nat);
    }
}

/// Parse the received and the sent byte counters out of the output of
/// `openvpn3 session-stats`.
pub fn parse_stats(output: &str) -> (counters: Option<(u64, u64)>)
    ensures
        counters == counters_in(output@),
{
    let patterns_in: Vec<&'static str> = vec![
        "BYTES_IN[.\\s]+(\\d+)",
        "BYTES_IN\\s*:\\s*(\\d+)",
        "bytes_in\\s*:\\s*(\\d+)",
        "RX bytes\\s*:\\s*(\\d+)",
    ];
    let patterns_out: Vec<&'static str> = vec![
        "BYTES_OUT[.\\s]+(\\d+)",
        "BYTES_OUT\\s*:\\s*(\\d+)",
        "bytes_out\\s*:\\s*(\\d+)",
        "TX bytes\\s*:\\s*(\\d+)",
    ];
    proof {
        assert(pattern_views(patterns_in@) =~= inbound_patterns());
        assert(pattern_views(patterns_out@) =~= outbound_patterns());
    }
    let bytes_in = scan_counter(&patterns_in, output);
    let bytes_out = scan_counter(&patterns_out, output);
    match (bytes_in, bytes_out) {
        (Some(bi), Some(bo)) => Some((bi, bo)),
        _ => None,
    }
}

/// A report in which the first pattern of each direction captures a decimal
/// number that fits gives exactly those two numbers.
pub proof fn lemma_dotted_counters(
    output: Seq<char>,
    digits_in: Seq<char>,
    digits_out: Seq<char>,
)
    requires
        regex_capture(inbound_patterns()[0], output, 1) == Some(Some(Some(digits_in))),
        regex_capture(outbound_patterns()[0], output, 1) == Some(Some(Some(digits_out))),
        decimal_u64(digits_in) is Some,
        decimal_u64(digits_out) is Some,
    ensures
        counters_in(output) == Some(
            (decimal_u64(digits_in).unwrap(), decimal_u64(digits_out).unwrap()),
        ),
{
    reveal_with_fuel(first_counter, 2);
    lemma_first_counter_stays(inbound_patterns(), output, 1, 4);
    lemma_first_counter_stays(outbound_patterns(), output, 1, 4);
}

/// A report in which the dotted patterns find nothing and the colon pattern
/// of each direction captures a decimal number that fits gives exactly those
/// two numbers.
pub proof fn lemma_colon_counters(
    output: Seq<char>,
    digits_in: Seq<char>,
    digits_out: Seq<char>,
)
    requires
        counter_of(regex_capture(inbound_patterns()[0], output, 1)) is None,
        counter_of(regex_capture(outbound_patterns()[0], output, 1)) is None,
        regex_capture(inbound_patterns()[1], output, 1) == Some(Some(Some(digits_in))),
        regex_capture(outbound_patterns()[1], output, 1) == Some(Some(Some(digits_out))),
        decimal_u64(digits_in) is Some,
        decimal_u64(digits_out) is Some,
    ensures
        counters_in(output) == Some(
            (decimal_u64(digits_in).unwrap(), decimal_u64(digits_out).unwrap()),
        ),
{
    reveal_with_fuel(first_counter, 3);
    lemma_first_counter_stays(inbound_patterns(), output, 2, 4);
    lemma_first_counter_stays(outbound_patterns(), output, 2, 4);
}

/// A report in which no pattern of one direction gives a counter yields
/// nothing, whatever the other direction holds.
pub proof fn lemma_partial_counters(output: Seq<char>)
    requires
        first_counter(inbound_patterns(), output, 4) is None || first_counter(
            outbound_patterns(),
            output,
            4,
        ) is None,
    ensures
        counters_in(output) is None,
{
}

/// The pattern of an `inet` label followed by a dotted address.
pub open spec fn inet_pattern() -> Seq<char> {
    "inet\\s+(\\d+\\.\\d+\\.\\d+\\.\\d+)"@
}

/// The address that the outcome of the `inet` search holds.
pub open spec fn captured_group(capture: Option<Option<Option<Seq<char>>>>) -> Option<Seq<char>> {
    match capture {
        Some(Some(group)) => group,
        _ => None,
    }
}

/// Hands out the group that a search captured, if it found one.
pub fn group_from_capture(capture: Capture) -> (group: Option<String>)
    ensures
        group.deep_view() == captured_group(capture.deep_view()),
{
    match capture {
        Some(Some(group)) => group,
        _ => None,
    }
}

/// Extract the first address after an `inet` label from the output of
/// `ip addr show`.
pub fn extract_ip(output: &str) -> (ip: Option<String>)
    ensures
        ip.deep_view() == captured_group(regex_capture(inet_pattern(), output@, 1)),
{
    group_from_capture(capture_first("inet\\s+(\\d+\\.\\d+\\.\\d+\\.\\d+)", output, 1))
}

} // verus!
