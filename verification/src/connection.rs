//! Peer-connection operations: argument validation and the
//! request/result logic of the connect call.

use vstd::prelude::*;

use crate::engine::{CallOutcome, NativeAction};
use crate::error::{invalid_parameter_error, native_failure, p2p_rejected, state_error, CodexError};
use crate::lifecycle::CodexNode;
use vstd::string::StrSliceExecFns;
use vstd::string::StringSliceAdditionalSpecFns;

verus! {

broadcast use vstd::slice::group_slice_axioms;

/// Whether `prefix` is a prefix of `s`.
pub open spec fn spec_starts_with(s: Seq<char>, prefix: Seq<char>) -> bool {
    prefix.len() <= s.len() && s.subrange(0, prefix.len() as int) == prefix
}

/// Whether `sub` occurs somewhere in `s`.
pub open spec fn spec_contains(s: Seq<char>, sub: Seq<char>) -> bool {
    exists|k: int|
        0 <= k && k + sub.len() <= s.len() && #[trigger] s.subrange(k, k + sub.len() as int)
            == sub
}

/// Character-wise prefix test.
fn str_starts_with(s: &str, prefix: &str) -> (r: bool)
    ensures
        r == spec_starts_with(s@, prefix@),
{
    let n = prefix.unicode_len();
    if s.unicode_len() < n {
        return false;
    }
    let mut i: usize = 0;
    while i < n
        invariant
            i <= n,
            n == prefix@.len(),
            n <= s@.len(),
            forall|j: int| 0 <= j < i ==> s@[j] == prefix@[j],
        decreases n - i,
    {
        if s.get_char(i) != prefix.get_char(i) {
            proof {
                assert(s@.subrange(0, n as int)[i as int] != prefix@[i as int]);
            }
            return false;
        }
        i = i + 1;
    }
    proof {
        assert(s@.subrange(0, n as int) =~= prefix@);
    }
    true
}

/// Whether `sub` stands in `s` beginning at position `k`.
fn str_matches_at(s: &str, k: usize, sub: &str) -> (r: bool)
    requires
        k + sub@.len() <= s@.len(),
        s@.len() <= usize::MAX,
    ensures
        r == (s@.subrange(k as int, k + sub@.len() as int) == sub@),
{
    let m = sub.unicode_len();
    let mut i: usize = 0;
    while i < m
        invariant
            i <= m,
            m == sub@.len(),
            k + m <= s@.len(),
            s@.len() <= usize::MAX,
            forall|j: int| 0 <= j < i ==> s@[k + j] == sub@[j],
        decreases m - i,
    {
        if s.get_char(k + i) != sub.get_char(i) {
            proof {
                assert(s@.subrange(k as int, k + m as int)[i as int] != sub@[i as int]);
            }
            return false;
        }
        i = i + 1;
    }
    proof {
        assert(s@.subrange(k as int, k + m as int) =~= sub@);
    }
    true
}

/// Character-wise substring search.
fn str_contains(s: &str, sub: &str) -> (r: bool)
    ensures
        r == spec_contains(s@, sub@),
{
    let n = s.unicode_len();
    let m = sub.unicode_len();
    if m > n {
        return false;
    }
    let mut k: usize = 0;
    while k <= n - m
        invariant
            m <= n,
            n == s@.len(),
            m == sub@.len(),
            k <= n - m + 1,
            forall|j: int| 0 <= j < k ==> #[trigger] s@.subrange(j, j + m as int) != sub@,
        decreases n - m + 1 - k,
    {
        if str_matches_at(s, k, sub) {
            return true;
        }
        proof {
            if m == 0 {
                assert(s@.subrange(k as int, k as int) =~= sub@);
            }
        }
        k = k + 1;
    }
    false
}

/// The peer-identity prefixes the engine's network accepts.
pub open spec fn spec_valid_peer_id_prefix(s: Seq<char>) -> bool {
    ||| spec_starts_with(s, "12D3KooW"@)
    ||| spec_starts_with(s, "Qm"@)
    ||| spec_starts_with(s, "bafy"@)
    ||| spec_starts_with(s, "bafk"@)
}

/// A well-formed peer identity: not empty, between 10 and 100 bytes, and
/// carrying one of the accepted prefixes.
pub open spec fn spec_valid_peer_id(s: &str) -> bool {
    &&& s@.len() != 0
    &&& 10 <= s.spec_bytes().len() <= 100
    &&& spec_valid_peer_id_prefix(s@)
}

/// Validates a peer identity before any native call: not empty, a
/// reasonable length, and one of the accepted prefixes.
pub fn validate_peer_id(peer_id: &str) -> (r: Result<(), CodexError>)
    ensures
        r is Ok <==> spec_valid_peer_id(peer_id),
        peer_id@.len() == 0 ==> (r matches Err(e) && invalid_parameter_error(
            e,
            "peer_id"@,
            "Peer ID cannot be empty"@,
        )),
        peer_id@.len() != 0 && peer_id.spec_bytes().len() < 10 ==> (r matches Err(e)
            && invalid_parameter_error(e, "peer_id"@, "Peer ID is too short"@)),
        peer_id@.len() != 0 && peer_id.spec_bytes().len() > 100 ==> (r matches Err(e)
            && invalid_parameter_error(e, "peer_id"@, "Peer ID is too long"@)),
        peer_id@.len() != 0 && 10 <= peer_id.spec_bytes().len() <= 100
            && !spec_valid_peer_id_prefix(peer_id@) ==> (r matches Err(e)
            && invalid_parameter_error(e, "peer_id"@, "Peer ID has invalid format or prefix"@)),
{
    if peer_id.is_empty() {
        return Err(CodexError::invalid_parameter("peer_id", "Peer ID cannot be empty"));
    }
    let byte_len = peer_id.as_bytes().len();
    if byte_len < 10 {
        return Err(CodexError::invalid_parameter("peer_id", "Peer ID is too short"));
    }
    if byte_len > 100 {
        return Err(CodexError::invalid_parameter("peer_id", "Peer ID is too long"));
    }
    let has_valid_prefix = str_starts_with(peer_id, "12D3KooW") || str_starts_with(peer_id, "Qm")
        || str_starts_with(peer_id, "bafy") || str_starts_with(peer_id, "bafk");
    if !has_valid_prefix {
        return Err(
            CodexError::invalid_parameter("peer_id", "Peer ID has invalid format or prefix"),
        );
    }
    Ok(())
}

/// The transport protocols a multiaddress may name.
pub open spec fn spec_names_valid_protocol(a: Seq<char>) -> bool {
    ||| spec_contains(a, "/ip4"@)
    ||| spec_contains(a, "/ip6"@)
    ||| spec_contains(a, "/dns4"@)
    ||| spec_contains(a, "/dns6"@)
    ||| spec_contains(a, "/dnsaddr"@)
    ||| spec_contains(a, "/tcp"@)
    ||| spec_contains(a, "/udp"@)
    ||| spec_contains(a, "/quic"@)
    ||| spec_contains(a, "/ws"@)
    ||| spec_contains(a, "/wss"@)
    ||| spec_contains(a, "/p2p"@)
    ||| spec_contains(a, "/ipfs"@)
}

/// A well-formed multiaddress: not empty, rooted at `/`, and naming at
/// least one known transport protocol.
pub open spec fn spec_valid_address(a: Seq<char>) -> bool {
    &&& a.len() != 0
    &&& a[0] == '/'
    &&& spec_names_valid_protocol(a)
}

/// A well-formed address list: at least one address, all of them
/// well-formed.
pub open spec fn spec_valid_addresses(addrs: Seq<String>) -> bool {
    &&& addrs.len() != 0
    &&& forall|i: int| 0 <= i < addrs.len() ==> spec_valid_address(addrs[i]@)
}

/// The message under which an ill-formed address is rejected: the first
/// check it fails names the error.
pub open spec fn spec_address_rejection(a: Seq<char>) -> Seq<char> {
    if a.len() == 0 {
        "Address cannot be empty"@
    } else if a[0] != '/' {
        "Address must start with '/'"@
    } else {
        "Address contains invalid protocol"@
    }
}

/// Checks one multiaddress; `Some` carries the message of the first
/// check it fails.
fn address_flaw(address: &str) -> (r: Option<&'static str>)
    ensures
        r is None <==> spec_valid_address(address@),
        r matches Some(m) ==> m@ == spec_address_rejection(address@),
{
    if address.is_empty() {
        return Some("Address cannot be empty");
    }
    if address.get_char(0) != '/' {
        return Some("Address must start with '/'");
    }
    let has_valid_protocol = str_contains(address, "/ip4") || str_contains(address, "/ip6")
        || str_contains(address, "/dns4") || str_contains(address, "/dns6") || str_contains(
        address,
        "/dnsaddr",
    ) || str_contains(address, "/tcp") || str_contains(address, "/udp") || str_contains(
        address,
        "/quic",
    ) || str_contains(address, "/ws") || str_contains(address, "/wss") || str_contains(
        address,
        "/p2p",
    ) || str_contains(address, "/ipfs");
    if !has_valid_protocol {
        return Some("Address contains invalid protocol");
    }
    None
}

/// The decimal digit characters.
pub open spec fn spec_digit_char(d: nat) -> char {
    if d == 0 {
        '0'
    } else if d == 1 {
        '1'
    } else if d == 2 {
        '2'
    } else if d == 3 {
        '3'
    } else if d == 4 {
        '4'
    } else if d == 5 {
        '5'
    } else if d == 6 {
        '6'
    } else if d == 7 {
        '7'
    } else if d == 8 {
        '8'
    } else {
        '9'
    }
}

/// The decimal digits of `n`, most significant first, without leading
/// zeroes (a single `0` for zero itself).
pub open spec fn spec_decimal_digits(n: nat) -> Seq<char>
    decreases n,
{
    if n < 10 {
        seq![spec_digit_char(n)]
    } else {
        spec_decimal_digits(n / 10).push(spec_digit_char(n % 10))
    }
}

/// One decimal digit as text.
fn digit_str(d: usize) -> (s: &'static str)
    requires
        d < 10,
    ensures
        s@ == spec_decimal_digits(d as nat),
{
    proof {
        reveal_strlit("0");
        reveal_strlit("1");
        reveal_strlit("2");
        reveal_strlit("3");
        reveal_strlit("4");
        reveal_strlit("5");
        reveal_strlit("6");
        reveal_strlit("7");
        reveal_strlit("8");
        reveal_strlit("9");
    }
    match d {
        0 => "0",
        1 => "1",
        2 => "2",
        3 => "3",
        4 => "4",
        5 => "5",
        6 => "6",
        7 => "7",
        8 => "8",
        _ => "9",
    }
}

/// `n` written in decimal.
fn format_usize(n: usize) -> (s: String)
    ensures
        s@ == spec_decimal_digits(n as nat),
    decreases n,
{
    if n < 10 {
        digit_str(n).to_owned()
    } else {
        let mut s = format_usize(n / 10);
        s.append(digit_str(n % 10));
        proof {
            assert(spec_decimal_digits((n / 10) as nat) + spec_decimal_digits((n % 10) as nat)
                =~= spec_decimal_digits(n as nat));
        }
        s
    }
}

/// The parameter name under which the address at index `i` is rejected.
pub open spec fn spec_address_parameter(i: nat) -> Seq<char> {
    "addresses["@ + spec_decimal_digits(i) + "]"@
}

/// The parameter name under which the address at index `i` is rejected.
fn address_parameter(i: usize) -> (s: String)
    ensures
        s@ == spec_address_parameter(i as nat),
{
    let mut s = "addresses[".to_owned();
    s.append(format_usize(i).as_str());
    s.append("]");
    proof {
        assert(s@ =~= spec_address_parameter(i as nat));
    }
    s
}

/// Validates a list of multiaddresses before any native call: the list
/// must not be empty, and every address must be rooted at `/` and name a
/// known transport protocol. The error names the first offending index
/// — `addresses[i]` — and the first check that address fails.
pub fn validate_addresses(addresses: &[String]) -> (r: Result<(), CodexError>)
    ensures
        r is Ok <==> spec_valid_addresses(addresses@),
        addresses@.len() == 0 ==> (r matches Err(e) && invalid_parameter_error(
            e,
            "addresses"@,
            "At least one address must be provided"@,
        )),
        addresses@.len() != 0 ==> (r matches Err(e) ==> exists|i: int|
            0 <= i < addresses@.len() && !spec_valid_address(addresses@[i]@) && (forall|j: int|
                0 <= j < i ==> spec_valid_address(addresses@[j]@)) && invalid_parameter_error(
                e,
                spec_address_parameter(i as nat),
                spec_address_rejection(addresses@[i]@),
            )),
{
    if addresses.len() == 0 {
        return Err(
            CodexError::invalid_parameter("addresses", "At least one address must be provided"),
        );
    }
    let mut i: usize = 0;
    while i < addresses.len()
        invariant
            i <= addresses@.len(),
            forall|j: int| 0 <= j < i ==> spec_valid_address(addresses@[j]@),
        decreases addresses@.len() - i,
    {
        let address: &String = &addresses[i];
        match address_flaw(address.as_str()) {
            None => {},
            Some(message) => {
                return Err(
                    CodexError::invalid_parameter(address_parameter(i).as_str(), message),
                );
            },
        }
        i = i + 1;
    }
    Ok(())
}

/// Decides whether a connect may be issued: the peer identity and the
/// address list are validated locally first, and nothing is issued
/// against a destroyed node.
pub fn connect_request(node: &CodexNode, peer_id: &str, peer_addresses: &[String]) -> (r: Result<
    NativeAction,
    CodexError,
>)
    ensures
        peer_id@.len() == 0 ==> (r matches Err(e) && invalid_parameter_error(
            e,
            "peer_id"@,
            "Peer ID cannot be empty"@,
        )),
        peer_id@.len() != 0 && peer_addresses@.len() == 0 ==> (r matches Err(e)
            && invalid_parameter_error(
            e,
            "peer_addresses"@,
            "At least one peer address must be provided"@,
        )),
        peer_id@.len() != 0 && peer_addresses@.len() != 0 && node@.ctx == 0 ==> (r matches Err(e)
            && state_error(e, "connect"@, "Node is destroyed"@)),
        peer_id@.len() != 0 && peer_addresses@.len() != 0 && node@.ctx != 0 ==> r == Ok::<
            _,
            CodexError,
        >(NativeAction::Connect { ctx: node@.ctx }),
{
    if peer_id.is_empty() {
        return Err(CodexError::invalid_parameter("peer_id", "Peer ID cannot be empty"));
    }
    if peer_addresses.len() == 0 {
        return Err(
            CodexError::invalid_parameter(
                "peer_addresses",
                "At least one peer address must be provided",
            ),
        );
    }
    let ctx = node.ctx();
    if ctx == 0 {
        return Err(CodexError::node_error("connect", "Node is destroyed"));
    }
    Ok(NativeAction::Connect { ctx })
}

/// Maps how an issued connect ended to the caller's result.
pub fn connect_result(completion: CallOutcome) -> (r: Result<(), CodexError>)
    ensures
        r is Ok <==> completion is Completed,
        completion is Rejected ==> (r matches Err(e) && p2p_rejected(
            e,
            "Failed to connect to peer"@,
        )),
        completion matches CallOutcome::Failed { message } ==> (r matches Err(e) && native_failure(
            e,
            message@,
        )),
{
    match completion {
        CallOutcome::Completed { payload: _ } => Ok(()),
        CallOutcome::Rejected => Err(CodexError::p2p_error("Failed to connect to peer")),
        CallOutcome::Failed { message } => Err(CodexError::native_failure(message)),
    }
}

} // verus!
