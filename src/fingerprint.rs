//! Deterministic machine fingerprint derived from host name and user name.
use vstd::prelude::*;
use vstd::string::*;
use vstd::wrapping::u64_specs::{wrapping_add, wrapping_mul};

verus! {

/// One step of the checksum: the character `c` at 0-based position `i`.
pub open spec fn hash_step(h: u64, c: char, i: int) -> u64 {
    wrapping_mul(wrapping_add(h, wrapping_mul(c as u64, (i + 1) as u64)), 31)
}

/// Checksum of the first `n` characters of `s`, seeded at zero.
pub open spec fn hash_prefix(s: Seq<char>, n: nat) -> u64
    decreases n,
{
    if n == 0 || n > s.len() {
        0
    } else {
        hash_step(hash_prefix(s, (n - 1) as nat), s[n - 1], n - 1)
    }
}

/// Checksum of the whole of `s`.
pub open spec fn hash_of(s: Seq<char>) -> u64 {
    hash_prefix(s, s.len())
}

/// The sixteen digits of upper-case hexadecimal.
pub open spec fn hex_alphabet() -> Seq<char> {
    seq!['0', '1', '2', '3', '4', '5', '6', '7', '8', '9', 'A', 'B', 'C', 'D', 'E', 'F']
}

/// The last `n` hexadecimal digits of `v`, most significant first.
pub open spec fn hex_digits(v: nat, n: nat) -> Seq<char>
    decreases n,
{
    if n == 0 {
        Seq::empty()
    } else {
        hex_digits(v / 16, (n - 1) as nat).push(hex_alphabet()[(v % 16) as int])
    }
}

/// A 64-bit value as sixteen zero-padded upper-case hexadecimal digits.
pub open spec fn hex16(v: u64) -> Seq<char> {
    hex_digits(v as nat, 16)
}

pub open spec fn is_hex_upper(c: char) -> bool {
    ('0' <= c && c <= '9') || ('A' <= c && c <= 'F')
}

pub proof fn lemma_hex_digits_shape(v: nat, n: nat)
    ensures
        hex_digits(v, n).len() == n,
        forall|k: int| 0 <= k < n ==> is_hex_upper(#[trigger] hex_digits(v, n)[k]),
    decreases n,
{
    if n > 0 {
        lemma_hex_digits_shape(v / 16, (n - 1) as nat);
        let d = (v % 16) as int;
        assert(is_hex_upper(hex_alphabet()[d]));
    }
}

/// Appends the last `n` hexadecimal digits of `v` to `out`.
fn append_hex_digits(out: &mut String, v: u64, n: usize)
    ensures
        final(out)@ == old(out)@ + hex_digits(v as nat, n as nat),
    decreases n,
{
    if n == 0 {
        assert(old(out)@ + hex_digits(v as nat, 0) =~= old(out)@);
    } else {
        append_hex_digits(out, v / 16, n - 1);
        let alphabet = "0123456789ABCDEF";
        proof {
            reveal_strlit("0123456789ABCDEF");
            assert(alphabet@ =~= hex_alphabet());
        }
        let d: usize = (v % 16) as usize;
        let digit = alphabet.substring_char(d, d + 1);
        out.append(digit);
        proof {
            let ghost prev = old(out)@ + hex_digits((v / 16) as nat, (n - 1) as nat);
            assert(digit@ =~= seq![hex_alphabet()[d as int]]);
            assert((v / 16) as nat == (v as nat) / 16);
            assert(prev + digit@ =~= old(out)@ + hex_digits(v as nat, n as nat));
        }
    }
}

/// Order- and position-sensitive checksum of `input`, as sixteen upper-case
/// hexadecimal digits.
pub fn simple_hash(input: &str) -> (r: String)
    ensures
        r@ == hex16(hash_of(input@)),
{
    let len = input.unicode_len();
    let mut hash: u64 = 0;
    let mut i: usize = 0;
    while i < len
        invariant
            len == input@.len(),
            i <= len,
            hash == hash_prefix(input@, i as nat),
        decreases len - i,
    {
        let c = input.get_char(i);
        hash = hash.wrapping_add((c as u64).wrapping_mul((i + 1) as u64));
        hash = hash.wrapping_mul(31);
        i = i + 1;
    }
    let mut out = String::new();
    append_hex_digits(&mut out, hash, 16);
    out
}

/// The string the fingerprint is taken over: host name and user name joined
/// by a colon.
pub open spec fn machine_info(host: Seq<char>, user: Seq<char>) -> Seq<char> {
    host + ":"@ + user
}

/// The machine identifier of a device with the given host and user names.
pub open spec fn machine_id_of(host: Seq<char>, user: Seq<char>) -> Seq<char> {
    "DSK-"@ + hex16(hash_of(machine_info(host, user)))
}

/// The shape of every machine identifier: the tag `DSK-` and sixteen
/// upper-case hexadecimal digits.
pub open spec fn is_machine_id_shaped(id: Seq<char>) -> bool {
    &&& id.len() == 20
    &&& id.subrange(0, 4) == "DSK-"@
    &&& forall|k: int| 4 <= k < 20 ==> is_hex_upper(#[trigger] id[k])
}

/// A machine identifier depends on the host and user names alone: equal names
/// give equal identifiers, on every call and in every process.
pub proof fn lemma_machine_id_deterministic(
    host1: Seq<char>,
    user1: Seq<char>,
    host2: Seq<char>,
    user2: Seq<char>,
)
    requires
        host1 == host2,
        user1 == user2,
    ensures
        machine_id_of(host1, user1) == machine_id_of(host2, user2),
{
}

/// Every machine identifier is `DSK-` followed by exactly sixteen upper-case
/// hexadecimal digits.
pub proof fn lemma_machine_id_shape(host: Seq<char>, user: Seq<char>)
    ensures
        is_machine_id_shaped(machine_id_of(host, user)),
{
    reveal_strlit("DSK-");
    let h = hash_of(machine_info(host, user));
    lemma_hex_digits_shape(h as nat, 16);
    let id = machine_id_of(host, user);
    assert(id.subrange(0, 4) =~= "DSK-"@);
    assert forall|k: int| 4 <= k < 20 implies is_hex_upper(#[trigger] id[k]) by {
        assert(id[k] == hex16(h)[k - 4]);
    }
}

/// Machine identifier for the given host and user names.
pub fn compute_machine_id(hostname: &str, username: &str) -> (r: String)
    ensures
        r@ == machine_id_of(hostname@, username@),
{
    let mut info = String::from_str(hostname);
    info.append(":");
    info.append(username);
    let hash = simple_hash(info.as_str());
    let mut id = String::from_str("DSK-");
    id.append(hash.as_str());
    id
}

/// The host name to fingerprint: the one looked up, or `unknown` when the
/// lookup failed.
pub fn host_or_unknown(looked_up: Option<String>) -> (r: String)
    ensures
        r@ == (match looked_up {
            Some(h) => h@,
            None => "unknown"@,
        }),
{
    match looked_up {
        Some(h) => h,
        None => String::from_str("unknown"),
    }
}

/// Relies on hostname::get: the network name of this host, `None` where the
/// system call fails. What it returns depends on the machine.
#[verifier::external_body]
fn lookup_host_name() -> (r: Option<String>) {
    hostname::get().ok().map(|h| h.to_string_lossy().to_string())
}

/// Relies on whoami::username: the login name of the current user, which
/// depends on the machine and the process.
#[verifier::external_body]
fn lookup_user_name() -> (r: String) {
    whoami::username()
}

/// Machine identifier of the current device. Host lookup failures degrade to
/// the host name `unknown`; the call never fails.
pub fn get_machine_id() -> (r: String)
    ensures
        exists|host: Seq<char>, user: Seq<char>| r@ == machine_id_of(host, user),
        is_machine_id_shaped(r@),
{
    let host = host_or_unknown(lookup_host_name());
    let user = lookup_user_name();
    let r = compute_machine_id(host.as_str(), user.as_str());
    proof {
        lemma_machine_id_shape(host@, user@);
    }
    r
}

} // verus!
