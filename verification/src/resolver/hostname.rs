use vstd::prelude::*;

use vstd::string::StringSliceAdditionalSpecFns;

use super::ResolverError;

verus! {

pub open spec fn is_ascii_alnum(c: u8) -> bool {
    (48 <= c <= 57) || (65 <= c <= 90) || (97 <= c <= 122)
}

/// A byte allowed inside a hostname label: ASCII letter, digit, or hyphen.
pub open spec fn is_label_byte(c: u8) -> bool {
    is_ascii_alnum(c) || c == 45
}

pub open spec fn ascii_lower(c: u8) -> u8 {
    if 65 <= c <= 90 {
        (c + 32) as u8
    } else {
        c
    }
}

/// The name with one optional trailing root dot removed.
pub open spec fn trim_root_dot(b: Seq<u8>) -> Seq<u8> {
    if b.len() > 0 && b.last() == 46 {
        b.drop_last()
    } else {
        b
    }
}

/// Some octet among `t[s .. s + 64]` is a dot.
pub open spec fn dot_within(t: Seq<u8>, s: int) -> bool {
    exists|k: int| s <= k < s + 64 && #[trigger] t[k] == 46
}

/// Plain ASCII hostname syntax over the bytes of a name without its root dot:
/// 1 to 253 octets; labels separated by single dots, each non-empty, made of
/// letters, digits and hyphens, not starting or ending with a hyphen, and at
/// most 63 octets long (every run of 64 consecutive octets holds a dot).
pub open spec fn valid_hostname(t: Seq<u8>) -> bool {
    &&& 0 < t.len() <= 253
    &&& forall|i: int| 0 <= i < t.len() ==> #[trigger] t[i] == 46 || is_label_byte(t[i])
    &&& t[0] != 46 && t[0] != 45
    &&& t.last() != 46 && t.last() != 45
    &&& forall|i: int| 0 <= i < t.len() - 1 && #[trigger] t[i] == 46 ==> t[i + 1] != 46 && t[i
        + 1] != 45
    &&& forall|i: int| 0 < i < t.len() && #[trigger] t[i] == 46 ==> t[i - 1] != 45
    &&& forall|s: int| 0 <= s && s + 64 <= t.len() ==> #[trigger] dot_within(t, s)
}

/// The normalized form: the name without its root dot, ASCII-lowercased.
pub open spec fn normalized_hostname(b: Seq<u8>) -> Seq<char> {
    Seq::new(trim_root_dot(b).len(), |i: int| ascii_lower(trim_root_dot(b)[i]) as char)
}

/// `String::from_utf8` on bytes that are all ASCII: such bytes are valid
/// UTF-8, and the string's characters are exactly those bytes.
#[verifier::external_body]
fn ascii_string(bytes: Vec<u8>) -> (s: String)
    requires
        forall|i: int| 0 <= i < bytes@.len() ==> #[trigger] bytes@[i] < 128,
    ensures
        s@ == Seq::new(bytes@.len(), |i: int| bytes@[i] as char),
{
    match String::from_utf8(bytes) {
        Ok(s) => s,
        Err(_) => String::new(),
    }
}

/// Validates plain ASCII hostname syntax and returns the normalized form: one
/// optional trailing root dot removed, ASCII-lowercased.
pub fn normalize_hostname(host: &str) -> (r: Result<String, ResolverError>)
    ensures
        valid_hostname(trim_root_dot(host.spec_bytes())) ==> (r matches Ok(s) && s@
            == normalized_hostname(host.spec_bytes())),
        !valid_hostname(trim_root_dot(host.spec_bytes())) ==> r == Err::<String, ResolverError>(
            ResolverError::InvalidHostname,
        ),
{
    let bytes = host.as_bytes();
    let ghost b = bytes@;
    let mut len = bytes.len();
    if len > 0 && bytes[len - 1] == 46 {
        len = len - 1;
    }
    let ghost t = trim_root_dot(b);
    assert(t =~= b.subrange(0, len as int));
    if len == 0 || len > 253 {
        return Err(ResolverError::InvalidHostname);
    }
    if bytes[0] == 46 || bytes[0] == 45 || bytes[len - 1] == 46 || bytes[len - 1] == 45 {
        return Err(ResolverError::InvalidHostname);
    }
    let mut out: Vec<u8> = Vec::new();
    let mut i: usize = 0;
    // Octets since the most recent dot (or the start), including position i - 1.
    let mut run: usize = 0;
    while i < len
        invariant
            b == bytes@,
            b == host.spec_bytes(),
            t == trim_root_dot(b),
            t == b.subrange(0, len as int),
            0 < len <= 253,
            len <= b.len(),
            i <= len,
            run <= i,
            run <= 63,
            t[0] != 46 && t[0] != 45,
            t.last() != 46 && t.last() != 45,
            forall|j: int| 0 <= j < i ==> #[trigger] t[j] == 46 || is_label_byte(t[j]),
            forall|j: int| 0 <= j < i && j + 1 < len && #[trigger] t[j] == 46 ==> t[j + 1] != 46
                && t[j + 1] != 45,
            forall|j: int| 0 < j < i && #[trigger] t[j] == 46 ==> t[j - 1] != 45,
            forall|j: int| i - run <= j < i ==> #[trigger] t[j] != 46,
            run < i ==> t[i - run - 1] == 46,
            forall|s: int| 0 <= s && s + 64 <= i ==> #[trigger] dot_within(t, s),
            out@.len() == i,
            forall|j: int| 0 <= j < i ==> #[trigger] out@[j] == ascii_lower(t[j]),
        decreases len - i,
    {
        let c = bytes[i];
        if c == 46 {
            if i + 1 < len && (bytes[i + 1] == 46 || bytes[i + 1] == 45) {
                assert(t[i as int] == 46 && t[i + 1] == b[i + 1]);
                return Err(ResolverError::InvalidHostname);
            }
            if i > 0 && bytes[i - 1] == 45 {
                assert(t[i as int] == 46 && t[i - 1] == 45);
                return Err(ResolverError::InvalidHostname);
            }
            proof {
                assert forall|s: int| 0 <= s && s + 64 <= i + 1 implies #[trigger] dot_within(
                    t,
                    s,
                ) by {
                    if s + 64 == i + 1 {
                        assert(t[i as int] == 46);
                    }
                }
            }
            run = 0;
        } else {
            let alnum = (48 <= c && c <= 57) || (65 <= c && c <= 90) || (97 <= c && c <= 122);
            if !alnum && c != 45 {
                assert(!(t[i as int] == 46 || is_label_byte(t[i as int])));
                return Err(ResolverError::InvalidHostname);
            }
            if run == 63 {
                proof {
                    // t[i - 63 ..= i] holds no dot, a 64-octet label run.
                    let s = i - 63;
                    assert(s >= 0);
                    assert(forall|k: int| s <= k < s + 64 ==> t[k] != 46);
                    assert(!dot_within(t, s));
                }
                return Err(ResolverError::InvalidHostname);
            }
            proof {
                assert forall|s: int| 0 <= s && s + 64 <= i + 1 implies #[trigger] dot_within(
                    t,
                    s,
                ) by {
                    if s + 64 == i + 1 {
                        let k = i - run - 1;
                        assert(run < i);
                        assert(t[k] == 46);
                    }
                }
            }
            run = run + 1;
        }
        let lowered = if 65 <= c && c <= 90 {
            c + 32
        } else {
            c
        };
        out.push(lowered);
        i = i + 1;
    }
    proof {
        assert(valid_hostname(t));
        assert forall|j: int| 0 <= j < out@.len() implies #[trigger] out@[j] < 128 by {
            assert(t[j] == 46 || is_label_byte(t[j]));
        }
    }
    let s = ascii_string(out);
    assert(s@ =~= normalized_hostname(b));
    Ok(s)
}

} // verus!
