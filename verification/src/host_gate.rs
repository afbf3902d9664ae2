//! The host gate: only requests addressed to the front-end hostname pass.
use vstd::prelude::*;
use vstd::utf8::is_ascii_chars;
use vstd::string::is_ascii_spec_bytes;
use vstd::string::StrSliceExecFns;
use vstd::string::StringExecFns;
use crate::config::FRONT_HOST;
use crate::error::ErrorView;
use crate::error::ProxyError;

verus! {

/// `n` is where the hostname part of `authority` ends: no colon before it,
/// and either the end of the text or the first colon at it.
pub open spec fn host_ends_at(authority: Seq<char>, n: int) -> bool {
    &&& 0 <= n <= authority.len()
    &&& forall|i: int| 0 <= i < n ==> authority[i] != ':'
    &&& n < authority.len() ==> authority[n] == ':'
}

/// The hostname part of an authority: everything before its first colon,
/// or all of it where it has none.
pub open spec fn host_part(authority: Seq<char>) -> Seq<char> {
    authority.subrange(0, choose|n: int| host_ends_at(authority, n))
}

/// Whether an authority is addressed to the front-end hostname.
pub open spec fn host_accepted(authority: Seq<char>) -> bool {
    host_part(authority) == FRONT_HOST@
}

/// The hostname part ends at exactly one place.
pub proof fn lemma_host_end_unique(authority: Seq<char>, n: int, m: int)
    requires
        host_ends_at(authority, n),
        host_ends_at(authority, m),
    ensures
        n == m,
{
    if n < m {
        assert(authority[n] == ':');
    } else if m < n {
        assert(authority[m] == ':');
    }
}

/// The hostname part of an authority of ASCII characters, found in one
/// pass over its bytes.
fn ascii_host_name(authority: &str) -> (name: String)
    requires
        authority.is_ascii(),
    ensures
        name@ == host_part(authority@),
{
    let bytes = authority.as_bytes();
    proof {
        is_ascii_spec_bytes(authority);
    }
    let mut n: usize = 0;
    while n < bytes.len() && bytes[n] != 0x3a
        invariant
            n <= bytes@.len(),
            bytes@.len() == authority@.len(),
            is_ascii_chars(authority@),
            forall|i: int| 0 <= i < bytes@.len() ==> bytes@[i] == authority@[i] as u8,
            forall|i: int| 0 <= i < n ==> authority@[i] != ':',
        decreases bytes@.len() - n,
    {
        n += 1;
    }
    proof {
        assert(host_ends_at(authority@, n as int));
        let m = choose|m: int| host_ends_at(authority@, m);
        lemma_host_end_unique(authority@, n as int, m);
    }
    String::from_str(authority.substring_ascii(0, n))
}

/// The hostname part of any authority, found character by character.
fn wide_host_name(authority: &str) -> (name: String)
    ensures
        name@ == host_part(authority@),
{
    let len: usize = authority.unicode_len();
    let mut n: usize = 0;
    while n < len && authority.get_char(n) != ':'
        invariant
            n <= len,
            len == authority@.len(),
            forall|i: int| 0 <= i < n ==> authority@[i] != ':',
        decreases len - n,
    {
        n += 1;
    }
    proof {
        assert(host_ends_at(authority@, n as int));
        let m = choose|m: int| host_ends_at(authority@, m);
        lemma_host_end_unique(authority@, n as int, m);
    }
    String::from_str(authority.substring_char(0, n))
}

/// The hostname part of `authority`.
pub fn host_name(authority: &str) -> (name: String)
    ensures
        name@ == host_part(authority@),
{
    if authority.is_ascii() {
        ascii_host_name(authority)
    } else {
        wide_host_name(authority)
    }
}

/// Passes an authority whose hostname part is the front-end hostname, and
/// rejects every other one with the hostname it carried.
pub fn check_host(authority: &str) -> (r: Result<(), ProxyError>)
    ensures
        match r {
            Ok(_) => host_accepted(authority@),
            Err(e) => !host_accepted(authority@) && e@ == ErrorView::UnsupportedHost(
                host_part(authority@),
            ),
        },
{
    let name = host_name(authority);
    let front = String::from_str(FRONT_HOST);
    if name == front {
        Ok(())
    } else {
        Err(ProxyError::UnsupportedHost(name))
    }
}

} // verus!
