use vstd::prelude::*;
use vstd::string::*;

verus! {

/// Why a homeserver delegation was refused.
#[derive(Clone, Copy, Debug, PartialEq, Eq, Structural)]
pub enum RegistryError {
    EmptyHomeserver,
    HomeserverTooLong,
    InvalidHomeserver,
}

/// ASCII letters and digits, `.`, `-` and `:`.
pub open spec fn is_hostname_char(c: char) -> bool {
    ('a' <= c && c <= 'z') || ('A' <= c && c <= 'Z') || ('0' <= c && c <= '9') || c == '.' || c == '-'
        || c == ':'
}

/// Whether `pattern` occurs in `text`.
pub open spec fn has_substring(text: Seq<char>, pattern: Seq<char>) -> bool {
    exists|i: int| 0 <= i && i + pattern.len() <= text.len() && #[trigger] text.subrange(i, i + pattern.len()) == pattern
}

/// A plain host name: at least one dot, no space, no protocol prefix, and
/// only host name characters.
pub open spec fn is_hostname(text: Seq<char>) -> bool {
    &&& text.contains('.')
    &&& !text.contains(' ')
    &&& !has_substring(text, "://"@)
    &&& forall|i: int| 0 <= i < text.len() ==> is_hostname_char(#[trigger] text[i])
}

/// Whether a homeserver may be registered (`byte_len` is its UTF-8 length),
/// or the first rule it breaks.
pub open spec fn homeserver_check(text: Seq<char>, byte_len: nat) -> Result<(), RegistryError> {
    if text.len() == 0 {
        Err(RegistryError::EmptyHomeserver)
    } else if byte_len > 253 {
        Err(RegistryError::HomeserverTooLong)
    } else if !is_hostname(text) {
        Err(RegistryError::InvalidHomeserver)
    } else {
        Ok(())
    }
}

/// Whether `hostname` is a plain host name.
pub fn is_valid_hostname(hostname: &str) -> (r: bool)
    ensures
        r == is_hostname(hostname@),
{
    let n = hostname.unicode_len();
    let mut has_dot = false;
    let mut i: usize = 0;
    while i < n
        invariant
            n == hostname@.len(),
            i <= n,
            forall|j: int| 0 <= j < i ==> is_hostname_char(#[trigger] hostname@[j]),
            has_dot == exists|j: int| 0 <= j < i && hostname@[j] == '.',
        decreases n - i,
    {
        let c = hostname.get_char(i);
        let allowed = ('a' <= c && c <= 'z') || ('A' <= c && c <= 'Z') || ('0' <= c && c <= '9') || c == '.'
            || c == '-' || c == ':';
        if !allowed {
            proof {
                assert(!is_hostname_char(hostname@[i as int]));
            }
            return false;
        }
        if c == '.' {
            has_dot = true;
        }
        i = i + 1;
    }
    proof {
        let text = hostname@;
        reveal_strlit("://");
        if text.contains(' ') {
            let k = choose|k: int| 0 <= k < text.len() && text[k] == ' ';
            assert(is_hostname_char(text[k]));
        }
        if has_substring(text, "://"@) {
            let k = choose|k: int| 0 <= k && k + 3 <= text.len() && #[trigger] text.subrange(k, k + 3) == "://"@;
            assert(text.subrange(k, k + 3)[1] == '/');
            assert(is_hostname_char(text[k + 1]));
        }
        if has_dot {
            let k = choose|k: int| 0 <= k < i && text[k] == '.';
            assert(text.contains('.'));
        }
    }
    has_dot
}

/// Checks a homeserver before it is stored as a wallet's delegation.
pub fn validate_homeserver(homeserver: &str) -> (r: Result<(), RegistryError>)
    ensures
        r == homeserver_check(homeserver@, homeserver.len() as nat),
{
    if homeserver.is_empty() {
        return Err(RegistryError::EmptyHomeserver);
    }
    if homeserver.len() > 253 {
        return Err(RegistryError::HomeserverTooLong);
    }
    if !is_valid_hostname(homeserver) {
        return Err(RegistryError::InvalidHomeserver);
    }
    Ok(())
}

} // verus!
