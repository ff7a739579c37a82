//! The identity under which this install shows itself to trackers and peers.

use vstd::prelude::*;

use crate::text::{byte_len, trim, trimmed};

verus! {

/// The client family that every identity starts with. Trackers that admit
/// known clients only look for it.
pub const PEER_ID_PREFIX: [u8; 8] = [0x2d, 0x6c, 0x74, 0x31, 0x30, 0x30, 0x42, 0x2d];

/// An identity that no install should use: its suffix is the same everywhere.
pub const DEFAULT_PEER_ID: [u8; 20] = [
    0x2d, 0x6c, 0x74, 0x31, 0x30, 0x30, 0x42, 0x2d, 0x30, 0x30, 0x30, 0x30, 0x30, 0x30, 0x30, 0x30,
    0x30, 0x30, 0x30, 0x30,
];

/// What is sent as `User-Agent` unless something else is configured.
pub const DEFAULT_USER_AGENT: &'static str = "rtorrent/0.16.11/0.16.11";

/// The length of the part that tells installs apart.
pub const PEER_ID_SUFFIX_LEN: usize = 12;

/// `c` is an ASCII letter or digit.
pub open spec fn is_ascii_alphanumeric(c: char) -> bool {
    ('a' <= c && c <= 'z') || ('A' <= c && c <= 'Z') || ('0' <= c && c <= '9')
}

/// Calls `rand::distributions::Alphanumeric.sample_string` with the thread's
/// generator: a text of `len` characters, each an ASCII letter or digit. Which
/// ones is left to chance.
#[verifier::external_body]
fn sample_alphanumeric(len: usize) -> (r: String)
    requires
        len <= PEER_ID_SUFFIX_LEN,
    ensures
        r@.len() == len,
        forall|i: int| 0 <= i < r@.len() ==> is_ascii_alphanumeric(#[trigger] r@[i]),
{
    rand::distributions::DistString::sample_string(
        &rand::distributions::Alphanumeric,
        &mut rand::thread_rng(),
        len,
    )
}

/// `suffix` fills what the prefix leaves of the twenty bytes of an identity.
pub open spec fn fills_identity(suffix: Seq<char>) -> bool {
    vstd::utf8::encode_utf8(suffix).len() == PEER_ID_SUFFIX_LEN
}

/// `suffix` can follow the prefix of an identity.
pub open spec fn is_suffix(suffix: Seq<char>) -> bool {
    &&& suffix.len() == PEER_ID_SUFFIX_LEN
    &&& vstd::utf8::is_ascii_chars(suffix)
}

/// `suffix` is one that an install makes for itself: letters and digits alone.
pub open spec fn is_fresh_suffix(suffix: Seq<char>) -> bool {
    &&& suffix.len() == PEER_ID_SUFFIX_LEN
    &&& forall|i: int| 0 <= i < suffix.len() ==> is_ascii_alphanumeric(#[trigger] suffix[i])
}

/// A fresh suffix of letters and digits. It is read back as it is where it was
/// stored.
pub fn random_suffix() -> (r: String)
    ensures
        is_fresh_suffix(r@),
        is_suffix(r@),
        fills_identity(r@),
        stored_suffix(r@) == Some(r@),
{
    let suffix = sample_alphanumeric(PEER_ID_SUFFIX_LEN);
    proof {
        law_stored_suffix_is_stable(suffix@);
    }
    suffix
}

/// The identity with this suffix.
pub open spec fn peer_id_bytes(suffix: Seq<char>) -> Seq<u8> {
    PEER_ID_PREFIX@ + vstd::utf8::encode_utf8(suffix)
}

/// Puts the prefix before a suffix of twelve bytes.
pub fn build_peer_id(suffix: &str) -> (r: [u8; 20])
    requires
        fills_identity(suffix@),
    ensures
        r@ == peer_id_bytes(suffix@),
{
    let bytes = suffix.as_bytes();
    let mut id: [u8; 20] = [0u8; 20];
    let mut i: usize = 0;
    while i < 8
        invariant
            i <= 8,
            forall|k: int| 0 <= k < i ==> id@[k] == PEER_ID_PREFIX@[k],
        decreases 8 - i,
    {
        id[i] = PEER_ID_PREFIX[i];
        i = i + 1;
    }
    let mut k: usize = 0;
    while k < 12
        invariant
            k <= 12,
            bytes@ == vstd::utf8::encode_utf8(suffix@),
            bytes@.len() == 12,
            forall|j: int| 0 <= j < 8 ==> id@[j] == PEER_ID_PREFIX@[j],
            forall|j: int| 0 <= j < k ==> id@[8 + j] == bytes@[j],
        decreases 12 - k,
    {
        id[8 + k] = bytes[k];
        k = k + 1;
    }
    assert(id@ =~= peer_id_bytes(suffix@)) by {
        assert forall|j: int| 0 <= j < 20 implies id@[j] == peer_id_bytes(suffix@)[j] by {
            if j >= 8 {
                assert(id@[8 + (j - 8)] == bytes@[j - 8]);
            }
        }
    }
    id
}

/// The identity that a configured value stands for: its bytes, where they are
/// twenty ASCII bytes.
pub open spec fn configured_peer_id(value: Option<Seq<char>>) -> Option<Seq<u8>> {
    match value {
        Some(value) => if byte_len(value) == 20 && vstd::utf8::is_ascii_chars(value) {
            Some(vstd::utf8::encode_utf8(value))
        } else {
            None
        },
        None => None,
    }
}

/// The view of an optional text.
pub open spec fn optional_text(value: Option<&str>) -> Option<Seq<char>> {
    match value {
        Some(value) => Some(value@),
        None => None,
    }
}

/// Reads a configured identity.
pub fn env_peer_id(value: Option<&str>) -> (r: Option<[u8; 20]>)
    ensures
        match configured_peer_id(optional_text(value)) {
            Some(id) => r matches Some(bytes) && bytes@ == id,
            None => r is None,
        },
{
    let value = match value {
        Some(value) => value,
        None => {
            return None;
        },
    };
    let bytes = value.as_bytes();
    if bytes.len() != 20 || !value.is_ascii() {
        return None;
    }
    proof {
        vstd::utf8::is_ascii_chars_encode_utf8(value@);
    }
    let mut id: [u8; 20] = [0u8; 20];
    let mut i: usize = 0;
    while i < 20
        invariant
            i <= 20,
            bytes@ == vstd::utf8::encode_utf8(value@),
            bytes@.len() == 20,
            forall|k: int| 0 <= k < i ==> id@[k] == bytes@[k],
        decreases 20 - i,
    {
        id[i] = bytes[i];
        i = i + 1;
    }
    assert(id@ =~= bytes@);
    Some(id)
}

/// The suffix that a stored text holds: twelve ASCII bytes, white space around
/// them left out.
pub open spec fn stored_suffix(existing: Seq<char>) -> Option<Seq<char>> {
    if byte_len(trimmed(existing)) == PEER_ID_SUFFIX_LEN && vstd::utf8::is_ascii_chars(
        trimmed(existing),
    ) {
        Some(trimmed(existing))
    } else {
        None
    }
}

/// Reads a stored suffix.
pub fn accept_suffix(existing: &str) -> (r: Option<String>)
    ensures
        match stored_suffix(existing@) {
            Some(suffix) => r matches Some(text) && text@ == suffix && is_suffix(text@)
                && fills_identity(text@),
            None => r is None,
        },
{
    let text = trim(existing);
    let length: usize = text.as_str().as_bytes().len();
    if length == PEER_ID_SUFFIX_LEN && text.as_str().is_ascii() {
        proof {
            vstd::utf8::is_ascii_chars_encode_utf8(text@);
        }
        Some(text)
    } else {
        None
    }
}

/// Where the suffix of an identity comes from.
#[derive(Debug)]
pub enum SuffixChoice {
    /// It was stored by an earlier run.
    Stored(String),
    /// It is new and has to be stored.
    Fresh(String),
}

impl SuffixChoice {
    /// The suffix itself.
    pub open spec fn suffix(self) -> Seq<char> {
        match self {
            SuffixChoice::Stored(suffix) => suffix@,
            SuffixChoice::Fresh(suffix) => suffix@,
        }
    }
}

/// The suffix that a text holds, if there is a text.
pub open spec fn usable_suffix(existing: Option<Seq<char>>) -> Option<Seq<char>> {
    match existing {
        Some(text) => stored_suffix(text),
        None => None,
    }
}

/// `choice` is what an install settles on that finds `existing` stored.
pub open spec fn is_suffix_choice(existing: Option<Seq<char>>, choice: SuffixChoice) -> bool {
    match usable_suffix(existing) {
        Some(suffix) => choice matches SuffixChoice::Stored(kept) && kept@ == suffix && is_suffix(
            kept@,
        ) && fills_identity(kept@),
        None => choice matches SuffixChoice::Fresh(fresh) && is_fresh_suffix(fresh@)
            && stored_suffix(fresh@) == Some(fresh@) && is_suffix(fresh@) && fills_identity(fresh@),
    }
}

/// What is stored once a choice was carried out: a fresh suffix takes the place
/// of what was there.
pub open spec fn stored_after(existing: Option<Seq<char>>, choice: SuffixChoice) -> Option<
    Seq<char>,
> {
    match choice {
        SuffixChoice::Stored(_) => existing,
        SuffixChoice::Fresh(fresh) => Some(fresh@),
    }
}

/// Takes the stored suffix, or makes a new one where nothing usable is stored.
/// A new one is such that it is taken when it is found stored.
pub fn load_or_generate_suffix(existing: Option<&str>) -> (r: SuffixChoice)
    ensures
        is_suffix_choice(optional_text(existing), r),
{
    if let Some(text) = existing {
        if let Some(suffix) = accept_suffix(text) {
            return SuffixChoice::Stored(suffix);
        }
    }
    SuffixChoice::Fresh(random_suffix())
}

/// The identity of this process: the configured one, else the one with the
/// suffix that is stored, else one with a suffix of its own.
pub fn resolve_peer_id(configured: Option<&str>, suffix: Option<&str>) -> (r: [u8; 20])
    requires
        suffix matches Some(text) ==> fills_identity(text@),
    ensures
        match (configured_peer_id(optional_text(configured)), suffix) {
            (Some(id), _) => r@ == id,
            (None, Some(text)) => r@ == peer_id_bytes(text@),
            (None, None) => exists|fresh: Seq<char>|
                is_fresh_suffix(fresh) && r@ == #[trigger] peer_id_bytes(fresh),
        },
{
    if let Some(id) = env_peer_id(configured) {
        return id;
    }
    match suffix {
        Some(text) => build_peer_id(text),
        None => {
            let fresh = random_suffix();
            proof {
                vstd::utf8::is_ascii_chars_encode_utf8(fresh@);
            }
            build_peer_id(fresh.as_str())
        },
    }
}

/// Whether the stored suffix is needed to settle the identity: not where it is
/// settled already, nor where it is configured.
pub fn needs_stored_suffix(identity: &Option<[u8; 20]>, configured: Option<&str>) -> (r: bool)
    ensures
        r == (*identity is None && configured_peer_id(optional_text(configured)) is None),
{
    identity.is_none() && env_peer_id(configured).is_none()
}

/// Settles the identity of this process, unless it is settled already.
pub fn init(identity: &mut Option<[u8; 20]>, configured: Option<&str>, suffix: Option<&str>)
    requires
        suffix matches Some(text) ==> fills_identity(text@),
    ensures
        *old(identity) is Some ==> *final(identity) == *old(identity),
        *old(identity) is None ==> (*final(identity) matches Some(id) && match (
            configured_peer_id(optional_text(configured)),
            suffix,
        ) {
            (Some(bytes), _) => id@ == bytes,
            (None, Some(text)) => id@ == peer_id_bytes(text@),
            (None, None) => exists|fresh: Seq<char>|
                is_fresh_suffix(fresh) && id@ == #[trigger] peer_id_bytes(fresh),
        }),
{
    if identity.is_none() {
        *identity = Some(resolve_peer_id(configured, suffix));
    }
}

/// The identity of this process, settled on first use.
pub fn our_peer_id(identity: &mut Option<[u8; 20]>, configured: Option<&str>) -> (r: [u8; 20])
    ensures
        *final(identity) == Some(r),
        *old(identity) matches Some(id) ==> r == id,
        *old(identity) is None ==> match configured_peer_id(optional_text(configured)) {
            Some(id) => r@ == id,
            None => exists|fresh: Seq<char>|
                is_fresh_suffix(fresh) && r@ == #[trigger] peer_id_bytes(fresh),
        },
{
    match *identity {
        Some(id) => id,
        None => {
            let id = resolve_peer_id(configured, None);
            *identity = Some(id);
            id
        },
    }
}

/// What is sent as `User-Agent`: the configured text, unless it is blank.
pub fn user_agent(configured: Option<&str>) -> (r: String)
    ensures
        r@ == match optional_text(configured) {
            Some(text) => if trimmed(text).len() > 0 {
                text
            } else {
                DEFAULT_USER_AGENT@
            },
            None => DEFAULT_USER_AGENT@,
        },
{
    if let Some(text) = configured {
        if !trim(text).as_str().is_empty() {
            return text.to_owned();
        }
    }
    DEFAULT_USER_AGENT.to_owned()
}

/// Every identity that is not configured shows the client family, and two of
/// them are the same only where their suffixes are.
pub proof fn law_identity_shows_family_and_suffix(a: Seq<char>, b: Seq<char>)
    requires
        is_suffix(a),
        is_suffix(b),
    ensures
        peer_id_bytes(a).len() == 20,
        peer_id_bytes(a).take(8) == PEER_ID_PREFIX@,
        peer_id_bytes(a) == peer_id_bytes(b) ==> a == b,
{
    vstd::utf8::is_ascii_chars_encode_utf8(a);
    vstd::utf8::is_ascii_chars_encode_utf8(b);
    assert(peer_id_bytes(a).take(8) =~= PEER_ID_PREFIX@);
    if peer_id_bytes(a) == peer_id_bytes(b) {
        let ea = vstd::utf8::encode_utf8(a);
        let eb = vstd::utf8::encode_utf8(b);
        assert(peer_id_bytes(a).skip(8) =~= ea);
        assert(peer_id_bytes(b).skip(8) =~= eb);
        vstd::utf8::encode_utf8_decode_utf8(a);
        vstd::utf8::encode_utf8_decode_utf8(b);
    }
}

/// A fresh suffix that was stored is read back as it was.
pub proof fn law_stored_suffix_is_stable(suffix: Seq<char>)
    requires
        is_fresh_suffix(suffix),
    ensures
        is_suffix(suffix),
        fills_identity(suffix),
        stored_suffix(suffix) == Some(suffix),
{
    assert(vstd::utf8::is_ascii_chars(suffix)) by {
        assert forall|i: int| 0 <= i < suffix.len() implies '\0' <= #[trigger] suffix[i]
            && suffix[i] <= '\u{7f}' by {
            assert(is_ascii_alphanumeric(suffix[i]));
        }
    }
    vstd::utf8::is_ascii_chars_encode_utf8(suffix);
    assert(is_ascii_alphanumeric(suffix[0]));
    assert(is_ascii_alphanumeric(suffix[11]));
}

/// A restart keeps the identity: an install that finds stored what its last
/// start left there settles on the same suffix, and writes nothing.
pub proof fn law_restart_keeps_identity(
    existing: Option<Seq<char>>,
    first: SuffixChoice,
    second: SuffixChoice,
)
    requires
        is_suffix_choice(existing, first),
        is_suffix_choice(stored_after(existing, first), second),
    ensures
        second is Stored,
        second.suffix() == first.suffix(),
        peer_id_bytes(second.suffix()) == peer_id_bytes(first.suffix()),
        stored_after(stored_after(existing, first), second) == stored_after(existing, first),
{
}

/// A configured identity goes before any other, exactly where it is twenty ASCII
/// characters; else the stored suffix stands behind the name of the client family.
pub proof fn law_configured_identity_goes_first(
    configured: Option<&str>,
    suffix: Option<&str>,
    r: [u8; 20],
)
    requires
        suffix matches Some(text) ==> fills_identity(text@),
        call_ensures(resolve_peer_id, (configured, suffix), r),
    ensures
        configured matches Some(text) ==> (text@.len() == 20 && vstd::utf8::is_ascii_chars(text@)
            ==> r@ == vstd::utf8::encode_utf8(text@)),
        (configured matches Some(text) ==> text@.len() != 20 || !vstd::utf8::is_ascii_chars(
            text@,
        )) ==> r@.take(8) == PEER_ID_PREFIX@ && (suffix matches Some(stored) ==> r@.skip(8)
            == vstd::utf8::encode_utf8(stored@)),
{
    if let Some(text) = configured {
        if vstd::utf8::is_ascii_chars(text@) {
            vstd::utf8::is_ascii_chars_encode_utf8(text@);
        }
    }
    if configured_peer_id(optional_text(configured)) is None {
        if let Some(stored) = suffix {
            assert(r@.skip(8) =~= vstd::utf8::encode_utf8(stored@));
        }
        assert(r@.take(8) =~= PEER_ID_PREFIX@);
    }
}

/// The stored suffix is read only where it is needed.
pub proof fn law_suffix_is_read_where_needed(
    settled: [u8; 20],
    configured: Option<&str>,
    known: bool,
    fresh: bool,
)
    requires
        call_ensures(needs_stored_suffix, (&Some(settled), configured), known),
        call_ensures(needs_stored_suffix, (&None::<[u8; 20]>, configured), fresh),
    ensures
        !known,
        configured is None ==> fresh,
        configured matches Some(text) ==> (text@.len() == 20 && vstd::utf8::is_ascii_chars(text@)
            ==> !fresh),
{
    if let Some(text) = configured {
        if vstd::utf8::is_ascii_chars(text@) {
            vstd::utf8::is_ascii_chars_encode_utf8(text@);
        }
    }
}

/// A configured `User-Agent` is sent as it is, unless it is blank or missing.
pub proof fn law_configured_agent_is_sent(text: &str, configured: String, missing: String)
    requires
        call_ensures(user_agent, (Some(text),), configured),
        call_ensures(user_agent, (None::<&str>,), missing),
    ensures
        trimmed(text@).len() > 0 ==> configured@ == text@,
        trimmed(text@).len() == 0 ==> configured@ == missing@,
        missing@ == "rtorrent/0.16.11/0.16.11"@,
{
}

/// An identity that is settled stays, and the first use settles it.
pub proof fn law_identity_is_settled_once(configured: Option<&str>, suffix: Option<&str>)
    ensures
        forall|identity: &mut Option<[u8; 20]>| #[trigger]
            call_ensures(init, (identity, configured, suffix), ()) ==> {
                &&& *identity is Some ==> *final(identity) == *identity
                &&& *final(identity) is Some
            },
        forall|identity: &mut Option<[u8; 20]>, r: [u8; 20]| #[trigger]
            call_ensures(our_peer_id, (identity, configured), r) ==> {
                &&& *final(identity) == Some(r)
                &&& *identity is Some ==> *identity == Some(r)
            },
{
}

} // verus!
