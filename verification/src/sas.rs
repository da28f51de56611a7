//! Shared-access-signature tokens: how one is derived from a connection string
//! and an expiry, and the cache that hands out a token that is still valid.

use crate::connection::{connection_field, connection_value};
use crate::encoding::{percent_encoded, utf8_percent_encode, EncodeSet};
use crate::text::{append_decimal, decimal_text, push_char};
use crypto::mac::Mac;
use vstd::prelude::*;
use vstd::string::StringExecFns;
use vstd::utf8::encode_utf8;

verus! {

/// For how many seconds a token that a client generates is valid.
pub const TOKEN_LIFETIME_SECS: u64 = 360;

/// How many seconds before its signature expires a cached token is given up.
pub const SAS_BUFFER_TIME: u64 = 15;

/// The HMAC-SHA256 code of a message under a key.
pub uninterp spec fn hmac_sha256(key: Seq<u8>, message: Seq<u8>) -> Seq<u8>;

/// The base64 text of some bytes, in the standard alphabet with padding.
pub uninterp spec fn base64_standard(bytes: Seq<u8>) -> Seq<char>;

/// Computes a message authentication code with the `crypto` crate:
/// `Hmac::new(Sha256::new(), key)`, then `input(message)` and `result().code()`.
/// The code depends on the key and the message alone, and has the 32 bytes
/// of a SHA-256 digest.
#[verifier::external_body]
fn hmac_sha256_code(key: &[u8], message: &[u8]) -> (code: Vec<u8>)
    ensures
        code@ == hmac_sha256(key@, message@),
        code@.len() == 32,
{
    let mut mac = crypto::hmac::Hmac::new(crypto::sha2::Sha256::new(), key);
    mac.input(message);
    mac.result().code().to_vec()
}

/// Encodes bytes with `base64::encode`. The text depends on the bytes alone.
/// The crate panics where the length of the text would not fit in a `usize`.
#[verifier::external_body]
fn base64_text(bytes: &[u8]) -> (text: String)
    requires
        (bytes@.len() / 3) * 4 + 4 <= usize::MAX,
    ensures
        text@ == base64_standard(bytes@),
{
    base64::encode(bytes)
}

/// Reads the clock: the whole seconds that `SystemTime::UNIX_EPOCH.elapsed()`
/// reports, or nothing where the clock stands before the epoch. Nothing is
/// claimed of the value.
#[verifier::external_body]
fn unix_time() -> (secs: Option<u64>) {
    match std::time::SystemTime::UNIX_EPOCH.elapsed() {
        Ok(elapsed) => Some(elapsed.as_secs()),
        Err(_) => None,
    }
}

/// The present time in seconds since the epoch; zero on a clock that stands
/// before it.
pub(crate) fn now_secs() -> u64 {
    secs_of_reading(unix_time())
}

/// The time that a reading of the clock stands for: its seconds, and zero
/// for a reading from before the epoch.
pub open spec fn reading_secs(reading: Option<u64>) -> u64 {
    match reading {
        Some(secs) => secs,
        None => 0,
    }
}

/// Turns a reading of the clock into seconds since the epoch.
pub fn secs_of_reading(reading: Option<u64>) -> (secs: u64)
    ensures
        secs == reading_secs(reading),
{
    match reading {
        Some(secs) => secs,
        None => 0,
    }
}

/// The value of a field of the connection string, empty where it has none.
pub open spec fn field_or_empty(conn: Seq<char>, name: Seq<char>) -> Seq<char> {
    match connection_field(conn, name) {
        Some(value) => value,
        None => Seq::empty(),
    }
}

/// When a signature made at `now` for `duration` seconds expires. A sum
/// beyond the largest representable time is clamped to it.
pub open spec fn expiry_after(now: u64, duration: u64) -> u64 {
    if now + duration > u64::MAX {
        u64::MAX
    } else {
        (now + duration) as u64
    }
}

/// What is signed: the encoded resource address, a line feed, the expiry.
pub open spec fn signing_input(encoded_resource: Seq<char>, expiry: u64) -> Seq<char> {
    encoded_resource + seq!['\n'] + decimal_text(expiry as nat)
}

/// The signature field of a token: the code of the signing input under the
/// key, in base64, percent-encoded so that it holds no `+`, `=` or `/`.
pub open spec fn signature_text(key: Seq<char>, encoded_resource: Seq<char>, expiry: u64) -> Seq<
    char,
> {
    percent_encoded(
        base64_standard(
            hmac_sha256(encode_utf8(key), encode_utf8(signing_input(encoded_resource, expiry))),
        ),
        EncodeSet::Signature,
    )
}

/// The grammar of a token.
pub open spec fn token_text(
    signature: Seq<char>,
    expiry: u64,
    key_name: Seq<char>,
    encoded_resource: Seq<char>,
) -> Seq<char> {
    "SharedAccessSignature sig="@ + signature + "&se="@ + decimal_text(expiry as nat) + "&skn="@
        + key_name + "&sr="@ + encoded_resource
}

/// The token that a connection string yields for an expiry. Fields that the
/// connection string lacks count as empty.
pub open spec fn sas_token(conn: Seq<char>, expiry: u64) -> Seq<char> {
    let encoded_resource = percent_encoded(
        field_or_empty(conn, "Endpoint"@),
        EncodeSet::UserInfo,
    );
    token_text(
        signature_text(field_or_empty(conn, "SharedAccessKey"@), encoded_resource, expiry),
        expiry,
        field_or_empty(conn, "SharedAccessKeyName"@),
        encoded_resource,
    )
}

fn value_or_empty(conn: &str, name: &str) -> (value: String)
    ensures
        value@ == field_or_empty(conn@, name@),
{
    match connection_value(conn, name) {
        Some(value) => value,
        None => String::new(),
    }
}

/// The text that is signed for an encoded resource address and an expiry.
pub fn signing_message(encoded_resource: &str, expiry: u64) -> (message: String)
    ensures
        message@ == signing_input(encoded_resource@, expiry),
{
    let mut message = String::from_str(encoded_resource);
    push_char(&mut message, '\n');
    append_decimal(&mut message, expiry);
    proof {
        assert(message@ =~= signing_input(encoded_resource@, expiry));
    }
    message
}

/// Puts a token together from its four fields.
pub fn assemble_token(signature: &str, expiry: u64, key_name: &str, encoded_resource: &str) -> (token:
    String)
    ensures
        token@ == token_text(signature@, expiry, key_name@, encoded_resource@),
{
    let mut token = String::from_str("SharedAccessSignature sig=");
    token.append(signature);
    token.append("&se=");
    append_decimal(&mut token, expiry);
    token.append("&skn=");
    token.append(key_name);
    token.append("&sr=");
    token.append(encoded_resource);
    token
}

/// Generates the token that is valid from `now` for `duration_secs` seconds,
/// and its expiry. A mistake in the connection string raises no error: the
/// token is well formed, and the service will refuse it.
pub fn generate_sas_at(connection_string: &str, now: u64, duration_secs: u64) -> (sas: (
    String,
    u64,
))
    ensures
        sas.1 == expiry_after(now, duration_secs),
        sas.0@ == sas_token(connection_string@, sas.1),
{
    let key = value_or_empty(connection_string, "SharedAccessKey");
    let endpoint = value_or_empty(connection_string, "Endpoint");
    let name = value_or_empty(connection_string, "SharedAccessKeyName");

    let encoded_url = utf8_percent_encode(endpoint.as_str(), EncodeSet::UserInfo);
    let expiry: u64 = if duration_secs > u64::MAX - now {
        u64::MAX
    } else {
        now + duration_secs
    };

    let message = signing_message(encoded_url.as_str(), expiry);
    let code = hmac_sha256_code(key.as_str().as_bytes(), message.as_str().as_bytes());
    let encoded_code = base64_text(code.as_slice());
    let sig = utf8_percent_encode(encoded_code.as_str(), EncodeSet::Signature);
    let sas = assemble_token(sig.as_str(), expiry, name.as_str(), encoded_url.as_str());
    (sas, expiry)
}

/// Generates a token that is valid from now on for `duration_secs` seconds,
/// and its expiry. The token is the one of the connection string for that
/// expiry, whatever the clock said.
pub fn generate_sas(connection_string: &str, duration_secs: u64) -> (sas: (String, u64))
    ensures
        exists|now: u64| sas.1 == #[trigger] expiry_after(now, duration_secs),
        sas.0@ == sas_token(connection_string@, sas.1),
{
    let now = now_secs();
    let sas = generate_sas_at(connection_string, now, duration_secs);
    proof {
        assert(sas.1 == expiry_after(now, duration_secs));
    }
    sas
}

/// A token and the time up to which it is handed out.
pub struct CredentialCache {
    /// The connection string that tokens are generated from.
    pub connection_string: String,
    /// The token generated last.
    pub token: String,
    /// The last second at which the token is still handed out: the expiry of
    /// its signature, less the safety buffer.
    pub expires_at: u64,
}

/// A `CredentialCache` as plain values.
pub struct CredentialView {
    pub connection_string: Seq<char>,
    pub token: Seq<char>,
    pub expires_at: u64,
}

impl View for CredentialCache {
    type V = CredentialView;

    open spec fn view(&self) -> CredentialView {
        CredentialView {
            connection_string: self.connection_string@,
            token: self.token@,
            expires_at: self.expires_at,
        }
    }
}

impl CredentialView {
    /// The expiry that the token's signature carries.
    pub open spec fn signature_expiry(self) -> int {
        self.expires_at + SAS_BUFFER_TIME
    }

    /// The cached token is the one of the connection string, and its
    /// signature expires a safety buffer after the cache gives it up.
    pub open spec fn wf(self) -> bool {
        &&& self.signature_expiry() <= u64::MAX
        &&& self.token == sas_token(self.connection_string, self.signature_expiry() as u64)
    }

    /// The cache as filled at `now`.
    pub open spec fn fresh(conn: Seq<char>, now: u64) -> CredentialView {
        let expiry = expiry_after(now, TOKEN_LIFETIME_SECS);
        CredentialView {
            connection_string: conn,
            token: sas_token(conn, expiry),
            expires_at: (expiry - SAS_BUFFER_TIME) as u64,
        }
    }

    /// Whether the token is no longer handed out at `now`.
    pub open spec fn is_stale(self, now: u64) -> bool {
        now > self.expires_at
    }

    /// The cache after a token has been asked for at `now`: as it was while
    /// the token is valid, filled anew once it is stale.
    pub open spec fn after(self, now: u64) -> CredentialView {
        if self.is_stale(now) {
            CredentialView::fresh(self.connection_string, now)
        } else {
            self
        }
    }

    /// Whether `self` is a cache as filled at some time.
    pub open spec fn is_fresh_for(self, conn: Seq<char>) -> bool {
        exists|now: u64| self == #[trigger] CredentialView::fresh(conn, now)
    }

    /// Whether `self` is what `earlier` becomes when a token is asked for at
    /// some time.
    pub open spec fn refreshed_from(self, earlier: CredentialView) -> bool {
        exists|now: u64| self == #[trigger] earlier.after(now)
    }
}

impl CredentialCache {
    /// A cache filled at `now`.
    pub fn new_at(connection_string: &str, now: u64) -> (cache: CredentialCache)
        ensures
            cache@ == CredentialView::fresh(connection_string@, now),
            cache@.wf(),
    {
        let (token, expiry) = generate_sas_at(connection_string, now, TOKEN_LIFETIME_SECS);
        CredentialCache {
            connection_string: String::from_str(connection_string),
            token,
            expires_at: expiry - SAS_BUFFER_TIME,
        }
    }

    /// A cache filled now.
    pub fn new(connection_string: &str) -> (cache: CredentialCache)
        ensures
            cache@.is_fresh_for(connection_string@),
            cache@.connection_string == connection_string@,
            cache@.wf(),
    {
        let now = now_secs();
        let cache = CredentialCache::new_at(connection_string, now);
        proof {
            assert(cache@ == CredentialView::fresh(connection_string@, now));
        }
        cache
    }

    /// The token to use at `now`. A token that is still valid is returned as
    /// it is; a stale one is replaced first.
    pub fn get_valid_at(&mut self, now: u64) -> (token: String)
        ensures
            final(self)@ == old(self)@.after(now),
            token@ == final(self)@.token,
            now <= u64::MAX - SAS_BUFFER_TIME ==> !final(self)@.is_stale(now),
    {
        if now > self.expires_at {
            let (token, expiry) = generate_sas_at(
                self.connection_string.as_str(),
                now,
                TOKEN_LIFETIME_SECS,
            );
            self.token = token;
            self.expires_at = expiry - SAS_BUFFER_TIME;
        }
        self.token.clone()
    }

    /// The token to use now. Whatever the clock says, the cache ends as
    /// `get_valid_at` leaves it for some time.
    pub fn get_valid(&mut self) -> (token: String)
        ensures
            final(self)@.refreshed_from(old(self)@),
            token@ == final(self)@.token,
    {
        let now = now_secs();
        let token = self.get_valid_at(now);
        proof {
            assert(final(self)@ == old(self)@.after(now));
        }
        token
    }
}

/// Asking for a token keeps the cache well formed.
pub proof fn lemma_after_preserves_wf(cache: CredentialView, now: u64)
    requires
        cache.wf(),
    ensures
        cache.after(now).wf(),
{
}

/// A second request while the token of the first is still valid changes
/// nothing: it returns the same token, and none is generated.
pub proof fn lemma_valid_token_is_kept(cache: CredentialView, first: u64, second: u64)
    requires
        second <= cache.after(first).expires_at,
    ensures
        cache.after(first).after(second) == cache.after(first),
        cache.after(first).after(second).token == cache.after(first).token,
{
}

/// A request after the token has gone stale yields a token whose signature
/// expires strictly later than that of the token before, as long as the new
/// expiry is not clamped.
pub proof fn lemma_refresh_advances_expiry(cache: CredentialView, now: u64)
    requires
        cache.wf(),
        cache.is_stale(now),
        now + TOKEN_LIFETIME_SECS <= u64::MAX,
    ensures
        cache.after(now).signature_expiry() > cache.signature_expiry(),
        cache.after(now).signature_expiry() == now + TOKEN_LIFETIME_SECS,
        cache.after(now).token == sas_token(
            cache.connection_string,
            (now + TOKEN_LIFETIME_SECS) as u64,
        ),
{
}

/// A token generated at `now` for `duration` seconds follows the grammar,
/// and its `se` field is the numeral of `now + duration`, as long as that sum
/// is a representable time.
pub proof fn lemma_token_expires_after_duration(conn: Seq<char>, now: u64, duration: u64)
    requires
        now + duration <= u64::MAX,
    ensures
        expiry_after(now, duration) == now + duration,
        exists|signature: Seq<char>, key_name: Seq<char>, resource: Seq<char>|
            sas_token(conn, expiry_after(now, duration)) == #[trigger] token_text(
                signature,
                (now + duration) as u64,
                key_name,
                resource,
            ),
{
    let expiry = expiry_after(now, duration);
    let resource = percent_encoded(field_or_empty(conn, "Endpoint"@), EncodeSet::UserInfo);
    let signature = signature_text(field_or_empty(conn, "SharedAccessKey"@), resource, expiry);
    let key_name = field_or_empty(conn, "SharedAccessKeyName"@);
    assert(sas_token(conn, expiry) == token_text(signature, expiry, key_name, resource));
}

} // verus!
