use rand::Rng;
use vstd::prelude::*;
use vstd::string::StringExecFns;
use vstd::utf8::{encode_utf8, is_ascii_chars, is_ascii_chars_encode_utf8};
use crate::text::{hex_lower, lemma_empty_text, push_hex};
use crate::version::{version_ge, version_text, ApiVersion};

verus! {

/// The number of characters of a salt. The server asks for six at least.
pub const SALT_SIZE: usize = 36;

/// The number of bytes from which on a digest may not be had: `md5` adds up the bits of
/// its input in 32 bits, and the sum passes them for an input that ends within eight
/// bytes below a multiple of 2^29 bytes.
pub const MD5_LIMIT: usize = 0x1FFF_FFF8;

/// The user's name and password. They stay as they were given when the value was made.
/// The password is short enough to be hashed together with a salt of [`SALT_SIZE`]
/// bytes.
#[derive(Debug, PartialEq, Eq)]
pub struct SunkAuth {
    user: String,
    password: String,
}

/// The mathematical value of a [`SunkAuth`].
pub struct Credentials {
    pub user: Seq<char>,
    pub password: Seq<char>,
}

impl View for SunkAuth {
    type V = Credentials;

    closed spec fn view(&self) -> Credentials {
        Credentials { user: self.user@, password: self.password@ }
    }
}

/// The MD5 digest of `data`: sixteen bytes.
pub uninterp spec fn md5_digest(data: Seq<u8>) -> Seq<u8>;

/// Computes the MD5 digest with `md5::compute`. The digest depends on the data alone,
/// and `md5::Digest` holds sixteen bytes. `md5::Context::consume` adds eight times the
/// length of each piece to a 32-bit count with a plain `+`; the padding that
/// `Context::compute` appends takes that count past 32 bits only for data of
/// [`MD5_LIMIT`] bytes or more.
#[verifier::external_body]
fn md5_compute(data: &[u8]) -> (digest: Vec<u8>)
    requires
        data@.len() < MD5_LIMIT,
    ensures
        digest@ == md5_digest(data@),
        digest@.len() == 16,
{
    md5::compute(data).0.to_vec()
}

/// Whether `c` is an ASCII letter or digit.
pub open spec fn is_ascii_alphanumeric(c: char) -> bool {
    ||| '0' <= c <= '9'
    ||| 'A' <= c <= 'Z'
    ||| 'a' <= c <= 'z'
}

/// What every salt that [`SunkAuth::as_uri`] draws looks like.
pub open spec fn is_fresh_salt(salt: Seq<char>) -> bool {
    &&& salt.len() == SALT_SIZE
    &&& forall|i: int| 0 <= i < salt.len() ==> is_ascii_alphanumeric(#[trigger] salt[i])
}

/// Draws `len` characters from `rand::thread_rng()` with `Rng::gen_ascii_chars`, which
/// picks each from A-Z, a-z and 0-9. Which ones come is left open. `thread_rng` gives
/// up where the system has no entropy to seed it.
#[verifier::external_body]
fn random_ascii(len: usize) -> (salt: String)
    ensures
        salt@.len() == len,
        forall|i: int| 0 <= i < salt@.len() ==> is_ascii_alphanumeric(#[trigger] salt@[i]),
{
    rand::thread_rng().gen_ascii_chars().take(len).collect()
}

/// The first version of the interface that takes a salted token for the password.
pub open spec fn token_auth_since() -> (nat, nat, nat) {
    (1, 13, 0)
}

/// The first version of the interface that answers in JSON.
pub open spec fn json_since() -> (nat, nat, nat) {
    (1, 14, 0)
}

/// The answer format to ask for: JSON where the server has it, else XML.
pub open spec fn format_name(api: (nat, nat, nat)) -> Seq<char> {
    if version_ge(api, json_since()) {
        "json"@
    } else {
        "xml"@
    }
}

/// The bytes that are hashed: the password followed by the salt, both in UTF-8.
pub open spec fn salted(password: Seq<char>, salt: Seq<char>) -> Seq<u8> {
    encode_utf8(password) + encode_utf8(salt)
}

/// Whether a password and a salt are together short enough to be hashed.
pub open spec fn hashable(password: Seq<char>, salt: Seq<char>) -> bool {
    salted(password, salt).len() < MD5_LIMIT
}

/// Whether a password is short enough to be hashed with a salt of [`SALT_SIZE`] bytes.
pub open spec fn password_fits(password: Seq<char>) -> bool {
    encode_utf8(password).len() + SALT_SIZE < MD5_LIMIT
}

/// The token that stands for a password: the MD5 digest of the password followed by
/// the salt, both in UTF-8, in lower-case hexadecimal.
pub open spec fn token(password: Seq<char>, salt: Seq<char>) -> Seq<char> {
    hex_lower(md5_digest(salted(password, salt)))
}

/// The part of the query that identifies the user: name, token and salt for a server
/// that takes tokens, name and plain password for an older one.
pub open spec fn credentials(
    user: Seq<char>,
    password: Seq<char>,
    api: (nat, nat, nat),
    salt: Seq<char>,
) -> Seq<char> {
    if version_ge(api, token_auth_since()) {
        "u="@ + user + "&t="@ + token(password, salt) + "&s="@ + salt
    } else {
        "u="@ + user + "&p="@ + password
    }
}

/// The whole authentication part of a query: the credentials, then the interface
/// version, the client's name and the answer format.
pub open spec fn auth_fragment(
    user: Seq<char>,
    password: Seq<char>,
    api: (nat, nat, nat),
    client: Seq<char>,
    salt: Seq<char>,
) -> Seq<char> {
    credentials(user, password, api, salt) + "&v="@ + version_text(api) + "&c="@ + client
        + "&f="@ + format_name(api)
}

/// The answer format to ask a server of version `api` for. It is "json" exactly from
/// version 1.14.0 on.
pub fn format_for(api: &ApiVersion) -> (r: &'static str)
    ensures
        r@ == format_name(api@),
        r@ == "json"@ <==> version_ge(api@, json_since()),
{
    proof {
        reveal_strlit("json");
        reveal_strlit("xml");
        assert("json"@.len() == 4 && "xml"@.len() == 3);
    }
    if api.at_least(&ApiVersion::new(1, 14, 0)) {
        "json"
    } else {
        "xml"
    }
}

/// A salt as [`SunkAuth::as_uri`] uses it: thirty-six random letters and digits.
pub fn fresh_salt() -> (salt: String)
    ensures
        is_fresh_salt(salt@),
        salt@.len() >= 6,
        encode_utf8(salt@).len() == SALT_SIZE,
{
    let salt = random_ascii(SALT_SIZE);
    proof {
        assert(is_ascii_chars(salt@)) by {
            assert forall|i: int| 0 <= i < salt@.len() implies '\0' <= #[trigger] salt@[i]
                <= '\u{7f}' by {
                assert(is_ascii_alphanumeric(salt@[i]));
            }
        }
        is_ascii_chars_encode_utf8(salt@);
    }
    salt
}

impl SunkAuth {
    #[verifier::type_invariant]
    spec fn password_is_hashable(self) -> bool {
        password_fits(self.password@)
    }

    /// Whether `password` is short enough for [`SunkAuth::new`].
    pub fn accepts(password: &str) -> (r: bool)
        ensures
            r == password_fits(password@),
    {
        password.as_bytes().len() < MD5_LIMIT - SALT_SIZE
    }

    /// The credentials of a user. The password is at most as long as can be hashed
    /// together with a salt.
    pub fn new(user: &str, password: &str) -> (auth: SunkAuth)
        requires
            password_fits(password@),
        ensures
            auth@.user == user@,
            auth@.password == password@,
    {
        SunkAuth { user: user.to_owned(), password: password.to_owned() }
    }

    pub fn user(&self) -> (r: &str)
        ensures
            r@ == self@.user,
    {
        self.user.as_str()
    }

    pub fn password(&self) -> (r: &str)
        ensures
            r@ == self@.password,
    {
        self.password.as_str()
    }

    /// Whether this password can be hashed together with `salt`. It can with every
    /// salt of at most [`SALT_SIZE`] bytes.
    pub fn can_hash(&self, salt: &str) -> (r: bool)
        ensures
            r == hashable(self@.password, salt@),
            encode_utf8(salt@).len() <= SALT_SIZE ==> r,
    {
        proof {
            use_type_invariant(self);
        }
        let p = self.password.as_str().as_bytes().len();
        let s = salt.as_bytes().len();
        s < MD5_LIMIT && p < MD5_LIMIT - s
    }

    /// A salt for this password: thirty-six random letters and digits, with which the
    /// password can be hashed.
    pub fn fresh_salt(&self) -> (salt: String)
        ensures
            is_fresh_salt(salt@),
            salt@.len() >= 6,
            hashable(self@.password, salt@),
    {
        proof {
            use_type_invariant(self);
        }
        fresh_salt()
    }

    /// The token for this password under `salt`: thirty-two hexadecimal digits.
    pub fn token(&self, salt: &str) -> (r: String)
        requires
            hashable(self@.password, salt@),
        ensures
            r@ == token(self@.password, salt@),
            r@.len() == 32,
    {
        let mut data: Vec<u8> = Vec::new();
        data.extend_from_slice(self.password.as_str().as_bytes());
        data.extend_from_slice(salt.as_bytes());
        proof {
            assert(data@ =~= salted(self@.password, salt@));
        }
        let digest = md5_compute(data.as_slice());
        let mut out = String::new();
        push_hex(&mut out, digest.as_slice());
        out
    }

    /// The credentials for a server of version `api`. The salt is used from version
    /// 1.13.0 on; an older server gets `u=<user>&p=<password>` and nothing else.
    pub fn credentials(&self, api: &ApiVersion, salt: &str) -> (r: String)
        requires
            version_ge(api@, token_auth_since()) ==> hashable(self@.password, salt@),
        ensures
            r@ == credentials(self@.user, self@.password, api@, salt@),
            !version_ge(api@, token_auth_since()) ==> r@ == "u="@ + self@.user + "&p="@
                + self@.password,
            version_ge(api@, token_auth_since()) ==> r@ == "u="@ + self@.user + "&t="@
                + hex_lower(md5_digest(encode_utf8(self@.password) + encode_utf8(salt@)))
                + "&s="@ + salt@,
            version_ge(api@, token_auth_since()) ==> token(self@.password, salt@).len() == 32,
    {
        let mut out = String::new();
        out.append("u=");
        out.append(self.user.as_str());
        if api.at_least(&ApiVersion::new(1, 13, 0)) {
            let token = self.token(salt);
            out.append("&t=");
            out.append(token.as_str());
            out.append("&s=");
            out.append(salt);
        } else {
            out.append("&p=");
            out.append(self.password.as_str());
        }
        out
    }

    /// The authentication part of a query under a given salt.
    pub fn as_uri_with_salt(&self, api: &ApiVersion, client: &str, salt: &str) -> (r: String)
        requires
            version_ge(api@, token_auth_since()) ==> hashable(self@.password, salt@),
        ensures
            r@ == auth_fragment(self@.user, self@.password, api@, client@, salt@),
            version_ge(api@, token_auth_since()) ==> token(self@.password, salt@).len() == 32,
    {
        let mut out = self.credentials(api, salt);
        let version = api.render();
        out.append("&v=");
        out.append(version.as_str());
        out.append("&c=");
        out.append(client);
        out.append("&f=");
        out.append(format_for(api));
        out
    }

    /// The authentication part of a query. From version 1.13.0 on it carries a token
    /// made with a salt drawn for this call; for an older server no salt is drawn and
    /// the password goes out as it is.
    pub fn as_uri(&self, api: &ApiVersion, client: &str) -> (r: String)
        ensures
            version_ge(api@, token_auth_since()) ==> exists|salt: Seq<char>|
                is_fresh_salt(salt) && salt.len() >= 6 && token(self@.password, salt).len()
                    == 32 && #[trigger] auth_fragment(
                    self@.user,
                    self@.password,
                    api@,
                    client@,
                    salt,
                ) == r@,
            !version_ge(api@, token_auth_since()) ==> r@ == auth_fragment(
                self@.user,
                self@.password,
                api@,
                client@,
                Seq::empty(),
            ),
    {
        if api.at_least(&ApiVersion::new(1, 13, 0)) {
            let salt = self.fresh_salt();
            self.as_uri_with_salt(api, client, salt.as_str())
        } else {
            let r = self.as_uri_with_salt(api, client, "");
            proof {
                lemma_empty_text();
            }
            r
        }
    }
}

} // verus!
