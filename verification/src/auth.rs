//! File-based authentication data: the configured users and the salted
//! credential hash they are checked against.

use vstd::prelude::*;

use crate::numerals::hex_digit_char;
use crate::text::str_eq;
use sha2::Digest;
use vstd::string::{StrSliceExecFns, StringExecFns};
use vstd::utf8::encode_utf8;

verus! {

/// What `sha512` returns: the SHA-512 digest of the input bytes.
pub uninterp spec fn sha512_of(data: Seq<u8>) -> Seq<u8>;

/// Relies on `sha2::Sha512` through the one-shot `Digest::digest`: the
/// SHA-512 digest of the input, 64 bytes, a function of the input alone.
#[verifier::external_body]
fn sha512(data: &[u8]) -> (r: Vec<u8>)
    ensures
        r@ == sha512_of(data@),
        r@.len() == 64,
{
    sha2::Sha512::digest(data).to_vec()
}

/// Each byte written as two lowercase hexadecimal digits, high nibble
/// first.
pub open spec fn spec_hex_lower(data: Seq<u8>) -> Seq<char>
    decreases data.len(),
{
    if data.len() == 0 {
        Seq::empty()
    } else {
        seq![
            hex_digit_char((data[0] / 16) as nat),
            hex_digit_char((data[0] % 16) as nat),
        ] + spec_hex_lower(data.subrange(1, data.len() as int))
    }
}

/// Relies on `base16ct::lower::encode_string`: the input encoded as
/// lowercase Base16, two digits per byte, high nibble first.
#[verifier::external_body]
fn hex_lower(data: &[u8]) -> (r: String)
    requires
        data@.len() <= usize::MAX / 2,
    ensures
        r@ == spec_hex_lower(data@),
{
    base16ct::lower::encode_string(data)
}

/// One entry of the authentication file: a caller identity, its key, and a
/// free-form note.
#[derive(Debug)]
pub struct AuthUser {
    pub id: String,
    pub key: String,
    pub note: Option<String>,
}

pub struct AuthUserV {
    pub id: Seq<char>,
    pub key: Seq<char>,
    pub note: Option<Seq<char>>,
}

impl View for AuthUser {
    type V = AuthUserV;

    open spec fn view(&self) -> AuthUserV {
        AuthUserV {
            id: self.id@,
            key: self.key@,
            note: match self.note {
                Some(ref s) => Some(s@),
                None => None,
            },
        }
    }
}

impl Clone for AuthUser {
    fn clone(&self) -> (r: Self)
        ensures
            r@ == self@,
    {
        AuthUser {
            id: self.id.clone(),
            key: self.key.clone(),
            note: match &self.note {
                Some(s) => Some(s.clone()),
                None => None,
            },
        }
    }
}

/// The salted credential hash of one user: the lowercase SHA-512
/// hexadecimal of the identity, key and salt texts run together.
pub open spec fn spec_user_hash(id: Seq<char>, key: Seq<char>, salt: Seq<char>) -> Seq<char> {
    spec_hex_lower(sha512_of(encode_utf8(id + key + salt)))
}

impl AuthUser {
    /// The user's salted credential hash.
    pub fn hash(&self, salt: &str) -> (r: String)
        ensures
            r@ == spec_user_hash(self.id@, self.key@, salt@),
    {
        let mut input = self.id.clone();
        input.append(self.key.as_str());
        input.append(salt);
        let bytes = input.as_str().as_bytes_vec();
        let digest = sha512(bytes.as_slice());
        hex_lower(digest.as_slice())
    }
}

/// The users the authentication file configures.
#[derive(Debug)]
pub struct AuthConfig {
    pub users: Vec<AuthUser>,
}

pub open spec fn users_view(users: Seq<AuthUser>) -> Seq<AuthUserV> {
    Seq::new(users.len(), |i: int| users[i]@)
}

/// The first configured user with the given identity.
pub open spec fn spec_find(users: Seq<AuthUserV>, id: Seq<char>) -> Option<AuthUserV>
    decreases users.len(),
{
    if users.len() == 0 {
        None
    } else if users[0].id == id {
        Some(users[0])
    } else {
        spec_find(users.subrange(1, users.len() as int), id)
    }
}

impl AuthConfig {
    /// The first configured user with the given identity, if any.
    pub fn find(&self, id: &str) -> (r: Option<AuthUser>)
        ensures
            match r {
                Some(u) => spec_find(users_view(self.users@), id@) == Some(u@),
                None => spec_find(users_view(self.users@), id@) == None::<AuthUserV>,
            },
    {
        let ghost all = users_view(self.users@);
        let n = self.users.len();
        assert(all.subrange(0, n as int) =~= all);
        let mut k: usize = 0;
        while k < n
            invariant
                n == self.users@.len(),
                0 <= k <= n,
                all == users_view(self.users@),
                spec_find(all, id@) == spec_find(all.subrange(k as int, n as int), id@),
            decreases n - k,
        {
            let ghost suffix = all.subrange(k as int, n as int);
            assert(suffix[0] == all[k as int]);
            if str_eq(self.users[k].id.as_str(), id) {
                let u = self.users[k].clone();
                assert(spec_find(suffix, id@) == Some(all[k as int]));
                return Some(u);
            }
            proof {
                assert(suffix.subrange(1, suffix.len() as int) =~= all.subrange(
                    k + 1,
                    n as int,
                ));
            }
            k += 1;
        }
        assert(all.subrange(n as int, n as int) =~= Seq::<AuthUserV>::empty());
        None
    }

    /// Whether the given identity and salted hash match a configured user:
    /// true exactly when a user with that identity is configured and the
    /// hash is that user's salted credential hash.
    pub fn authenticate(&self, id: &str, hash: &str, salt: &str) -> (r: bool)
        ensures
            r == match spec_find(users_view(self.users@), id@) {
                Some(u) => spec_user_hash(u.id, u.key, salt@) == hash@,
                None => false,
            },
    {
        match self.find(id) {
            Some(user) => {
                let expected = user.hash(salt);
                str_eq(expected.as_str(), hash)
            },
            None => false,
        }
    }
}

} // verus!
