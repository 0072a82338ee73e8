//! Registration: the password is stored encrypted, and a stored account
//! leads to the login page.

use crate::reply::{login_location, login_page, Reply, ReplyView, StorageError};
use magic_crypt::{MagicCrypt256, MagicCryptTrait};
use vstd::prelude::*;

verus! {

/// The Base64 text that encrypting `text` under `key` gives: AES-256 in CBC
/// mode with PKCS7 padding, the key hashed with SHA-256, no initialisation
/// vector given.
pub uninterp spec fn encrypted_base64(key: Seq<char>, text: Seq<char>) -> Seq<char>;

/// Calls `MagicCrypt256::new` with `key` and no initialisation vector, then
/// `MagicCryptTrait::encrypt_str_to_base64` with `text`. Nothing is proved
/// of the cipher: the contract only names what it returns, which depends on
/// the key and the text alone.
#[verifier::external_body]
fn encrypt_str_to_base64(key: &str, text: &str) -> (encrypted: String)
    ensures
        encrypted@ == encrypted_base64(key@, text@),
{
    MagicCrypt256::new(key, None::<&[u8]>).encrypt_str_to_base64(text)
}

/// An account as storage takes it.
#[derive(Clone, Debug, PartialEq, Eq)]
pub struct NewUser {
    /// The name the user chose.
    pub username: String,
    /// The password, encrypted and in Base64.
    pub encrypted_password: String,
}

/// The name of the template of the registration form.
pub open spec fn register_template() -> Seq<char> {
    "auth-register-basic"@
}

/// Shows the registration form.
pub fn get_register() -> (reply: Reply)
    ensures
        reply@ == ReplyView::Render(register_template()),
{
    Reply::Render("auth-register-basic".to_owned())
}

/// Puts a user name and an encrypted password together as an account.
pub fn new_user(username: &str, encrypted_password: String) -> (user: NewUser)
    ensures
        user.username@ == username@,
        user.encrypted_password == encrypted_password,
{
    NewUser { username: username.to_owned(), encrypted_password }
}

/// Prepares the account of a registration: the password is encrypted under
/// `key`, the name is kept as it is.
pub fn register(key: &str, username: &str, password: &str) -> (user: NewUser)
    ensures
        user.username@ == username@,
        user.encrypted_password@ == encrypted_base64(key@, password@),
{
    new_user(username, encrypt_str_to_base64(key, password))
}

/// Answers a registration once storage took the account or failed: a stored
/// account leads to the login page, a failure is a server error.
pub fn registered(stored: Result<(), StorageError>) -> (reply: Reply)
    ensures
        reply@ == (match stored {
            Ok(_) => ReplyView::Redirect(login_location()),
            Err(error) => ReplyView::ServerError(error),
        }),
{
    match stored {
        Ok(_) => Reply::Redirect(login_page()),
        Err(error) => Reply::ServerError(error),
    }
}

} // verus!
