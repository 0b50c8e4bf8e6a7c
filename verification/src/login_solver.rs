//! Keeping a password encrypted while it is stored, and logging in with it.
use crate::error::{LoginError, LoginErrorView};
use crate::session::ids::IDSLoginImpl;
use crate::utils::cry::{
    aes128_cbc_encrypted, aes_dec, aes_decrypted, aes_enc, base64_dec, base64_decoded, base64_enc,
    base64_encoded, flatten_bytes, lemma_unpad_inverts_pad, pkcs7_pad, pkcs7_padded, Base64Error, X_L4RS_ENC_IV,
    X_L4RS_ENC_KEY,
};
use vstd::prelude::*;
use vstd::string::{StringExecFns, StringSliceAdditionalSpecFns};
use vstd::utf8::encode_utf8;

verus! {

/// A password as it is stored: padded, encrypted under the fixed key and IV,
/// in base64.
pub open spec fn stored_password(pwd: Seq<u8>) -> Seq<char> {
    base64_encoded(aes128_cbc_encrypted(X_L4RS_ENC_KEY@, X_L4RS_ENC_IV@, pkcs7_padded(pwd, 16)))
}

/// The password that the bytes of a stored text hold, where the text was
/// base64. Bytes that do not decrypt to a padded password hold none; the
/// error names what was wrong.
pub open spec fn decrypted_password(decoded: Result<Seq<u8>, Base64Error>) -> Result<
    Seq<u8>,
    LoginErrorView,
> {
    match decoded {
        Err(e) => Err(LoginErrorView::CryptoError("密码解密出错："@ + e.name())),
        Ok(enc) => match aes_decrypted(enc, X_L4RS_ENC_KEY@, X_L4RS_ENC_IV@) {
            Err(e) => Err(LoginErrorView::CryptoError("密码解密出错："@ + e.name())),
            Ok(pwd) => Ok(pwd),
        },
    }
}

/// The password that a stored text holds.
pub open spec fn loaded_password(enc_passwd: Seq<u8>) -> Result<Seq<u8>, LoginErrorView> {
    decrypted_password(base64_decoded(enc_passwd))
}

/// The bytes that were decoded, or the failure in their place.
pub open spec fn decoded_view(decoded: Result<Vec<u8>, Base64Error>) -> Result<
    Seq<u8>,
    Base64Error,
> {
    match decoded {
        Ok(bytes) => Ok(bytes@),
        Err(e) => Err(e),
    }
}

/// Decrypts the bytes of a stored password, where there are any: see
/// [`decrypted_password`].
pub fn decrypt_password(decoded: Result<Vec<u8>, Base64Error>) -> (r: Result<Vec<u8>, LoginError>)
    ensures
        match r {
            Ok(pwd) => decrypted_password(decoded_view(decoded)) == Ok::<Seq<u8>, LoginErrorView>(
                pwd@,
            ),
            Err(e) => decrypted_password(decoded_view(decoded)) == Err::<
                Seq<u8>,
                LoginErrorView,
            >(e@),
        },
{
    let enc = match decoded {
        Ok(enc) => enc,
        Err(e) => {
            let why = String::from_str("密码解密出错：").concat(e.to_text().as_str());
            return Err(LoginError::CryptoError(why));
        },
    };
    let key = X_L4RS_ENC_KEY;
    let iv = X_L4RS_ENC_IV;
    match aes_dec(enc.as_slice(), &key, iv.as_slice()) {
        Ok(pwd) => Ok(pwd),
        Err(e) => {
            let why = String::from_str("密码解密出错：").concat(e.to_text().as_str());
            Err(LoginError::CryptoError(why))
        },
    }
}

/// Logs in to the central login service with a stored password.
#[derive(Debug)]
pub struct XL4rsLoginSolver {
    inner: IDSLoginImpl,
}

impl XL4rsLoginSolver {
    /// The login to the central service that this one rests on.
    pub closed spec fn spec_inner(&self) -> IDSLoginImpl {
        self.inner
    }

    /// A login with a stored password that goes through `inner`.
    pub fn new(inner: IDSLoginImpl) -> (r: Self)
        ensures
            r.spec_inner() == inner,
    {
        XL4rsLoginSolver { inner }
    }

    /// The login to the central service that this one rests on.
    pub fn inner(&self) -> (inner: &IDSLoginImpl)
        ensures
            *inner == self.spec_inner(),
    {
        &self.inner
    }

    /// The name under which this way of logging in is known.
    pub fn login_type(&self) -> (name: &'static str)
        ensures
            name@ == "xd"@,
    {
        "xd"
    }

    /// Encrypts a password for storage. What comes out can be loaded again:
    /// see [`XL4rsLoginSolver::login_s`].
    pub fn pwd_enc(&self, pwd: &str) -> (text: String)
        ensures
            text@ == stored_password(pwd.spec_bytes()),
            loaded_password(encode_utf8(text@)) == Ok::<Seq<u8>, LoginErrorView>(
                pwd.spec_bytes(),
            ),
    {
        let padded = flatten_bytes(pkcs7_pad::<16>(pwd.as_bytes()));
        proof {
            lemma_unpad_inverts_pad(pwd.spec_bytes(), 16);
        }
        let key = X_L4RS_ENC_KEY;
        let iv = X_L4RS_ENC_IV;
        let enc = aes_enc(padded.as_slice(), &key, iv.as_slice());
        base64_enc(enc.as_slice())
    }

    /// Recovers the password from its stored form, as the first step of a
    /// login with it.
    pub fn login_s(&self, enc_passwd: &str) -> (r: Result<Vec<u8>, LoginError>)
        ensures
            match r {
                Ok(pwd) => loaded_password(enc_passwd.spec_bytes()) == Ok::<
                    Seq<u8>,
                    LoginErrorView,
                >(pwd@),
                Err(e) => loaded_password(enc_passwd.spec_bytes()) == Err::<
                    Seq<u8>,
                    LoginErrorView,
                >(e@),
            },
    {
        decrypt_password(base64_dec(enc_passwd.as_bytes()))
    }
}

} // verus!
