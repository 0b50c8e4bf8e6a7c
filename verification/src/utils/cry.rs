//! The codec: block padding, AES in CBC mode, base64, percent and hex
//! encoding, MD5.
use base64::Engine;
use crate::utils::text::{decimal_digits, push_decimal};
use vstd::array::array_fill_for_copy_types;
use vstd::prelude::*;
use vstd::slice::{slice_subrange, slice_to_vec};
use vstd::string::{StringExecFns, StringSliceAdditionalSpecFns};
use vstd::utf8::encode_utf8;

verus! {

/// The IV that every encryption of this library starts from.
pub const X_L4RS_ENC_IV: [u8; 16] = [
    120, 105, 100, 105, 97, 110, 115, 99, 114, 105, 112, 116, 115, 120, 100, 117,
];

/// The key under which a password is encrypted for storage.
pub const X_L4RS_ENC_KEY: [u8; 16] = [
    120, 95, 108, 52, 114, 115, 102, 111, 114, 120, 100, 115, 105, 103, 110, 46,
];

/// How many bytes of padding `len` bytes of data get for blocks of `block`
/// bytes: between 1 and `block`, so that the total is a multiple of `block`.
pub open spec fn pad_len(len: nat, block: int) -> int {
    block - len % (block as nat)
}

/// `data` with its padding: every padding byte holds the number of padding
/// bytes. Aligned data gets a whole block of padding.
pub open spec fn pkcs7_padded(data: Seq<u8>, block: int) -> Seq<u8> {
    let pad = pad_len(data.len(), block);
    data + Seq::new(pad as nat, |i: int| pad as u8)
}

/// Whether `padded` ends in well-formed padding for blocks of `block` bytes.
pub open spec fn has_pkcs7_padding(padded: Seq<u8>, block: int) -> bool {
    &&& 1 <= block <= 255
    &&& padded.len() > 0
    &&& padded.len() % (block as nat) == 0
    &&& 1 <= padded.last() <= block
    &&& forall|i: int|
        padded.len() - padded.last() <= i < padded.len() ==> padded[i] == padded.last()
}

/// `padded` without its padding, where the padding is well-formed.
pub open spec fn pkcs7_unpadded(padded: Seq<u8>, block: int) -> Option<Seq<u8>> {
    if has_pkcs7_padding(padded, block) {
        Some(padded.subrange(0, padded.len() - padded.last()))
    } else {
        None
    }
}

/// The blocks laid end to end.
pub open spec fn flattened<const N: usize>(blocks: Seq<[u8; N]>) -> Seq<u8>
    decreases blocks.len(),
{
    if blocks.len() == 0 {
        Seq::empty()
    } else {
        flattened(blocks.drop_last()) + blocks.last()@
    }
}

/// `k` blocks of `N` bytes hold `k * N` bytes.
pub proof fn lemma_flattened_len<const N: usize>(blocks: Seq<[u8; N]>)
    ensures
        flattened(blocks).len() == blocks.len() * N,
    decreases blocks.len(),
{
    if blocks.len() != 0 {
        lemma_flattened_len(blocks.drop_last());
        assert(blocks.last()@.len() == N);
        assert((blocks.len() - 1) * N + N == blocks.len() * N) by (nonlinear_arith);
    }
}

/// Padding can be taken off again, the padded length is a multiple of the
/// block size, and aligned data grows by one whole block.
pub proof fn lemma_unpad_inverts_pad(data: Seq<u8>, block: int)
    requires
        1 <= block <= 255,
    ensures
        pkcs7_unpadded(pkcs7_padded(data, block), block) == Some(data),
        pkcs7_padded(data, block).len() % (block as nat) == 0,
        data.len() < pkcs7_padded(data, block).len() <= data.len() + block,
        data.len() % (block as nat) == 0 ==> pkcs7_padded(data, block).len() == data.len() + block,
{
    let pad = pad_len(data.len(), block);
    let padded = pkcs7_padded(data, block);
    assert(1 <= pad <= block);
    assert(padded.len() == data.len() + pad);
    assert(padded.len() % (block as nat) == 0) by {
        vstd::arithmetic::div_mod::lemma_fundamental_div_mod(data.len() as int, block);
        let q = data.len() as int / block;
        assert(padded.len() == block * (q + 1)) by (nonlinear_arith)
            requires
                padded.len() == data.len() + block - (data.len() as int % block),
                data.len() == block * q + (data.len() as int % block),
        ;
        vstd::arithmetic::div_mod::lemma_mod_multiples_basic(q + 1, block);
        assert(block * (q + 1) == (q + 1) * block) by (nonlinear_arith);
    }
    assert(padded.last() == pad as u8);
    assert(padded.subrange(0, padded.len() - pad) =~= data);
}

/// One whole block of `data`, starting at offset `from`.
pub(crate) fn full_block<const N: usize>(data: &[u8], from: usize) -> (block: [u8; N])
    requires
        from + N <= data@.len(),
    ensures
        block@ == data@.subrange(from as int, from + N),
{
    let len = data.len();
    let mut block: [u8; N] = array_fill_for_copy_types(0u8);
    let mut j: usize = 0;
    while j < N
        invariant
            j <= N,
            from + N <= len,
            len == data@.len(),
            forall|k: int| 0 <= k < j ==> block@[k] == data@[from + k],
        decreases N - j,
    {
        block[j] = data[from + j];
        j += 1;
    }
    assert(block@ =~= data@.subrange(from as int, from + N));
    block
}

/// The last block: what is left of `data` from offset `from` on, filled up
/// with `pad`.
fn last_block<const N: usize>(data: &[u8], from: usize, pad: u8) -> (block: [u8; N])
    requires
        from <= data@.len(),
        data@.len() - from < N,
    ensures
        block@ == data@.subrange(from as int, data@.len() as int) + Seq::new(
            (N - (data@.len() - from)) as nat,
            |i: int| pad,
        ),
{
    let rest: usize = data.len() - from;
    let mut block: [u8; N] = array_fill_for_copy_types(pad);
    let mut j: usize = 0;
    while j < rest
        invariant
            j <= rest,
            rest == data@.len() - from,
            from + rest <= usize::MAX,
            rest < N,
            forall|k: int| 0 <= k < j ==> block@[k] == data@[from + k],
            forall|k: int| j <= k < N ==> block@[k] == pad,
        decreases rest - j,
    {
        block[j] = data[from + j];
        j += 1;
    }
    assert(block@ =~= data@.subrange(from as int, data@.len() as int) + Seq::new(
        (N - rest) as nat,
        |i: int| pad,
    ));
    block
}

/// Pads `data` and cuts it into blocks of `BLOCK_SIZE` bytes.
///
/// The number of padding bytes must fit in a byte, hence the bound on the
/// block size.
pub fn pkcs7_pad<const BLOCK_SIZE: usize>(data: &[u8]) -> (blocks: Vec<[u8; BLOCK_SIZE]>)
    requires
        1 <= BLOCK_SIZE <= 255,
    ensures
        flattened(blocks@) == pkcs7_padded(data@, BLOCK_SIZE as int),
        blocks@.len() == data@.len() / (BLOCK_SIZE as nat) + 1,
{
    let len = data.len();
    let batch = len / BLOCK_SIZE;
    let m = len % BLOCK_SIZE;
    let pad: u8 = (BLOCK_SIZE - m) as u8;
    proof {
        vstd::arithmetic::div_mod::lemma_fundamental_div_mod(len as int, BLOCK_SIZE as int);
        assert(BLOCK_SIZE * batch == batch * BLOCK_SIZE) by (nonlinear_arith);
    }
    let mut blocks: Vec<[u8; BLOCK_SIZE]> = Vec::new();
    let mut b: usize = 0;
    let mut from: usize = 0;
    while b < batch
        invariant
            b <= batch,
            from == b * BLOCK_SIZE,
            batch * BLOCK_SIZE + m == len,
            len == data@.len(),
            blocks@.len() == b,
            flattened(blocks@) == data@.subrange(0, from as int),
        decreases batch - b,
    {
        assert(from + BLOCK_SIZE <= len) by (nonlinear_arith)
            requires
                from == b * BLOCK_SIZE,
                b < batch,
                batch * BLOCK_SIZE + m == len,
        ;
        let block = full_block::<BLOCK_SIZE>(data, from);
        proof {
            assert(blocks@.push(block).drop_last() =~= blocks@);
            assert(data@.subrange(0, from as int) + block@ =~= data@.subrange(
                0,
                from + BLOCK_SIZE,
            ));
            assert((b + 1) * BLOCK_SIZE == b * BLOCK_SIZE + BLOCK_SIZE) by (nonlinear_arith);
        }
        blocks.push(block);
        from = from + BLOCK_SIZE;
        b += 1;
    }
    let block = last_block::<BLOCK_SIZE>(data, from, pad);
    proof {
        assert(blocks@.push(block).drop_last() =~= blocks@);
        assert(data@.subrange(0, from as int) + block@ =~= pkcs7_padded(
            data@,
            BLOCK_SIZE as int,
        ));
    }
    blocks.push(block);
    blocks
}

/// Takes the padding off `padded`, or reports that there is none to take.
pub fn pkcs7_unpad(padded: &[u8], block_size: usize) -> (r: Option<Vec<u8>>)
    ensures
        match r {
            Some(data) => pkcs7_unpadded(padded@, block_size as int) == Some(data@),
            None => pkcs7_unpadded(padded@, block_size as int) is None,
        },
{
    let len = padded.len();
    if block_size == 0 || block_size > 255 || len == 0 || len % block_size != 0 {
        return None;
    }
    let last = padded[len - 1];
    if last == 0 || last as usize > block_size {
        return None;
    }
    assert(block_size <= len) by {
        if len < block_size {
            vstd::arithmetic::div_mod::lemma_small_mod(len as nat, block_size as nat);
        }
    }
    let start: usize = len - last as usize;
    let mut i: usize = start;
    while i < len
        invariant
            start <= i <= len,
            len == padded@.len(),
            len > 0,
            last == padded@.last(),
            start == len - last,
            forall|k: int| start <= k < i ==> padded@[k] == last,
        decreases len - i,
    {
        if padded[i] != last {
            assert(padded@[i as int] != padded@.last());
            return None;
        }
        i += 1;
    }
    Some(slice_to_vec(slice_subrange(padded, 0, start)))
}

/// Lays the blocks end to end.
pub fn flatten_bytes<const BLOCK_SIZE: usize>(blocks: Vec<[u8; BLOCK_SIZE]>) -> (bytes: Vec<u8>)
    ensures
        bytes@ == flattened(blocks@),
        bytes@.len() == blocks@.len() * BLOCK_SIZE,
{
    proof {
        lemma_flattened_len(blocks@);
    }
    let mut bytes: Vec<u8> = Vec::new();
    let mut i: usize = 0;
    while i < blocks.len()
        invariant
            i <= blocks@.len(),
            bytes@ == flattened(blocks@.take(i as int)),
        decreases blocks@.len() - i,
    {
        let block = &blocks[i];
        let ghost before = bytes@;
        let mut j: usize = 0;
        while j < BLOCK_SIZE
            invariant
                j <= BLOCK_SIZE,
                bytes@ == before + block@.take(j as int),
            decreases BLOCK_SIZE - j,
        {
            bytes.push(block[j]);
            proof {
                assert(block@.take(j + 1) =~= block@.take(j as int).push(block@[j as int]));
            }
            j += 1;
        }
        proof {
            assert(block@.take(BLOCK_SIZE as int) =~= block@);
            assert(blocks@.take(i + 1).drop_last() =~= blocks@.take(i as int));
        }
        i += 1;
    }
    proof {
        assert(blocks@.take(i as int) =~= blocks@);
    }
    bytes
}

/// What AES-128 in CBC mode, without padding, makes of `data` under `key` and
/// `iv`.
pub uninterp spec fn aes128_cbc_encrypted(key: Seq<u8>, iv: Seq<u8>, data: Seq<u8>) -> Seq<u8>;

/// What AES-128 in CBC mode, without padding, recovers from `data` under `key`
/// and `iv`.
pub uninterp spec fn aes128_cbc_decrypted(key: Seq<u8>, iv: Seq<u8>, data: Seq<u8>) -> Seq<u8>;

/// The standard base64 text of `data`, with padding.
pub uninterp spec fn base64_encoded(data: Seq<u8>) -> Seq<char>;

/// The bytes that standard base64 `text` stands for, or why it stands for none.
pub uninterp spec fn base64_decoded(text: Seq<u8>) -> Result<Seq<u8>, Base64Error>;

/// The MD5 digest of `data`.
pub uninterp spec fn md5_digest(data: Seq<u8>) -> Seq<u8>;

/// Why a ciphertext could not be decrypted.
#[derive(Clone, Copy, Debug, PartialEq, Eq, Structural)]
pub enum CipherError {
    /// The ciphertext is not a whole number of blocks.
    InvalidLength,
    /// The plaintext does not end in well-formed padding.
    InvalidPadding,
}

/// Why a text is not base64.
#[derive(Clone, Copy, Debug, PartialEq, Eq, Structural)]
pub enum Base64Error {
    /// A byte outside the alphabet, with its offset.
    InvalidByte(usize, u8),
    /// The number of symbols cannot be right.
    InvalidLength(usize),
    /// The last symbol holds bits that would be thrown away.
    InvalidLastSymbol(usize, u8),
    /// The padding is missing or out of place.
    InvalidPadding,
}

impl CipherError {
    /// The name of the error.
    pub open spec fn name(self) -> Seq<char> {
        match self {
            CipherError::InvalidLength => "InvalidLength"@,
            CipherError::InvalidPadding => "InvalidPadding"@,
        }
    }

    /// The name of the error.
    pub fn to_text(&self) -> (text: String)
        ensures
            text@ == self.name(),
    {
        match self {
            CipherError::InvalidLength => String::from_str("InvalidLength"),
            CipherError::InvalidPadding => String::from_str("InvalidPadding"),
        }
    }
}

impl Base64Error {
    /// The name of the error, with what it carries in brackets.
    pub open spec fn name(self) -> Seq<char> {
        match self {
            Base64Error::InvalidByte(at, byte) => "InvalidByte("@ + decimal_digits(at as nat)
                + ", "@ + decimal_digits(byte as nat) + ")"@,
            Base64Error::InvalidLength(len) => "InvalidLength("@ + decimal_digits(len as nat)
                + ")"@,
            Base64Error::InvalidLastSymbol(at, byte) => "InvalidLastSymbol("@ + decimal_digits(
                at as nat,
            ) + ", "@ + decimal_digits(byte as nat) + ")"@,
            Base64Error::InvalidPadding => "InvalidPadding"@,
        }
    }

    /// The name of the error, with what it carries in brackets.
    pub fn to_text(&self) -> (text: String)
        ensures
            text@ == self.name(),
    {
        match self {
            Base64Error::InvalidByte(at, byte) => {
                let mut text = String::from_str("InvalidByte(");
                push_decimal(&mut text, *at as u128);
                text.append(", ");
                push_decimal(&mut text, *byte as u128);
                text.append(")");
                text
            },
            Base64Error::InvalidLength(len) => {
                let mut text = String::from_str("InvalidLength(");
                push_decimal(&mut text, *len as u128);
                text.append(")");
                text
            },
            Base64Error::InvalidLastSymbol(at, byte) => {
                let mut text = String::from_str("InvalidLastSymbol(");
                push_decimal(&mut text, *at as u128);
                text.append(", ");
                push_decimal(&mut text, *byte as u128);
                text.append(")");
                text
            },
            Base64Error::InvalidPadding => String::from_str("InvalidPadding"),
        }
    }
}

/// Runs `crypto::aes::cbc_encryptor` (AES-128, `NoPadding`) over all of `data`
/// with a single call of `encrypt`, into a buffer as long as the input.
///
/// Trusted: the result is the named ciphertext, it is as long as the input,
/// and CBC decryption under the same key and IV gives the input back.
#[verifier::external_body]
fn cbc_encrypt_blocks(data: &[u8], key: &[u8; 16], iv: &[u8]) -> (out: Vec<u8>)
    requires
        data@.len() % 16 == 0,
        iv@.len() == 16,
    ensures
        out@ == aes128_cbc_encrypted(key@, iv@, data@),
        out@.len() == data@.len(),
        aes128_cbc_decrypted(key@, iv@, out@) == data@,
{
    let mut out = vec![0u8; data.len()];
    let mut cipher = crypto::aes::cbc_encryptor(
        crypto::aes::KeySize::KeySize128,
        key,
        iv,
        crypto::blockmodes::NoPadding,
    );
    let mut reader = crypto::buffer::RefReadBuffer::new(data);
    let mut writer = crypto::buffer::RefWriteBuffer::new(&mut out);
    cipher.encrypt(&mut reader, &mut writer, true).expect("Encrypt failed");
    out
}

/// Runs `crypto::aes::cbc_decryptor` (AES-128, `NoPadding`) over all of `data`
/// with a single call of `decrypt`, into a buffer as long as the input.
///
/// Trusted: the result is the named plaintext and is as long as the input.
#[verifier::external_body]
fn cbc_decrypt_blocks(data: &[u8], key: &[u8; 16], iv: &[u8]) -> (out: Vec<u8>)
    requires
        data@.len() % 16 == 0,
        iv@.len() == 16,
    ensures
        out@ == aes128_cbc_decrypted(key@, iv@, data@),
        out@.len() == data@.len(),
{
    let mut out = vec![0u8; data.len()];
    let mut cipher = crypto::aes::cbc_decryptor(
        crypto::aes::KeySize::KeySize128,
        key,
        iv,
        crypto::blockmodes::NoPadding,
    );
    let mut reader = crypto::buffer::RefReadBuffer::new(data);
    let mut writer = crypto::buffer::RefWriteBuffer::new(&mut out);
    cipher.decrypt(&mut reader, &mut writer, true).expect("Decrypt failed");
    out
}

/// Encrypts `padded_data` with AES-128 in CBC mode. Nothing is padded here:
/// the data must already be a whole number of blocks.
///
/// The ciphertext decrypts to the data again under the same key and IV.
pub fn aes_enc(padded_data: &[u8], key: &[u8; 16], iv: &[u8]) -> (enc: Vec<u8>)
    requires
        padded_data@.len() % 16 == 0,
        iv@.len() == 16,
    ensures
        enc@ == aes128_cbc_encrypted(key@, iv@, padded_data@),
        enc@.len() == padded_data@.len(),
        aes128_cbc_decrypted(key@, iv@, enc@) == padded_data@,
{
    cbc_encrypt_blocks(padded_data, key, iv)
}

/// What decrypting `enc_data` gives: the plaintext without its padding. A
/// ciphertext that is not a whole number of blocks, and a plaintext without
/// well-formed padding, are errors. Nothing decrypts to nothing.
pub open spec fn aes_decrypted(enc_data: Seq<u8>, key: Seq<u8>, iv: Seq<u8>) -> Result<
    Seq<u8>,
    CipherError,
> {
    if enc_data.len() % 16 != 0 {
        Err(CipherError::InvalidLength)
    } else if enc_data.len() == 0 {
        Ok(Seq::empty())
    } else {
        match pkcs7_unpadded(aes128_cbc_decrypted(key, iv, enc_data), 16) {
            Some(data) => Ok(data),
            None => Err(CipherError::InvalidPadding),
        }
    }
}

/// Decrypts `enc_data` with AES-128 in CBC mode and takes the padding off.
pub fn aes_dec(enc_data: &[u8], key: &[u8; 16], iv: &[u8]) -> (dec: Result<Vec<u8>, CipherError>)
    requires
        iv@.len() == 16,
    ensures
        match dec {
            Ok(data) => aes_decrypted(enc_data@, key@, iv@) == Ok::<Seq<u8>, CipherError>(data@),
            Err(e) => aes_decrypted(enc_data@, key@, iv@) == Err::<Seq<u8>, CipherError>(e),
        },
{
    if enc_data.len() % 16 != 0 {
        return Err(CipherError::InvalidLength);
    }
    if enc_data.len() == 0 {
        return Ok(Vec::new());
    }
    let padded = cbc_decrypt_blocks(enc_data, key, iv);
    match pkcs7_unpad(padded.as_slice(), 16) {
        Some(data) => Ok(data),
        None => Err(CipherError::InvalidPadding),
    }
}

/// Decrypting undoes encrypting: a ciphertext whose CBC decryption is the
/// padded form of `data`, as every result of [`aes_enc`] on padded data is,
/// decrypts to `data`.
pub proof fn lemma_decrypt_inverts_encrypt(
    data: Seq<u8>,
    key: Seq<u8>,
    iv: Seq<u8>,
    enc: Seq<u8>,
)
    requires
        enc.len() == pkcs7_padded(data, 16).len(),
        aes128_cbc_decrypted(key, iv, enc) == pkcs7_padded(data, 16),
    ensures
        aes_decrypted(enc, key, iv) == Ok::<Seq<u8>, CipherError>(data),
{
    lemma_unpad_inverts_pad(data, 16);
}

/// Whether a byte is an ASCII letter or digit.
pub open spec fn is_alphanumeric(byte: u8) -> bool {
    ||| 0x30 <= byte <= 0x39
    ||| 0x41 <= byte <= 0x5a
    ||| 0x61 <= byte <= 0x7a
}

/// The digit for `n` in base 16, with capital letters.
pub open spec fn upper_hex_digit(n: int) -> char {
    if n < 10 {
        (0x30 + n) as char
    } else {
        (0x41 + n - 10) as char
    }
}

/// The digit for `n` in base 16, with small letters.
pub open spec fn lower_hex_digit(n: int) -> char {
    if n < 10 {
        (0x30 + n) as char
    } else {
        (0x61 + n - 10) as char
    }
}

/// A letter or digit stands for itself; any other byte is written as `%` and
/// its two hex digits.
pub open spec fn percent_encoded_byte(byte: u8) -> Seq<char> {
    if is_alphanumeric(byte) {
        seq![byte as char]
    } else {
        seq!['%', upper_hex_digit(byte as int / 16), upper_hex_digit(byte as int % 16)]
    }
}

/// The percent-encoding of `bytes` that spares only letters and digits.
pub open spec fn percent_encoded(bytes: Seq<u8>) -> Seq<char>
    decreases bytes.len(),
{
    if bytes.len() == 0 {
        Seq::empty()
    } else {
        percent_encoded(bytes.drop_last()) + percent_encoded_byte(bytes.last())
    }
}

/// Two small-letter hex digits for each byte.
pub open spec fn hex_lower(bytes: Seq<u8>) -> Seq<char> {
    Seq::new(
        2 * bytes.len(),
        |i: int|
            if i % 2 == 0 {
                lower_hex_digit(bytes[i / 2] as int / 16)
            } else {
                lower_hex_digit(bytes[i / 2] as int % 16)
            },
    )
}

/// The outcome of a decoding that gave `bytes`.
pub open spec fn decoded(bytes: Seq<u8>) -> Result<Seq<u8>, Base64Error> {
    Ok(bytes)
}

/// Percent-encodes `input`, sparing only ASCII letters and digits.
///
/// Calls `percent_encoding::utf8_percent_encode` with `NON_ALPHANUMERIC` and
/// collects what it yields. Trusted: every byte of the UTF-8 form of `input`
/// is written as [`percent_encoded_byte`] says.
#[verifier::external_body]
pub fn percent_enc(input: &str) -> (text: String)
    ensures
        text@ == percent_encoded(input.spec_bytes()),
{
    percent_encoding::utf8_percent_encode(input, percent_encoding::NON_ALPHANUMERIC).to_string()
}

/// How many characters the padded base64 text of `len` bytes has: four for
/// every three bytes, and four more for what is left over.
pub open spec fn base64_len(len: nat) -> nat {
    (len / 3) * 4 + if len % 3 > 0 {
        4nat
    } else {
        0nat
    }
}

/// Encodes `input` as standard base64.
///
/// Calls `encode` of `base64::engine::general_purpose::STANDARD`. Trusted: the
/// result is the named text, it is as long as the crate's `encoded_len` says
/// for padded output, and decoding it gives `input` back.
#[verifier::external_body]
pub fn base64_enc(input: &[u8]) -> (text: String)
    ensures
        text@ == base64_encoded(input@),
        text@.len() == base64_len(input@.len()),
        base64_decoded(encode_utf8(text@)) == decoded(input@),
{
    base64::engine::general_purpose::STANDARD.encode(input)
}

/// Decodes standard base64.
///
/// Calls `decode` of `base64::engine::general_purpose::STANDARD` and carries
/// its error over, variant by variant. Trusted: the result is the named one.
#[verifier::external_body]
pub fn base64_dec(input: &[u8]) -> (r: Result<Vec<u8>, Base64Error>)
    ensures
        match r {
            Ok(bytes) => base64_decoded(input@) == Ok::<Seq<u8>, Base64Error>(bytes@),
            Err(e) => base64_decoded(input@) == Err::<Seq<u8>, Base64Error>(e),
        },
{
    match base64::engine::general_purpose::STANDARD.decode(input) {
        Ok(bytes) => Ok(bytes),
        Err(base64::DecodeError::InvalidByte(at, byte)) => Err(Base64Error::InvalidByte(at, byte)),
        Err(base64::DecodeError::InvalidLength(len)) => Err(Base64Error::InvalidLength(len)),
        Err(base64::DecodeError::InvalidLastSymbol(at, byte)) => Err(
            Base64Error::InvalidLastSymbol(at, byte),
        ),
        Err(base64::DecodeError::InvalidPadding) => Err(Base64Error::InvalidPadding),
    }
}

/// The MD5 digest of `input`.
///
/// Calls `md5::compute`. Trusted: the result is the named digest.
#[verifier::external_body]
pub fn md5_enc(input: &[u8]) -> (digest: [u8; 16])
    ensures
        digest@ == md5_digest(input@),
{
    md5::compute(input).0
}

/// Writes `data` in hex, with small letters.
///
/// Calls `hex::encode`. Trusted: each byte becomes its two digits, the high
/// one first.
#[verifier::external_body]
pub(crate) fn hex_encode(data: &[u8]) -> (text: String)
    ensures
        text@ == hex_lower(data@),
{
    hex::encode(data)
}

} // verus!
