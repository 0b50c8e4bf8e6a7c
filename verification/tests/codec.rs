use x_l4rs::utils::{
    aes_dec, aes_enc, base64_dec, base64_enc, flatten_bytes, pkcs7_pad, pkcs7_unpad,
};

#[test]
fn test_pkcs7() {
    let padded = pkcs7_pad::<16>(
        b"xidianscriptsxduxidianscriptsxduxidianscriptsxduxidianscriptsxdu\
            asdasddddddddddddddddddddddddddddd",
    );
    println!(
        "{:?}",
        padded
            .iter()
            .flatten()
            .map(|&u| u as char)
            .collect::<String>()
    );
    assert_eq!(padded.len(), 7);
    assert_eq!(&padded[6][..2], b"dd");
    assert_eq!(&padded[6][2..], &[14u8; 14]);
}

#[test]
fn test_aes_enc() {
    let r = flatten_bytes(pkcs7_pad::<16>(b"password"));
    let enc_r = base64_enc(&aes_enc(&r, b"x_l4rsforxdsign.", b"xidianscriptsxdu"));
    println!("{enc_r}",);
    let dec = aes_dec(
        &base64_dec(enc_r.as_bytes()).unwrap(),
        b"x_l4rsforxdsign.",
        b"xidianscriptsxdu",
    )
    .unwrap();
    println!("{}", dec.iter().map(|c| *c as char).collect::<String>());
    assert_eq!(dec, b"password");
}

#[test]
fn unpad_rejects_what_is_not_padding() {
    assert_eq!(pkcs7_unpad(&[], 16), None);
    assert_eq!(pkcs7_unpad(&[0u8; 16], 16), None);
    assert_eq!(pkcs7_unpad(&[17u8; 16], 16), None);
    assert_eq!(pkcs7_unpad(&[1u8; 15], 16), None);
    let mut block = [3u8; 16];
    block[14] = 2;
    assert_eq!(pkcs7_unpad(&block, 16), None);
    assert_eq!(pkcs7_unpad(&[16u8; 16], 16), Some(vec![]));
}
