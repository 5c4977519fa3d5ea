mod b64;
mod crypto;
mod error;
mod gen_pass;
mod opt;
mod strutil;
mod text;

pub use b64::{b64std_of, b64url_of};
pub use crypto::{
    blake3_keyed_of, chacha_seal, ed25519_public_of, ed25519_signature_of, ed25519_valid_public,
    ed25519_verifies, CHACHA_MAX_PLAINTEXT,
};
pub use error::CryptoError;
pub use gen_pass::{
    allowed_byte, classes_selected, gen_pass_bytes, is_digit_byte, is_lower_byte, is_symbol_byte,
    is_upper_byte, password_ok, process_gen_pass, symbol_bytes,
};
pub use opt::{
    parse_format, parse_format_spec, verify_file, verify_path, TextDecryptOpts, TextEncryptOpts,
    TextKeyGenerateOpts, TextSignFormat, TextSignOpts, TextSubCommand, TextVerifyOpts,
};
pub use strutil::{is_wspace, lemma_trim_no_ws, trim_spec, trim_str, ws_prefix_len, ws_suffix_len};
pub use text::{
    decrypt_outcome, encrypt_outcome, lemma_blake3_rejects_other_sig, lemma_blake3_round_trip,
    lemma_ed25519_sig_length_enforced, process_text_decrypt, process_text_encrypt,
    process_text_generate, process_text_sign, process_text_verify, sign_outcome, verify_outcome,
    Blake3, Ed25519Signer, Ed25519Verifier, KeyGenerator, KeyLoader, TextSign, TextVerify,
};
