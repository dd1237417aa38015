//! The key exchange that opens a game connection: the client sends an RSA
//! public key, the server answers with its two cipher states encrypted
//! block-wise under that key, and both sides then use the stream cipher.
use vstd::prelude::*;
use rsa::traits::{PrivateKeyParts, PublicKeyParts};
use crate::rc4::{CustomRc4, Rc4Model, apply, advance, state_bytes, state_from_bytes};

verus! {

#[verifier::external_type_specification]
#[verifier::external_body]
pub struct ExRsaPublicKey(rsa::RsaPublicKey);

#[verifier::external_type_specification]
#[verifier::external_body]
pub struct ExRsaError(rsa::Error);

/// The number that little-endian bytes stand for.
pub open spec fn le_nat(s: Seq<u8>) -> nat
    decreases s.len(),
{
    if s.len() == 0 {
        0
    } else {
        s[0] as nat + 256 * le_nat(s.drop_first())
    }
}

/// The little-endian base-256 digits of `v`, without trailing zeros.
pub open spec fn le_digits(v: nat) -> Seq<u8>
    decreases v,
{
    if v == 0 {
        Seq::empty()
    } else {
        seq![(v % 256) as u8] + le_digits(v / 256)
    }
}

/// The canonical little-endian bytes of a big number: its digits, or a
/// single zero byte for zero.
pub open spec fn biguint_bytes(v: nat) -> Seq<u8> {
    if v == 0 {
        seq![0u8]
    } else {
        le_digits(v)
    }
}

/// `b` to the power `e`.
pub open spec fn power(b: nat, e: nat) -> nat
    decreases e,
{
    if e == 0 {
        1
    } else {
        b * power(b, (e - 1) as nat)
    }
}

/// Whether the RSA library accepts `(n, e)` as a public key: the modulus is
/// odd and has at most 4096 bits, the exponent is odd, below the modulus
/// and between 2 and 2^33 - 1.
pub open spec fn public_key_accepted(n: nat, e: nat) -> bool {
    &&& n < power(2, 4096)
    &&& n % 2 == 1
    &&& e % 2 == 1
    &&& e < n
    &&& 2 <= e <= 0x1_FFFF_FFFF
}

/// Raw RSA: `m^e mod n`.
pub open spec fn rsa_power(m: nat, e: nat, n: nat) -> nat
    recommends
        n > 0,
{
    power(m, e) % n
}

proof fn lemma_power_positive(b: nat, e: nat)
    requires
        b > 0,
    ensures
        power(b, e) > 0,
    decreases e,
{
    if e > 0 {
        lemma_power_positive(b, (e - 1) as nat);
        assert(b * power(b, (e - 1) as nat) > 0) by (nonlinear_arith)
            requires
                b > 0,
                power(b, (e - 1) as nat) > 0,
        ;
    }
}

/// The bytes stand for a number below `256^len`.
proof fn lemma_le_nat_bound(s: Seq<u8>)
    ensures
        le_nat(s) < power(256, s.len()),
    decreases s.len(),
{
    if s.len() > 0 {
        let t = s.drop_first();
        lemma_le_nat_bound(t);
        let a = le_nat(t);
        let b = power(256, t.len());
        assert(s[0] as nat + 256 * a < 256 * b) by (nonlinear_arith)
            requires
                a < b,
                s[0] < 256,
        ;
        assert(power(256, s.len()) == 256 * power(256, t.len()));
    }
}

/// A number below `256^k` has at most `k` digits.
proof fn lemma_digits_len(v: nat, k: nat)
    requires
        v < power(256, k),
    ensures
        le_digits(v).len() <= k,
    decreases v,
{
    if v > 0 {
        if k == 0 {
            assert(false);
        } else {
            let p = power(256, (k - 1) as nat);
            assert(power(256, k) == 256 * p);
            assert(v / 256 < p) by (nonlinear_arith)
                requires
                    v < 256 * p,
            ;
            lemma_digits_len(v / 256, (k - 1) as nat);
        }
    }
}

/// A number below `256^k` (with `k > 0`) has canonical bytes of length at
/// most `k`.
proof fn lemma_bytes_len(v: nat, k: nat)
    requires
        v < power(256, k),
        k > 0,
    ensures
        biguint_bytes(v).len() <= k,
{
    lemma_digits_len(v, k);
}

/// Builds an RSA public key from little-endian modulus and exponent bytes.
///
/// Trusted: `rsa::RsaPublicKey::new` (with `rsa::BigUint::from_bytes_le`
/// reading the parts) succeeds exactly on the keys of
/// `public_key_accepted`; its checks are on the size of the modulus, the
/// parity of both parts and the range of the exponent.
#[verifier::external_body]
fn rsa_public_key(n_le: &[u8], e_le: &[u8]) -> (r: Result<rsa::RsaPublicKey, rsa::Error>)
    ensures
        r is Ok <==> public_key_accepted(le_nat(n_le@), le_nat(e_le@)),
{
    rsa::RsaPublicKey::new(rsa::BigUint::from_bytes_le(n_le), rsa::BigUint::from_bytes_le(e_le))
}

/// Raw RSA encryption of little-endian bytes.
///
/// Trusted: `rsa::hazmat::rsa_encrypt` returns `m.modpow(e, n)`, that is
/// `m^e mod n`, and `BigUint::to_bytes_le` gives the canonical bytes of the
/// result. The key is built without checks by `RsaPublicKey::new_unchecked`;
/// `modpow` panics on a zero modulus, which `requires` leaves out.
#[verifier::external_body]
fn rsa_encrypt_le(n_le: &[u8], e_le: &[u8], m_le: &[u8]) -> (r: Vec<u8>)
    requires
        le_nat(n_le@) > 1,
        le_nat(e_le@) > 0,
    ensures
        r@ == biguint_bytes(rsa_power(le_nat(m_le@), le_nat(e_le@), le_nat(n_le@))),
{
    let n = rsa::BigUint::from_bytes_le(n_le);
    let key = rsa::RsaPublicKey::new_unchecked(n, rsa::BigUint::from_bytes_le(e_le));
    match rsa::hazmat::rsa_encrypt(&key, &rsa::BigUint::from_bytes_le(m_le)) {
        Ok(c) => c.to_bytes_le(),
        Err(_) => Vec::new(),
    }
}

/// A private RSA key as the little-endian bytes of its parts: the modulus,
/// the public and private exponents and the two primes.
pub struct RsaKeyParts {
    pub n: Vec<u8>,
    pub e: Vec<u8>,
    pub d: Vec<u8>,
    pub p: Vec<u8>,
    pub q: Vec<u8>,
}

/// `m` is the canonical bytes of a number whose raw RSA encryption with
/// modulus `n` and exponent `e` (all little-endian) is the number `c`.
pub open spec fn decrypts_to(n: Seq<u8>, e: Seq<u8>, c: Seq<u8>, m: Seq<u8>) -> bool {
    &&& m == biguint_bytes(le_nat(m))
    &&& rsa_power(le_nat(m), le_nat(e), le_nat(n)) == le_nat(c)
}

/// What raw RSA decryption gives for the private key with the little-endian
/// parts `n`, `e`, `d`, `p`, `q` and the little-endian ciphertext `c`: the
/// canonical little-endian plaintext bytes, or `None` where the library
/// refuses the key or the block.
pub uninterp spec fn rsa_raw_decrypt(n: Seq<u8>, e: Seq<u8>, d: Seq<u8>, p: Seq<u8>, q: Seq<u8>, c: Seq<u8>) -> Option<Seq<u8>>;

/// Raw RSA decryption of `c` with the key given by its parts.
pub open spec fn key_decrypt(key: RsaKeyParts, c: Seq<u8>) -> Option<Seq<u8>> {
    rsa_raw_decrypt(key.n@, key.e@, key.d@, key.p@, key.q@, c)
}

/// Raw RSA decryption of one little-endian block with a private key given
/// by its parts.
///
/// Trusted: `rsa::RsaPrivateKey::from_components` builds and validates the
/// key from the parts (or fails), and `rsa::hazmat::rsa_decrypt_and_check`
/// without a random source (so without blinding) decrypts the block or
/// fails; both are functions of the parts and the block alone, named
/// `rsa_raw_decrypt`. The plaintext is handed out only after the library
/// checked that encrypting it again with the key's modulus and exponent
/// (`modpow`) gives the ciphertext back; `BigUint::to_bytes_le` gives its
/// canonical bytes.
#[verifier::external_body]
fn rsa_decrypt_le(key: &RsaKeyParts, c_le: &[u8]) -> (r: Result<Vec<u8>, rsa::Error>)
    ensures
        r is Ok <==> rsa_raw_decrypt(key.n@, key.e@, key.d@, key.p@, key.q@, c_le@) is Some,
        r matches Ok(m) ==> rsa_raw_decrypt(key.n@, key.e@, key.d@, key.p@, key.q@, c_le@) == Some(m@),
        r matches Ok(m) ==> decrypts_to(key.n@, key.e@, c_le@, m@),
{
    let k = rsa::RsaPrivateKey::from_components(
        rsa::BigUint::from_bytes_le(&key.n),
        rsa::BigUint::from_bytes_le(&key.e),
        rsa::BigUint::from_bytes_le(&key.d),
        vec![rsa::BigUint::from_bytes_le(&key.p), rsa::BigUint::from_bytes_le(&key.q)],
    )?;
    let c = rsa::BigUint::from_bytes_le(c_le);
    let m = rsa::hazmat::rsa_decrypt_and_check::<rsa::rand_core::OsRng>(&k, None, &c)?;
    Ok(m.to_bytes_le())
}

/// Generates a fresh RSA key with the operating system's random source,
/// handing out the little-endian bytes of its parts.
///
/// Trusted: `rsa::RsaPrivateKey::new` makes a two-prime key whose modulus
/// has exactly `bits` bits and whose exponent is 65537; the key itself is
/// random.
#[verifier::external_body]
fn rsa_generate(bits: usize) -> (r: Result<RsaKeyParts, rsa::Error>)
    requires
        64 <= bits <= 4096,
    ensures
        r matches Ok(k) ==> k.n@.len() == (bits + 7) / 8 && k.e@ == seq![1u8, 0u8, 1u8],
{
    let k = rsa::RsaPrivateKey::new(&mut rsa::rand_core::OsRng, bits)?;
    let primes = k.primes();
    Ok(RsaKeyParts {
        n: k.n().to_bytes_le(),
        e: k.e().to_bytes_le(),
        d: k.d().to_bytes_le(),
        p: primes[0].to_bytes_le(),
        q: primes[1].to_bytes_le(),
    })
}

/// The modulus of the fixed key that the first 128 bytes of a key-exchange
/// message are passed through, little-endian.
pub const MODULUS_PSEUDO: [u8; 128] = [
    0x3D, 0x52, 0xC3, 0xB3, 0xC7, 0x41, 0x36, 0x03, 0xB8, 0x41, 0x72, 0xA8, 0xE5, 0x97, 0x70, 0xB7,
    0xFA, 0x0F, 0x85, 0x38, 0x4A, 0xF5, 0xC1, 0x55, 0x97, 0x2D, 0x1A, 0xDE, 0x1A, 0xC2, 0xD5, 0x2A,
    0x40, 0x03, 0x90, 0xA8, 0x46, 0x75, 0x2A, 0x97, 0x3F, 0x7A, 0x88, 0xC6, 0xE3, 0x74, 0xC7, 0x57,
    0x19, 0xE0, 0x7E, 0x93, 0xE0, 0x2F, 0x52, 0xD1, 0x7E, 0xEE, 0xE0, 0x28, 0x7A, 0x73, 0x84, 0xCA,
    0x83, 0x87, 0x54, 0xD5, 0x94, 0x9C, 0xBB, 0x68, 0xA3, 0xA2, 0xE6, 0x1B, 0xC0, 0x1D, 0x06, 0x13,
    0x6B, 0x13, 0xF0, 0x58, 0x6C, 0xCF, 0x91, 0xAE, 0xEA, 0x5D, 0x30, 0x93, 0xBC, 0x60, 0x0B, 0x28,
    0x03, 0xBF, 0x8D, 0x1F, 0x0C, 0x6D, 0xA7, 0x73, 0x8A, 0xB4, 0xD5, 0x61, 0xBA, 0xA1, 0x45, 0xBA,
    0x95, 0x80, 0x5A, 0xFD, 0x23, 0xF6, 0x06, 0xE5, 0x52, 0x0C, 0x10, 0x40, 0x91, 0xA3, 0x6E, 0x42,
];

/// The exponent 65537 of the fixed key, little-endian.
pub open spec fn pseudo_exponent() -> Seq<u8> {
    seq![1u8, 0u8, 1u8]
}

/// `n` zero bytes.
pub open spec fn zeros(n: nat) -> Seq<u8> {
    Seq::new(n, |i: int| 0u8)
}

/// A message after the transform: its first 128 bytes, read as a number,
/// are raised to 65537 modulo the fixed modulus and written back
/// little-endian, zero-padded to 128 bytes; the rest stays.
pub open spec fn modulus_transformed(d: Seq<u8>) -> Seq<u8> {
    let enc = biguint_bytes(
        rsa_power(le_nat(d.subrange(0, 128)), le_nat(pseudo_exponent()), le_nat(MODULUS_PSEUDO@)),
    );
    enc + zeros((128 - enc.len()) as nat) + d.subrange(128, d.len() as int)
}

/// Errors of the key exchange.
#[derive(Debug)]
pub enum CipherError {
    /// The first client message was not a 132-byte public key.
    ExpectedClientHandshake,
    /// The client spoke while the server's answer was awaited.
    UnexpectedClientMessage,
    /// The server spoke before the client's key.
    UnexpectedServerMessage,
    /// The server's answer was not 640 bytes.
    ExpectedServerHandshake,
    /// The decrypted server answer was too short to hold two cipher
    /// states (its length).
    ShortPlaintext(usize),
    /// The RSA library refused a key or a block.
    Rsa(rsa::Error),
}

/// Passes the first 128 bytes of a key-exchange message through the fixed
/// key (raw RSA with exponent 65537).
pub fn modulus_transform(data: &mut [u8]) -> (r: Result<(), CipherError>)
    requires
        old(data)@.len() >= 128,
    ensures
        r is Ok,
        final(data)@ == modulus_transformed(old(data)@),
        final(data)@.len() == old(data)@.len(),
{
    let ghost d0 = data@;
    let e: [u8; 3] = [1, 0, 1];
    let head = vstd::slice::slice_subrange(data, 0, 128);
    proof {
        assert(e@ == pseudo_exponent());
        assert(le_nat(MODULUS_PSEUDO@) >= MODULUS_PSEUDO@[0]);
        assert(le_nat(e@) >= e@[0]);
    }
    let enc = rsa_encrypt_le(MODULUS_PSEUDO.as_slice(), e.as_slice(), head);
    proof {
        let n = le_nat(MODULUS_PSEUDO@);
        let x = rsa_power(le_nat(head@), le_nat(e@), n);
        lemma_le_nat_bound(MODULUS_PSEUDO@);
        assert(x < n);
        lemma_bytes_len(x, 128);
    }
    let mut k: usize = 0;
    while k < 128
        invariant
            k <= 128,
            data@.len() == d0.len(),
            d0.len() >= 128,
            forall|m: int| 0 <= m < k ==> data@[m] == 0u8,
            forall|m: int| k <= m < d0.len() ==> data@[m] == d0[m],
        decreases 128 - k,
    {
        data[k] = 0;
        k = k + 1;
    }
    let mut k: usize = 0;
    while k < enc.len()
        invariant
            k <= enc@.len() <= 128,
            data@.len() == d0.len(),
            d0.len() >= 128,
            forall|m: int| 0 <= m < k ==> data@[m] == enc@[m],
            forall|m: int| k <= m < 128 ==> data@[m] == 0u8,
            forall|m: int| 128 <= m < d0.len() ==> data@[m] == d0[m],
        decreases enc@.len() - k,
    {
        data[k] = enc[k];
        k = k + 1;
    }
    assert(data@ =~= modulus_transformed(d0));
    Ok(())
}

/// Reads the game's public key from its first message: a 128-byte modulus
/// and a 4-byte exponent, little-endian.
pub fn read_game_pubkey(data: &[u8]) -> (r: Result<rsa::RsaPublicKey, CipherError>)
    requires
        data@.len() >= 132,
    ensures
        r is Ok <==> public_key_accepted(
            le_nat(data@.subrange(0, 128)),
            le_nat(data@.subrange(128, 132)),
        ),
        r matches Err(e) ==> e is Rsa,
{
    let n = vstd::slice::slice_subrange(data, 0, 128);
    let e = vstd::slice::slice_subrange(data, 128, 132);
    match rsa_public_key(n, e) {
        Ok(k) => Ok(k),
        Err(e) => Err(CipherError::Rsa(e)),
    }
}

/// The state with an all-zero box and zero indices.
pub open spec fn zero_state() -> Rc4Model {
    Rc4Model { s: Seq::new(256, |n: int| 0u8), i: 0, j: 0 }
}

/// The receive state that the server keeps for a client: the zero state
/// passed through the fixed-key transform (the client applies the same
/// transform to the state it is sent).
pub open spec fn prepared_rx() -> Rc4Model {
    state_from_bytes(modulus_transformed(state_bytes(zero_state())))
}

/// The key-exchange answer sent to a client: the receive state before the
/// transform, the send state, and 112 zero bytes.
pub open spec fn boxes_message() -> Seq<u8> {
    state_bytes(zero_state()) + state_bytes(zero_state()) + zeros(112)
}

/// Makes the cipher states for the channel with the game client: the
/// receive state, the send state, and the 640-byte message that hands them
/// to the client.
pub fn prepare_rc4_boxes() -> (r: (CustomRc4, CustomRc4, Vec<u8>))
    ensures
        r.0@ == prepared_rx(),
        r.1@ == zero_state(),
        r.2@ == boxes_message(),
{
    let unprep = CustomRc4::new();
    let game_tx = CustomRc4::new();
    let mut bytes = unprep.as_bytes();
    proof {
        crate::rc4::lemma_state_bytes_roundtrip(unprep@);
    }
    let _ = modulus_transform(bytes.as_mut_slice());
    let game_rx = CustomRc4::from_bytes(bytes.as_slice());
    let mut out = unprep.as_bytes();
    let tx_bytes = game_tx.as_bytes();
    let mut k: usize = 0;
    while k < tx_bytes.len()
        invariant
            k <= tx_bytes@.len(),
            tx_bytes@ == state_bytes(zero_state()),
            out@ == state_bytes(zero_state()) + tx_bytes@.subrange(0, k as int),
        decreases tx_bytes@.len() - k,
    {
        out.push(tx_bytes[k]);
        k = k + 1;
        assert(out@ =~= state_bytes(zero_state()) + tx_bytes@.subrange(0, k as int));
    }
    let mut k: usize = 0;
    while k < 112
        invariant
            k <= 112,
            out@ == state_bytes(zero_state()) + state_bytes(zero_state()) + zeros(k as nat),
        decreases 112 - k,
    {
        out.push(0);
        k = k + 1;
        assert(out@ =~= state_bytes(zero_state()) + state_bytes(zero_state()) + zeros(k as nat));
    }
    assert(tx_bytes@.subrange(0, tx_bytes@.len() as int) =~= tx_bytes@);
    (game_rx, game_tx, out)
}

/// The answer to the game's public key: the modulus of a fresh key (127
/// bytes, zero-padded to 128), then its exponent 65537 in four bytes.
pub open spec fn key_reply(n: Seq<u8>) -> Seq<u8> {
    n + seq![0u8, 1u8, 0u8, 1u8, 0u8]
}

/// The reply to the game's key sends the modulus of the key we keep (127
/// bytes) and its exponent 65537.
pub open spec fn answers_with_key(k: RsaKeyParts, v: Seq<u8>) -> bool {
    &&& k.n@.len() == 127
    &&& k.e@ == seq![1u8, 0u8, 1u8]
    &&& v == key_reply(k.n@)
}

/// Generates the key the game is to encrypt with, and the reply that sends
/// it. Whether a key comes out is up to the RSA library's key generation;
/// it fails only with that library's error.
pub(crate) fn fresh_key_reply() -> (r: Result<(RsaKeyParts, Vec<u8>), CipherError>)
    ensures
        r matches Ok((k, out)) ==> answers_with_key(k, out@),
        r matches Err(e) ==> e is Rsa,
{
    let key = match rsa_generate(1015) {
        Ok(k) => k,
        Err(e) => {
            return Err(CipherError::Rsa(e));
        },
    };
    let mut out: Vec<u8> = Vec::new();
    let mut k: usize = 0;
    while k < 127
        invariant
            k <= 127,
            key.n@.len() == 127,
            out@ == key.n@.subrange(0, k as int),
        decreases 127 - k,
    {
        out.push(key.n[k]);
        k = k + 1;
        assert(out@ =~= key.n@.subrange(0, k as int));
    }
    out.push(0);
    out.push(key.e[0]);
    out.push(key.e[1]);
    out.push(key.e[2]);
    out.push(0);
    assert(out@ =~= key_reply(key.n@));
    Ok((key, out))
}

/// The `b`-th 128-byte ciphertext block of the server's answer, after the
/// fixed-key transform.
pub open spec fn answer_block(data: Seq<u8>, b: int) -> Seq<u8> {
    modulus_transformed(data).subrange(128 * b, 128 * b + 128)
}

/// Blocks of bytes, one after the other.
pub open spec fn joined(blocks: Seq<Seq<u8>>) -> Seq<u8>
    decreases blocks.len(),
{
    if blocks.len() == 0 {
        Seq::empty()
    } else {
        joined(blocks.drop_last()) + blocks.last()
    }
}

/// The plaintext of the `b`-th block of the server's answer under `key`
/// (empty where it does not decrypt).
pub open spec fn answer_plain_block(key: RsaKeyParts, data: Seq<u8>, b: int) -> Seq<u8> {
    match key_decrypt(key, answer_block(data, b)) {
        Some(m) => m,
        None => Seq::empty(),
    }
}

/// All five blocks of the server's answer decrypt under `key`.
pub open spec fn answer_blocks_decrypt(key: RsaKeyParts, data: Seq<u8>) -> bool {
    forall|b: int| 0 <= b < 5 ==> #[trigger] key_decrypt(key, answer_block(data, b)) is Some
}

/// The plaintexts of the five blocks of the server's answer, one after the
/// other.
pub open spec fn answer_plaintext(key: RsaKeyParts, data: Seq<u8>) -> Seq<u8> {
    joined(Seq::new(5, |b: int| answer_plain_block(key, data, b)))
}

/// The server's answer is taken: its five blocks decrypt and their
/// plaintext holds the two 264-byte states.
pub open spec fn answer_accepted(key: RsaKeyParts, data: Seq<u8>) -> bool {
    answer_blocks_decrypt(key, data) && answer_plaintext(key, data).len() >= 528
}

/// The receive and send states of a server plaintext: its first two
/// 264-byte state images, in that order.
pub open spec fn server_states_of(p: Seq<u8>) -> (Rc4Model, Rc4Model) {
    (state_from_bytes(p.subrange(0, 264)), state_from_bytes(p.subrange(264, 528)))
}

/// The receive and send states that a server plaintext describes.
pub fn server_states(plain: &[u8]) -> (r: (CustomRc4, CustomRc4))
    requires
        plain@.len() >= 528,
    ensures
        (r.0@, r.1@) == server_states_of(plain@),
{
    let rx = CustomRc4::from_bytes(vstd::slice::slice_subrange(plain, 0, 264));
    let tx = CustomRc4::from_bytes(vstd::slice::slice_subrange(plain, 264, 528));
    (rx, tx)
}

/// Decrypts the server's 640-byte key-exchange message block by block (the
/// message first passed through the fixed-key transform) and reads the
/// server's receive and send states from the plaintext. It fails with the
/// RSA library's error where a block does not decrypt, and with
/// `ShortPlaintext` where the five plaintexts hold fewer than 528 bytes in
/// all.
pub(crate) fn import_server_boxes(key: &RsaKeyParts, data: &[u8]) -> (r: Result<(CustomRc4, CustomRc4), CipherError>)
    requires
        data@.len() == 640,
    ensures
        match r {
            Ok((rx, tx)) => answer_accepted(*key, data@)
                && (rx@, tx@) == server_states_of(answer_plaintext(*key, data@)),
            Err(CipherError::ShortPlaintext(n)) => answer_blocks_decrypt(*key, data@)
                && n == answer_plaintext(*key, data@).len() && n < 528,
            Err(e) => e is Rsa && !answer_blocks_decrypt(*key, data@),
        },
{
    let mut msg = crate::text::copy_range(data, 0, data.len());
    assert(msg@ =~= data@);
    let _ = modulus_transform(msg.as_mut_slice());
    let mut plaintext: Vec<u8> = Vec::new();
    let ghost mut blocks: Seq<Seq<u8>> = Seq::empty();
    let mut b: usize = 0;
    while b < 5
        invariant
            b <= 5,
            msg@ == modulus_transformed(data@),
            msg@.len() == 640,
            blocks.len() == b,
            plaintext@ == joined(blocks),
            forall|k: int| 0 <= k < b ==> #[trigger] key_decrypt(*key, answer_block(data@, k)) is Some,
            forall|k: int| 0 <= k < b ==> blocks[k] == #[trigger] answer_plain_block(*key, data@, k),
        decreases 5 - b,
    {
        let block = vstd::slice::slice_subrange(msg.as_slice(), b * 128, b * 128 + 128);
        assert(block@ == answer_block(data@, b as int));
        let dec = match rsa_decrypt_le(key, block) {
            Ok(d) => d,
            Err(e) => {
                assert(!(key_decrypt(*key, answer_block(data@, b as int)) is Some));
                return Err(CipherError::Rsa(e));
            },
        };
        let ghost before = plaintext@;
        let mut k: usize = 0;
        while k < dec.len()
            invariant
                k <= dec@.len(),
                plaintext@ == before + dec@.subrange(0, k as int),
            decreases dec@.len() - k,
        {
            plaintext.push(dec[k]);
            k = k + 1;
            assert(plaintext@ =~= before + dec@.subrange(0, k as int));
        }
        proof {
            let old_blocks = blocks;
            blocks = blocks.push(dec@);
            assert(blocks.drop_last() =~= old_blocks);
            assert(dec@.subrange(0, dec@.len() as int) =~= dec@);
            assert(answer_plain_block(*key, data@, b as int) == dec@);
            assert forall|m: int| 0 <= m < b + 1 implies blocks[m] == #[trigger] answer_plain_block(*key, data@, m) by {
                if m < b {
                    assert(blocks[m] == old_blocks[m]);
                }
            }
        }
        b = b + 1;
    }
    proof {
        assert(blocks =~= Seq::new(5, |m: int| answer_plain_block(*key, data@, m)));
        assert(plaintext@ == answer_plaintext(*key, data@));
    }
    if plaintext.len() < 528 {
        return Err(CipherError::ShortPlaintext(plaintext.len()));
    }
    let (rx, tx) = server_states(plaintext.as_slice());
    Ok((rx, tx))
}

/// The states left after the server's answer `data` is taken while `key`
/// is kept: fresh states of ours for the game, and the server's receive and
/// send states read from the plaintext.
pub open spec fn answer_states_taken(
    key: RsaKeyParts,
    data: Seq<u8>,
    game_rx: Rc4Model,
    game_tx: Rc4Model,
    srv_rx: Rc4Model,
    srv_tx: Rc4Model,
) -> bool {
    &&& game_rx == prepared_rx()
    &&& game_tx == zero_state()
    &&& (srv_rx, srv_tx) == server_states_of(answer_plaintext(key, data))
}

/// The error that a server answer `data` that is not taken gets while `key`
/// is kept: `ShortPlaintext` with the plaintext's length where every block
/// decrypts, else the RSA library's.
pub open spec fn answer_refusal<T>(key: RsaKeyParts, data: Seq<u8>, r: Result<T, CipherError>) -> bool {
    if answer_blocks_decrypt(key, data) {
        r matches Err(CipherError::ShortPlaintext(n)) && n == answer_plaintext(key, data).len()
    } else {
        r matches Err(CipherError::Rsa(_))
    }
}

/// The state of a proxied game connection's key exchange.
pub enum CipherS {
    /// Bytes are relayed as they are.
    Passthrough,
    /// Nothing received yet.
    Uninit,
    /// The game's key has arrived and been answered with ours.
    ClientHandshakeReceived { my_key: RsaKeyParts, game_pubk: rsa::RsaPublicKey },
    /// Both sides have their cipher states.
    EncryptedChannel {
        /// Receive state handed to the game.
        game_rx: CustomRc4,
        /// Send state handed to the game.
        game_tx: CustomRc4,
        /// Receive state sent by the server.
        srv_rx: CustomRc4,
        /// Send state sent by the server.
        srv_tx: CustomRc4,
    },
}

impl CipherS {
    /// Handles bytes from the game client: the first message must be the
    /// game's 132-byte public key and is answered with a fresh key of ours;
    /// once the channel is up, data is decrypted with the send state handed
    /// to the game and encrypted again with the server's send state.
    pub fn process_game_message(&mut self, data: &[u8]) -> (r: Result<Vec<u8>, CipherError>)
        ensures
            match *old(self) {
                CipherS::Passthrough => r matches Ok(v) && v@ == data@ && *final(self) is Passthrough,
                CipherS::Uninit => if data@.len() != 132 {
                    r matches Err(CipherError::ExpectedClientHandshake) && *final(self) is Uninit
                } else if !public_key_accepted(
                    le_nat(data@.subrange(0, 128)),
                    le_nat(data@.subrange(128, 132)),
                ) {
                    r matches Err(CipherError::Rsa(_)) && *final(self) is Uninit
                } else {
                    &&& r matches Ok(v) ==> (*final(self) matches CipherS::ClientHandshakeReceived { my_key, .. }
                        && answers_with_key(my_key, v@))
                    &&& r matches Err(e) ==> e is Rsa && *final(self) is Uninit
                },
                CipherS::ClientHandshakeReceived { .. } => r matches Err(
                    CipherError::UnexpectedClientMessage,
                ) && *final(self) == *old(self),
                CipherS::EncryptedChannel { game_rx, game_tx, srv_rx, srv_tx } => {
                    &&& r matches Ok(v) && v@ == apply(srv_tx@, apply(game_tx@, data@))
                    &&& *final(self) matches CipherS::EncryptedChannel {
                        game_rx: grx,
                        game_tx: gtx,
                        srv_rx: srx,
                        srv_tx: stx,
                    }
                    &&& grx@ == game_rx@ && srx@ == srv_rx@
                    &&& gtx@ == advance(game_tx@, data@.len()) && stx@ == advance(srv_tx@, data@.len())
                },
            },
    {
        match self {
            CipherS::Passthrough => Ok(crate::text::copy_range(data, 0, data.len())),
            CipherS::Uninit => {
                if data.len() == 132 {
                    let game_pubk = read_game_pubkey(data)?;
                    let (my_key, out) = fresh_key_reply()?;
                    *self = CipherS::ClientHandshakeReceived { my_key, game_pubk };
                    Ok(out)
                } else {
                    Err(CipherError::ExpectedClientHandshake)
                }
            },
            CipherS::ClientHandshakeReceived { .. } => Err(CipherError::UnexpectedClientMessage),
            CipherS::EncryptedChannel { game_rx: _, game_tx, srv_rx: _, srv_tx } => {
                let mut data = crate::text::copy_range(data, 0, data.len());
                game_tx.xor_in_place(data.as_mut_slice());
                srv_tx.xor_in_place(data.as_mut_slice());
                Ok(data)
            },
        }
    }

    /// Handles bytes from the server: in the key exchange, its 640-byte
    /// message is decrypted with our key, its states are kept, and the game
    /// is sent fresh states of ours instead; once the channel is up, data is
    /// decrypted with the server's receive state and encrypted again with
    /// the receive state handed to the game.
    pub fn process_server_message(&mut self, data: &[u8]) -> (r: Result<Vec<u8>, CipherError>)
        ensures
            match *old(self) {
                CipherS::Passthrough => r matches Ok(v) && v@ == data@ && *final(self) is Passthrough,
                CipherS::Uninit => r matches Err(CipherError::UnexpectedServerMessage) && *final(self) is Uninit,
                CipherS::ClientHandshakeReceived { my_key, .. } => if data@.len() != 640 {
                    r matches Err(CipherError::ExpectedServerHandshake) && *final(self) == *old(self)
                } else {
                    if answer_accepted(my_key, data@) {
                        &&& r matches Ok(v) && v@ == boxes_message()
                        &&& *final(self) matches CipherS::EncryptedChannel { game_rx, game_tx, srv_rx, srv_tx }
                        &&& answer_states_taken(my_key, data@, game_rx@, game_tx@, srv_rx@, srv_tx@)
                    } else {
                        answer_refusal(my_key, data@, r) && *final(self) == *old(self)
                    }
                },
                CipherS::EncryptedChannel { game_rx, game_tx, srv_rx, srv_tx } => {
                    &&& r matches Ok(v) && v@ == apply(game_rx@, apply(srv_rx@, data@))
                    &&& *final(self) matches CipherS::EncryptedChannel {
                        game_rx: grx,
                        game_tx: gtx,
                        srv_rx: srx,
                        srv_tx: stx,
                    }
                    &&& gtx@ == game_tx@ && stx@ == srv_tx@
                    &&& grx@ == advance(game_rx@, data@.len()) && srx@ == advance(srv_rx@, data@.len())
                },
            },
    {
        match self {
            CipherS::Passthrough => Ok(crate::text::copy_range(data, 0, data.len())),
            CipherS::Uninit => Err(CipherError::UnexpectedServerMessage),
            CipherS::ClientHandshakeReceived { my_key, game_pubk: _ } => {
                if data.len() == 640 {
                    let (srv_rx, srv_tx) = import_server_boxes(my_key, data)?;
                    let (game_rx, game_tx, out) = prepare_rc4_boxes();
                    *self = CipherS::EncryptedChannel { game_rx, game_tx, srv_rx, srv_tx };
                    Ok(out)
                } else {
                    Err(CipherError::ExpectedServerHandshake)
                }
            },
            CipherS::EncryptedChannel { game_rx, game_tx: _, srv_rx, srv_tx: _ } => {
                let mut data = crate::text::copy_range(data, 0, data.len());
                srv_rx.xor_in_place(data.as_mut_slice());
                game_rx.xor_in_place(data.as_mut_slice());
                Ok(data)
            },
        }
    }
}

} // verus!
