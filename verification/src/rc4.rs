use vstd::prelude::*;

verus! {

/// Abstract state of the stream cipher: the 256-byte permutation box and
/// the two indices.
pub struct Rc4Model {
    pub s: Seq<u8>,
    pub i: u8,
    pub j: u8,
}

/// Addition of two bytes modulo 256.
pub open spec fn add8(a: u8, b: u8) -> u8 {
    ((a as int + b as int) % 256) as u8
}

/// One step of the keystream generator: the state after the step.
pub open spec fn step(st: Rc4Model) -> Rc4Model {
    let i = add8(st.i, 1);
    let si = st.s[i as int];
    let j = add8(st.j, si);
    let sj = st.s[j as int];
    Rc4Model { s: st.s.update(j as int, si).update(i as int, sj), i, j }
}

/// The keystream byte produced by the step taken from `st`.
pub open spec fn ks_byte(st: Rc4Model) -> u8 {
    let i = add8(st.i, 1);
    let si = st.s[i as int];
    let j = add8(st.j, si);
    let sj = st.s[j as int];
    step(st).s[add8(si, sj) as int]
}

/// The state after `n` steps.
pub open spec fn advance(st: Rc4Model, n: nat) -> Rc4Model
    decreases n,
{
    if n == 0 {
        st
    } else {
        step(advance(st, (n - 1) as nat))
    }
}

/// The first `n` keystream bytes generated from `st`.
pub open spec fn keystream(st: Rc4Model, n: nat) -> Seq<u8>
    decreases n,
{
    if n == 0 {
        Seq::empty()
    } else {
        keystream(st, (n - 1) as nat).push(ks_byte(advance(st, (n - 1) as nat)))
    }
}

/// Bytewise exclusive or of `d` with the first `d.len()` bytes of `k`.
pub open spec fn xor_seq(d: Seq<u8>, k: Seq<u8>) -> Seq<u8> {
    Seq::new(d.len(), |n: int| d[n] ^ k[n])
}

/// What encrypting (or decrypting) `d` from state `st` produces.
pub open spec fn apply(st: Rc4Model, d: Seq<u8>) -> Seq<u8> {
    xor_seq(d, keystream(st, d.len()))
}

/// A well-formed state has a box of exactly 256 bytes.
pub open spec fn wf_model(st: Rc4Model) -> bool {
    st.s.len() == 256
}

/// The key-scheduling pass over an identity box: the box and `j` after the
/// first `k` iterations.
pub open spec fn ksa(extra: Seq<u8>, k: nat) -> (Seq<u8>, u8)
    decreases k,
{
    if k == 0 {
        (Seq::new(256, |n: int| n as u8), 0u8)
    } else {
        let (s, j) = ksa(extra, (k - 1) as nat);
        let idx = (k - 1) as int;
        let nj = add8(add8(j, s[idx]), extra[idx]);
        (s.update(idx, s[nj as int]).update(nj as int, s[idx]), nj)
    }
}

/// The state left by a full setup with the given 256 extra key bytes.
pub open spec fn setup_model(extra: Seq<u8>) -> Rc4Model {
    advance(Rc4Model { s: ksa(extra, 256).0, i: 0, j: 0 }, 1000)
}

/// The 264-byte wire form of a state: the box, then `i` and `j` each as a
/// little-endian 32-bit word.
pub open spec fn state_bytes(st: Rc4Model) -> Seq<u8> {
    st.s + seq![st.i, 0u8, 0u8, 0u8, st.j, 0u8, 0u8, 0u8]
}

/// The state read back from a 264-byte wire form.
pub open spec fn state_from_bytes(b: Seq<u8>) -> Rc4Model {
    Rc4Model { s: b.subrange(0, 256), i: b[256], j: b[260] }
}

/// Stream cipher with a 256-byte permutation box, as used on the game
/// connection.
#[derive(Clone, Copy)]
pub struct CustomRc4 {
    s: [u8; 256],
    i: u8,
    j: u8,
}

impl View for CustomRc4 {
    type V = Rc4Model;

    closed spec fn view(&self) -> Rc4Model {
        Rc4Model { s: self.s@, i: self.i, j: self.j }
    }
}

proof fn lemma_add8(a: u8, b: u8)
    ensures
        a.wrapping_add(b) == add8(a, b),
{
}

/// The state after `n + m` steps is the state after `m` steps from the
/// state after `n` steps.
pub proof fn lemma_advance_add(st: Rc4Model, n: nat, m: nat)
    ensures
        advance(st, n + m) == advance(advance(st, n), m),
    decreases m,
{
    if m > 0 {
        lemma_advance_add(st, n, (m - 1) as nat);
        assert(advance(st, n + m) == step(advance(st, (n + m - 1) as nat)));
    }
}

/// Every step keeps the box at 256 bytes.
pub proof fn lemma_advance_wf(st: Rc4Model, n: nat)
    requires
        wf_model(st),
    ensures
        wf_model(advance(st, n)),
    decreases n,
{
    if n > 0 {
        lemma_advance_wf(st, (n - 1) as nat);
    }
}

/// The box holds every byte value once: a permutation of `0..=255`.
pub open spec fn is_permutation(s: Seq<u8>) -> bool {
    &&& s.len() == 256
    &&& forall|v: u8| #[trigger] s.contains(v)
}

proof fn lemma_step_permutation(st: Rc4Model)
    requires
        is_permutation(st.s),
    ensures
        is_permutation(step(st).s),
        step(st).i == add8(st.i, 1),
{
    let i = add8(st.i, 1);
    let si = st.s[i as int];
    let j = add8(st.j, si);
    let sj = st.s[j as int];
    let t = step(st).s;
    assert forall|v: u8| #[trigger] t.contains(v) by {
        assert(st.s.contains(v));
        let k = choose|k: int| 0 <= k < st.s.len() && st.s[k] == v;
        if k != i as int && k != j as int {
            assert(t[k] == v);
        } else if k == i as int {
            if j == i {
                assert(t[i as int] == v);
            } else {
                assert(t[j as int] == v);
            }
        } else {
            assert(t[i as int] == v);
        }
    }
}

/// Permutation law: every step keeps the box a permutation of the byte
/// values, and `i` moves on by one per step, modulo 256.
pub proof fn lemma_advance_permutation(st: Rc4Model, n: nat)
    requires
        is_permutation(st.s),
    ensures
        is_permutation(advance(st, n).s),
        advance(st, n).i == ((st.i as int + n) % 256) as u8,
    decreases n,
{
    if n > 0 {
        lemma_advance_permutation(st, (n - 1) as nat);
        lemma_step_permutation(advance(st, (n - 1) as nat));
        let a = st.i as int + n - 1;
        assert(((a % 256) + 1) % 256 == (a + 1) % 256) by {
            vstd::arithmetic::div_mod::lemma_add_mod_noop(a, 1, 256);
        }
    }
}

/// Keystream law: the first `n + m` keystream bytes are the first `n`
/// followed by the first `m` generated from the state after `n` steps.
pub proof fn lemma_keystream_split(st: Rc4Model, n: nat, m: nat)
    ensures
        keystream(st, n + m) == keystream(st, n) + keystream(advance(st, n), m),
    decreases m,
{
    if m == 0 {
        assert(keystream(st, n) + keystream(advance(st, n), 0) =~= keystream(st, n));
    } else {
        lemma_keystream_split(st, n, (m - 1) as nat);
        lemma_advance_add(st, n, (m - 1) as nat);
        assert(keystream(st, n + m) =~= keystream(st, n) + keystream(advance(st, n), m));
    }
}

pub proof fn lemma_keystream_len(st: Rc4Model, n: nat)
    ensures
        keystream(st, n).len() == n,
    decreases n,
{
    if n > 0 {
        lemma_keystream_len(st, (n - 1) as nat);
    }
}

/// Round-trip law: applying the cipher twice from the same state gives the
/// data back (encryption and decryption are one operation).
pub proof fn lemma_apply_twice(st: Rc4Model, d: Seq<u8>)
    ensures
        apply(st, apply(st, d)) == d,
{
    let k = keystream(st, d.len());
    lemma_keystream_len(st, d.len());
    assert forall|n: int| 0 <= n < d.len() implies #[trigger] apply(st, apply(st, d))[n] == d[n] by {
        let a = d[n];
        let b = k[n];
        assert((a ^ b) ^ b == a) by (bit_vector);
    }
    assert(apply(st, apply(st, d)) =~= d);
}

/// Streaming law: applying the cipher to `a + b` gives what applying it to
/// `a` and then, from the state that left, to `b` gives.
pub proof fn lemma_apply_concat(st: Rc4Model, a: Seq<u8>, b: Seq<u8>)
    ensures
        apply(st, a + b) == apply(st, a) + apply(advance(st, a.len()), b),
{
    lemma_keystream_split(st, a.len(), b.len());
    lemma_keystream_len(st, a.len());
    lemma_keystream_len(advance(st, a.len()), b.len());
    assert(apply(st, a + b) =~= apply(st, a) + apply(advance(st, a.len()), b));
}

proof fn lemma_keystream_index(st: Rc4Model, n: nat, k: int)
    requires
        0 <= k < n,
    ensures
        keystream(st, n)[k] == ks_byte(advance(st, k as nat)),
    decreases n,
{
    lemma_keystream_len(st, (n - 1) as nat);
    if k < n - 1 {
        lemma_keystream_index(st, (n - 1) as nat, k);
    }
}

/// Keystream law: each output byte is the input byte xor the keystream byte
/// of its step, which is the box entry, after the step's swap, at the sum
/// (modulo 256) of the entries at the step's new indices. For byte `k` the
/// step is the `k + 1`-th, so its indices are those of the state after
/// `k + 1` steps: `i` moved on by one and `j` moved on by the old entry at
/// the new `i`, the two entries swapped.
pub proof fn lemma_output_byte(st: Rc4Model, d: Seq<u8>, k: int)
    requires
        wf_model(st),
        0 <= k < d.len(),
    ensures
        ({
            let t = advance(st, (k + 1) as nat);
            apply(st, d)[k] == d[k] ^ t.s[(t.s[t.i as int] as int + t.s[t.j as int] as int) % 256]
        }),
{
    let c = advance(st, k as nat);
    lemma_advance_wf(st, k as nat);
    lemma_keystream_len(st, d.len());
    lemma_keystream_index(st, d.len(), k);
    let t = advance(st, (k + 1) as nat);
    assert(t == step(c));
    let i = add8(c.i, 1);
    let si = c.s[i as int];
    let j = add8(c.j, si);
    let sj = c.s[j as int];
    assert(t.s[t.i as int] == sj);
    assert(t.s[t.j as int] == si);
}

/// The first keystream step from a state: `i` moves on by one, `j` moves on
/// by the entry at the new `i`, and those two entries are swapped.
pub proof fn lemma_step_indices(st: Rc4Model)
    requires
        wf_model(st),
    ensures
        ({
            let t = advance(st, 1);
            let i = (st.i as int + 1) % 256;
            let j = (st.j as int + st.s[i]) % 256;
            &&& t.i as int == i
            &&& t.j as int == j
            &&& t.s[i] == st.s[j]
            &&& t.s[j] == st.s[i]
            &&& forall|m: int| 0 <= m < 256 && m != i && m != j ==> t.s[m] == st.s[m]
        }),
{
    assert(advance(st, 1) == step(advance(st, 0)));
}

/// Wire-form law: reading back the wire form of a state gives the state.
pub proof fn lemma_state_bytes_roundtrip(st: Rc4Model)
    requires
        wf_model(st),
    ensures
        state_bytes(st).len() == 264,
        state_from_bytes(state_bytes(st)) == st,
{
    assert(state_bytes(st).subrange(0, 256) =~= st.s);
}

/// A random byte.
///
/// Trusted: `rand::random::<u8>()` returns some byte; nothing more is
/// stated, as it comes from the thread-local generator.
#[verifier::external_body]
fn random_byte() -> (r: u8) {
    rand::random::<u8>()
}

impl CustomRc4 {
    /// A state with an all-zero box and zero indices.
    pub fn new() -> (r: Self)
        ensures
            r@ == (Rc4Model { s: Seq::new(256, |n: int| 0u8), i: 0, j: 0 }),
    {
        let r = CustomRc4 { s: [0u8; 256], i: 0, j: 0 };
        assert(r@.s =~= Seq::new(256, |n: int| 0u8));
        r
    }

    /// Reads a state from its wire form: the box in the first 256 bytes,
    /// then `i` and `j` as the low bytes of two little-endian words.
    pub fn from_bytes(data: &[u8]) -> (r: Self)
        requires
            data@.len() >= 264,
        ensures
            r@ == state_from_bytes(data@),
    {
        let mut s = [0u8; 256];
        let mut k: usize = 0;
        while k < 256
            invariant
                k <= 256,
                data@.len() >= 264,
                forall|n: int| 0 <= n < k ==> s@[n] == data@[n],
            decreases 256 - k,
        {
            s[k] = data[k];
            k = k + 1;
        }
        let r = CustomRc4 { s, i: data[256], j: data[260] };
        assert(r@.s =~= data@.subrange(0, 256));
        r
    }

    /// The 264-byte wire form of this state.
    pub fn as_bytes(&self) -> (r: Vec<u8>)
        ensures
            r@ == state_bytes(self@),
            r@.len() == 264,
            wf_model(self@),
            state_from_bytes(r@) == self@,
    {
        let mut r: Vec<u8> = Vec::new();
        let mut k: usize = 0;
        while k < 256
            invariant
                k <= 256,
                r@ == self.s@.subrange(0, k as int),
            decreases 256 - k,
        {
            r.push(self.s[k]);
            k = k + 1;
            assert(r@ =~= self.s@.subrange(0, k as int));
        }
        r.push(self.i);
        r.push(0);
        r.push(0);
        r.push(0);
        r.push(self.j);
        r.push(0);
        r.push(0);
        r.push(0);
        assert(r@ =~= state_bytes(self@));
        proof {
            lemma_state_bytes_roundtrip(self@);
        }
        r
    }

    /// Encrypts or decrypts `data` in place with the keystream, advancing the
    /// state by one step per byte.
    pub fn xor_in_place(&mut self, data: &mut [u8])
        ensures
            final(data)@ == apply(old(self)@, old(data)@),
            final(self)@ == advance(old(self)@, old(data)@.len()),
    {
        let ghost st0 = self@;
        let ghost d0 = data@;
        if data.len() == 0 {
            assert(data@ =~= apply(st0, d0));
            return;
        }
        let mut i = self.i;
        let mut j = self.j;
        let mut n: usize = 0;
        while n < data.len()
            invariant
                n <= data@.len(),
                data@.len() == d0.len(),
                (Rc4Model { s: self.s@, i, j }) == advance(st0, n as nat),
                forall|m: int| n <= m < d0.len() ==> data@[m] == d0[m],
                data@.subrange(0, n as int) == xor_seq(d0.subrange(0, n as int), keystream(st0, n as nat)),
            decreases data@.len() - n,
        {
            let ghost cur = Rc4Model { s: self.s@, i, j };
            proof {
                lemma_keystream_len(st0, n as nat);
                lemma_add8(i, 1);
            }
            i = i.wrapping_add(1);
            let si = self.s[i as usize];
            proof { lemma_add8(j, si); }
            j = j.wrapping_add(si);
            let sj = self.s[j as usize];
            self.s[j as usize] = si;
            self.s[i as usize] = sj;
            proof { lemma_add8(si, sj); }
            let ks = self.s[(si.wrapping_add(sj)) as usize];
            assert(ks == ks_byte(cur));
            assert((Rc4Model { s: self.s@, i, j }) == step(cur));
            let ghost before = data@;
            let b = data[n];
            data[n] = b ^ ks;
            assert(keystream(st0, (n + 1) as nat) == keystream(st0, n as nat).push(ks));
            n = n + 1;
            proof {
                lemma_keystream_len(st0, n as nat);
                assert forall|m: int| 0 <= m < n - 1 implies data@[m] == d0[m] ^ keystream(st0, n as nat)[m] by {
                    assert(before.subrange(0, n - 1)[m] == before[m]);
                    assert(d0.subrange(0, n - 1)[m] == d0[m]);
                }
                assert(data@[n - 1] == d0[n - 1] ^ keystream(st0, n as nat)[n - 1]);
                assert(data@.subrange(0, n as int) =~= xor_seq(
                    d0.subrange(0, n as int),
                    keystream(st0, n as nat),
                ));
            }
        }
        self.i = i;
        self.j = j;
        assert(data@ =~= data@.subrange(0, n as int));
        assert(d0 =~= d0.subrange(0, n as int));
        assert(data@ =~= apply(st0, d0));
    }

    /// Advances the state by `steps` keystream steps, discarding the output.
    pub fn dummy_advance(&mut self, steps: usize)
        ensures
            final(self)@ == advance(old(self)@, steps as nat),
    {
        let ghost st0 = self@;
        let mut k: usize = 0;
        while k < steps
            invariant
                k <= steps,
                self@ == advance(st0, k as nat),
            decreases steps - k,
        {
            let ghost cur = self@;
            proof { lemma_add8(self.i, 1); }
            self.i = self.i.wrapping_add(1);
            let si = self.s[self.i as usize];
            proof { lemma_add8(self.j, si); }
            let j_idx = self.j.wrapping_add(si);
            self.j = j_idx;
            let a = self.s[self.i as usize];
            let b = self.s[j_idx as usize];
            self.s[self.i as usize] = b;
            self.s[j_idx as usize] = a;
            assert(self@.s =~= step(cur).s);
            k = k + 1;
        }
    }

    /// Full key setup: identity box, key scheduling with the 256 extra
    /// bytes, then 1000 discarded keystream steps.
    pub fn setup(&mut self, extra_256: &[u8; 256])
        ensures
            final(self)@ == setup_model(extra_256@),
    {
        let mut k: usize = 0;
        while k < 256
            invariant
                k <= 256,
                forall|n: int| 0 <= n < k ==> self.s@[n] == n as u8,
            decreases 256 - k,
        {
            self.s[k] = k as u8;
            k = k + 1;
        }
        assert(self.s@ =~= ksa(extra_256@, 0).0);
        self.j = 0;
        let mut k: usize = 0;
        while k < 256
            invariant
                k <= 256,
                (self.s@, self.j) == ksa(extra_256@, k as nat),
            decreases 256 - k,
        {
            let si = self.s[k];
            let extra = extra_256[k];
            proof {
                lemma_add8(self.j, si);
                lemma_add8(add8(self.j, si), extra);
            }
            let j_idx = self.j.wrapping_add(si).wrapping_add(extra);
            self.j = j_idx;
            let a = self.s[k];
            let b = self.s[j_idx as usize];
            self.s[k] = b;
            self.s[j_idx as usize] = a;
            k = k + 1;
            assert(self.s@ =~= ksa(extra_256@, k as nat).0);
        }
        self.i = 0;
        self.j = 0;
        self.dummy_advance(1000);
    }

    /// Full setup with 256 random extra key bytes.
    pub fn setup_rand(&mut self)
        ensures
            exists|extra: Seq<u8>| extra.len() == 256 && final(self)@ == setup_model(extra),
    {
        let mut randarr = [0u8; 256];
        let mut k: usize = 0;
        while k < 256
            invariant
                k <= 256,
            decreases 256 - k,
        {
            randarr[k] = random_byte();
            k = k + 1;
        }
        self.setup(&randarr);
    }
}

} // verus!
