use crate::error::ProcessError;
use vstd::prelude::*;

verus! {

/// A 32-byte account address.
#[derive(Debug, Clone, Copy)]
pub struct Address {
    pub bytes: [u8; 32],
}

impl View for Address {
    type V = Seq<u8>;

    open spec fn view(&self) -> Seq<u8> {
        self.bytes@
    }
}

impl Address {
    pub fn new_from_array(bytes: [u8; 32]) -> (r: Address)
        ensures
            r.bytes == bytes,
    {
        Address { bytes }
    }

    pub fn to_bytes(&self) -> (r: [u8; 32])
        ensures
            r == self.bytes,
    {
        self.bytes
    }

    /// Two addresses with the same bytes are the same address.
    pub proof fn lemma_view_injective(a: Address, b: Address)
        requires
            a@ == b@,
        ensures
            a == b,
    {
        assert(a.bytes =~= b.bytes) by {
            assert forall|i: int| 0 <= i < 32 implies a.bytes[i] == b.bytes[i] by {
                assert(a@[i] == b@[i]);
            }
        }
    }
}

impl PartialEq for Address {
    fn eq(&self, other: &Address) -> (r: bool) {
        let mut i: usize = 0;
        while i < 32
            invariant
                0 <= i <= 32,
                forall|j: int| 0 <= j < i ==> self.bytes@[j] == other.bytes@[j],
            decreases 32 - i,
        {
            if self.bytes[i] != other.bytes[i] {
                return false;
            }
            i = i + 1;
        }
        assert(self.bytes@ =~= other.bytes@);
        true
    }
}

impl vstd::std_specs::cmp::PartialEqSpecImpl for Address {
    open spec fn obeys_eq_spec() -> bool {
        true
    }

    open spec fn eq_spec(&self, other: &Address) -> bool {
        self@ == other@
    }
}

/// The eight bytes of `v`, least significant first.
pub open spec fn le_bytes(v: u64) -> Seq<u8> {
    seq![
        v as u8,
        (v >> 8u64) as u8,
        (v >> 16u64) as u8,
        (v >> 24u64) as u8,
        (v >> 32u64) as u8,
        (v >> 40u64) as u8,
        (v >> 48u64) as u8,
        (v >> 56u64) as u8,
    ]
}

/// Two integers with the same little-endian bytes are equal.
pub proof fn lemma_le_bytes_injective(a: u64, b: u64)
    requires
        le_bytes(a) == le_bytes(b),
    ensures
        a == b,
{
    let sa = le_bytes(a);
    let sb = le_bytes(b);
    assert(sa[0] == sb[0] && sa[1] == sb[1] && sa[2] == sb[2] && sa[3] == sb[3]);
    assert(sa[4] == sb[4] && sa[5] == sb[5] && sa[6] == sb[6] && sa[7] == sb[7]);
    assert(a == b) by (bit_vector)
        requires
            a as u8 == b as u8,
            (a >> 8u64) as u8 == (b >> 8u64) as u8,
            (a >> 16u64) as u8 == (b >> 16u64) as u8,
            (a >> 24u64) as u8 == (b >> 24u64) as u8,
            (a >> 32u64) as u8 == (b >> 32u64) as u8,
            (a >> 40u64) as u8 == (b >> 40u64) as u8,
            (a >> 48u64) as u8 == (b >> 48u64) as u8,
            (a >> 56u64) as u8 == (b >> 56u64) as u8,
    ;
}

/// The integer whose little-endian bytes are `b0` .. `b7`.
pub open spec fn le_compose(b0: u8, b1: u8, b2: u8, b3: u8, b4: u8, b5: u8, b6: u8, b7: u8) -> u64 {
    (b0 as u64) | ((b1 as u64) << 8u64) | ((b2 as u64) << 16u64) | ((b3 as u64) << 24u64) | ((
    b4 as u64) << 32u64) | ((b5 as u64) << 40u64) | ((b6 as u64) << 48u64) | ((b7 as u64)
        << 56u64)
}

/// Composing eight bytes and splitting the result gives the bytes back.
pub proof fn lemma_le_compose(b0: u8, b1: u8, b2: u8, b3: u8, b4: u8, b5: u8, b6: u8, b7: u8)
    ensures
        le_bytes(le_compose(b0, b1, b2, b3, b4, b5, b6, b7)) == seq![b0, b1, b2, b3, b4, b5, b6, b7],
{
    let r = le_compose(b0, b1, b2, b3, b4, b5, b6, b7);
    assert(r as u8 == b0 && (r >> 8u64) as u8 == b1 && (r >> 16u64) as u8 == b2 && (r >> 24u64)
        as u8 == b3 && (r >> 32u64) as u8 == b4 && (r >> 40u64) as u8 == b5 && (r >> 48u64) as u8
        == b6 && (r >> 56u64) as u8 == b7) by (bit_vector)
        requires
            r == (b0 as u64) | ((b1 as u64) << 8u64) | ((b2 as u64) << 16u64) | ((b3 as u64)
                << 24u64) | ((b4 as u64) << 32u64) | ((b5 as u64) << 40u64) | ((b6 as u64)
                << 48u64) | ((b7 as u64) << 56u64),
    ;
    assert(le_bytes(r) =~= seq![b0, b1, b2, b3, b4, b5, b6, b7]);
}

/// Every eight bytes are the little-endian bytes of some integer.
pub proof fn lemma_le_bytes_onto(s: Seq<u8>) -> (v: u64)
    requires
        s.len() == 8,
    ensures
        le_bytes(v) == s,
{
    lemma_le_compose(s[0], s[1], s[2], s[3], s[4], s[5], s[6], s[7]);
    assert(seq![s[0], s[1], s[2], s[3], s[4], s[5], s[6], s[7]] =~= s);
    le_compose(s[0], s[1], s[2], s[3], s[4], s[5], s[6], s[7])
}

/// Reads the little-endian integer held in `s[at..at + 8]`.
pub fn u64_from_le(s: &[u8], at: usize) -> (r: u64)
    requires
        at + 8 <= s@.len(),
    ensures
        le_bytes(r) == s@.subrange(at as int, at + 8),
{
    let b0 = s[at];
    let b1 = s[at + 1];
    let b2 = s[at + 2];
    let b3 = s[at + 3];
    let b4 = s[at + 4];
    let b5 = s[at + 5];
    let b6 = s[at + 6];
    let b7 = s[at + 7];
    let r: u64 = (b0 as u64) | ((b1 as u64) << 8u64) | ((b2 as u64) << 16u64) | ((b3 as u64)
        << 24u64) | ((b4 as u64) << 32u64) | ((b5 as u64) << 40u64) | ((b6 as u64) << 48u64) | ((
    b7 as u64) << 56u64);
    proof {
        lemma_le_compose(b0, b1, b2, b3, b4, b5, b6, b7);
    }
    assert(le_bytes(r) =~= s@.subrange(at as int, at + 8));
    r
}

/// Writes the little-endian bytes of `v` into `dst[at..at + 8]`.
pub fn u64_to_le(v: u64, dst: &mut [u8], at: usize)
    requires
        at + 8 <= old(dst)@.len(),
    ensures
        final(dst)@ == old(dst)@.subrange(0, at as int) + le_bytes(v) + old(dst)@.subrange(
            at + 8,
            old(dst)@.len() as int,
        ),
{
    dst[at] = v as u8;
    dst[at + 1] = (v >> 8u64) as u8;
    dst[at + 2] = (v >> 16u64) as u8;
    dst[at + 3] = (v >> 24u64) as u8;
    dst[at + 4] = (v >> 32u64) as u8;
    dst[at + 5] = (v >> 40u64) as u8;
    dst[at + 6] = (v >> 48u64) as u8;
    dst[at + 7] = (v >> 56u64) as u8;
    assert(dst@ =~= old(dst)@.subrange(0, at as int) + le_bytes(v) + old(dst)@.subrange(
        at + 8,
        old(dst)@.len() as int,
    ));
}

/// Copies `a` into `dst[at..at + 32]`.
fn write_address(a: &Address, dst: &mut [u8], at: usize)
    requires
        at + 32 <= old(dst)@.len(),
    ensures
        final(dst)@ == old(dst)@.subrange(0, at as int) + a@ + old(dst)@.subrange(
            at + 32,
            old(dst)@.len() as int,
        ),
{
    let n = dst.len();
    let mut i: usize = 0;
    while i < 32
        invariant
            0 <= i <= 32,
            at + 32 <= n,
            n == dst@.len(),
            dst@.len() == old(dst)@.len(),
            forall|j: int| 0 <= j < at ==> dst@[j] == old(dst)@[j],
            forall|j: int| at + 32 <= j < dst@.len() ==> dst@[j] == old(dst)@[j],
            forall|j: int| 0 <= j < i ==> dst@[at + j] == a@[j],
        decreases 32 - i,
    {
        dst[at + i] = a.bytes[i];
        i = i + 1;
    }
    assert(dst@ =~= old(dst)@.subrange(0, at as int) + a@ + old(dst)@.subrange(
        at + 32,
        old(dst)@.len() as int,
    ));
}

/// Reads the address held in `s[at..at + 32]`.
fn read_address(s: &[u8], at: usize) -> (r: Address)
    requires
        at + 32 <= s@.len(),
    ensures
        r@ == s@.subrange(at as int, at + 32),
{
    let mut bytes: [u8; 32] = [0u8; 32];
    let n = s.len();
    let mut i: usize = 0;
    while i < 32
        invariant
            0 <= i <= 32,
            at + 32 <= n,
            n == s@.len(),
            forall|j: int| 0 <= j < i ==> bytes@[j] == s@[at + j],
        decreases 32 - i,
    {
        bytes[i] = s[at + i];
        i = i + 1;
    }
    let r = Address { bytes };
    assert(r@ =~= s@.subrange(at as int, at + 32));
    r
}

/// The trade terms of one escrow, as stored in its storage account.
#[derive(Debug, Clone, Copy)]
pub struct Escrow {
    pub is_initialized: bool,
    /// The party who created the escrow.
    pub initializer_pubkey: Address,
    /// The custody account that holds the initializer's deposit.
    pub temp_token_account_pubkey: Address,
    /// The account that must receive the counter-asset.
    pub initializer_token_to_receive_account_pubkey: Address,
    /// The counter-asset quantity the initializer demands.
    pub expected_ammount: u64,
}

/// The fixed length of a stored escrow record.
pub const ESCROW_LEN: usize = 105;

impl Escrow {
    /// The stored form of the record: the flag byte, the three addresses, and
    /// the expected amount in little-endian order.
    pub open spec fn spec_bytes(self) -> Seq<u8> {
        seq![if self.is_initialized { 1u8 } else { 0u8 }] + self.initializer_pubkey@
            + self.temp_token_account_pubkey@ + self.initializer_token_to_receive_account_pubkey@
            + le_bytes(self.expected_ammount)
    }

    /// What unpacking `s` without the initialization check gives.
    pub open spec fn spec_unpack_unchecked(s: Seq<u8>) -> Result<Escrow, ProcessError> {
        if s.len() != ESCROW_LEN || s[0] > 1 {
            Err(ProcessError::InvalidAccountData)
        } else {
            Ok(choose|e: Escrow| e.spec_bytes() == s)
        }
    }

    /// What unpacking `s` gives: a record only if it is initialized.
    pub open spec fn spec_unpack(s: Seq<u8>) -> Result<Escrow, ProcessError> {
        if s.len() == ESCROW_LEN && s[0] == 0 {
            Err(ProcessError::UninitializedAccount)
        } else {
            Self::spec_unpack_unchecked(s)
        }
    }

    /// A buffer whose first byte is neither 0 nor 1 is refused with
    /// `InvalidAccountData`, checked or not.
    pub proof fn lemma_bad_flag_refused(s: Seq<u8>)
        requires
            s.len() >= 1,
            s[0] > 1,
        ensures
            Self::spec_unpack_unchecked(s) == Err::<Escrow, ProcessError>(
                ProcessError::InvalidAccountData,
            ),
            Self::spec_unpack(s) == Err::<Escrow, ProcessError>(ProcessError::InvalidAccountData),
    {
    }

    pub fn is_initialized(&self) -> (r: bool)
        ensures
            r == self.is_initialized,
    {
        self.is_initialized
    }

    /// Decoding what encoding wrote gives the record back: the stored form
    /// has the record's length and a flag byte of 0 or 1, no two records
    /// share it, and unpacking it (checked, where the record is initialized)
    /// yields the record.
    pub proof fn lemma_round_trip(r: Escrow, d: Escrow)
        ensures
            r.spec_bytes().len() == ESCROW_LEN,
            r.spec_bytes()[0] <= 1,
            d.spec_bytes() == r.spec_bytes() ==> d == r,
            Self::spec_unpack_unchecked(r.spec_bytes()) == Ok::<Escrow, ProcessError>(r),
            r.is_initialized ==> Self::spec_unpack(r.spec_bytes()) == Ok::<Escrow, ProcessError>(r),
    {
        Self::lemma_stored_form_injective(r, d);
        let c = choose|c: Escrow| c.spec_bytes() == r.spec_bytes();
        Self::lemma_stored_form_injective(r, c);
    }

    proof fn lemma_stored_form_injective(r: Escrow, d: Escrow)
        ensures
            r.spec_bytes().len() == ESCROW_LEN,
            r.spec_bytes()[0] <= 1,
            r.spec_bytes()[0] == 1 <==> r.is_initialized,
            d.spec_bytes() == r.spec_bytes() ==> d == r,
    {
        let s = r.spec_bytes();
        if d.spec_bytes() == s {
            let t = d.spec_bytes();
            assert(d.initializer_pubkey@ =~= s.subrange(1, 33));
            assert(r.initializer_pubkey@ =~= t.subrange(1, 33));
            assert(d.temp_token_account_pubkey@ =~= s.subrange(33, 65));
            assert(r.temp_token_account_pubkey@ =~= t.subrange(33, 65));
            assert(d.initializer_token_to_receive_account_pubkey@ =~= s.subrange(65, 97));
            assert(r.initializer_token_to_receive_account_pubkey@ =~= t.subrange(65, 97));
            assert(le_bytes(d.expected_ammount) =~= s.subrange(97, 105));
            assert(le_bytes(r.expected_ammount) =~= t.subrange(97, 105));
            Address::lemma_view_injective(d.initializer_pubkey, r.initializer_pubkey);
            Address::lemma_view_injective(d.temp_token_account_pubkey, r.temp_token_account_pubkey);
            Address::lemma_view_injective(
                d.initializer_token_to_receive_account_pubkey,
                r.initializer_token_to_receive_account_pubkey,
            );
            lemma_le_bytes_injective(d.expected_ammount, r.expected_ammount);
            assert(d.is_initialized == r.is_initialized) by {
                assert(s[0] == t[0]);
            }
        }
    }

    /// Reads a record from the first `ESCROW_LEN` bytes of `src`; fails when
    /// the flag byte is neither 0 nor 1.
    pub fn unpack_from_slice(src: &[u8]) -> (r: Result<Escrow, ProcessError>)
        requires
            src@.len() >= ESCROW_LEN,
        ensures
            r is Ok <==> src@[0] <= 1,
            r matches Ok(e) ==> e.spec_bytes() == src@.subrange(0, ESCROW_LEN as int),
            r matches Err(x) ==> x == ProcessError::InvalidAccountData,
    {
        let is_initialized = if src[0] == 0 {
            false
        } else if src[0] == 1 {
            true
        } else {
            return Err(ProcessError::InvalidAccountData);
        };
        let e = Escrow {
            is_initialized,
            initializer_pubkey: read_address(src, 1),
            temp_token_account_pubkey: read_address(src, 33),
            initializer_token_to_receive_account_pubkey: read_address(src, 65),
            expected_ammount: u64_from_le(src, 97),
        };
        assert(e.spec_bytes() =~= src@.subrange(0, ESCROW_LEN as int));
        Ok(e)
    }

    /// Unpacks a buffer of exactly `ESCROW_LEN` bytes, initialized or not.
    pub fn unpack_unchecked(src: &[u8]) -> (r: Result<Escrow, ProcessError>)
        ensures
            r == Self::spec_unpack_unchecked(src@),
            r matches Ok(e) ==> e.spec_bytes() == src@,
    {
        if src.len() != ESCROW_LEN {
            return Err(ProcessError::InvalidAccountData);
        }
        let r = Self::unpack_from_slice(src);
        if let Ok(e) = r {
            assert(src@.subrange(0, ESCROW_LEN as int) =~= src@);
            proof {
                let c = choose|c: Escrow| c.spec_bytes() == src@;
                Self::lemma_stored_form_injective(e, c);
            }
        }
        r
    }

    /// Unpacks a buffer of exactly `ESCROW_LEN` bytes that holds an
    /// initialized record.
    pub fn unpack(src: &[u8]) -> (r: Result<Escrow, ProcessError>)
        ensures
            r == Self::spec_unpack(src@),
            r matches Ok(e) ==> e.is_initialized && e.spec_bytes() == src@,
    {
        let r = Self::unpack_unchecked(src);
        match r {
            Ok(e) => {
                assert(e.spec_bytes()[0] == src@[0]);
                if e.is_initialized() {
                    Ok(e)
                } else {
                    Err(ProcessError::UninitializedAccount)
                }
            },
            Err(x) => Err(x),
        }
    }

    /// Writes the stored form of the record into the first `ESCROW_LEN`
    /// bytes of `dst`, leaving the rest as it was.
    pub fn pack_into_slice(&self, dst: &mut [u8])
        requires
            old(dst)@.len() >= ESCROW_LEN,
        ensures
            final(dst)@.len() == old(dst)@.len(),
            final(dst)@.subrange(0, ESCROW_LEN as int) == self.spec_bytes(),
            final(dst)@.subrange(ESCROW_LEN as int, final(dst)@.len() as int)
                == old(dst)@.subrange(ESCROW_LEN as int, old(dst)@.len() as int),
    {
        let n = dst.len();
        dst[0] = if self.is_initialized { 1u8 } else { 0u8 };
        write_address(&self.initializer_pubkey, dst, 1);
        write_address(&self.temp_token_account_pubkey, dst, 33);
        write_address(&self.initializer_token_to_receive_account_pubkey, dst, 65);
        u64_to_le(self.expected_ammount, dst, 97);
        assert(dst@.subrange(0, ESCROW_LEN as int) =~= self.spec_bytes());
        assert(dst@.subrange(ESCROW_LEN as int, n as int) =~= old(dst)@.subrange(
            ESCROW_LEN as int,
            n as int,
        ));
    }

    /// Writes the record into a buffer of exactly `ESCROW_LEN` bytes.
    pub fn pack(src: Escrow, dst: &mut [u8]) -> (r: Result<(), ProcessError>)
        ensures
            r is Ok <==> old(dst)@.len() == ESCROW_LEN,
            r is Ok ==> final(dst)@ == src.spec_bytes(),
            r is Err ==> r == Err::<(), ProcessError>(ProcessError::InvalidAccountData)
                && final(dst)@ == old(dst)@,
    {
        if dst.len() != ESCROW_LEN {
            return Err(ProcessError::InvalidAccountData);
        }
        src.pack_into_slice(dst);
        assert(dst@ =~= dst@.subrange(0, ESCROW_LEN as int));
        Ok(())
    }
}

} // verus!
