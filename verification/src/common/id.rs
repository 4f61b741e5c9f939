use vstd::prelude::*;

use rand::thread_rng;
use rand::Rng;

verus! {

/// The error that `bs58` reports when a text is not valid base 58 or does
/// not fit the output buffer.
#[verifier::external_type_specification]
#[verifier::external_body]
pub struct ExBs58DecodeError(bs58::decode::Error);

/// The bytes that `bs58::decode(s).into_vec()` gives for the text `s`, or
/// `None` where it reports an error (a character outside the base 58
/// alphabet).
pub uninterp spec fn bs58_decoded(s: Seq<char>) -> Option<Seq<u8>>;

/// The text that `bs58::encode(bytes).into_string()` gives.
pub uninterp spec fn bs58_encoded(bytes: Seq<u8>) -> Seq<char>;

/// Calls `bs58::decode(s).into(buffer)`. Trusted: per the crate's source
/// (`decode_into`), it writes the decoded bytes to the front of `buffer`
/// and returns their number when the text is valid base 58 and its decoding
/// fits in `N` bytes, and returns an error otherwise (an invalid character,
/// or `BufferTooSmall`). Which error comes back, and what the bytes behind
/// the decoded ones hold, is left unsaid.
#[verifier::external_body]
pub(crate) fn decode_base58_into<const N: usize>(s: &str, buffer: &mut [u8; N]) -> (r: Result<
    usize,
    bs58::decode::Error,
>)
    ensures
        match r {
            Ok(n) => {
                &&& n <= N
                &&& bs58_decoded(s@) == Some(final(buffer)@.take(n as int))
            },
            Err(_) => bs58_decoded(s@) is None || bs58_decoded(s@).unwrap().len() > N,
        },
{
    bs58::decode(s).into(buffer)
}

/// Calls `bs58::encode(bytes).into_string()`. Trusted: the result is the
/// named encoding of the bytes, and decoding it gives the bytes back (base
/// 58 keeps leading zero bytes as leading `1` characters).
#[verifier::external_body]
pub(crate) fn encode_base58<const N: usize>(bytes: &[u8; N]) -> (r: String)
    ensures
        r@ == bs58_encoded(bytes@),
        bs58_decoded(r@) == Some(bytes@),
{
    bs58::encode(bytes).into_string()
}

/// Why a text is not an identifier.
#[derive(Debug)]
pub enum IdDecodeError {
    Bs58DecodeError(bs58::decode::Error),
    WrongLength,
}

/// A 20-byte identifier of users, sessions, files, photos and blobs,
/// written as base 58 text.
#[derive(Clone, Copy, Hash, Debug)]
pub struct Id(pub [u8; 20]);

impl View for Id {
    type V = Seq<u8>;

    open spec fn view(&self) -> Seq<u8> {
        self.0@
    }
}

/// Two identifiers with the same bytes are the same identifier.
pub proof fn lemma_id_bytes_determine_id(a: Id, b: Id)
    requires
        a@ == b@,
    ensures
        a == b,
{
    assert(a.0 =~= b.0) by {
        assert forall|i: int| 0 <= i < 20 implies a.0[i] == b.0[i] by {
            assert(a@[i] == b@[i]);
        }
    }
}

impl PartialEq for Id {
    fn eq(&self, other: &Id) -> (r: bool) {
        let mut i: usize = 0;
        while i < 20
            invariant
                0 <= i <= 20,
                forall|j: int| 0 <= j < i ==> self@[j] == other@[j],
            decreases 20 - i,
        {
            if self.0[i] != other.0[i] {
                return false;
            }
            i = i + 1;
        }
        assert(self@ =~= other@);
        true
    }
}

impl vstd::std_specs::cmp::PartialEqSpecImpl for Id {
    open spec fn obeys_eq_spec() -> bool {
        true
    }

    open spec fn eq_spec(&self, other: &Id) -> bool {
        self@ == other@
    }
}

impl Eq for Id {

}

impl Id {
    /// A fresh random identifier. Trusted: it calls `rand`'s thread-local
    /// generator, and nothing is claimed of the bytes it returns.
    #[verifier::external_body]
    pub fn new() -> Id {
        Id(thread_rng().gen())
    }

    /// Whether two identifiers are the same.
    pub fn same(&self, other: &Id) -> (r: bool)
        ensures
            r == (*self == *other),
    {
        let r = *self == *other;
        proof {
            if r {
                lemma_id_bytes_determine_id(*self, *other);
            }
        }
        r
    }

    /// Reads an identifier from its base 58 text: it must decode to exactly
    /// 20 bytes.
    pub fn from_str(s: &str) -> (r: Result<Id, IdDecodeError>)
        ensures
            r is Ok <==> id_text_is_valid(s@),
            r matches Ok(id) ==> bs58_decoded(s@) == Some(id@),
            r matches Err(IdDecodeError::WrongLength) ==> bs58_decoded(s@) matches Some(d) && d.len()
                < 20,
            r matches Err(IdDecodeError::Bs58DecodeError(_)) ==> (bs58_decoded(s@) is None
                || bs58_decoded(s@).unwrap().len() > 20),
    {
        let mut buffer: [u8; 20] = [0;20];
        let size = match decode_base58_into(s, &mut buffer) {
            Ok(size) => size,
            Err(e) => {
                return Err(IdDecodeError::Bs58DecodeError(e));
            },
        };
        if size != 20 {
            return Err(IdDecodeError::WrongLength);
        }
        assert(buffer@.take(20) =~= buffer@);
        Ok(Id(buffer))
    }

    /// The base 58 text of the identifier.
    pub fn to_string(&self) -> (r: String)
        ensures
            r@ == bs58_encoded(self@),
            bs58_decoded(r@) == Some(self@),
    {
        encode_base58(&self.0)
    }
}

/// The number held, least significant byte first, in the first eight bytes
/// of an identifier.
pub open spec fn number_of(id: Id) -> u64 {
    (id@[0] as u64) | ((id@[1] as u64) << 8u64) | ((id@[2] as u64) << 16u64) | ((id@[3] as u64)
        << 24u64) | ((id@[4] as u64) << 32u64) | ((id@[5] as u64) << 40u64) | ((id@[6] as u64)
        << 48u64) | ((id@[7] as u64) << 56u64)
}

/// A set of consecutive numbers that all occur in a sequence is no larger
/// than the sequence.
proof fn lemma_range_within(nums: Seq<int>, n: int)
    requires
        0 <= n,
        vstd::set_lib::set_int_range(0, n).subset_of(nums.to_set()),
    ensures
        n <= nums.len(),
{
    vstd::set_lib::lemma_int_range(0, n);
    nums.lemma_cardinality_of_set();
    vstd::set_lib::lemma_len_subset(vstd::set_lib::set_int_range(0, n), nums.to_set());
}

/// Whether `id` occurs in `ids`.
fn occurs_in(ids: &Vec<Id>, id: &Id) -> (r: bool)
    ensures
        r == ids@.contains(*id),
{
    let mut i: usize = 0;
    while i < ids.len()
        invariant
            0 <= i <= ids@.len(),
            forall|j: int| 0 <= j < i ==> ids@[j] != *id,
        decreases ids@.len() - i,
    {
        if ids[i].same(id) {
            return true;
        }
        i = i + 1;
    }
    false
}

impl Id {
    /// The identifier whose first eight bytes hold `n`, least significant
    /// first, and whose other bytes are zero.
    fn numbered(n: u64) -> (r: Id)
        ensures
            number_of(r) == n,
    {
        let mut bytes: [u8; 20] = [0;20];
        bytes[0] = (n & 0xff) as u8;
        bytes[1] = ((n >> 8u64) & 0xff) as u8;
        bytes[2] = ((n >> 16u64) & 0xff) as u8;
        bytes[3] = ((n >> 24u64) & 0xff) as u8;
        bytes[4] = ((n >> 32u64) & 0xff) as u8;
        bytes[5] = ((n >> 40u64) & 0xff) as u8;
        bytes[6] = ((n >> 48u64) & 0xff) as u8;
        bytes[7] = ((n >> 56u64) & 0xff) as u8;
        let r = Id(bytes);
        assert(((((n & 0xff) as u8) as u64) | (((((n >> 8u64) & 0xff) as u8) as u64) << 8u64) | (
        ((((n >> 16u64) & 0xff) as u8) as u64) << 16u64) | (((((n >> 24u64) & 0xff) as u8) as u64)
            << 24u64) | (((((n >> 32u64) & 0xff) as u8) as u64) << 32u64) | (((((n >> 40u64)
            & 0xff) as u8) as u64) << 40u64) | (((((n >> 48u64) & 0xff) as u8) as u64) << 48u64) | (
        ((((n >> 56u64) & 0xff) as u8) as u64) << 56u64)) == n) by (bit_vector);
        r
    }

    /// An identifier that is not among `taken`: a random one, or, should
    /// the random one be taken, the first numbered identifier that is not.
    pub fn new_unused(taken: &Vec<Id>) -> (r: Id)
        ensures
            !taken@.contains(r),
    {
        let candidate = Id::new();
        if !occurs_in(taken, &candidate) {
            return candidate;
        }
        let ghost nums = taken@.map_values(|id: Id| number_of(id) as int);
        let count: u64 = taken.len() as u64;
        let mut n: u64 = 0;
        while n <= count
            invariant
                count == taken@.len(),
                nums == taken@.map_values(|id: Id| number_of(id) as int),
                n <= count + 1,
                vstd::set_lib::set_int_range(0, n as int).subset_of(nums.to_set()),
            decreases count + 1 - n,
        {
            let numbered = Id::numbered(n);
            if !occurs_in(taken, &numbered) {
                return numbered;
            }
            proof {
                let k = choose|k: int| 0 <= k < taken@.len() && taken@[k] == numbered;
                assert(nums[k] == n as int);
                assert(vstd::set_lib::set_int_range(0, n + 1).subset_of(nums.to_set()));
                lemma_range_within(nums, n + 1);
            }
            n = n + 1;
        }
        proof {
            lemma_range_within(nums, n as int);
        }
        Id::numbered(0)
    }
}

/// Whether a text is the base 58 text of some identifier.
pub open spec fn id_text_is_valid(s: Seq<char>) -> bool {
    bs58_decoded(s) matches Some(d) && d.len() == 20
}

/// Reading an identifier back from its text gives the identifier: the text
/// that `Id::to_string` returns is valid, and `Id::from_str` reads from it
/// an identifier equal to the one written.
pub proof fn law_id_text_round_trip(id: Id, text: Seq<char>, read: Id)
    requires
        bs58_decoded(text) == Some(id@),
        bs58_decoded(text) == Some(read@),
    ensures
        id_text_is_valid(text),
        read == id,
{
    lemma_id_bytes_determine_id(read, id);
}

impl std::str::FromStr for Id {
    type Err = IdDecodeError;

    fn from_str(s: &str) -> (r: Result<Self, Self::Err>)
        ensures
            r is Ok <==> id_text_is_valid(s@),
            r matches Ok(id) ==> bs58_decoded(s@) == Some(id@),
            r matches Err(IdDecodeError::WrongLength) ==> bs58_decoded(s@) matches Some(d) && d.len()
                < 20,
            r matches Err(IdDecodeError::Bs58DecodeError(_)) ==> (bs58_decoded(s@) is None
                || bs58_decoded(s@).unwrap().len() > 20),
    {
        Id::from_str(s)
    }
}


} // verus!
