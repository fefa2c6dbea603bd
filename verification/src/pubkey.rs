//! Account addresses, program-derived addresses, and the program ids the
//! library derives addresses under.
use vstd::prelude::*;

verus! {

broadcast use vstd::array::group_array_axioms;

/// A 32-byte account address.
#[derive(Clone, Copy, Debug, PartialEq, Eq, Hash, Default)]
pub struct Pubkey(pub [u8; 32]);

impl View for Pubkey {
    type V = Seq<u8>;

    open spec fn view(&self) -> Seq<u8> {
        self.0@
    }
}

impl Pubkey {
    /// Builds an address from its 32 bytes.
    pub fn new_from_array(bytes: [u8; 32]) -> (k: Pubkey)
        ensures
            k.0 == bytes,
            k@ == bytes@,
    {
        Pubkey(bytes)
    }

    /// The bytes of the address.
    pub fn to_bytes(&self) -> (b: [u8; 32])
        ensures
            b == self.0,
    {
        self.0
    }

    /// The bytes of the address as a vector, as used in address seeds.
    pub fn to_vec(&self) -> (v: Vec<u8>)
        ensures
            v@ == self@,
            v@.len() == 32,
    {
        let mut v: Vec<u8> = Vec::new();
        let mut i: usize = 0;
        while i < 32
            invariant
                0 <= i <= 32,
                v@.len() == i,
                forall|j: int| 0 <= j < i ==> v@[j] == self.0@[j],
            decreases 32 - i,
        {
            v.push(self.0[i]);
            i = i + 1;
        }
        assert(v@ =~= self@);
        v
    }

    /// Byte-wise equality of two addresses.
    pub fn key_eq(&self, other: &Pubkey) -> (r: bool)
        ensures
            r == (*self == *other),
            r == (self@ == other@),
    {
        let mut i: usize = 0;
        while i < 32
            invariant
                0 <= i <= 32,
                forall|j: int| 0 <= j < i ==> self.0@[j] == other.0@[j],
            decreases 32 - i,
        {
            if self.0[i] != other.0[i] {
                assert(self@[i as int] != other@[i as int]);
                return false;
            }
            i = i + 1;
        }
        assert(self.0@ =~= other.0@);
        assert(self.0 == other.0);
        true
    }
}

/// The all-zero address, which unset address fields hold.
pub open spec fn zero_key() -> Pubkey {
    Pubkey(vstd::array::spec_array_fill_for_copy_type::<u8, 32>(0u8))
}

/// The all-zero address.
pub fn new_zero_key() -> (k: Pubkey)
    ensures
        k == zero_key(),
{
    let k = Pubkey([0u8; 32]);
    assert(k.0@ =~= zero_key().0@);
    k
}

/// The addresses of a sequence of keys.
pub open spec fn keys_view(keys: Seq<Pubkey>) -> Seq<Seq<u8>> {
    keys.map_values(|k: Pubkey| k@)
}

/// The program-derived address and bump seed that the address search of
/// `solana_pubkey` finds for `seeds` under `program_id`, or `None` when the
/// search finds none.
pub uninterp spec fn program_address(seeds: Seq<Seq<u8>>, program_id: Seq<u8>) -> Option<(Seq<u8>, u8)>;

/// The view of a derived address and bump.
pub open spec fn found_view(r: Option<(Pubkey, u8)>) -> Option<(Seq<u8>, u8)> {
    match r {
        Some((k, b)) => Some((k@, b)),
        None => None,
    }
}

/// The views of a list of seeds.
pub open spec fn seeds_view(seeds: Seq<Vec<u8>>) -> Seq<Seq<u8>> {
    seeds.map_values(|s: Vec<u8>| s@)
}

/// Seeds that the address search accepts: fewer than 16 of them (one slot is
/// kept for the bump seed), none longer than 32 bytes.
pub open spec fn seeds_acceptable(seeds: Seq<Seq<u8>>) -> bool {
    &&& seeds.len() < 16
    &&& forall|i: int| 0 <= i < seeds.len() ==> #[trigger] seeds[i].len() <= 32
}

/// Calls `solana_pubkey::Pubkey::try_find_program_address` (through
/// `anchor_lang`). Its result is a function of the seeds and the program id
/// alone (a hash search), named `program_address`; the source returns `None`
/// when there are 16 or more seeds or a seed is longer than 32 bytes, as the
/// second clause states. Nothing else is claimed of the search.
#[verifier::external_body]
fn try_find_program_address(seeds: &Vec<Vec<u8>>, program_id: &Pubkey) -> (r: Option<(Pubkey, u8)>)
    ensures
        found_view(r) == program_address(seeds_view(seeds@), program_id@),
        !seeds_acceptable(seeds_view(seeds@)) ==> r is None,
{
    let refs: Vec<&[u8]> = seeds.iter().map(|s| s.as_slice()).collect();
    let pid = anchor_lang::prelude::Pubkey::new_from_array(program_id.0);
    match anchor_lang::prelude::Pubkey::try_find_program_address(&refs, &pid) {
        Some((k, b)) => Some((Pubkey(k.to_bytes()), b)),
        None => None,
    }
}

/// Finds the program-derived address of `seeds` under `program_id`.
pub fn find_program_address(seeds: &Vec<Vec<u8>>, program_id: &Pubkey) -> (r: Option<(Pubkey, u8)>)
    ensures
        found_view(r) == program_address(seeds_view(seeds@), program_id@),
        !seeds_acceptable(seeds_view(seeds@)) ==> r is None,
{
    try_find_program_address(seeds, program_id)
}

/// The 32 bytes that the base58 text `s` decodes to, as `solana_pubkey`
/// decodes an address, or `None` when it decodes to none.
pub uninterp spec fn decoded_pubkey(s: Seq<char>) -> Option<Seq<u8>>;

/// Calls `FromStr::from_str` of `solana_pubkey::Pubkey` (through
/// `anchor_lang`): base58 decoding into 32 bytes. Its result is a function of
/// the text alone, named `decoded_pubkey`; the source refuses text longer
/// than 44 bytes before decoding, as the second clause states.
#[verifier::external_body]
pub(crate) fn parse_pubkey(s: &str) -> (r: Option<Pubkey>)
    ensures
        match r {
            Some(k) => decoded_pubkey(s@) == Some(k@),
            None => decoded_pubkey(s@) is None,
        },
        crate::strings::byte_len(s@) > 44 ==> r is None,
{
    match <anchor_lang::prelude::Pubkey as std::str::FromStr>::from_str(s) {
        Ok(k) => Some(Pubkey(k.to_bytes())),
        Err(_) => None,
    }
}

/// The address part of a derived address.
pub open spec fn address_of(r: Option<(Seq<u8>, u8)>) -> Option<Seq<u8>> {
    match r {
        Some((k, _)) => Some(k),
        None => None,
    }
}

// ---------------------------------------------------------------------
// Program ids
// ---------------------------------------------------------------------

/// The factory program id (`36KZHRWMKbGNsMZ2jMVuRbnMUrjzRr8kmjHyPJ9ipvFW`).
pub open spec fn factory_id_spec() -> Seq<u8> {
    seq![31u8, 20, 66, 138, 19, 35, 224, 2, 50, 240, 154, 111, 104, 244, 140, 194,
         86, 54, 69, 186, 171, 108, 213, 37, 53, 28, 21, 179, 63, 44, 46, 229]
}

/// The factory program id.
pub fn factory_id() -> (k: Pubkey)
    ensures
        k@ == factory_id_spec(),
{
    let k = Pubkey([31u8, 20, 66, 138, 19, 35, 224, 2, 50, 240, 154, 111, 104, 244, 140, 194,
         86, 54, 69, 186, 171, 108, 213, 37, 53, 28, 21, 179, 63, 44, 46, 229]);
    assert(k@ =~= factory_id_spec());
    k
}

/// The oracle program id (`9vDvoPvmq68icnHWXowjqoEKgSs8TvBmmFvTcFztephV`).
pub open spec fn monitor_id_spec() -> Seq<u8> {
    seq![132u8, 127, 229, 67, 83, 15, 0, 18, 72, 35, 90, 211, 9, 155, 153, 44, 232, 30, 147, 214, 110, 123, 195, 114, 83, 151, 151, 239, 52, 121, 32, 96]
}

/// The oracle program id.
pub fn monitor_id() -> (k: Pubkey)
    ensures
        k@ == monitor_id_spec(),
{
    let k = Pubkey([132u8, 127, 229, 67, 83, 15, 0, 18, 72, 35, 90, 211, 9, 155, 153, 44, 232, 30, 147, 214, 110, 123, 195, 114, 83, 151, 151, 239, 52, 121, 32, 96]);
    assert(k@ =~= monitor_id_spec());
    k
}

/// The Metaplex token metadata program id (`metaqbxxUerdq28cj1RbAWkYQm3ybzjb6a8bt518x1s`).
pub open spec fn token_metadata_id_spec() -> Seq<u8> {
    seq![11u8, 112, 101, 177, 227, 209, 124, 69, 56, 157, 82, 127, 107, 4, 195, 205, 88, 184, 108, 115, 26, 160, 253, 181, 73, 182, 209, 188, 3, 248, 41, 70]
}

/// The Metaplex token metadata program id.
pub fn token_metadata_id() -> (k: Pubkey)
    ensures
        k@ == token_metadata_id_spec(),
{
    let k = Pubkey([11u8, 112, 101, 177, 227, 209, 124, 69, 56, 157, 82, 127, 107, 4, 195, 205, 88, 184, 108, 115, 26, 160, 253, 181, 73, 182, 209, 188, 3, 248, 41, 70]);
    assert(k@ =~= token_metadata_id_spec());
    k
}

/// The associated token account program id (`ATokenGPvbdGVxr1b2hvZbsiqW5xWH25efTNsLJA8knL`).
pub open spec fn associated_token_id_spec() -> Seq<u8> {
    seq![140u8, 151, 37, 143, 78, 36, 137, 241, 187, 61, 16, 41, 20, 142, 13, 131, 11, 90, 19, 153, 218, 255, 16, 132, 4, 142, 123, 216, 219, 233, 248, 89]
}

/// The associated token account program id.
pub fn associated_token_id() -> (k: Pubkey)
    ensures
        k@ == associated_token_id_spec(),
{
    let k = Pubkey([140u8, 151, 37, 143, 78, 36, 137, 241, 187, 61, 16, 41, 20, 142, 13, 131, 11, 90, 19, 153, 218, 255, 16, 132, 4, 142, 123, 216, 219, 233, 248, 89]);
    assert(k@ =~= associated_token_id_spec());
    k
}

/// The Token-2022 program id (`TokenzQdBNbLqP5VEhdkAS6EPFLC1PHnBqCXEpPxuEb`).
pub open spec fn token_2022_id_spec() -> Seq<u8> {
    seq![6u8, 221, 246, 225, 238, 117, 143, 222, 24, 66, 93, 188, 228, 108, 205, 218, 182, 26, 252, 77, 131, 185, 13, 39, 254, 189, 249, 40, 216, 161, 139, 252]
}

/// The Token-2022 program id.
pub fn token_2022_id() -> (k: Pubkey)
    ensures
        k@ == token_2022_id_spec(),
{
    let k = Pubkey([6u8, 221, 246, 225, 238, 117, 143, 222, 24, 66, 93, 188, 228, 108, 205, 218, 182, 26, 252, 77, 131, 185, 13, 39, 254, 189, 249, 40, 216, 161, 139, 252]);
    assert(k@ =~= token_2022_id_spec());
    k
}

} // verus!
