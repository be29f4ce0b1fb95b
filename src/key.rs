use vstd::prelude::*;

verus! {

/// Text form of the wrapped native asset's mint: the reserve asset.
pub const WRAPPED_SOL_MINT: &'static str = "So11111111111111111111111111111111111111112";

/// An account identity: 32 bytes.
#[derive(Debug, Clone, Copy)]
pub struct Pubkey {
    pub bytes: [u8; 32],
}

impl View for Pubkey {
    type V = Seq<u8>;

    open spec fn view(&self) -> Seq<u8> {
        self.bytes@
    }
}

impl Pubkey {
    pub fn new(bytes: [u8; 32]) -> (r: Pubkey)
        ensures
            r.bytes == bytes,
    {
        Pubkey { bytes }
    }

    pub fn to_bytes(&self) -> (r: [u8; 32])
        ensures
            r == self.bytes,
    {
        self.bytes
    }

    /// Byte-wise comparison of two identities.
    pub fn same(&self, other: &Pubkey) -> (r: bool)
        ensures
            r == (self@ == other@),
    {
        let mut i: usize = 0;
        while i < 32
            invariant
                i <= 32,
                self@.len() == 32,
                other@.len() == 32,
                forall|j: int| 0 <= j < i ==> self@[j] == other@[j],
            decreases 32 - i,
        {
            if self.bytes[i] != other.bytes[i] {
                return false;
            }
            i = i + 1;
        }
        assert(self@ =~= other@);
        true
    }
}

impl PartialEq for Pubkey {
    fn eq(&self, other: &Pubkey) -> (r: bool) {
        self.same(other)
    }
}

impl vstd::std_specs::cmp::PartialEqSpecImpl for Pubkey {
    open spec fn obeys_eq_spec() -> bool {
        true
    }

    open spec fn eq_spec(&self, other: &Pubkey) -> bool {
        self@ == other@
    }
}

impl Eq for Pubkey {
}

/// What base58 decoding makes of a text: the 32 bytes of a key, or nothing
/// where the text is not one.
pub uninterp spec fn decoded_key(s: Seq<char>) -> Option<Seq<u8>>;

/// Relies on `Pubkey::from_str` of anchor_lang (solana_program): it decodes
/// base58 text into a 32-byte key, its result a function of the text alone.
#[verifier::external_body]
fn parse_key(s: &str) -> (r: Option<Pubkey>)
    ensures
        r matches Some(k) ==> decoded_key(s@) == Some(k@),
        r is None ==> decoded_key(s@) is None,
{
    match <anchor_lang::prelude::Pubkey as std::str::FromStr>::from_str(s) {
        Ok(k) => Some(Pubkey { bytes: k.to_bytes() }),
        Err(_) => None,
    }
}

/// The identity of the reserve asset, as the wrapped-native mint's text decodes.
pub open spec fn reserve_key() -> Option<Seq<u8>> {
    decoded_key(WRAPPED_SOL_MINT@)
}

/// The reserve asset's mint, or `InvalidWrappedSolMint` where its text does not decode.
pub fn wrapped_sol_mint() -> (r: Result<Pubkey, crate::error::ErrorCode>)
    ensures
        r matches Ok(k) ==> reserve_key() == Some(k@),
        r matches Err(e) ==> reserve_key() is None && e == crate::error::ErrorCode::InvalidWrappedSolMint,
{
    match parse_key(WRAPPED_SOL_MINT) {
        Some(k) => Ok(k),
        None => Err(crate::error::ErrorCode::InvalidWrappedSolMint),
    }
}

} // verus!
