use vstd::prelude::*;
use solana_sdk::pubkey::Pubkey;

verus! {

/// A 32-byte account identifier.
#[derive(Clone, Copy, Debug, PartialEq, Eq, Hash)]
pub struct Address {
    pub bytes: [u8; 32],
}

impl View for Address {
    type V = Seq<u8>;

    open spec fn view(&self) -> Seq<u8> {
        self.bytes@
    }
}

/// The byte strings that a list of addresses stands for, in order.
pub open spec fn address_views(list: Seq<Address>) -> Seq<Seq<u8>> {
    Seq::new(list.len(), |i: int| list[i]@)
}

/// What `Pubkey::from_str` makes of a text: the 32 bytes that the text
/// writes in base58, or nothing where the text is no such form.
pub uninterp spec fn base58_address(text: Seq<char>) -> Option<Seq<u8>>;

/// The text that `Pubkey`'s `Display` writes for 32 bytes: their base58 form.
pub uninterp spec fn base58_text(bytes: Seq<u8>) -> Seq<char>;

/// `<solana_sdk::pubkey::Pubkey as FromStr>::from_str`. The result depends
/// on the text alone and is given the name `base58_address`; a failure of
/// either kind comes back as `None`.
#[verifier::external_body]
fn pubkey_from_str(text: &str) -> (r: Option<Address>)
    ensures
        r matches Some(a) ==> base58_address(text@) == Some(a@),
        r is None ==> base58_address(text@) is None,
{
    match text.parse::<Pubkey>() {
        Ok(key) => Some(Address { bytes: key.to_bytes() }),
        Err(_) => None,
    }
}

/// `Pubkey`'s `Display`, reached through `to_string`. The result depends on
/// the bytes alone and is given the name `base58_text`.
#[verifier::external_body]
fn pubkey_to_string(address: &Address) -> (r: String)
    ensures
        r@ == base58_text(address@),
{
    Pubkey::from(address.bytes).to_string()
}

impl Address {
    /// Reads an address from its base58 text.
    pub fn parse(text: &str) -> (r: Option<Address>)
        ensures
            r matches Some(a) ==> base58_address(text@) == Some(a@),
            r is None ==> base58_address(text@) is None,
    {
        pubkey_from_str(text)
    }

    /// Writes the address as base58 text.
    pub fn to_base58(&self) -> (r: String)
        ensures
            r@ == base58_text(self@),
    {
        pubkey_to_string(self)
    }

    pub fn from_bytes(bytes: [u8; 32]) -> (r: Address)
        ensures
            r@ == bytes@,
    {
        Address { bytes }
    }

    pub fn to_bytes(&self) -> (r: [u8; 32])
        ensures
            r@ == self@,
    {
        self.bytes
    }
}

} // verus!
