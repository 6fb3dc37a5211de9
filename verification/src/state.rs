use vstd::prelude::*;

use crate::error::MarketplaceError;
use crate::fee::BASIS_POINTS;
use crate::key::Key;

verus! {

/// The marketplace's settings.
pub struct Marketplace {
    pub name: String,
    pub fee: u16,
    pub bump: u8,
    pub treasury_bump: u8,
}

/// The UTF-8 bytes of a string's characters.
pub open spec fn utf8_bytes(s: Seq<char>) -> Seq<u8> {
    vstd::utf8::encode_utf8(s)
}

/// The longest marketplace name, in bytes.
pub const MAX_NAME_LEN: usize = 32;

impl Marketplace {
    /// A marketplace as `initialize` accepts it: its fee is at most 10000 basis points.
    pub open spec fn wf(&self) -> bool {
        self.fee <= BASIS_POINTS
    }

    /// The bytes of the name, as they go into the marketplace's seeds.
    pub open spec fn name_bytes(&self) -> Seq<u8> {
        utf8_bytes(self.name@)
    }

    /// The outcome of `new` on these arguments.
    pub open spec fn spec_new(name: Seq<char>, fee: u16) -> Result<(), MarketplaceError> {
        if utf8_bytes(name).len() == 0 || utf8_bytes(name).len() > MAX_NAME_LEN {
            Err(MarketplaceError::NameTooLong)
        } else if fee > BASIS_POINTS {
            Err(MarketplaceError::InvalidFee)
        } else {
            Ok(())
        }
    }

    /// Sets up a marketplace: its name must take 1 to 32 bytes and its fee
    /// must be at most 10000 basis points.
    pub fn new(name: String, fee: u16, bump: u8, treasury_bump: u8) -> (r: Result<Marketplace, MarketplaceError>)
        ensures
            Self::spec_new(name@, fee) is Ok <==> r is Ok,
            r matches Err(e) ==> Self::spec_new(name@, fee) == Err::<(), MarketplaceError>(e),
            r matches Ok(m) ==> {
                &&& m.name@ == name@
                &&& m.fee == fee
                &&& m.bump == bump
                &&& m.treasury_bump == treasury_bump
                &&& m.wf()
            },
    {
        let bytes: &[u8] = name.as_str().as_bytes();
        let len: usize = bytes.len();
        if len == 0 || len > MAX_NAME_LEN {
            return Err(MarketplaceError::NameTooLong);
        }
        if fee > BASIS_POINTS {
            return Err(MarketplaceError::InvalidFee);
        }
        Ok(Marketplace { name, fee, bump, treasury_bump })
    }

    /// The bytes of the name.
    pub fn name_seed(&self) -> (v: Vec<u8>)
        ensures
            v@ == self.name_bytes(),
    {
        vstd::slice::slice_to_vec(self.name.as_str().as_bytes())
    }
}

/// A listed NFT, waiting for a buyer.
#[derive(Clone, Copy, Debug)]
pub struct Listing {
    pub maker: Key,
    pub mint: Key,
    /// `None`: the price is in lamports; `Some(mint)`: in tokens of that mint.
    pub payment_mint: Option<Key>,
    pub price: u64,
    pub bump: u8,
}

/// Bytes a listing account takes.
pub const LISTING_INIT_SPACE: usize = 8 + 32 + 32 + (1 + 32) + 8 + 1;

/// An offer for an NFT, its amount held in escrow.
#[derive(Clone, Copy, Debug)]
pub struct Offer {
    pub buyer: Key,
    pub mint: Key,
    /// `None`: the amount is in lamports; `Some(mint)`: in tokens of that mint.
    pub payment_mint: Option<Key>,
    pub offer_amount: u64,
    pub bump: u8,
}

/// Bytes an offer account takes.
pub const OFFER_INIT_SPACE: usize = 8 + 32 + 32 + (1 + 32) + 8 + 1;

} // verus!
