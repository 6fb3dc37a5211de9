//! Verified core of an NFT marketplace program.
//!
//! For each instruction the library checks the account constraints
//! (signatures, account owners, program-derived and associated token
//! addresses, the fields of token accounts created where needed, the stored
//! maker, buyer and mint, `close` destinations, distinct writable accounts) and
//! computes what the instruction does: the data it stores and the transfers and
//! closes it asks of the runtime, in order. Account discriminators, writable
//! flags, rent and whether an account to be created already exists are left to
//! the runtime.
pub mod accounts;
pub mod action;
pub mod constraints;
pub mod contexts;
pub mod error;
pub mod fee;
pub mod ids;
pub mod key;
pub mod laws;
pub mod pda;
pub mod program;
pub mod seeds;
pub mod state;

pub use contexts::accept_offer::AcceptOffer;
pub use contexts::buy::Buy;
pub use contexts::buy_with_token::BuyWithToken;
pub use contexts::cancel_offer::CancelOffer;
pub use contexts::list::{List, ListBumps};
pub use contexts::make_offer::{MakeOffer, MakeOfferBumps};
pub use error::{MarketError, MarketplaceError};
pub use program::{accept_offer, buy, buy_with_token, cancel_offer, initialize, list, make_offer, InitializeBumps};
pub use state::{Listing, Marketplace, Offer};
