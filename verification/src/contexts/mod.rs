//! The marketplace's instructions: for each, its accounts, their constraints
//! and what its handler does.
pub mod list;
pub mod buy;
pub mod buy_with_token;
pub mod make_offer;
pub mod accept_offer;
pub mod cancel_offer;
