//! Pricing for a two-asset pool whose constant-product curve is re-centred
//! by oracle prices: oracle decoding and normalisation, the pool state with
//! its multipliers, and the swap quotes with their fee and rebate split.

pub mod errors;
pub mod math;
pub mod obric_v2_amm;
pub mod price_feed;
pub mod pubkey;
pub mod trading_pair;
