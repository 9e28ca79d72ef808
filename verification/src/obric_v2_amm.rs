//! The pool as a trade router sees it: which accounts to fetch, how a
//! refresh folds fetched values into the state, and how a quote is made
//! from that state.

use vstd::prelude::*;
use crate::errors::{AmmError, Error, OverflowError};
use crate::price_feed::{parse_price, parse_price_spec, FreshnessMode, OracleRecord};
use crate::pubkey::Pubkey;
use crate::trading_pair::{
    lemma_quote_x_to_y_conserves,
    lemma_quote_y_to_x_conserves,
    price_update_defined,
    x_decimals_multiplier,
    y_decimals_multiplier,
    SSTradingPair,
};

verus! {

/// Length in bytes of the persisted record of a pool.
pub const TRADING_PAIR_ACCOUNT_LEN: usize = 666;

/// A pool with the reserves, decimals and price times of its last refresh.
#[derive(Clone, Copy, Debug, PartialEq, Eq)]
pub struct ObricV2Amm {
    pub key: Pubkey,
    pub state: SSTradingPair,
    pub current_x: u64,
    pub current_y: u64,
    pub x_decimals: u8,
    pub y_decimals: u8,
    pub x_price_publish_time: i64,
    pub y_price_publish_time: i64,
}

/// What a refresh has to read besides the pool record and the balances of
/// the two reserves.
#[derive(Clone, Copy, Debug, PartialEq, Eq)]
pub enum RefreshNeeds {
    /// Nothing: a reserve is empty.
    ReservesOnly,
    /// The two oracle records.
    Prices,
    /// The two oracle records and the two mints.
    PricesAndMints,
}

/// The outcome of a quote: what the user receives and the whole fee.
#[derive(Clone, Copy, Debug, PartialEq, Eq)]
pub struct Quote {
    pub out_amount: u64,
    pub fee_amount: u64,
}

/// The accounts of the user that take part in a swap.
#[derive(Clone, Copy, Debug, PartialEq, Eq)]
pub struct SwapParams {
    pub source_mint: Pubkey,
    pub source_token_account: Pubkey,
    pub destination_token_account: Pubkey,
    pub token_transfer_authority: Pubkey,
}

/// One account of a swap instruction.
#[derive(Clone, Copy, Debug, PartialEq, Eq)]
pub struct AccountMeta {
    pub pubkey: Pubkey,
    pub is_signer: bool,
    pub is_writable: bool,
}

/// The direction of a swap and the accounts of its instruction, in order.
#[derive(Clone, Debug, PartialEq, Eq)]
pub struct SwapAndAccountMetas {
    pub x_to_y: bool,
    pub account_metas: Vec<AccountMeta>,
}

/// An account that the instruction only reads.
pub open spec fn readonly(pubkey: Pubkey) -> AccountMeta {
    AccountMeta { pubkey, is_signer: false, is_writable: false }
}

/// An account that the instruction may write.
pub open spec fn writable(pubkey: Pubkey) -> AccountMeta {
    AccountMeta { pubkey, is_signer: false, is_writable: true }
}

/// The quote that a fee split amounts to: the fee is the sum of the
/// protocol's fee and the liquidity providers' fee.
pub open spec fn quote_of(split: Result<(u64, u64, u64), OverflowError>) -> Result<Quote, Error> {
    match split {
        Ok((output, protocol_fee, lp_fee)) => Ok(
            Quote { out_amount: output, fee_amount: (protocol_fee + lp_fee) as u64 },
        ),
        Err(e) => Err(Error::Overflow(e)),
    }
}

impl ObricV2Amm {
    /// A pool that has not been refreshed yet: no reserves, no decimals,
    /// no price times.
    pub fn from_keyed_account(key: Pubkey, state: SSTradingPair) -> (amm: ObricV2Amm)
        ensures
            amm == (ObricV2Amm {
                key,
                state,
                current_x: 0,
                current_y: 0,
                x_decimals: 0,
                y_decimals: 0,
                x_price_publish_time: 0,
                y_price_publish_time: 0,
            }),
    {
        ObricV2Amm {
            key,
            state,
            current_x: 0u64,
            current_y: 0u64,
            x_decimals: 0u8,
            y_decimals: 0u8,
            x_price_publish_time: 0,
            y_price_publish_time: 0,
        }
    }

    /// The name of this kind of pool.
    pub fn label(&self) -> (s: String)
        ensures
            s@ == "Obric V2"@,
    {
        "Obric V2".to_string()
    }

    /// The address of the pool.
    pub fn key(&self) -> (key: Pubkey)
        ensures
            key == self.key,
    {
        self.key
    }

    /// The mints of the two assets, X first.
    pub fn get_reserve_mints(&self) -> (mints: Vec<Pubkey>)
        ensures
            mints@ == seq![self.state.mint_x, self.state.mint_y],
    {
        let mut mints: Vec<Pubkey> = Vec::new();
        mints.push(self.state.mint_x);
        mints.push(self.state.mint_y);
        mints
    }

    /// The decimals of the two assets are not known yet.
    pub open spec fn needs_mint_decimals(&self) -> bool {
        self.x_decimals == 0 && self.y_decimals == 0
    }

    /// The accounts that a refresh reads.
    pub open spec fn accounts_to_update(&self) -> Seq<Pubkey> {
        let always = seq![
            self.key,
            self.state.reserve_x,
            self.state.reserve_y,
            self.state.x_price_feed_id,
            self.state.y_price_feed_id,
        ];
        if self.needs_mint_decimals() {
            always + seq![self.state.mint_x, self.state.mint_y]
        } else {
            always
        }
    }

    /// The accounts that a refresh reads: the pool, its two reserves and
    /// its two price feeds, and the two mints while the decimals are not
    /// known.
    pub fn get_accounts_to_update(&self) -> (accounts: Vec<Pubkey>)
        ensures
            accounts@ == self.accounts_to_update(),
    {
        let mut accounts: Vec<Pubkey> = Vec::new();
        accounts.push(self.key);
        accounts.push(self.state.reserve_x);
        accounts.push(self.state.reserve_y);
        accounts.push(self.state.x_price_feed_id);
        accounts.push(self.state.y_price_feed_id);
        if self.x_decimals == 0 && self.y_decimals == 0 {
            accounts.push(self.state.mint_x);
            accounts.push(self.state.mint_y);
        }
        assert(accounts@ =~= self.accounts_to_update());
        accounts
    }

    /// The set of accounts to read changes from refresh to refresh.
    pub fn has_dynamic_accounts(&self) -> (r: bool)
        ensures
            r,
    {
        true
    }

    /// The number of accounts that a swap is accounted with.
    pub fn get_accounts_len(&self) -> (n: usize)
        ensures
            n == 12,
    {
        12
    }

    /// What a refresh has to read besides the pool record and the two
    /// reserve balances.
    pub open spec fn refresh_needs_spec(
        &self,
        reserve_x_amount: u64,
        reserve_y_amount: u64,
    ) -> RefreshNeeds {
        if reserve_x_amount == 0 || reserve_y_amount == 0 {
            RefreshNeeds::ReservesOnly
        } else if self.needs_mint_decimals() {
            RefreshNeeds::PricesAndMints
        } else {
            RefreshNeeds::Prices
        }
    }

    /// What a refresh with these reserve balances has to read besides the
    /// pool record and the balances: nothing while a reserve is empty, else
    /// both oracle records, and both mints while the decimals are not known.
    pub fn refresh_needs(&self, reserve_x_amount: u64, reserve_y_amount: u64) -> (needs:
        RefreshNeeds)
        ensures
            needs == self.refresh_needs_spec(reserve_x_amount, reserve_y_amount),
    {
        if reserve_x_amount == 0 || reserve_y_amount == 0 {
            RefreshNeeds::ReservesOnly
        } else if self.x_decimals == 0 && self.y_decimals == 0 {
            RefreshNeeds::PricesAndMints
        } else {
            RefreshNeeds::Prices
        }
    }

    /// The decimals that a refresh works with: those already known, else
    /// those of the mints where they were fetched.
    pub open spec fn refresh_decimals(&self, mint_decimals: Option<(u8, u8)>) -> Option<(u8, u8)> {
        if self.needs_mint_decimals() {
            mint_decimals
        } else {
            Some((self.x_decimals, self.y_decimals))
        }
    }

    /// The pool after a refresh with the given pool record, reserve
    /// balances, mint decimals where they were fetched, oracle records and
    /// current time, or why the refresh fails.
    ///
    /// With an empty reserve the record and the balances are taken over and
    /// nothing else is read. Otherwise the decimals are taken from the mints
    /// while they are not known, both prices are parsed in strict mode at
    /// the record's price decimals and maximum ages, and the refreshed pool
    /// holds the record with the multipliers set from the two prices, the
    /// balances, the decimals and the two publish times.
    pub open spec fn update_spec(
        self,
        state: SSTradingPair,
        reserve_x_amount: u64,
        reserve_y_amount: u64,
        mint_decimals: Option<(u8, u8)>,
        price_x: OracleRecord,
        price_y: OracleRecord,
        time: i64,
    ) -> Result<ObricV2Amm, Error> {
        if reserve_x_amount == 0 || reserve_y_amount == 0 {
            Ok(ObricV2Amm { state, current_x: reserve_x_amount, current_y: reserve_y_amount, ..self })
        } else {
            match self.refresh_decimals(mint_decimals) {
                None => Err(Error::Amm(AmmError::AccountNotFound)),
                Some((x_decimals, y_decimals)) => match parse_price_spec(
                    price_x,
                    state.price_decimals,
                    time,
                    state.feed_max_age_x,
                    FreshnessMode::Strict,
                ) {
                    Err(e) => Err(e),
                    Ok((x_price, x_publish_time)) => match parse_price_spec(
                        price_y,
                        state.price_decimals,
                        time,
                        state.feed_max_age_y,
                        FreshnessMode::Strict,
                    ) {
                        Err(e) => Err(e),
                        Ok((y_price, y_publish_time)) => if price_update_defined(
                            x_price,
                            y_price,
                            x_decimals,
                            y_decimals,
                        ) {
                            Ok(
                                ObricV2Amm {
                                    key: self.key,
                                    state: SSTradingPair {
                                        mult_x: (x_price * x_decimals_multiplier(
                                            x_decimals,
                                            y_decimals,
                                        )) as u64,
                                        mult_y: (y_price * y_decimals_multiplier(
                                            x_decimals,
                                            y_decimals,
                                        )) as u64,
                                        ..state
                                    },
                                    current_x: reserve_x_amount,
                                    current_y: reserve_y_amount,
                                    x_decimals,
                                    y_decimals,
                                    x_price_publish_time: x_publish_time,
                                    y_price_publish_time: y_publish_time,
                                },
                            )
                        } else {
                            Err(Error::Overflow(OverflowError))
                        },
                    },
                },
            }
        }
    }

    /// Refreshes the pool from fetched values: the pool record, the
    /// balances of the two reserves, the decimals of the two mints where
    /// they were fetched, the two oracle records and the current time.
    ///
    /// A refresh succeeds as a whole or not at all: on failure the pool is
    /// left exactly as it was, with the reserves, multipliers and publish
    /// times of the last successful refresh.
    pub fn update(
        &mut self,
        state: SSTradingPair,
        reserve_x_amount: u64,
        reserve_y_amount: u64,
        mint_decimals: Option<(u8, u8)>,
        price_x: &OracleRecord,
        price_y: &OracleRecord,
        time: i64,
    ) -> (r: Result<(), Error>)
        ensures
            match old(self).update_spec(
                state,
                reserve_x_amount,
                reserve_y_amount,
                mint_decimals,
                *price_x,
                *price_y,
                time,
            ) {
                Ok(refreshed) => r is Ok && *final(self) == refreshed,
                Err(e) => r == Err::<(), Error>(e) && *final(self) == *old(self),
            },
    {
        if reserve_x_amount == 0 || reserve_y_amount == 0 {
            self.state = state;
            self.current_x = reserve_x_amount;
            self.current_y = reserve_y_amount;
            return Ok(());
        }
        let (x_decimals, y_decimals): (u8, u8) = if self.x_decimals == 0 && self.y_decimals == 0 {
            match mint_decimals {
                Some(decimals) => decimals,
                None => { return Err(Error::Amm(AmmError::AccountNotFound)); },
            }
        } else {
            (self.x_decimals, self.y_decimals)
        };
        let (x_price, x_publish_time): (u64, i64) = match parse_price(
            price_x,
            state.price_decimals,
            time,
            state.feed_max_age_x,
        ) {
            Ok(parsed) => parsed,
            Err(e) => { return Err(e); },
        };
        let (y_price, y_publish_time): (u64, i64) = match parse_price(
            price_y,
            state.price_decimals,
            time,
            state.feed_max_age_y,
        ) {
            Ok(parsed) => parsed,
            Err(e) => { return Err(e); },
        };
        let mut refreshed_state: SSTradingPair = state;
        match refreshed_state.update_price(x_price, y_price, x_decimals, y_decimals) {
            Ok(()) => {},
            Err(e) => { return Err(Error::Overflow(e)); },
        }
        self.state = refreshed_state;
        self.current_x = reserve_x_amount;
        self.current_y = reserve_y_amount;
        self.x_decimals = x_decimals;
        self.y_decimals = y_decimals;
        self.x_price_publish_time = x_publish_time;
        self.y_price_publish_time = y_publish_time;
        Ok(())
    }

    /// The age of a price at `time` cannot be represented in 64 bits.
    pub open spec fn age_overflows(publish_time: i64, time: i64) -> bool {
        time - publish_time > i64::MAX || time - publish_time < i64::MIN
    }

    /// What a quote for `amount` of `input_mint` at `time` yields.
    ///
    /// Both prices must be no older than the pool allows. The mint of X
    /// asks for a swap of X for Y, the mint of Y for the reverse.
    pub open spec fn quote_spec(&self, input_mint: Pubkey, amount: u64, time: i64) -> Result<
        Quote,
        Error,
    > {
        if Self::age_overflows(self.x_price_publish_time, time) || Self::age_overflows(
            self.y_price_publish_time,
            time,
        ) {
            Err(Error::Overflow(OverflowError))
        } else if time - self.x_price_publish_time > self.state.feed_max_age_x || time
            - self.y_price_publish_time > self.state.feed_max_age_y {
            Err(Error::StalePriceFeed)
        } else if input_mint == self.state.mint_x {
            quote_of(self.state.quote_x_to_y_spec(amount, self.current_x, self.current_y))
        } else if input_mint == self.state.mint_y {
            quote_of(self.state.quote_y_to_x_spec(amount, self.current_x, self.current_y))
        } else {
            Err(Error::UnknownMint)
        }
    }

    /// Quotes a swap of `amount` of `input_mint` at `time` against the
    /// reserves of the last refresh.
    pub fn quote(&self, input_mint: &Pubkey, amount: u64, time: i64) -> (r: Result<Quote, Error>)
        ensures
            r == self.quote_spec(*input_mint, amount, time),
    {
        let x_age: i64 = match time.checked_sub(self.x_price_publish_time) {
            Some(age) => age,
            None => { return Err(Error::Overflow(OverflowError)); },
        };
        let y_age: i64 = match time.checked_sub(self.y_price_publish_time) {
            Some(age) => age,
            None => { return Err(Error::Overflow(OverflowError)); },
        };
        if x_age > self.state.feed_max_age_x as i64 || y_age > self.state.feed_max_age_y as i64 {
            return Err(Error::StalePriceFeed);
        }
        let split: Result<(u64, u64, u64), OverflowError> = if input_mint.same(
            &self.state.mint_x,
        ) {
            proof {
                if self.state.quote_x_to_y_spec(amount, self.current_x, self.current_y) is Ok {
                    lemma_quote_x_to_y_conserves(
                        self.state,
                        amount,
                        self.current_x,
                        self.current_y,
                    );
                }
            }
            self.state.quote_x_to_y(amount, self.current_x, self.current_y)
        } else if input_mint.same(&self.state.mint_y) {
            proof {
                if amount > 0 && self.state.quote_y_to_x_spec(
                    amount,
                    self.current_x,
                    self.current_y,
                ) is Ok {
                    lemma_quote_y_to_x_conserves(
                        self.state,
                        amount,
                        self.current_x,
                        self.current_y,
                    );
                }
            }
            self.state.quote_y_to_x(amount, self.current_x, self.current_y)
        } else {
            return Err(Error::UnknownMint);
        };
        match split {
            Ok((output_after_fee, protocol_fee, lp_fee)) => Ok(
                Quote { out_amount: output_after_fee, fee_amount: protocol_fee + lp_fee },
            ),
            Err(e) => Err(Error::Overflow(e)),
        }
    }

    /// The accounts of a swap instruction, in the order the program
    /// expects them, for a swap from `source_mint`.
    pub open spec fn swap_account_metas(
        &self,
        program_id: Pubkey,
        token_program: Pubkey,
        swap_params: SwapParams,
    ) -> Seq<AccountMeta> {
        let x_to_y = swap_params.source_mint == self.state.mint_x;
        let user_token_account_x = if x_to_y {
            swap_params.source_token_account
        } else {
            swap_params.destination_token_account
        };
        let user_token_account_y = if x_to_y {
            swap_params.destination_token_account
        } else {
            swap_params.source_token_account
        };
        seq![
            readonly(program_id),
            writable(self.key),
            readonly(self.state.mint_x),
            readonly(self.state.mint_y),
            writable(self.state.reserve_x),
            writable(self.state.reserve_y),
            writable(user_token_account_x),
            writable(user_token_account_y),
            writable(self.state.reference_oracle),
            readonly(self.state.x_price_feed_id),
            readonly(self.state.y_price_feed_id),
            readonly(swap_params.token_transfer_authority),
            readonly(token_program),
        ]
    }

    /// The direction of a swap from `source_mint` and the accounts of its
    /// instruction: X for Y exactly when the source is the mint of X.
    pub fn get_swap_and_account_metas(
        &self,
        program_id: Pubkey,
        token_program: Pubkey,
        swap_params: &SwapParams,
    ) -> (r: Result<SwapAndAccountMetas, Error>)
        ensures
            r is Ok,
            r->Ok_0.x_to_y == (swap_params.source_mint == self.state.mint_x),
            r->Ok_0.account_metas@ == self.swap_account_metas(
                program_id,
                token_program,
                *swap_params,
            ),
    {
        let x_to_y: bool = swap_params.source_mint.same(&self.state.mint_x);
        let (user_token_account_x, user_token_account_y): (Pubkey, Pubkey) = if x_to_y {
            (swap_params.source_token_account, swap_params.destination_token_account)
        } else {
            (swap_params.destination_token_account, swap_params.source_token_account)
        };
        let mut account_metas: Vec<AccountMeta> = Vec::new();
        account_metas.push(meta_readonly(program_id));
        account_metas.push(meta_writable(self.key));
        account_metas.push(meta_readonly(self.state.mint_x));
        account_metas.push(meta_readonly(self.state.mint_y));
        account_metas.push(meta_writable(self.state.reserve_x));
        account_metas.push(meta_writable(self.state.reserve_y));
        account_metas.push(meta_writable(user_token_account_x));
        account_metas.push(meta_writable(user_token_account_y));
        account_metas.push(meta_writable(self.state.reference_oracle));
        account_metas.push(meta_readonly(self.state.x_price_feed_id));
        account_metas.push(meta_readonly(self.state.y_price_feed_id));
        account_metas.push(meta_readonly(swap_params.token_transfer_authority));
        account_metas.push(meta_readonly(token_program));
        assert(account_metas@ =~= self.swap_account_metas(program_id, token_program, *swap_params));
        Ok(SwapAndAccountMetas { x_to_y, account_metas })
    }
}

/// An account that the instruction only reads and that does not sign.
pub fn meta_readonly(pubkey: Pubkey) -> (meta: AccountMeta)
    ensures
        meta == readonly(pubkey),
{
    AccountMeta { pubkey, is_signer: false, is_writable: false }
}

/// An account that the instruction may write and that does not sign.
pub fn meta_writable(pubkey: Pubkey) -> (meta: AccountMeta)
    ensures
        meta == writable(pubkey),
{
    AccountMeta { pubkey, is_signer: false, is_writable: true }
}

} // verus!
