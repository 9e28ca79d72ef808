//! Oracle prices: decoding the two record formats, rescaling a price to
//! the pool's fixed decimal precision, and the freshness check.

use vstd::prelude::*;
use crate::errors::{DecodeError, Error, OracleError};
use crate::math::{
    lemma_pow10_monotonic,
    lemma_pow10_step,
    lemma_pow10_u64_range,
    lemma_trunc_div_pow10_bounds,
    lemma_trunc_div_pow10_small,
    lemma_trunc_div_pow10_twice,
    pow10,
    scale_down,
    trunc_div,
};

verus! {

/// Length in bytes of a native oracle record.
pub const NATIVE_RECORD_LEN: usize = 283;

/// Offset of the price in a native oracle record.
pub const NATIVE_PRICE_OFFSET: usize = 73;

/// Offset of the exponent in a native oracle record.
pub const NATIVE_EXPONENT_OFFSET: usize = 81;

/// Offset of the publish time in a native oracle record.
pub const NATIVE_PUBLISH_TIME_OFFSET: usize = 82;

/// A price as an oracle record states it: `price * 10^exponent`.
#[derive(Clone, Copy, Debug, PartialEq, Eq)]
pub struct DecodedPrice {
    pub price: i128,
    pub exponent: i32,
    pub publish_time: i64,
}

/// A price at the pool's fixed decimal precision.
#[derive(Clone, Copy, Debug, PartialEq, Eq)]
pub struct NormalizedPrice {
    pub magnitude: u64,
    pub publish_time: i64,
}

/// Whether normalisation checks the age of the price.
#[derive(Clone, Copy, Debug, PartialEq, Eq)]
pub enum FreshnessMode {
    /// Reject a price older than the maximum age.
    Strict,
    /// Trust that freshness was checked before.
    Unchecked,
}

/// A price with its confidence interval, as a third-party feed reports it.
#[derive(Clone, Copy, Debug, PartialEq, Eq)]
pub struct Price {
    pub price: i64,
    pub conf: u64,
    pub expo: i32,
    pub publish_time: i64,
}

/// The current price of a third-party feed.
#[derive(Clone, Copy, Debug, PartialEq, Eq)]
pub struct PriceFeed(pub Price);

/// The fields of a native feed record that pricing reads.
#[derive(Clone, Copy, Debug, PartialEq, Eq)]
pub struct DovePriceFeed {
    pub price: i64,
    pub expo: i8,
    pub timestamp: i64,
}

/// An oracle record, tagged with its format.
#[derive(Clone, Debug, PartialEq, Eq)]
pub enum OracleRecord {
    /// The raw bytes of a native record.
    Native(Vec<u8>),
    /// The current price of a third-party record, or `None` where the
    /// record could not be unpacked.
    ThirdParty(Option<PriceFeed>),
}

/// The unsigned little-endian number in the eight bytes of `raw` from `at`.
pub open spec fn le_u64_at(raw: Seq<u8>, at: int) -> int {
    raw[at]
        + raw[at + 1] * 0x100
        + raw[at + 2] * 0x1_0000
        + raw[at + 3] * 0x100_0000
        + raw[at + 4] * 0x1_0000_0000
        + raw[at + 5] * 0x100_0000_0000
        + raw[at + 6] * 0x1_0000_0000_0000
        + raw[at + 7] * 0x100_0000_0000_0000
}

/// The signed little-endian number in the eight bytes of `raw` from `at`.
pub open spec fn le_i64_at(raw: Seq<u8>, at: int) -> int {
    if le_u64_at(raw, at) >= 0x8000_0000_0000_0000 {
        le_u64_at(raw, at) - 0x1_0000_0000_0000_0000
    } else {
        le_u64_at(raw, at)
    }
}

/// The signed number in the byte of `raw` at `at`.
pub open spec fn i8_at(raw: Seq<u8>, at: int) -> int {
    if raw[at] >= 0x80 {
        raw[at] - 0x100
    } else {
        raw[at] as int
    }
}

/// What the bytes of a native record decode to: a record of exactly 283
/// bytes holds price, exponent and publish time at fixed offsets, and
/// bytes of any other length are malformed.
pub open spec fn decode_native_spec(raw: Seq<u8>) -> Result<DovePriceFeed, DecodeError> {
    if raw.len() == NATIVE_RECORD_LEN {
        Ok(
            DovePriceFeed {
                price: le_i64_at(raw, NATIVE_PRICE_OFFSET as int) as i64,
                expo: i8_at(raw, NATIVE_EXPONENT_OFFSET as int) as i8,
                timestamp: le_i64_at(raw, NATIVE_PUBLISH_TIME_OFFSET as int) as i64,
            },
        )
    } else {
        Err(DecodeError::Malformed)
    }
}

/// A price is stale when its publish time plus the maximum age lies
/// before the current time.
pub open spec fn is_stale(publish_time: int, max_age: int, current_time: int) -> bool {
    publish_time + max_age < current_time
}

/// The number of decimal digits that rescaling from `exponent` to
/// `decimals` digits after the point removes.
pub open spec fn digits_removed(exponent: int, decimals: int) -> nat {
    (-decimals - exponent) as nat
}

/// The price rescaled to `decimals` digits after the point, rounded
/// toward zero. Meant for `exponent <= -decimals`.
pub open spec fn scaled_price(price: int, exponent: int, decimals: int) -> int {
    trunc_div(price, pow10(digits_removed(exponent, decimals)))
}

/// What normalising a decoded price yields.
pub open spec fn normalize_spec(
    decoded: DecodedPrice,
    current_time: i64,
    max_age: u8,
    target_decimals: u8,
    mode: FreshnessMode,
) -> Result<NormalizedPrice, OracleError> {
    if mode == FreshnessMode::Strict && is_stale(
        decoded.publish_time as int,
        max_age as int,
        current_time as int,
    ) {
        Err(OracleError::Stale)
    } else if decoded.exponent > -target_decimals {
        Err(OracleError::PrecisionUnavailable)
    } else if 0 <= scaled_price(
        decoded.price as int,
        decoded.exponent as int,
        target_decimals as int,
    ) <= u64::MAX {
        Ok(
            NormalizedPrice {
                magnitude: scaled_price(
                    decoded.price as int,
                    decoded.exponent as int,
                    target_decimals as int,
                ) as u64,
                publish_time: decoded.publish_time,
            },
        )
    } else {
        Err(OracleError::OutOfRange)
    }
}

/// What an oracle record decodes to.
pub open spec fn decode_spec(record: OracleRecord) -> Result<DecodedPrice, DecodeError> {
    match record {
        OracleRecord::Native(raw) => match decode_native_spec(raw@) {
            Ok(feed) => Ok(feed.decoded()),
            Err(e) => Err(e),
        },
        OracleRecord::ThirdParty(unpacked) => match unpacked {
            Some(feed) => Ok(feed.0.decoded()),
            None => Err(DecodeError::Malformed),
        },
    }
}

/// What parsing an oracle record yields: the normalised magnitude with
/// the publish time, or why there is none.
pub open spec fn parse_price_spec(
    record: OracleRecord,
    decimals: u8,
    current_time: i64,
    max_age: u8,
    mode: FreshnessMode,
) -> Result<(u64, i64), Error> {
    match decode_spec(record) {
        Err(e) => Err(Error::Decode(e)),
        Ok(decoded) => match normalize_spec(decoded, current_time, max_age, decimals, mode) {
            Ok(normalized) => Ok((normalized.magnitude, normalized.publish_time)),
            Err(e) => Err(Error::Oracle(e)),
        },
    }
}

impl DovePriceFeed {
    /// The price, exponent and publish time of this record.
    pub open spec fn decoded(&self) -> DecodedPrice {
        DecodedPrice {
            price: self.price as i128,
            exponent: self.expo as i32,
            publish_time: self.timestamp,
        }
    }

    /// The price, exponent and publish time of this record.
    pub fn decode(&self) -> (d: DecodedPrice)
        ensures
            d == self.decoded(),
    {
        DecodedPrice {
            price: self.price as i128,
            exponent: self.expo as i32,
            publish_time: self.timestamp,
        }
    }

    /// Reads a native record from its bytes.
    pub fn try_deserialize(raw: &[u8]) -> (r: Result<DovePriceFeed, DecodeError>)
        ensures
            r == decode_native_spec(raw@),
    {
        if raw.len() != NATIVE_RECORD_LEN {
            return Err(DecodeError::Malformed);
        }
        let price: i64 = read_le_i64(raw, NATIVE_PRICE_OFFSET);
        let byte: u8 = raw[NATIVE_EXPONENT_OFFSET];
        let expo: i8 = if byte >= 0x80 {
            (byte as i16 - 0x100) as i8
        } else {
            byte as i8
        };
        let timestamp: i64 = read_le_i64(raw, NATIVE_PUBLISH_TIME_OFFSET);
        Ok(DovePriceFeed { price, expo, timestamp })
    }
}

impl Price {
    /// The price, exponent and publish time, without the confidence.
    pub open spec fn decoded(&self) -> DecodedPrice {
        DecodedPrice {
            price: self.price as i128,
            exponent: self.expo,
            publish_time: self.publish_time,
        }
    }

    /// The price, exponent and publish time, without the confidence.
    pub fn decode(&self) -> (d: DecodedPrice)
        ensures
            d == self.decoded(),
    {
        DecodedPrice {
            price: self.price as i128,
            exponent: self.expo,
            publish_time: self.publish_time,
        }
    }

    /// This price and its confidence at `target_expo`, each rounded
    /// toward zero. Meant for `self.expo <= target_expo`.
    pub open spec fn scaled_to(&self, target_expo: i32) -> Price {
        Price {
            price: trunc_div(self.price as int, pow10((target_expo - self.expo) as nat)) as i64,
            conf: (self.conf as int / pow10((target_expo - self.expo) as nat)) as u64,
            expo: target_expo,
            publish_time: self.publish_time,
        }
    }
}

/// Reads the signed little-endian number in the eight bytes from `at`.
fn read_le_i64(raw: &[u8], at: usize) -> (v: i64)
    requires
        at + 8 <= raw@.len(),
    ensures
        v == le_i64_at(raw@, at as int),
{
    let unsigned: u64 = raw[at] as u64
        + (raw[at + 1] as u64) * 0x100
        + (raw[at + 2] as u64) * 0x1_0000
        + (raw[at + 3] as u64) * 0x100_0000
        + (raw[at + 4] as u64) * 0x1_0000_0000
        + (raw[at + 5] as u64) * 0x100_0000_0000
        + (raw[at + 6] as u64) * 0x1_0000_0000_0000
        + (raw[at + 7] as u64) * 0x100_0000_0000_0000;
    if unsigned >= 0x8000_0000_0000_0000 {
        (unsigned - 0x8000_0000_0000_0000) as i64 + i64::MIN
    } else {
        unsigned as i64
    }
}

/// Whether a price published at `publish_time` is older than `max_age`
/// seconds at `current_time`.
pub fn stale(publish_time: i64, max_age: u64, current_time: i64) -> (r: bool)
    ensures
        r == is_stale(publish_time as int, max_age as int, current_time as int),
{
    let deadline: i128 = publish_time as i128 + max_age as i128;
    deadline < current_time as i128
}

/// Decodes an oracle record into price, exponent and publish time.
pub fn decode(record: &OracleRecord) -> (r: Result<DecodedPrice, DecodeError>)
    ensures
        r == decode_spec(*record),
{
    match record {
        OracleRecord::Native(raw) => match DovePriceFeed::try_deserialize(raw.as_slice()) {
            Ok(feed) => Ok(feed.decode()),
            Err(e) => Err(e),
        },
        OracleRecord::ThirdParty(unpacked) => match unpacked {
            Some(feed) => Ok(feed.0.decode()),
            None => Err(DecodeError::Malformed),
        },
    }
}

/// Rescales a decoded price to `target_decimals` digits after the point
/// by dividing by ten, rounding toward zero, and in strict mode rejects
/// a price older than `max_age` seconds.
pub fn normalize(
    decoded: &DecodedPrice,
    current_time: i64,
    max_age: u8,
    target_decimals: u8,
    mode: FreshnessMode,
) -> (r: Result<NormalizedPrice, OracleError>)
    ensures
        r == normalize_spec(*decoded, current_time, max_age, target_decimals, mode),
{
    match mode {
        FreshnessMode::Strict => {
            if stale(decoded.publish_time, max_age as u64, current_time) {
                return Err(OracleError::Stale);
            }
        },
        FreshnessMode::Unchecked => {},
    }
    let wanted_exponent: i32 = -(target_decimals as i32);
    if decoded.exponent > wanted_exponent {
        return Err(OracleError::PrecisionUnavailable);
    }
    let steps: u32 = (wanted_exponent as i64 - decoded.exponent as i64) as u32;
    if decoded.price < 0 {
        let magnitude: u128 = if decoded.price == i128::MIN {
            0x8000_0000_0000_0000_0000_0000_0000_0000u128
        } else {
            (-decoded.price) as u128
        };
        let scaled: u128 = scale_down(magnitude, steps);
        if scaled == 0 {
            Ok(NormalizedPrice { magnitude: 0, publish_time: decoded.publish_time })
        } else {
            Err(OracleError::OutOfRange)
        }
    } else {
        let scaled: u128 = scale_down(decoded.price as u128, steps);
        if scaled > u64::MAX as u128 {
            Err(OracleError::OutOfRange)
        } else {
            Ok(NormalizedPrice { magnitude: scaled as u64, publish_time: decoded.publish_time })
        }
    }
}

/// Normalises the price of a native record and rejects it when it is
/// older than `age` seconds: the magnitude and the publish time.
pub fn parse_dove_price(
    doves_price_feed: &DovePriceFeed,
    decimals: u8,
    current_time: i64,
    age: u8,
) -> (r: Result<(u64, i64), OracleError>)
    ensures
        r == match normalize_spec(
            doves_price_feed.decoded(),
            current_time,
            age,
            decimals,
            FreshnessMode::Strict,
        ) {
            Ok(normalized) => Ok::<(u64, i64), OracleError>(
                (normalized.magnitude, normalized.publish_time),
            ),
            Err(e) => Err(e),
        },
{
    let decoded: DecodedPrice = doves_price_feed.decode();
    match normalize(&decoded, current_time, age, decimals, FreshnessMode::Strict) {
        Ok(normalized) => Ok((normalized.magnitude, normalized.publish_time)),
        Err(e) => Err(e),
    }
}

/// Normalises the price of a native record without looking at its age:
/// the magnitude and the publish time.
pub fn parse_dove_price_unchecked(doves_price_feed: &DovePriceFeed, decimals: u8) -> (r: Result<
    (u64, i64),
    OracleError,
>)
    ensures
        r == match normalize_spec(
            doves_price_feed.decoded(),
            0,
            0,
            decimals,
            FreshnessMode::Unchecked,
        ) {
            Ok(normalized) => Ok::<(u64, i64), OracleError>(
                (normalized.magnitude, normalized.publish_time),
            ),
            Err(e) => Err(e),
        },
{
    let decoded: DecodedPrice = doves_price_feed.decode();
    match normalize(&decoded, 0, 0, decimals, FreshnessMode::Unchecked) {
        Ok(normalized) => Ok((normalized.magnitude, normalized.publish_time)),
        Err(e) => Err(e),
    }
}

/// Calls `pyth_sdk::Price::scale_to_exponent`. For a target exponent that
/// is not below the price's own, that function divides price and
/// confidence by ten once per step of the exponent, each division rounding
/// toward zero, and returns them with the target exponent and the same
/// publish time.
#[verifier::external_body]
fn scale_to_exponent(price: &Price, target_expo: i32) -> (r: Option<Price>)
    requires
        0 <= target_expo - price.expo <= i32::MAX,
    ensures
        r == Some(price.scaled_to(target_expo)),
{
    let outside = pyth_sdk::Price {
        price: price.price,
        conf: price.conf,
        expo: price.expo,
        publish_time: price.publish_time,
    };
    match outside.scale_to_exponent(target_expo) {
        Some(p) => Some(
            Price { price: p.price, conf: p.conf, expo: p.expo, publish_time: p.publish_time },
        ),
        None => None,
    }
}

impl PriceFeed {
    /// The time at which the current price was published.
    pub fn get_timestamp(&self) -> (t: i64)
        ensures
            t == self.0.publish_time,
    {
        self.0.publish_time
    }

    /// What rescaling the current price to `decimals` digits yields.
    pub open spec fn price_normalized_unchecked_spec(&self, decimals: u8) -> Result<
        Price,
        OracleError,
    > {
        if self.0.expo > -decimals {
            Err(OracleError::PrecisionUnavailable)
        } else {
            Ok(self.0.scaled_to((-decimals) as i32))
        }
    }

    /// What rescaling the current price yields when its age is checked.
    pub open spec fn price_normalized_spec(
        &self,
        decimals: u8,
        current_time: i64,
        age: u64,
    ) -> Result<Price, OracleError> {
        if is_stale(self.0.publish_time as int, age as int, current_time as int) {
            Err(OracleError::Stale)
        } else {
            self.price_normalized_unchecked_spec(decimals)
        }
    }

    /// The current price at `decimals` digits after the point, unless it
    /// is older than `age` seconds at `current_time` or coarser than that.
    pub fn price_normalized(&self, decimals: u8, current_time: i64, age: u64) -> (r: Result<
        Price,
        OracleError,
    >)
        ensures
            r == self.price_normalized_spec(decimals, current_time, age),
    {
        if stale(self.0.publish_time, age, current_time) {
            return Err(OracleError::Stale);
        }
        self.price_normalized_unchecked(decimals)
    }

    /// The current price at `decimals` digits after the point, whatever
    /// its age, unless it is coarser than that.
    pub fn price_normalized_unchecked(&self, decimals: u8) -> (r: Result<Price, OracleError>)
        ensures
            r == self.price_normalized_unchecked_spec(decimals),
    {
        let wanted_exponent: i32 = -(decimals as i32);
        if self.0.expo > wanted_exponent {
            return Err(OracleError::PrecisionUnavailable);
        }
        let delta: i64 = wanted_exponent as i64 - self.0.expo as i64;
        if delta > i32::MAX as i64 {
            proof {
                lemma_pow10_u64_range(delta as nat);
                lemma_trunc_div_pow10_small(self.0.price as int, delta as nat);
                vstd::arithmetic::div_mod::lemma_basic_div(self.0.conf as int, pow10(delta as nat));
            }
            return Ok(
                Price {
                    price: 0,
                    conf: 0,
                    expo: wanted_exponent,
                    publish_time: self.0.publish_time,
                },
            );
        }
        match scale_to_exponent(&self.0, wanted_exponent) {
            Some(price) => Ok(price),
            None => Err(OracleError::PrecisionUnavailable),
        }
    }
}

/// The magnitude of a rescaled third-party price, which must not be
/// negative.
fn magnitude_of(price: &Price) -> (r: Result<(u64, i64), OracleError>)
    ensures
        price.price >= 0 ==> r == Ok::<(u64, i64), OracleError>(
            (price.price as u64, price.publish_time),
        ),
        price.price < 0 ==> r == Err::<(u64, i64), OracleError>(OracleError::OutOfRange),
{
    if price.price < 0 {
        Err(OracleError::OutOfRange)
    } else {
        Ok((price.price as u64, price.publish_time))
    }
}

/// Decodes an oracle record and normalises its price to `decimals`
/// digits, rejecting a price older than `max_age` seconds: the magnitude
/// and the publish time.
pub fn parse_price(record: &OracleRecord, decimals: u8, current_time: i64, max_age: u8) -> (r:
    Result<(u64, i64), Error>)
    ensures
        r == parse_price_spec(*record, decimals, current_time, max_age, FreshnessMode::Strict),
{
    match record {
        OracleRecord::Native(raw) => {
            let feed: DovePriceFeed = match DovePriceFeed::try_deserialize(raw.as_slice()) {
                Ok(feed) => feed,
                Err(e) => { return Err(Error::Decode(e)); },
            };
            match parse_dove_price(&feed, decimals, current_time, max_age) {
                Ok(parsed) => Ok(parsed),
                Err(e) => Err(Error::Oracle(e)),
            }
        },
        OracleRecord::ThirdParty(unpacked) => {
            let feed: &PriceFeed = match unpacked {
                Some(feed) => feed,
                None => { return Err(Error::Decode(DecodeError::Malformed)); },
            };
            proof {
                if feed.0.expo <= -decimals {
                    lemma_third_party_agrees(*feed, decimals);
                }
            }
            let price: Price = match feed.price_normalized(decimals, current_time, max_age as u64) {
                Ok(price) => price,
                Err(e) => { return Err(Error::Oracle(e)); },
            };
            match magnitude_of(&price) {
                Ok(parsed) => Ok(parsed),
                Err(e) => Err(Error::Oracle(e)),
            }
        },
    }
}

/// Decodes an oracle record and normalises its price to `decimals`
/// digits without looking at its age: the magnitude and the publish time.
pub fn parse_price_unchecked(record: &OracleRecord, decimals: u8) -> (r: Result<(u64, i64), Error>)
    ensures
        r == parse_price_spec(*record, decimals, 0, 0, FreshnessMode::Unchecked),
{
    match record {
        OracleRecord::Native(raw) => {
            let feed: DovePriceFeed = match DovePriceFeed::try_deserialize(raw.as_slice()) {
                Ok(feed) => feed,
                Err(e) => { return Err(Error::Decode(e)); },
            };
            match parse_dove_price_unchecked(&feed, decimals) {
                Ok(parsed) => Ok(parsed),
                Err(e) => Err(Error::Oracle(e)),
            }
        },
        OracleRecord::ThirdParty(unpacked) => {
            let feed: &PriceFeed = match unpacked {
                Some(feed) => feed,
                None => { return Err(Error::Decode(DecodeError::Malformed)); },
            };
            proof {
                if feed.0.expo <= -decimals {
                    lemma_third_party_agrees(*feed, decimals);
                }
            }
            let price: Price = match feed.price_normalized_unchecked(decimals) {
                Ok(price) => price,
                Err(e) => { return Err(Error::Oracle(e)); },
            };
            match magnitude_of(&price) {
                Ok(parsed) => Ok(parsed),
                Err(e) => Err(Error::Oracle(e)),
            }
        },
    }
}

/// The rescaled price of a third-party feed is the rescaled price of what
/// the feed decodes to, and it fits in 64 bits.
pub proof fn lemma_third_party_agrees(feed: PriceFeed, decimals: u8)
    requires
        feed.0.expo <= -decimals,
    ensures
        feed.0.scaled_to((-decimals) as i32).price == scaled_price(
            feed.0.price as int,
            feed.0.expo as int,
            decimals as int,
        ),
        feed.0.scaled_to((-decimals) as i32).publish_time == feed.0.publish_time,
        feed.0.scaled_to((-decimals) as i32).expo == -decimals,
{
    lemma_trunc_div_pow10_bounds(
        feed.0.price as int,
        digits_removed(feed.0.expo as int, decimals as int),
    );
}

/// Normalising at one precision and normalising the result again at a
/// coarser precision gives what normalising directly at the coarser
/// precision gives: precision is only ever removed, by rounding toward
/// zero.
pub proof fn lemma_normalize_twice(
    decoded: DecodedPrice,
    current_time: i64,
    max_age: u8,
    fine: u8,
    coarse: u8,
    mode: FreshnessMode,
)
    requires
        coarse <= fine,
        normalize_spec(decoded, current_time, max_age, fine, mode) is Ok,
    ensures
        ({
            let first = normalize_spec(decoded, current_time, max_age, fine, mode)->Ok_0;
            let again = DecodedPrice {
                price: first.magnitude as i128,
                exponent: (-fine) as i32,
                publish_time: first.publish_time,
            };
            normalize_spec(again, current_time, max_age, coarse, mode) == normalize_spec(
                decoded,
                current_time,
                max_age,
                coarse,
                mode,
            )
        }),
{
    let first_digits = digits_removed(decoded.exponent as int, fine as int);
    let more_digits = digits_removed(-fine, coarse as int);
    lemma_trunc_div_pow10_twice(decoded.price as int, first_digits, more_digits);
    lemma_trunc_div_pow10_bounds(
        scaled_price(decoded.price as int, decoded.exponent as int, fine as int),
        more_digits,
    );
}

/// The freshness bound is inclusive: a price whose publish time plus
/// maximum age equals the current time is fresh, and it is stale one
/// second later.
pub proof fn lemma_staleness_boundary(publish_time: int, max_age: int, current_time: int)
    ensures
        publish_time + max_age == current_time ==> !is_stale(publish_time, max_age, current_time),
        publish_time + max_age == current_time - 1 ==> is_stale(
            publish_time,
            max_age,
            current_time,
        ),
        publish_time + max_age > current_time ==> !is_stale(publish_time, max_age, current_time),
{
}

} // verus!
