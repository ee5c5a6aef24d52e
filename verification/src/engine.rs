//! The valuation engine: which reads a valuation needs, in which order, and
//! what their replies amount to.
//!
//! The engine never talks to a ledger. It hands out requests, and a caller
//! that owns the query clients answers them. The reads of one invocation
//! fall in three rounds: six independent reads, then the simulated
//! liquidation of the position, then the simulated swap of what the
//! liquidation yields in the pool's other asset. Each round is one method:
//! it takes the replies to what the round before asked for, and hands out
//! the next request together with what has been read so far.

use crate::amount::{amount_of_text, is_amount_text, parse_amount};
use crate::domain::Domain;
use crate::error::{QueryFailure, ValuationError};
use crate::valuation::{snapshot_of, value_vault, Holdings, ValuationSnapshot};
use vstd::prelude::*;

verus! {

/// The addresses and denominations a valuation reads from. Long-lived
/// configuration: the engine only ever copies from it.
#[derive(Clone, Debug)]
pub struct ValuationConfig {
    /// The vault contract, on the issuance domain.
    pub vault: String,
    /// The token contract of the unit-of-account asset, on the issuance
    /// domain.
    pub unit_token: String,
    /// The deposit account on the issuance domain.
    pub issuance_deposit: String,
    /// The inbound relay account on the intermediary domain.
    pub relay_account: String,
    /// The unit-of-account denomination on the intermediary domain.
    pub relay_denom: String,
    /// The account on the settlement domain that holds the pool shares.
    pub position_account: String,
    /// The deposit account on the settlement domain.
    pub settlement_deposit: String,
    /// The liquidity pool on the settlement domain.
    pub pool: String,
    /// The denomination of the pool's shares.
    pub lp_denom: String,
    /// The unit-of-account denomination on the settlement domain.
    pub unit_denom: String,
    /// The denomination of the pool's other asset.
    pub other_denom: String,
}

/// A view of the vault contract's state.
#[derive(Clone, Copy, Debug, PartialEq, Eq, Structural)]
pub enum VaultView {
    /// The shares the vault has issued.
    TotalSupply,
    /// The redemption rate the vault currently publishes.
    RedemptionRate,
    /// The vault's configuration, fee cap included.
    Config,
}

/// A read-only query for a domain query client.
#[derive(Clone, Debug, PartialEq, Eq)]
pub enum Request {
    /// A view call on a contract.
    ContractState { domain: Domain, address: String, view: VaultView },
    /// The balance an address holds of a native denomination.
    Balance { domain: Domain, address: String, denom: String },
    /// The balance a holder has with a token contract.
    TokenBalance { domain: Domain, token: String, holder: String },
}

/// The six reads that depend on nothing but the configuration. They may be
/// dispatched together.
#[derive(Clone, Debug, PartialEq, Eq)]
pub struct ReadRequests {
    pub total_supply: Request,
    pub published_rate: Request,
    pub position_shares: Request,
    pub issuance_deposit: Request,
    pub relay: Request,
    pub settlement_deposit: Request,
}

/// The replies to `ReadRequests`, field by field. The vault and the token
/// contract answer in decimal text; balances of native denominations come
/// as numbers.
#[derive(Debug)]
pub struct Readings {
    pub total_supply: Result<String, QueryFailure>,
    /// Read for comparison only: no amount is derived from it.
    pub published_rate: Result<String, QueryFailure>,
    pub position_shares: Result<u128, QueryFailure>,
    pub issuance_deposit: Result<String, QueryFailure>,
    pub relay: Result<u128, QueryFailure>,
    pub settlement_deposit: Result<u128, QueryFailure>,
}

/// Whether two replies in text say the same: both failed, or both were
/// answered with the same characters.
pub open spec fn same_text_reply(
    a: Result<String, QueryFailure>,
    b: Result<String, QueryFailure>,
) -> bool {
    match (a, b) {
        (Ok(x), Ok(y)) => x@ == y@,
        (Err(_), Err(_)) => true,
        _ => false,
    }
}

impl Readings {
    /// Whether any of the six reads failed.
    pub open spec fn any_failed(&self) -> bool {
        ||| self.total_supply is Err
        ||| self.published_rate is Err
        ||| self.position_shares is Err
        ||| self.issuance_deposit is Err
        ||| self.relay is Err
        ||| self.settlement_deposit is Err
    }

    /// Whether `other` holds the same replies, read by read.
    pub open spec fn same_replies(&self, other: Readings) -> bool {
        &&& same_text_reply(self.total_supply, other.total_supply)
        &&& same_text_reply(self.published_rate, other.published_rate)
        &&& self.position_shares == other.position_shares
        &&& same_text_reply(self.issuance_deposit, other.issuance_deposit)
        &&& self.relay == other.relay
        &&& self.settlement_deposit == other.settlement_deposit
    }
}

/// A request to simulate redeeming pool shares for the pool's two assets
/// at its current reserves.
#[derive(Clone, Debug, PartialEq, Eq)]
pub struct LiquidationRequest {
    pub pool: String,
    pub lp_amount: u128,
    pub unit_denom: String,
    pub other_denom: String,
}

/// What a simulated liquidation yields of each of the pool's assets.
#[derive(Clone, Copy, Debug, PartialEq, Eq, Structural)]
pub struct Liquidation {
    pub unit_amount: u128,
    pub other_amount: u128,
}

/// A request to simulate swapping an amount of one of the pool's assets
/// into the other at the pool's current pricing.
#[derive(Clone, Debug, PartialEq, Eq)]
pub struct SwapRequest {
    pub pool: String,
    pub offer_denom: String,
    pub offer_amount: u128,
    pub ask_denom: String,
}

/// What the first round has read, kept until the liquidation is answered.
#[derive(Clone, Debug)]
pub struct AwaitingLiquidation {
    pub total_supply: String,
    pub issuance_deposit: String,
    pub relay: u128,
    pub settlement_deposit: u128,
}

/// What the first two rounds have read, kept until the swap is answered.
#[derive(Clone, Debug)]
pub struct AwaitingSwap {
    pub total_supply: String,
    pub issuance_deposit: String,
    pub relay: u128,
    pub settlement_deposit: u128,
    pub position_unit: u128,
}

/// The valuation that a full set of replies amounts to.
///
/// Any failed read gives `QueryFailure`, whatever the other replies hold.
/// With all reads answered, a text that is no amount gives `ParseFailure`.
/// Otherwise the holdings are the three pending balances, the
/// unit-of-account part of the liquidation and the swap's output, the
/// shares are the vault's total supply, and the result is what
/// `value_vault` makes of them.
pub open spec fn valuation_of(
    readings: Readings,
    liquidation: Result<Liquidation, QueryFailure>,
    swap: Result<u128, QueryFailure>,
) -> Result<ValuationSnapshot, ValuationError> {
    if readings.any_failed() || liquidation is Err || swap is Err {
        Err(ValuationError::QueryFailure)
    } else if !is_amount_text(readings.issuance_deposit->Ok_0@) || !is_amount_text(
        readings.total_supply->Ok_0@,
    ) {
        Err(ValuationError::ParseFailure)
    } else {
        let holdings = Holdings {
            issuance_deposit: amount_of_text(readings.issuance_deposit->Ok_0@) as u128,
            relay: readings.relay->Ok_0,
            settlement_deposit: readings.settlement_deposit->Ok_0,
            position_unit: liquidation->Ok_0.unit_amount,
            position_swapped: swap->Ok_0,
        };
        if holdings.total() > u128::MAX {
            Err(ValuationError::AssetOverflow)
        } else {
            snapshot_of(
                amount_of_text(readings.total_supply->Ok_0@) as u128,
                holdings.total() as u128,
            )
        }
    }
}

/// The valuation engine of one vault.
#[derive(Clone, Debug)]
pub struct ValuationEngine {
    pub config: ValuationConfig,
}

impl ValuationEngine {
    /// An engine that reads from the places `config` names.
    pub fn new(config: ValuationConfig) -> (r: ValuationEngine)
        ensures
            r.config == config,
    {
        ValuationEngine { config }
    }

    /// The six independent reads, as the configuration determines them.
    pub open spec fn spec_read_requests(&self) -> ReadRequests {
        ReadRequests {
            total_supply: Request::ContractState {
                domain: Domain::Issuance,
                address: self.config.vault,
                view: VaultView::TotalSupply,
            },
            published_rate: Request::ContractState {
                domain: Domain::Issuance,
                address: self.config.vault,
                view: VaultView::RedemptionRate,
            },
            position_shares: Request::Balance {
                domain: Domain::Settlement,
                address: self.config.position_account,
                denom: self.config.lp_denom,
            },
            issuance_deposit: Request::TokenBalance {
                domain: Domain::Issuance,
                token: self.config.unit_token,
                holder: self.config.issuance_deposit,
            },
            relay: Request::Balance {
                domain: Domain::Intermediary,
                address: self.config.relay_account,
                denom: self.config.relay_denom,
            },
            settlement_deposit: Request::Balance {
                domain: Domain::Settlement,
                address: self.config.settlement_deposit,
                denom: self.config.unit_denom,
            },
        }
    }

    /// What follows the first round: nothing but the failure when a read
    /// failed, else the liquidation of exactly the pool shares that the
    /// position account was read to hold.
    pub open spec fn spec_after_reads(&self, readings: Readings) -> Result<
        (AwaitingLiquidation, LiquidationRequest),
        ValuationError,
    > {
        if readings.any_failed() {
            Err(ValuationError::QueryFailure)
        } else {
            Ok(
                (
                    AwaitingLiquidation {
                        total_supply: readings.total_supply->Ok_0,
                        issuance_deposit: readings.issuance_deposit->Ok_0,
                        relay: readings.relay->Ok_0,
                        settlement_deposit: readings.settlement_deposit->Ok_0,
                    },
                    LiquidationRequest {
                        pool: self.config.pool,
                        lp_amount: readings.position_shares->Ok_0,
                        unit_denom: self.config.unit_denom,
                        other_denom: self.config.other_denom,
                    },
                ),
            )
        }
    }

    /// What follows the liquidation: nothing but the failure when it
    /// failed, else the swap of exactly the other-asset amount it yielded,
    /// into the unit of account.
    pub open spec fn spec_after_liquidation(
        &self,
        pending: AwaitingLiquidation,
        reply: Result<Liquidation, QueryFailure>,
    ) -> Result<(AwaitingSwap, SwapRequest), ValuationError> {
        match reply {
            Err(_) => Err(ValuationError::QueryFailure),
            Ok(liquidation) => Ok(
                (
                    AwaitingSwap {
                        total_supply: pending.total_supply,
                        issuance_deposit: pending.issuance_deposit,
                        relay: pending.relay,
                        settlement_deposit: pending.settlement_deposit,
                        position_unit: liquidation.unit_amount,
                    },
                    SwapRequest {
                        pool: self.config.pool,
                        offer_denom: self.config.other_denom,
                        offer_amount: liquidation.other_amount,
                        ask_denom: self.config.unit_denom,
                    },
                ),
            ),
        }
    }

    /// What follows the swap: the failure when it failed, else the
    /// valuation of the vault from all that was read.
    pub open spec fn spec_after_swap(pending: AwaitingSwap, reply: Result<u128, QueryFailure>) -> Result<
        ValuationSnapshot,
        ValuationError,
    > {
        if reply is Err {
            Err(ValuationError::QueryFailure)
        } else if !is_amount_text(pending.issuance_deposit@) || !is_amount_text(
            pending.total_supply@,
        ) {
            Err(ValuationError::ParseFailure)
        } else {
            let holdings = Holdings {
                issuance_deposit: amount_of_text(pending.issuance_deposit@) as u128,
                relay: pending.relay,
                settlement_deposit: pending.settlement_deposit,
                position_unit: pending.position_unit,
                position_swapped: reply->Ok_0,
            };
            if holdings.total() > u128::MAX {
                Err(ValuationError::AssetOverflow)
            } else {
                snapshot_of(
                    amount_of_text(pending.total_supply@) as u128,
                    holdings.total() as u128,
                )
            }
        }
    }

    /// The three rounds in sequence, each fed the reply to what the round
    /// before asked for.
    pub open spec fn spec_run(
        &self,
        readings: Readings,
        liquidation: Result<Liquidation, QueryFailure>,
        swap: Result<u128, QueryFailure>,
    ) -> Result<ValuationSnapshot, ValuationError> {
        match self.spec_after_reads(readings) {
            Err(e) => Err(e),
            Ok((awaiting_liquidation, _)) => match self.spec_after_liquidation(
                awaiting_liquidation,
                liquidation,
            ) {
                Err(e) => Err(e),
                Ok((awaiting_swap, _)) => Self::spec_after_swap(awaiting_swap, swap),
            },
        }
    }

    /// The read of the vault's configuration, which the fee computation
    /// needs.
    pub fn fee_request(&self) -> (r: Request)
        ensures
            r == (Request::ContractState {
                domain: Domain::Issuance,
                address: self.config.vault,
                view: VaultView::Config,
            }),
    {
        Request::ContractState {
            domain: Domain::Issuance,
            address: self.config.vault.clone(),
            view: VaultView::Config,
        }
    }

    /// First round: the six reads that a valuation starts with.
    pub fn read_requests(&self) -> (r: ReadRequests)
        ensures
            r == self.spec_read_requests(),
    {
        ReadRequests {
            total_supply: Request::ContractState {
                domain: Domain::Issuance,
                address: self.config.vault.clone(),
                view: VaultView::TotalSupply,
            },
            published_rate: Request::ContractState {
                domain: Domain::Issuance,
                address: self.config.vault.clone(),
                view: VaultView::RedemptionRate,
            },
            position_shares: Request::Balance {
                domain: Domain::Settlement,
                address: self.config.position_account.clone(),
                denom: self.config.lp_denom.clone(),
            },
            issuance_deposit: Request::TokenBalance {
                domain: Domain::Issuance,
                token: self.config.unit_token.clone(),
                holder: self.config.issuance_deposit.clone(),
            },
            relay: Request::Balance {
                domain: Domain::Intermediary,
                address: self.config.relay_account.clone(),
                denom: self.config.relay_denom.clone(),
            },
            settlement_deposit: Request::Balance {
                domain: Domain::Settlement,
                address: self.config.settlement_deposit.clone(),
                denom: self.config.unit_denom.clone(),
            },
        }
    }

    /// Takes the replies of the first round. When all six reads were
    /// answered, asks for the liquidation of the position; when any failed,
    /// the valuation ends here and nothing further is asked.
    pub fn after_reads(&self, readings: Readings) -> (r: Result<
        (AwaitingLiquidation, LiquidationRequest),
        ValuationError,
    >)
        ensures
            r == self.spec_after_reads(readings),
            r is Err <==> readings.any_failed(),
    {
        let Readings {
            total_supply,
            published_rate,
            position_shares,
            issuance_deposit,
            relay,
            settlement_deposit,
        } = readings;
        let total_supply = match total_supply {
            Ok(text) => text,
            Err(_) => { return Err(ValuationError::QueryFailure); },
        };
        if published_rate.is_err() {
            return Err(ValuationError::QueryFailure);
        }
        let lp_amount = match position_shares {
            Ok(amount) => amount,
            Err(_) => { return Err(ValuationError::QueryFailure); },
        };
        let issuance_deposit = match issuance_deposit {
            Ok(text) => text,
            Err(_) => { return Err(ValuationError::QueryFailure); },
        };
        let relay = match relay {
            Ok(amount) => amount,
            Err(_) => { return Err(ValuationError::QueryFailure); },
        };
        let settlement_deposit = match settlement_deposit {
            Ok(amount) => amount,
            Err(_) => { return Err(ValuationError::QueryFailure); },
        };
        Ok(
            (
                AwaitingLiquidation { total_supply, issuance_deposit, relay, settlement_deposit },
                LiquidationRequest {
                    pool: self.config.pool.clone(),
                    lp_amount,
                    unit_denom: self.config.unit_denom.clone(),
                    other_denom: self.config.other_denom.clone(),
                },
            ),
        )
    }

    /// Takes the reply to the liquidation. When it was answered, asks for
    /// the swap of its other-asset amount into the unit of account; when it
    /// failed, the valuation ends here.
    pub fn after_liquidation(
        &self,
        pending: AwaitingLiquidation,
        reply: Result<Liquidation, QueryFailure>,
    ) -> (r: Result<(AwaitingSwap, SwapRequest), ValuationError>)
        ensures
            r == self.spec_after_liquidation(pending, reply),
            r is Err <==> reply is Err,
    {
        match reply {
            Err(_) => Err(ValuationError::QueryFailure),
            Ok(liquidation) => Ok(
                (
                    AwaitingSwap {
                        total_supply: pending.total_supply,
                        issuance_deposit: pending.issuance_deposit,
                        relay: pending.relay,
                        settlement_deposit: pending.settlement_deposit,
                        position_unit: liquidation.unit_amount,
                    },
                    SwapRequest {
                        pool: self.config.pool.clone(),
                        offer_denom: self.config.other_denom.clone(),
                        offer_amount: liquidation.other_amount,
                        ask_denom: self.config.unit_denom.clone(),
                    },
                ),
            ),
        }
    }

    /// Takes the reply to the swap and, when it was answered, values the
    /// vault. The texts read in the first round are parsed only now, after
    /// every read has been answered, and both before anything is summed.
    pub fn after_swap(pending: AwaitingSwap, reply: Result<u128, QueryFailure>) -> (r: Result<
        ValuationSnapshot,
        ValuationError,
    >)
        ensures
            r == Self::spec_after_swap(pending, reply),
    {
        let position_swapped = match reply {
            Ok(amount) => amount,
            Err(_) => { return Err(ValuationError::QueryFailure); },
        };
        let issuance_deposit = match parse_amount(pending.issuance_deposit.as_str()) {
            Ok(amount) => amount,
            Err(e) => { return Err(e); },
        };
        let total_shares = match parse_amount(pending.total_supply.as_str()) {
            Ok(amount) => amount,
            Err(e) => { return Err(e); },
        };
        let holdings = Holdings {
            issuance_deposit,
            relay: pending.relay,
            settlement_deposit: pending.settlement_deposit,
            position_unit: pending.position_unit,
            position_swapped,
        };
        value_vault(total_shares, &holdings)
    }

    /// The redemption rate from a full set of replies, for a caller that
    /// holds them all: the three rounds in sequence. Where a round fails,
    /// the replies to the later rounds are not looked at.
    pub fn calculate_redemption_rate(
        &self,
        readings: Readings,
        liquidation: Result<Liquidation, QueryFailure>,
        swap: Result<u128, QueryFailure>,
    ) -> (r: Result<ValuationSnapshot, ValuationError>)
        ensures
            r == valuation_of(readings, liquidation, swap),
            r matches Ok(snapshot) ==> snapshot.wf(),
            readings.any_failed() || liquidation is Err || swap is Err ==> r == Err::<
                ValuationSnapshot,
                ValuationError,
            >(ValuationError::QueryFailure),
    {
        let awaiting_liquidation = match self.after_reads(readings) {
            Ok((pending, _)) => pending,
            Err(e) => { return Err(e); },
        };
        let awaiting_swap = match self.after_liquidation(awaiting_liquidation, liquidation) {
            Ok((pending, _)) => pending,
            Err(e) => { return Err(e); },
        };
        Self::after_swap(awaiting_swap, swap)
    }
}

/// Running the three rounds in sequence gives the valuation that the
/// replies amount to.
pub proof fn lemma_rounds_give_valuation(
    engine: ValuationEngine,
    readings: Readings,
    liquidation: Result<Liquidation, QueryFailure>,
    swap: Result<u128, QueryFailure>,
)
    ensures
        engine.spec_run(readings, liquidation, swap) == valuation_of(readings, liquidation, swap),
{
}

/// A single failed read, in whichever round, leaves no valuation: the
/// result is `QueryFailure`, and what the other reads returned has no part
/// in it.
pub proof fn lemma_failed_read_aborts(
    engine: ValuationEngine,
    readings: Readings,
    liquidation: Result<Liquidation, QueryFailure>,
    swap: Result<u128, QueryFailure>,
)
    requires
        readings.any_failed() || liquidation is Err || swap is Err,
    ensures
        valuation_of(readings, liquidation, swap) == Err::<ValuationSnapshot, ValuationError>(
            ValuationError::QueryFailure,
        ),
        engine.spec_run(readings, liquidation, swap) == Err::<ValuationSnapshot, ValuationError>(
            ValuationError::QueryFailure,
        ),
{
}

/// With every read answered, a text that is no amount of at most 128 bits
/// gives `ParseFailure`, whatever the other replies add up to.
pub proof fn lemma_malformed_amount_is_parse_failure(
    readings: Readings,
    liquidation: Result<Liquidation, QueryFailure>,
    swap: Result<u128, QueryFailure>,
)
    requires
        !readings.any_failed(),
        liquidation is Ok,
        swap is Ok,
        !is_amount_text(readings.total_supply->Ok_0@) || !is_amount_text(
            readings.issuance_deposit->Ok_0@,
        ),
    ensures
        valuation_of(readings, liquidation, swap) == Err::<ValuationSnapshot, ValuationError>(
            ValuationError::ParseFailure,
        ),
{
}

/// A round is asked for only after the round before it was answered in
/// full: a failure in the first round leaves no liquidation request, and a
/// failed liquidation leaves no swap request.
pub proof fn lemma_no_request_after_failure(
    engine: ValuationEngine,
    readings: Readings,
    pending: AwaitingLiquidation,
    liquidation: Result<Liquidation, QueryFailure>,
)
    ensures
        readings.any_failed() ==> engine.spec_after_reads(readings) is Err,
        liquidation is Err ==> engine.spec_after_liquidation(pending, liquidation) is Err,
{
}

/// The valuation is a function of what the replies hold: two invocations
/// that are answered the same, read by read, end the same.
pub proof fn lemma_same_replies_same_valuation(
    a: Readings,
    b: Readings,
    liquidation: Result<Liquidation, QueryFailure>,
    swap: Result<u128, QueryFailure>,
)
    requires
        a.same_replies(b),
    ensures
        valuation_of(a, liquidation, swap) == valuation_of(b, liquidation, swap),
{
}

/// The rate that the vault publishes takes no part in the valuation: once
/// that read is answered, what it answered changes nothing.
pub proof fn lemma_published_rate_takes_no_part(
    readings: Readings,
    other_rate: String,
    liquidation: Result<Liquidation, QueryFailure>,
    swap: Result<u128, QueryFailure>,
)
    requires
        readings.published_rate is Ok,
    ensures
        valuation_of(
            (Readings { published_rate: Ok(other_rate), ..readings }),
            liquidation,
            swap,
        ) == valuation_of(readings, liquidation, swap),
{
}

/// Every valuation that comes out is consistent: its rate is the rate of
/// its own shares and assets.
pub proof fn lemma_valuation_is_consistent(
    readings: Readings,
    liquidation: Result<Liquidation, QueryFailure>,
    swap: Result<u128, QueryFailure>,
)
    ensures
        valuation_of(readings, liquidation, swap) matches Ok(snapshot) ==> snapshot.wf(),
{
}

} // verus!
