//! Numeric error codes and their stable names.

use vstd::prelude::*;

verus! {

pub const ERROR_PLAYER_ALREADY_EXISTS: u32 = 1;

pub const ERROR_PLAYER_NOT_EXIST: u32 = 2;

pub const ERROR_INVALID_BET_AMOUNT: u32 = 3;

pub const ERROR_MARKET_NOT_ACTIVE: u32 = 4;

pub const ERROR_MARKET_NOT_RESOLVED: u32 = 5;

pub const ERROR_NO_WINNING_POSITION: u32 = 6;

pub const ERROR_ALREADY_CLAIMED: u32 = 7;

pub const ERROR_UNAUTHORIZED: u32 = 8;

pub const ERROR_INSUFFICIENT_BALANCE: u32 = 9;

pub const ERROR_MARKET_ALREADY_RESOLVED: u32 = 10;

pub const ERROR_INVALID_MARKET_TIME: u32 = 11;

pub const ERROR_INVALID_BET_TYPE: u32 = 12;

/// The name of an error code; every value outside the closed set of codes
/// is `"Unknown"`.
pub open spec fn error_name(e: u32) -> Seq<char> {
    if e == ERROR_INVALID_BET_AMOUNT {
        "InvalidBetAmount"@
    } else if e == ERROR_MARKET_NOT_ACTIVE {
        "MarketNotActive"@
    } else if e == ERROR_MARKET_NOT_RESOLVED {
        "MarketNotResolved"@
    } else if e == ERROR_NO_WINNING_POSITION {
        "NoWinningPosition"@
    } else if e == ERROR_ALREADY_CLAIMED {
        "AlreadyClaimed"@
    } else if e == ERROR_UNAUTHORIZED {
        "Unauthorized"@
    } else if e == ERROR_INSUFFICIENT_BALANCE {
        "InsufficientBalance"@
    } else if e == ERROR_MARKET_ALREADY_RESOLVED {
        "MarketAlreadyResolved"@
    } else if e == ERROR_INVALID_MARKET_TIME {
        "InvalidMarketTime"@
    } else if e == ERROR_INVALID_BET_TYPE {
        "InvalidBetType"@
    } else if e == ERROR_PLAYER_NOT_EXIST {
        "PlayerNotExist"@
    } else if e == ERROR_PLAYER_ALREADY_EXISTS {
        "PlayerAlreadyExists"@
    } else {
        "Unknown"@
    }
}

/// The name of error code `e`.
pub fn decode_error(e: u32) -> (name: &'static str)
    ensures
        name@ == error_name(e),
{
    match e {
        ERROR_INVALID_BET_AMOUNT => "InvalidBetAmount",
        ERROR_MARKET_NOT_ACTIVE => "MarketNotActive",
        ERROR_MARKET_NOT_RESOLVED => "MarketNotResolved",
        ERROR_NO_WINNING_POSITION => "NoWinningPosition",
        ERROR_ALREADY_CLAIMED => "AlreadyClaimed",
        ERROR_UNAUTHORIZED => "Unauthorized",
        ERROR_INSUFFICIENT_BALANCE => "InsufficientBalance",
        ERROR_MARKET_ALREADY_RESOLVED => "MarketAlreadyResolved",
        ERROR_INVALID_MARKET_TIME => "InvalidMarketTime",
        ERROR_INVALID_BET_TYPE => "InvalidBetType",
        ERROR_PLAYER_NOT_EXIST => "PlayerNotExist",
        ERROR_PLAYER_ALREADY_EXISTS => "PlayerAlreadyExists",
        _ => "Unknown",
    }
}

} // verus!
