//! Parameters that go into requests to the payment API and the codes that come back from it.
//!
//! Each enumeration renders to the exact token that the remote system matches on. The rendering
//! is an explicit table, so the spelling of a variant is free of the wire format.

use vstd::prelude::*;

verus! {

/// The character of a decimal digit.
pub open spec fn digit_char(d: nat) -> char {
    if d == 0 {
        '0'
    } else if d == 1 {
        '1'
    } else if d == 2 {
        '2'
    } else if d == 3 {
        '3'
    } else if d == 4 {
        '4'
    } else if d == 5 {
        '5'
    } else if d == 6 {
        '6'
    } else if d == 7 {
        '7'
    } else if d == 8 {
        '8'
    } else {
        '9'
    }
}

/// The decimal digits of `n`, most significant first, without leading zeros.
pub open spec fn decimal(n: nat) -> Seq<char>
    decreases n,
{
    if n < 10 {
        seq![digit_char(n)]
    } else {
        decimal(n / 10) + seq![digit_char(n % 10)]
    }
}

fn digit_str(d: u8) -> (r: &'static str)
    requires
        d < 10,
    ensures
        r@ == seq![digit_char(d as nat)],
{
    let r = match d {
        0 => "0",
        1 => "1",
        2 => "2",
        3 => "3",
        4 => "4",
        5 => "5",
        6 => "6",
        7 => "7",
        8 => "8",
        _ => "9",
    };
    proof {
        reveal_strlit("0");
        reveal_strlit("1");
        reveal_strlit("2");
        reveal_strlit("3");
        reveal_strlit("4");
        reveal_strlit("5");
        reveal_strlit("6");
        reveal_strlit("7");
        reveal_strlit("8");
        reveal_strlit("9");
    }
    assert(r@ =~= seq![digit_char(d as nat)]);
    r
}

/// Renders `n` in decimal.
pub fn decimal_string(n: u8) -> (r: String)
    ensures
        r@ == decimal(n as nat),
{
    if n < 10 {
        String::from_str(digit_str(n))
    } else if n < 100 {
        let r = String::from_str(digit_str(n / 10)).concat(digit_str(n % 10));
        assert(decimal((n / 10) as nat) == seq![digit_char((n / 10) as nat)]);
        assert(r@ =~= decimal(n as nat));
        r
    } else {
        let r = String::from_str(digit_str(n / 100)).concat(digit_str((n / 10) % 10)).concat(
            digit_str(n % 10),
        );
        assert(decimal((n / 100) as nat) == seq![digit_char((n / 100) as nat)]);
        assert(decimal((n / 10) as nat) =~= decimal((n / 100) as nat) + seq![
            digit_char(((n / 10) % 10) as nat),
        ]);
        assert(r@ =~= decimal(n as nat));
        r
    }
}

/// The command that tells the remote system which operation a request performs.
#[derive(Debug, Clone, Copy, PartialEq, Eq, Structural)]
pub enum CommandIds {
    /// Reversal for an erroneous C2B transaction
    TransactionReversal,
    /// Used to send money from an employer to employees e.g. salaries
    SalaryPayment,
    /// Used to send money from business to customer e.g. refunds
    BusinessPayment,
    /// Used to send money when promotions take place e.g. raffle winners
    PromotionPayment,
    /// Used to check the balance in a paybill/buy goods account
    AccountBalance,
    /// Used to simulate a C2B transaction or to initiate one on behalf of the customer (STK Push)
    CustomerPayBillOnline,
    /// Used to query the details of a transaction
    TransactionStatusQuery,
    /// Similar to STK push, uses M-Pesa PIN as a service
    CheckIdentity,
    /// Sending funds from one paybill to another paybill
    BusinessPayBill,
    /// Sending funds from buy goods to another buy goods
    BusinessBuyGoods,
    /// Transfer of funds from utility to MMF account
    DisburseFundsToBusiness,
    /// Transferring funds from one paybill's MMF to another paybill's MMF account
    BusinessToBusinessTransfer,
    /// Transferring funds from a paybill's MMF to another paybill's utility account
    BusinessTransferFromMMFToUtility,
}

impl CommandIds {
    /// The wire token of each command.
    pub open spec fn wire(self) -> Seq<char> {
        match self {
            CommandIds::TransactionReversal => "TransactionReversal"@,
            CommandIds::SalaryPayment => "SalaryPayment"@,
            CommandIds::BusinessPayment => "BusinessPayment"@,
            CommandIds::PromotionPayment => "PromotionPayment"@,
            CommandIds::AccountBalance => "AccountBalance"@,
            CommandIds::CustomerPayBillOnline => "CustomerPayBillOnline"@,
            CommandIds::TransactionStatusQuery => "TransactionStatusQuery"@,
            CommandIds::CheckIdentity => "CheckIdentity"@,
            CommandIds::BusinessPayBill => "BusinessPayBill"@,
            CommandIds::BusinessBuyGoods => "BusinessBuyGoods"@,
            CommandIds::DisburseFundsToBusiness => "DisburseFundsToBusiness"@,
            CommandIds::BusinessToBusinessTransfer => "BusinessToBusinessTransfer"@,
            CommandIds::BusinessTransferFromMMFToUtility => "BusinessTransferFromMMFToUtility"@,
        }
    }

    /// Renders the command as its wire token.
    pub fn to_string(&self) -> (r: String)
        ensures
            r@ == self.wire(),
    {
        match self {
            CommandIds::TransactionReversal => String::from_str("TransactionReversal"),
            CommandIds::SalaryPayment => String::from_str("SalaryPayment"),
            CommandIds::BusinessPayment => String::from_str("BusinessPayment"),
            CommandIds::PromotionPayment => String::from_str("PromotionPayment"),
            CommandIds::AccountBalance => String::from_str("AccountBalance"),
            CommandIds::CustomerPayBillOnline => String::from_str("CustomerPayBillOnline"),
            CommandIds::TransactionStatusQuery => String::from_str("TransactionStatusQuery"),
            CommandIds::CheckIdentity => String::from_str("CheckIdentity"),
            CommandIds::BusinessPayBill => String::from_str("BusinessPayBill"),
            CommandIds::BusinessBuyGoods => String::from_str("BusinessBuyGoods"),
            CommandIds::DisburseFundsToBusiness => String::from_str("DisburseFundsToBusiness"),
            CommandIds::BusinessToBusinessTransfer => String::from_str(
                "BusinessToBusinessTransfer",
            ),
            CommandIds::BusinessTransferFromMMFToUtility => String::from_str(
                "BusinessTransferFromMMFToUtility",
            ),
        }
    }
}

/// The kind of party on either side of a transaction: a phone number (MSISDN), a till number
/// or a shortcode.
#[derive(Debug, Clone, Copy, PartialEq, Eq, Structural)]
pub enum Identifiers {
    MSISDN,
    TillNumber,
    ShortCode,
}

impl Identifiers {
    /// The numeric code of each identifier type.
    pub open spec fn spec_code(self) -> u8 {
        match self {
            Identifiers::MSISDN => 1,
            Identifiers::TillNumber => 2,
            Identifiers::ShortCode => 4,
        }
    }

    /// The numeric code of the identifier type.
    pub fn code(&self) -> (r: u8)
        ensures
            r == self.spec_code(),
    {
        match self {
            Identifiers::MSISDN => 1,
            Identifiers::TillNumber => 2,
            Identifiers::ShortCode => 4,
        }
    }

    /// Renders the identifier type as its code in decimal.
    pub fn to_string(&self) -> (r: String)
        ensures
            r@ == decimal(self.spec_code() as nat),
    {
        decimal_string(self.code())
    }
}

/// The result of a transaction as the API reports it.
#[derive(Debug, Clone, Copy, PartialEq, Eq, Structural)]
pub enum ResultCodes {
    Success,
    InsufficientFunds,
    LessThanMinimumTransactionValue,
    MoreThanMaximumTransactionValue,
    WouldExceedDailyTransferLimit,
    WouldExceedMinimumBalance,
    UnresolvedPrimaryParty,
    UnresolvedReceiverParty,
    WouldExceedMaximumBalance,
    DebitAccountInvalid,
    CreditAccountInvalid,
    UnresolvedDebitAccount,
    UnresolvedCreditAccount,
    DuplicateDetected,
    InternalFailure,
    UnresolvedInitiator,
    TrafficBlockingConditionInPlace,
}

impl ResultCodes {
    /// The numeric code of each result.
    pub open spec fn spec_code(self) -> u8 {
        match self {
            ResultCodes::Success => 0,
            ResultCodes::InsufficientFunds => 1,
            ResultCodes::LessThanMinimumTransactionValue => 2,
            ResultCodes::MoreThanMaximumTransactionValue => 3,
            ResultCodes::WouldExceedDailyTransferLimit => 4,
            ResultCodes::WouldExceedMinimumBalance => 5,
            ResultCodes::UnresolvedPrimaryParty => 6,
            ResultCodes::UnresolvedReceiverParty => 7,
            ResultCodes::WouldExceedMaximumBalance => 8,
            ResultCodes::DebitAccountInvalid => 11,
            ResultCodes::CreditAccountInvalid => 12,
            ResultCodes::UnresolvedDebitAccount => 13,
            ResultCodes::UnresolvedCreditAccount => 14,
            ResultCodes::DuplicateDetected => 15,
            ResultCodes::InternalFailure => 17,
            ResultCodes::UnresolvedInitiator => 20,
            ResultCodes::TrafficBlockingConditionInPlace => 26,
        }
    }

    /// The numeric code of the result.
    pub fn code(&self) -> (r: u8)
        ensures
            r == self.spec_code(),
    {
        match self {
            ResultCodes::Success => 0,
            ResultCodes::InsufficientFunds => 1,
            ResultCodes::LessThanMinimumTransactionValue => 2,
            ResultCodes::MoreThanMaximumTransactionValue => 3,
            ResultCodes::WouldExceedDailyTransferLimit => 4,
            ResultCodes::WouldExceedMinimumBalance => 5,
            ResultCodes::UnresolvedPrimaryParty => 6,
            ResultCodes::UnresolvedReceiverParty => 7,
            ResultCodes::WouldExceedMaximumBalance => 8,
            ResultCodes::DebitAccountInvalid => 11,
            ResultCodes::CreditAccountInvalid => 12,
            ResultCodes::UnresolvedDebitAccount => 13,
            ResultCodes::UnresolvedCreditAccount => 14,
            ResultCodes::DuplicateDetected => 15,
            ResultCodes::InternalFailure => 17,
            ResultCodes::UnresolvedInitiator => 20,
            ResultCodes::TrafficBlockingConditionInPlace => 26,
        }
    }

    /// Renders the result as its code in decimal.
    pub fn to_string(&self) -> (r: String)
        ensures
            r@ == decimal(self.spec_code() as nat),
    {
        decimal_string(self.code())
    }
}

/// The acknowledgement that a client's endpoint sends back for a result it received.
#[derive(Debug, Clone, Copy, PartialEq, Eq, Structural)]
pub enum ResponseCodes {
    SuccessC2B,
    SuccessNotC2B,
    RejectTranscation,
}

impl ResponseCodes {
    /// The wire token of each acknowledgement.
    pub open spec fn wire(self) -> Seq<char> {
        match self {
            ResponseCodes::SuccessC2B => "0"@,
            ResponseCodes::SuccessNotC2B => "00000000"@,
            ResponseCodes::RejectTranscation => "1"@,
        }
    }

    /// Renders the acknowledgement as its wire token.
    pub fn to_string(&self) -> (r: String)
        ensures
            r@ == self.wire(),
    {
        match self {
            ResponseCodes::SuccessC2B => String::from_str("0"),
            ResponseCodes::SuccessNotC2B => String::from_str("00000000"),
            ResponseCodes::RejectTranscation => String::from_str("1"),
        }
    }
}

/// The errors that the API reports with an HTTP status.
#[derive(Debug, Clone, Copy, PartialEq, Eq, Structural)]
pub enum MpesaRequestError {
    /// 400
    BadRequest,
    /// 401
    Unauthorized,
    /// 403
    Forbidden,
    /// 404
    NotFound,
    /// 405
    MethodNotAllowed,
    /// 406 - a format other than json was requested
    NotAcceptable,
    /// 429 - too many requests
    TooManyRequests,
    /// 500 - a problem on the server
    InternalServerError,
    /// 503 - offline for maintenance
    ServiceUnavailable,
}

impl MpesaRequestError {
    /// The HTTP status of each error.
    pub open spec fn spec_status(self) -> u16 {
        match self {
            MpesaRequestError::BadRequest => 400,
            MpesaRequestError::Unauthorized => 401,
            MpesaRequestError::Forbidden => 403,
            MpesaRequestError::NotFound => 404,
            MpesaRequestError::MethodNotAllowed => 405,
            MpesaRequestError::NotAcceptable => 406,
            MpesaRequestError::TooManyRequests => 429,
            MpesaRequestError::InternalServerError => 500,
            MpesaRequestError::ServiceUnavailable => 503,
        }
    }

    /// The message of each error.
    pub open spec fn message(self) -> Seq<char> {
        match self {
            MpesaRequestError::BadRequest => "Error 400: BadRequest"@,
            MpesaRequestError::Unauthorized => "Error 401: Unauthorized"@,
            MpesaRequestError::Forbidden => "Error 403: Forbidden"@,
            MpesaRequestError::NotFound => "Error 404: Not Found"@,
            MpesaRequestError::MethodNotAllowed => "Error 405: MethodNotAllowed "@,
            MpesaRequestError::NotAcceptable => "Error 406: NotAcceptable, You requested a format that isn’t json"@,
            MpesaRequestError::TooManyRequests => "Error 429: You’re requesting too many kittens! Slow down!"@,
            MpesaRequestError::InternalServerError => "Error 500: InternalServerError, We had a problem with our server. Try again later. "@,
            MpesaRequestError::ServiceUnavailable => "Error 503: ServiceUnavailable, We’re temporarily offline for maintenance. Please try again later"@,
        }
    }

    /// The HTTP status that the error comes with.
    pub fn status(&self) -> (r: u16)
        ensures
            r == self.spec_status(),
    {
        match self {
            MpesaRequestError::BadRequest => 400,
            MpesaRequestError::Unauthorized => 401,
            MpesaRequestError::Forbidden => 403,
            MpesaRequestError::NotFound => 404,
            MpesaRequestError::MethodNotAllowed => 405,
            MpesaRequestError::NotAcceptable => 406,
            MpesaRequestError::TooManyRequests => 429,
            MpesaRequestError::InternalServerError => 500,
            MpesaRequestError::ServiceUnavailable => 503,
        }
    }

    /// Renders the error as a message.
    pub fn to_string(&self) -> (r: String)
        ensures
            r@ == self.message(),
    {
        match self {
            MpesaRequestError::BadRequest => String::from_str("Error 400: BadRequest"),
            MpesaRequestError::Unauthorized => String::from_str("Error 401: Unauthorized"),
            MpesaRequestError::Forbidden => String::from_str("Error 403: Forbidden"),
            MpesaRequestError::NotFound => String::from_str("Error 404: Not Found"),
            MpesaRequestError::MethodNotAllowed => String::from_str("Error 405: MethodNotAllowed "),
            MpesaRequestError::NotAcceptable => String::from_str(
                "Error 406: NotAcceptable, You requested a format that isn’t json",
            ),
            MpesaRequestError::TooManyRequests => String::from_str(
                "Error 429: You’re requesting too many kittens! Slow down!",
            ),
            MpesaRequestError::InternalServerError => String::from_str(
                "Error 500: InternalServerError, We had a problem with our server. Try again later. ",
            ),
            MpesaRequestError::ServiceUnavailable => String::from_str(
                "Error 503: ServiceUnavailable, We’re temporarily offline for maintenance. Please try again later",
            ),
        }
    }
}

} // verus!
