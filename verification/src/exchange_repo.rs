//! The rate converter: turns the exchange-rate service's answer for a
//! currency pair into the converted amount or a normalized error. Every
//! conversion is a live upstream request — rates are time-varying, so
//! nothing here is cached.

use crate::error::AppError;
use crate::error::ErrorKind;
use crate::models::ExchangeResult;
use crate::text::dec_str;
use crate::text::u16_to_dec;
use vstd::prelude::*;
use vstd::string::StringExecFns;

verus! {

/// The request path for a quote, relative to the service root and API key:
/// `pair/{from}/{to}/{amount}`.
pub fn rate_request_path(from_code: &str, to_code: &str, amount: &str) -> (p: String)
    ensures
        p@ == "pair/"@ + from_code@ + "/"@ + to_code@ + "/"@ + amount@,
{
    let mut p = "pair/".to_owned();
    p.append(from_code);
    p.append("/");
    p.append(to_code);
    p.append("/");
    p.append(amount);
    p
}

/// What happened when the rate request was issued; the transport layer
/// reports exactly one of these.
#[derive(Debug, PartialEq)]
pub enum RateEvent {
    /// The connection failed before a response arrived.
    TransportError,
    /// The service responded with this non-success status code.
    BadStatus { status: u16 },
    /// The response body could not be read.
    BodyReadError,
    /// The body was not decodable as an exchange quote.
    DecodeError,
    /// The decoded quote.
    Quote { quote: ExchangeResult },
}

/// Applies the response policy to what came back for a rate request: a
/// decoded quote yields its `conversion_result` verbatim; every other
/// event is a normalized error, a non-success status embedding the status
/// code in the message.
pub fn convert_amount(event: RateEvent) -> (r: Result<String, AppError>)
    ensures
        match event {
            RateEvent::TransportError => r matches Err(e) && e.kind == ErrorKind::UpstreamTransport
                && e.details@ == "http response error"@,
            RateEvent::BadStatus { status } => r matches Err(e) && e.kind
                == ErrorKind::UpstreamStatus && e.details@ == "Exchangerate-api returned "@
                + dec_str(status as nat) + " http code"@,
            RateEvent::BodyReadError => r matches Err(e) && e.kind == ErrorKind::UpstreamFormat
                && e.details@ == "reading buffer error"@,
            RateEvent::DecodeError => r matches Err(e) && e.kind == ErrorKind::UpstreamFormat
                && e.details@ == "json deserialization error"@,
            RateEvent::Quote { quote } => r matches Ok(a) && a@ == quote.conversion_result@,
        },
{
    match event {
        RateEvent::TransportError => Err(
            AppError::new(ErrorKind::UpstreamTransport, "http response error"),
        ),
        RateEvent::BadStatus { status } => {
            let mut m = "Exchangerate-api returned ".to_owned();
            let digits = u16_to_dec(status);
            m.append(digits.as_str());
            m.append(" http code");
            Err(AppError::new(ErrorKind::UpstreamStatus, m.as_str()))
        },
        RateEvent::BodyReadError => Err(
            AppError::new(ErrorKind::UpstreamFormat, "reading buffer error"),
        ),
        RateEvent::DecodeError => Err(
            AppError::new(ErrorKind::UpstreamFormat, "json deserialization error"),
        ),
        RateEvent::Quote { quote } => Ok(quote.conversion_result),
    }
}

} // verus!
