//! OAuth2 authorization-code credential broker for the Schwab trading API:
//! authorization URL construction, callback capture and CSRF validation,
//! and the token lifetime model, together with the market and trader
//! record types that the API exchanges.

pub mod error;
pub mod token;
pub mod callback;
pub mod authorizer;
pub mod market;
pub mod option_chain;
pub mod user_preference;
