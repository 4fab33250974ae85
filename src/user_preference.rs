use vstd::prelude::*;

verus! {

/// Preferences of each of the trader's logins.
pub type UserPreferences = Vec<UserPreference>;

/// A trader's preferences: linked accounts, streamer endpoints and offers.
#[derive(Debug, Clone, PartialEq, Eq)]
pub struct UserPreference {
    pub accounts: Vec<UserPreferenceAccount>,
    pub streamer_info: Vec<StreamerInfo>,
    pub offers: Vec<Offer>,
}

impl Default for UserPreference {
    fn default() -> (r: UserPreference)
        ensures
            r.accounts@.len() == 0,
            r.streamer_info@.len() == 0,
            r.offers@.len() == 0,
    {
        UserPreference { accounts: Vec::new(), streamer_info: Vec::new(), offers: Vec::new() }
    }
}

/// How one linked account is shown.
#[derive(Debug, Clone, PartialEq, Eq)]
pub struct UserPreferenceAccount {
    pub account_number: String,
    pub primary_account: bool,
    pub type_field: String,
    pub nick_name: String,
    pub account_color: UserPreferenceAccountColor,
    pub display_acct_id: String,
    pub auto_position_effect: bool,
}

impl Default for UserPreferenceAccount {
    fn default() -> (r: UserPreferenceAccount)
        ensures
            r.account_number@.len() == 0,
            !r.primary_account,
            r.type_field@.len() == 0,
            r.nick_name@.len() == 0,
            r.account_color is Green,
            r.display_acct_id@.len() == 0,
            !r.auto_position_effect,
    {
        UserPreferenceAccount {
            account_number: String::new(),
            primary_account: false,
            type_field: String::new(),
            nick_name: String::new(),
            account_color: UserPreferenceAccountColor::Green,
            display_acct_id: String::new(),
            auto_position_effect: false,
        }
    }
}

/// Where and as whom to connect to the streaming service.
#[derive(Debug, Clone, PartialEq, Eq)]
pub struct StreamerInfo {
    pub streamer_socket_url: String,
    pub schwab_client_customer_id: String,
    pub schwab_client_correl_id: String,
    pub schwab_client_channel: String,
    pub schwab_client_function_id: String,
}

impl Default for StreamerInfo {
    fn default() -> (r: StreamerInfo)
        ensures
            r.streamer_socket_url@.len() == 0,
            r.schwab_client_customer_id@.len() == 0,
            r.schwab_client_correl_id@.len() == 0,
            r.schwab_client_channel@.len() == 0,
            r.schwab_client_function_id@.len() == 0,
    {
        StreamerInfo {
            streamer_socket_url: String::new(),
            schwab_client_customer_id: String::new(),
            schwab_client_correl_id: String::new(),
            schwab_client_channel: String::new(),
            schwab_client_function_id: String::new(),
        }
    }
}

/// Market-data permissions offered to the trader.
#[derive(Debug, Clone, PartialEq, Eq)]
pub struct Offer {
    pub level_2_permissions: bool,
    pub mkt_data_permission: Option<String>,
}

impl Default for Offer {
    fn default() -> (r: Offer)
        ensures
            !r.level_2_permissions,
            r.mkt_data_permission is None,
    {
        Offer { level_2_permissions: false, mkt_data_permission: None }
    }
}

/// Colour an account is shown in; any colour without a name of its own is
/// kept as text.
#[derive(Debug, Clone, PartialEq, Eq)]
pub enum UserPreferenceAccountColor {
    Green,
    Blue,
    Other(String),
}

impl Default for UserPreferenceAccountColor {
    fn default() -> (r: UserPreferenceAccountColor)
        ensures
            r is Green,
    {
        UserPreferenceAccountColor::Green
    }
}

} // verus!
