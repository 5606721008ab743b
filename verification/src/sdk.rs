//! The order-entry side as the streaming client needs it: the login that
//! precedes everything, the realtime token, and the checks made on a request
//! before it is handed to the service.

use vstd::prelude::*;
use vstd::string::StringExecFns;
use crate::error::{outcome_view, text_answer, Error, ErrorView};
use crate::market_data::websocket::auth::WebSocketConfigView;
use crate::market_data::websocket::event::EventHandler;
use crate::market_data::websocket::session::SessionView;
use crate::market_data::{MarketData, Mode};
use crate::types::LoginCredentials;

verus! {

/// The realtime token that a logged-in session exchanges its login for.
pub const REALTIME_TOKEN: &'static str = "placeholder_realtime_token";

/// The status reported for every order.
pub const ORDER_STATUS: &'static str = "FILLED";

/// The character of the decimal digit `d`.
pub open spec fn digit(d: int) -> char {
    if d == 0 {
        '0'
    } else if d == 1 {
        '1'
    } else if d == 2 {
        '2'
    } else if d == 3 {
        '3'
    } else if d == 4 {
        '4'
    } else if d == 5 {
        '5'
    } else if d == 6 {
        '6'
    } else if d == 7 {
        '7'
    } else if d == 8 {
        '8'
    } else {
        '9'
    }
}

/// The decimal digits of `n`, without leading zeros.
pub open spec fn digits(n: nat) -> Seq<char>
    decreases n,
{
    if n < 10 {
        seq![digit(n as int)]
    } else {
        digits(n / 10).push(digit((n % 10) as int))
    }
}

/// `n` in decimal, with a minus sign in front if it is negative.
pub open spec fn decimal(n: int) -> Seq<char> {
    if n < 0 {
        seq!['-'] + digits((-n) as nat)
    } else {
        digits(n as nat)
    }
}

/// The reference of a request of the kind `kind` made at the time
/// `timestamp`: the kind, an underscore, the time in decimal.
pub open spec fn reference_text(kind: Seq<char>, timestamp: int) -> Seq<char> {
    kind + "_"@ + decimal(timestamp)
}

/// The text of one decimal digit.
fn digit_text(d: u64) -> (text: &'static str)
    requires
        d < 10,
    ensures
        text@ == seq![digit(d as int)],
{
    proof {
        reveal_strlit("0");
        reveal_strlit("1");
        reveal_strlit("2");
        reveal_strlit("3");
        reveal_strlit("4");
        reveal_strlit("5");
        reveal_strlit("6");
        reveal_strlit("7");
        reveal_strlit("8");
        reveal_strlit("9");
    }
    let text = if d == 0 {
        "0"
    } else if d == 1 {
        "1"
    } else if d == 2 {
        "2"
    } else if d == 3 {
        "3"
    } else if d == 4 {
        "4"
    } else if d == 5 {
        "5"
    } else if d == 6 {
        "6"
    } else if d == 7 {
        "7"
    } else if d == 8 {
        "8"
    } else {
        "9"
    };
    assert(text@ =~= seq![digit(d as int)]);
    text
}

/// The decimal digits of `n`, without leading zeros.
fn digits_text(n: u64) -> (text: String)
    ensures
        text@ == digits(n as nat),
    decreases n,
{
    if n < 10 {
        String::from_str(digit_text(n))
    } else {
        let text = digits_text(n / 10).concat(digit_text(n % 10));
        assert(text@ =~= digits(n as nat));
        text
    }
}

/// `n` in decimal, with a minus sign in front if it is negative.
pub fn decimal_text(n: i64) -> (text: String)
    ensures
        text@ == decimal(n as int),
{
    if n < 0 {
        let magnitude: u64 = (-(n + 1)) as u64 + 1;
        proof {
            reveal_strlit("-");
        }
        let text = String::from_str("-").concat(digits_text(magnitude).as_str());
        assert(text@ =~= decimal(n as int));
        text
    } else {
        digits_text(n as u64)
    }
}

/// The reference of a request of the kind `kind` made at the time
/// `timestamp`.
pub fn order_reference(kind: &str, timestamp: i64) -> (reference: String)
    ensures
        reference@ == reference_text(kind@, timestamp as int),
{
    String::from_str(kind).concat("_").concat(decimal_text(timestamp).as_str())
}

/// The reason for which a login with `credentials` is refused, if it is: the
/// first of personal ID, password and certificate path that is empty.
pub open spec fn login_refusal(credentials: LoginCredentials) -> Option<ErrorView> {
    if credentials.personal_id@.len() == 0 {
        Some(ErrorView::General("Personal ID cannot be empty"@))
    } else if credentials.password@.len() == 0 {
        Some(ErrorView::General("Password cannot be empty"@))
    } else if credentials.cert_path@.len() == 0 {
        Some(ErrorView::General("Certificate path cannot be empty"@))
    } else {
        None
    }
}

/// Accepts `credentials` when personal ID, password and certificate path
/// are all given.
pub fn check_login(credentials: &LoginCredentials) -> (outcome: Result<(), Error>)
    ensures
        outcome_view(outcome) == match login_refusal(*credentials) {
            Some(error) => Err(error),
            None => Ok(()),
        },
{
    if credentials.personal_id.as_str().is_empty() {
        return Err(Error::general("Personal ID cannot be empty"));
    }
    if credentials.password.as_str().is_empty() {
        return Err(Error::general("Password cannot be empty"));
    }
    if credentials.cert_path.as_str().is_empty() {
        return Err(Error::general("Certificate path cannot be empty"));
    }
    Ok(())
}

/// What a request that needs a login answers without one: it names the
/// `purpose` that the login is needed for.
pub open spec fn login_required(purpose: Seq<char>) -> ErrorView {
    ErrorView::General("Must login first before "@ + purpose)
}

/// Accepts a request made for `purpose` when the session is logged in.
pub fn require_login(is_logged_in: bool, purpose: &str) -> (outcome: Result<(), Error>)
    ensures
        outcome_view(outcome) == if is_logged_in {
            Ok::<(), ErrorView>(())
        } else {
            Err(login_required(purpose@))
        },
{
    if is_logged_in {
        Ok(())
    } else {
        Err(Error::General(String::from_str("Must login first before ").concat(purpose)))
    }
}

/// The reason for which an order for `quantity` of `symbol` is refused, if
/// it is.
pub open spec fn order_refusal(symbol: Seq<char>, quantity: u32) -> Option<ErrorView> {
    if symbol.len() == 0 {
        Some(ErrorView::General("Symbol cannot be empty"@))
    } else if quantity == 0 {
        Some(ErrorView::General("Quantity must be greater than 0"@))
    } else {
        None
    }
}

/// Accepts an order for `quantity` of `symbol` when the symbol is given and
/// the quantity is positive.
pub fn check_order(symbol: &str, quantity: u32) -> (outcome: Result<(), Error>)
    ensures
        outcome_view(outcome) == match order_refusal(symbol@, quantity) {
            Some(error) => Err(error),
            None => Ok(()),
        },
{
    if symbol.is_empty() {
        return Err(Error::general("Symbol cannot be empty"));
    }
    if quantity == 0 {
        return Err(Error::general("Quantity must be greater than 0"));
    }
    Ok(())
}

/// The reason for which a conditional order is refused, if it is: the
/// symbol of its order, then the symbol of its condition, must be given.
pub open spec fn condition_order_refusal(
    order_symbol: Seq<char>,
    condition_symbol: Seq<char>,
) -> Option<ErrorView> {
    if order_symbol.len() == 0 {
        Some(ErrorView::General("Symbol cannot be empty"@))
    } else if condition_symbol.len() == 0 {
        Some(ErrorView::General("Condition symbol cannot be empty"@))
    } else {
        None
    }
}

/// Accepts a conditional order when the symbol of its order and the symbol
/// of its condition are given.
pub fn check_condition_order(order_symbol: &str, condition_symbol: &str) -> (outcome: Result<
    (),
    Error,
>)
    ensures
        outcome_view(outcome) == match condition_order_refusal(order_symbol@, condition_symbol@) {
            Some(error) => Err(error),
            None => Ok(()),
        },
{
    if order_symbol.is_empty() {
        return Err(Error::general("Symbol cannot be empty"));
    }
    if condition_symbol.is_empty() {
        return Err(Error::general("Condition symbol cannot be empty"));
    }
    Ok(())
}

/// The answer to a request to place an order: without a login the request
/// is refused for want of one, whatever it asks for; an order that is not
/// acceptable is refused for the reason `refusal`; any other gets the
/// reference of the kind `kind` for the time `timestamp`.
pub open spec fn placing(
    logged_in: bool,
    purpose: Seq<char>,
    refusal: Option<ErrorView>,
    kind: Seq<char>,
    timestamp: int,
) -> Result<Seq<char>, ErrorView> {
    if !logged_in {
        Err(login_required(purpose))
    } else {
        match refusal {
            Some(error) => Err(error),
            None => Ok(reference_text(kind, timestamp)),
        }
    }
}

/// Accepts the reference `order_id` of an order when it is not empty.
pub fn check_order_id(order_id: &str) -> (outcome: Result<(), Error>)
    ensures
        outcome_view(outcome) == if order_id@.len() == 0 {
            Err::<(), ErrorView>(ErrorView::General("Order ID cannot be empty"@))
        } else {
            Ok(())
        },
{
    if order_id.is_empty() {
        Err(Error::general("Order ID cannot be empty"))
    } else {
        Ok(())
    }
}

/// Main Fubon SDK implementation
///
/// `A` is the record of an account as the service reports it at login.
pub struct FubonSDK<A, H: EventHandler> {
    credentials: Option<LoginCredentials>,
    accounts: Vec<A>,
    market_data: Option<MarketData<H>>,
    is_logged_in: bool,
}

impl<A, H: EventHandler> FubonSDK<A, H> {
    /// Whether a login has succeeded.
    pub closed spec fn logged_in(&self) -> bool {
        self.is_logged_in
    }

    /// The credentials of the login that succeeded last.
    pub closed spec fn credentials(&self) -> Option<LoginCredentials> {
        self.credentials
    }

    /// The accounts reported by the login that succeeded last.
    pub closed spec fn account_list(&self) -> Seq<A> {
        self.accounts@
    }

    /// The market data clients, once they have been made.
    pub closed spec fn realtime(&self) -> Option<MarketData<H>> {
        self.market_data
    }

    /// Create a new SDK instance
    pub fn new() -> (sdk: Self)
        ensures
            !sdk.logged_in(),
            sdk.credentials() is None,
            sdk.account_list() == Seq::<A>::empty(),
            sdk.realtime() is None,
    {
        Self { credentials: None, accounts: Vec::new(), market_data: None, is_logged_in: false }
    }

    /// Get available accounts (must login first)
    pub fn accounts(&self) -> (accounts: &[A])
        ensures
            accounts@ == self.account_list(),
    {
        self.accounts.as_slice()
    }

    /// Check if logged in
    pub fn is_logged_in(&self) -> (logged_in: bool)
        ensures
            logged_in == self.logged_in(),
    {
        self.is_logged_in
    }

    /// Login and keep the account list
    ///
    /// `accounts` are the accounts that the service reports for
    /// `credentials`. A login whose credentials are incomplete is refused
    /// and changes nothing.
    pub fn login(&mut self, credentials: LoginCredentials, accounts: Vec<A>) -> (outcome: Result<
        (),
        Error,
    >)
        ensures
            outcome_view(outcome) == match login_refusal(credentials) {
                Some(error) => Err(error),
                None => Ok(()),
            },
            outcome is Err ==> *final(self) == *old(self),
            outcome is Ok ==> {
                &&& final(self).logged_in()
                &&& final(self).credentials() == Some(credentials)
                &&& final(self).account_list() == accounts@
                &&& final(self).realtime() == old(self).realtime()
            },
    {
        match check_login(&credentials) {
            Ok(()) => {
                self.credentials = Some(credentials);
                self.accounts = accounts;
                self.is_logged_in = true;
                Ok(())
            },
            Err(error) => Err(error),
        }
    }

    /// Exchange realtime token for market data access
    pub fn exchange_realtime_token(&self) -> (token: Result<String, Error>)
        ensures
            text_answer(token) == if self.logged_in() {
                Ok::<Seq<char>, ErrorView>(REALTIME_TOKEN@)
            } else {
                Err(login_required("accessing realtime data"@))
            },
    {
        match require_login(self.is_logged_in, "accessing realtime data") {
            Ok(()) => Ok(String::from_str(REALTIME_TOKEN)),
            Err(error) => Err(error),
        }
    }

    /// Initialize realtime market data
    ///
    /// Makes the market data clients for the realtime token. Without a
    /// login nothing is made.
    pub fn init_realtime(&mut self, mode: Mode) -> (outcome: Result<(), Error>)
        ensures
            outcome is Ok <==> old(self).logged_in(),
            outcome matches Err(error) ==> error@ == login_required("accessing realtime data"@)
                && *final(self) == *old(self),
            outcome is Ok ==> {
                &&& final(self).realtime() matches Some(data)
                &&& data.websocket_client@ == SessionView::<H>::fresh(
                    mode,
                    WebSocketConfigView::initial().with_sdk_token(REALTIME_TOKEN@),
                )
                &&& data.rest_client.sdk_token() == REALTIME_TOKEN@
                &&& final(self).logged_in()
                &&& final(self).credentials() == old(self).credentials()
                &&& final(self).account_list() == old(self).account_list()
            },
    {
        let sdk_token = match self.exchange_realtime_token() {
            Ok(token) => token,
            Err(error) => {
                return Err(error);
            },
        };
        match MarketData::new(sdk_token, mode) {
            Ok(data) => {
                self.market_data = Some(data);
                Ok(())
            },
            Err(error) => Err(error),
        }
    }

    /// Get market data instance
    pub fn market_data(&self) -> (data: Option<&MarketData<H>>)
        ensures
            data is Some <==> self.realtime() is Some,
            data matches Some(found) ==> *found == self.realtime()->0,
    {
        self.market_data.as_ref()
    }

    /// Get mutable market data instance
    pub fn market_data_mut(&mut self) -> (data: Option<&mut MarketData<H>>)
        ensures
            data is Some <==> old(self).realtime() is Some,
            data matches Some(found) ==> *found == old(self).realtime()->0
                && final(self).realtime() == Some(*final(found)),
            data is None ==> final(self).realtime() is None,
            final(self).logged_in() == old(self).logged_in(),
            final(self).credentials() == old(self).credentials(),
            final(self).account_list() == old(self).account_list(),
    {
        self.market_data.as_mut()
    }

    /// Place an order for `quantity` of `symbol`, at the time `timestamp`
    /// in seconds since the Unix epoch
    pub fn place_order(&self, symbol: &str, quantity: u32, timestamp: i64) -> (reference: Result<
        String,
        Error,
    >)
        ensures
            text_answer(reference) == placing(
                self.logged_in(),
                "placing orders"@,
                order_refusal(symbol@, quantity),
                "order"@,
                timestamp as int,
            ),
    {
        self.place("placing orders", check_order(symbol, quantity), "order", timestamp)
    }

    /// Place a conditional order: an order for `order_symbol` under a
    /// condition on `condition_symbol`, at the time `timestamp` in seconds
    /// since the Unix epoch
    pub fn place_condition_order(
        &self,
        order_symbol: &str,
        condition_symbol: &str,
        timestamp: i64,
    ) -> (reference: Result<String, Error>)
        ensures
            text_answer(reference) == placing(
                self.logged_in(),
                "placing condition orders"@,
                condition_order_refusal(order_symbol@, condition_symbol@),
                "condition_order"@,
                timestamp as int,
            ),
    {
        self.place(
            "placing condition orders",
            check_condition_order(order_symbol, condition_symbol),
            "condition_order",
            timestamp,
        )
    }

    /// Place a future/option order for `quantity` of `symbol`, at the time
    /// `timestamp` in seconds since the Unix epoch
    pub fn place_futopt_order(&self, symbol: &str, quantity: u32, timestamp: i64) -> (reference:
        Result<String, Error>)
        ensures
            text_answer(reference) == placing(
                self.logged_in(),
                "placing futures/options orders"@,
                order_refusal(symbol@, quantity),
                "futopt_order"@,
                timestamp as int,
            ),
    {
        self.place(
            "placing futures/options orders",
            check_order(symbol, quantity),
            "futopt_order",
            timestamp,
        )
    }

    /// Place a future/option conditional order: an order for `order_symbol`
    /// under a condition on `condition_symbol`, at the time `timestamp` in
    /// seconds since the Unix epoch
    pub fn place_futopt_condition_order(
        &self,
        order_symbol: &str,
        condition_symbol: &str,
        timestamp: i64,
    ) -> (reference: Result<String, Error>)
        ensures
            text_answer(reference) == placing(
                self.logged_in(),
                "placing futures/options condition orders"@,
                condition_order_refusal(order_symbol@, condition_symbol@),
                "futopt_condition_order"@,
                timestamp as int,
            ),
    {
        self.place(
            "placing futures/options condition orders",
            check_condition_order(order_symbol, condition_symbol),
            "futopt_condition_order",
            timestamp,
        )
    }

    /// Answers a request to place an order made for `purpose` at the time
    /// `timestamp`, of which `checked` says whether the order is
    /// acceptable: a request that passes gets the reference of the kind
    /// `kind` for that time.
    fn place(&self, purpose: &str, checked: Result<(), Error>, kind: &str, timestamp: i64) -> (reference:
        Result<String, Error>)
        ensures
            text_answer(reference) == placing(
                self.logged_in(),
                purpose@,
                match checked {
                    Ok(()) => None,
                    Err(refusal) => Some(refusal@),
                },
                kind@,
                timestamp as int,
            ),
    {
        match require_login(self.is_logged_in, purpose) {
            Ok(()) => match checked {
                Ok(()) => Ok(order_reference(kind, timestamp)),
                Err(error) => Err(error),
            },
            Err(error) => Err(error),
        }
    }

    /// Cancel an order
    pub fn cancel_order(&self, order_id: &str) -> (outcome: Result<(), Error>)
        ensures
            outcome_view(outcome) == if !self.logged_in() {
                Err::<(), ErrorView>(login_required("canceling orders"@))
            } else if order_id@.len() == 0 {
                Err(ErrorView::General("Order ID cannot be empty"@))
            } else {
                Ok(())
            },
    {
        match require_login(self.is_logged_in, "canceling orders") {
            Ok(()) => check_order_id(order_id),
            Err(error) => Err(error),
        }
    }

    /// Get order status
    pub fn get_order_status(&self, order_id: &str) -> (status: Result<String, Error>)
        ensures
            text_answer(status) == if !self.logged_in() {
                Err::<Seq<char>, ErrorView>(login_required("checking order status"@))
            } else if order_id@.len() == 0 {
                Err(ErrorView::General("Order ID cannot be empty"@))
            } else {
                Ok(ORDER_STATUS@)
            },
    {
        match require_login(self.is_logged_in, "checking order status") {
            Ok(()) => match check_order_id(order_id) {
                Ok(()) => Ok(String::from_str(ORDER_STATUS)),
                Err(error) => Err(error),
            },
            Err(error) => Err(error),
        }
    }

    /// Get positions
    pub fn get_positions(&self) -> (positions: Result<Vec<String>, Error>)
        ensures
            !self.logged_in() ==> (positions matches Err(error) && error@ == login_required(
                "checking positions"@,
            )),
            self.logged_in() ==> (positions matches Ok(symbols) && symbols.deep_view() == seq![
                "AAPL"@,
                "TSLA"@,
            ]),
    {
        match require_login(self.is_logged_in, "checking positions") {
            Ok(()) => {
                let mut symbols: Vec<String> = Vec::new();
                symbols.push(String::from_str("AAPL"));
                symbols.push(String::from_str("TSLA"));
                assert(symbols.deep_view() =~= seq!["AAPL"@, "TSLA"@]);
                Ok(symbols)
            },
            Err(error) => Err(error),
        }
    }
}

impl<A, H: EventHandler> Default for FubonSDK<A, H> {
    fn default() -> (sdk: Self)
        ensures
            !sdk.logged_in(),
            sdk.credentials() is None,
            sdk.account_list() == Seq::<A>::empty(),
            sdk.realtime() is None,
    {
        Self::new()
    }
}

} // verus!
