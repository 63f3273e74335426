//! Records of the payment engine. Identifiers are 128-bit values (the bits
//! of a UUID), money is integer minor units, times are Unix seconds.
use vstd::prelude::*;

verus! {

/// A copy of an optional text, equal to it.
pub fn copy_text(o: &Option<String>) -> (r: Option<String>)
    ensures
        r == *o,
{
    match o {
        Some(s) => Some(s.clone()),
        None => None,
    }
}

/// Lifecycle state of a payment session.
#[derive(Clone, Copy, Debug, PartialEq, Eq, Structural)]
pub enum TransactionStatus {
    Initiated,
    Pending,
    Success,
    Failed,
    Refunded,
}

impl TransactionStatus {
    /// Only `Initiated` and `Pending` sessions may still be executed.
    pub open spec fn executable(self) -> bool {
        self == TransactionStatus::Initiated || self == TransactionStatus::Pending
    }

    /// The lower-case label of the status.
    pub open spec fn label_spec(self) -> Seq<char> {
        match self {
            TransactionStatus::Initiated => "initiated"@,
            TransactionStatus::Pending => "pending"@,
            TransactionStatus::Success => "success"@,
            TransactionStatus::Failed => "failed"@,
            TransactionStatus::Refunded => "refunded"@,
        }
    }

    pub fn is_executable(&self) -> (r: bool)
        ensures
            r == self.executable(),
    {
        match self {
            TransactionStatus::Initiated | TransactionStatus::Pending => true,
            _ => false,
        }
    }

    pub fn label(&self) -> (r: String)
        ensures
            r@ == self.label_spec(),
    {
        match self {
            TransactionStatus::Initiated => "initiated".to_owned(),
            TransactionStatus::Pending => "pending".to_owned(),
            TransactionStatus::Success => "success".to_owned(),
            TransactionStatus::Failed => "failed".to_owned(),
            TransactionStatus::Refunded => "refunded".to_owned(),
        }
    }
}

/// A merchant, found by the code printed on its QR sticker.
#[derive(Clone, Debug)]
pub struct Merchant {
    pub id: u128,
    pub name: String,
    pub upi_id: String,
    pub category: Option<String>,
    pub address: Option<String>,
    pub phone: Option<String>,
    pub qr_code_data: String,
    pub created_at: i64,
}

impl Merchant {
    pub fn duplicate(&self) -> (r: Self)
        ensures
            r == *self,
    {
        Merchant {
            id: self.id,
            name: self.name.clone(),
            upi_id: self.upi_id.clone(),
            category: copy_text(&self.category),
            address: copy_text(&self.address),
            phone: copy_text(&self.phone),
            qr_code_data: self.qr_code_data.clone(),
            created_at: self.created_at,
        }
    }
}

/// Body of a merchant lookup.
#[derive(Clone, Debug)]
pub struct QRScanRequest {
    pub qr_data: String,
}

/// A payment session.
#[derive(Clone, Debug)]
pub struct Transaction {
    pub id: u128,
    pub user_id: u128,
    pub merchant_id: u128,
    /// Minor units; positive.
    pub amount: i64,
    pub status: TransactionStatus,
    pub idempotency_key: String,
    /// Settlement reference, set when the session succeeds.
    pub upi_txn_id: Option<String>,
    pub error_message: Option<String>,
    pub created_at: i64,
    pub updated_at: i64,
}

impl Transaction {
    pub fn duplicate(&self) -> (r: Self)
        ensures
            r == *self,
    {
        Transaction {
            id: self.id,
            user_id: self.user_id,
            merchant_id: self.merchant_id,
            amount: self.amount,
            status: self.status,
            idempotency_key: self.idempotency_key.clone(),
            upi_txn_id: copy_text(&self.upi_txn_id),
            error_message: copy_text(&self.error_message),
            created_at: self.created_at,
            updated_at: self.updated_at,
        }
    }
}

/// Request to open a payment session.
#[derive(Clone, Debug)]
pub struct PaymentInitRequest {
    pub qr_data: String,
    /// Minor units.
    pub amount: i64,
    pub idempotency_key: String,
}

/// The merchant summary shown with a session.
#[derive(Clone, Debug)]
pub struct MerchantInfo {
    pub name: String,
    pub upi_id: String,
    pub category: Option<String>,
}

impl MerchantInfo {
    pub open spec fn of(m: Merchant) -> MerchantInfo {
        MerchantInfo { name: m.name, upi_id: m.upi_id, category: m.category }
    }

    pub fn summarize(m: &Merchant) -> (r: MerchantInfo)
        ensures
            r == MerchantInfo::of(*m),
    {
        MerchantInfo { name: m.name.clone(), upi_id: m.upi_id.clone(), category: copy_text(&m.category) }
    }

    pub fn duplicate(&self) -> (r: Self)
        ensures
            r == *self,
    {
        MerchantInfo {
            name: self.name.clone(),
            upi_id: self.upi_id.clone(),
            category: copy_text(&self.category),
        }
    }
}

/// The view of a session returned by initiation.
#[derive(Clone, Debug)]
pub struct PaymentInitResponse {
    pub session_id: u128,
    pub merchant: MerchantInfo,
    pub amount: i64,
    pub status: String,
}

impl PaymentInitResponse {
    pub fn duplicate(&self) -> (r: Self)
        ensures
            r == *self,
    {
        PaymentInitResponse {
            session_id: self.session_id,
            merchant: self.merchant.duplicate(),
            amount: self.amount,
            status: self.status.clone(),
        }
    }
}

/// Request to execute a session with the payer's PIN.
#[derive(Clone, Debug)]
pub struct PaymentExecuteRequest {
    pub session_id: u128,
    pub pin: String,
}

/// Result of an execution.
#[derive(Clone, Debug)]
pub struct PaymentExecuteResponse {
    pub transaction_id: u128,
    pub status: String,
    pub upi_txn_id: Option<String>,
    pub message: String,
}

/// A payer's account.
#[derive(Clone, Debug)]
pub struct User {
    pub id: u128,
    pub phone_number: String,
    pub upi_id: String,
    pub name: String,
    /// Spendable balance, minor units.
    pub balance: i64,
    /// bcrypt verifier of the PIN; never shown.
    pub pin_hash: String,
    pub created_at: i64,
    pub updated_at: i64,
}

/// The public part of an account.
#[derive(Clone, Debug)]
pub struct UserPublic {
    pub id: u128,
    pub name: String,
    pub upi_id: String,
    pub balance: i64,
}

impl From<User> for UserPublic {
    fn from(u: User) -> (r: UserPublic) {
        UserPublic { id: u.id, name: u.name, upi_id: u.upi_id, balance: u.balance }
    }
}

impl vstd::std_specs::convert::FromSpecImpl<User> for UserPublic {
    open spec fn obeys_from_spec() -> bool {
        true
    }

    open spec fn from_spec(u: User) -> UserPublic {
        UserPublic { id: u.id, name: u.name, upi_id: u.upi_id, balance: u.balance }
    }
}

/// Body of a registration.
#[derive(Clone, Debug)]
pub struct RegisterRequest {
    pub phone_number: String,
    pub upi_id: String,
    pub name: String,
    pub pin: String,
}

/// Body of a login.
#[derive(Clone, Debug)]
pub struct LoginRequest {
    pub phone_number: String,
    pub pin: String,
}

/// Answer to a registration or login.
#[derive(Clone, Debug)]
pub struct AuthResponse {
    pub token: String,
    pub user: UserPublic,
    pub expires_in: i64,
}

/// Claims of an access token.
#[derive(Clone, Debug)]
pub struct Claims {
    /// The user id, as hyphenated UUID text.
    pub sub: String,
    pub exp: usize,
    pub iat: usize,
    pub jti: String,
}

/// The identity that the authentication layer vouches for.
#[derive(Clone, Copy, Debug, PartialEq, Eq, Structural)]
pub struct AuthenticatedUser {
    pub user_id: u128,
}

/// Process settings.
#[derive(Clone, Debug)]
pub struct Config {
    pub database_url: String,
    pub redis_url: String,
    pub jwt_secret: String,
    pub server_host: String,
    pub server_port: u16,
    pub jwt_ttl_seconds: i64,
}

/// The token check put in front of the payment routes.
#[derive(Clone, Debug)]
pub struct JwtAuth {
    pub config: Config,
}

} // verus!
