//! Records of the durable store and the rules applied before writing.

use vstd::prelude::*;
use vstd::string::*;
use crate::crypto::{begins_as_phc, calculate_hash, hashable, phc_accepts, verify_hash};
use crate::time::Timestamp;

verus! {

/// A registered sensor.
#[derive(Debug)]
pub struct Sensor {
    pub id: i32,
    pub name: String,
    pub location: String,
}

/// Where a measured value lies relative to zero.
#[derive(Clone, Copy, Debug, PartialEq, Eq, Structural)]
pub enum Sign {
    /// Zero or above, written without a sign.
    Plus,
    /// Negative zero: not below zero, yet written with a minus sign.
    MinusZero,
    /// Below zero, however close to it.
    Minus,
}

/// A measured value as the rules read it: its sign, and its magnitude
/// rounded to hundredths of the unit. A value just below zero keeps its
/// sign when its magnitude rounds to nothing.
#[derive(Clone, Copy, Debug, PartialEq, Eq, Structural)]
pub struct Measurement {
    pub sign: Sign,
    pub hundredths: u64,
}

impl Measurement {
    /// Whether the value lies below zero.
    pub open spec fn below_zero(self) -> bool {
        self.sign == Sign::Minus
    }

    /// Whether the value is written with a minus sign.
    pub open spec fn written_minus(self) -> bool {
        self.sign != Sign::Plus
    }

    /// What can be read off the written value: its sign character and
    /// its hundredths.
    pub open spec fn written(self) -> (bool, u64) {
        (self.written_minus(), self.hundredths)
    }

    /// The value in hundredths, when the hundredths are exact.
    pub open spec fn of_hundredths(value: i64) -> Measurement {
        if value < 0 {
            Measurement { sign: Sign::Minus, hundredths: (-value) as u64 }
        } else {
            Measurement { sign: Sign::Plus, hundredths: value as u64 }
        }
    }

    /// The measurement of an exact number of hundredths.
    pub fn from_hundredths(value: i64) -> (m: Measurement)
        ensures
            m == Measurement::of_hundredths(value),
    {
        if value >= 0 {
            Measurement { sign: Sign::Plus, hundredths: value as u64 }
        } else {
            Measurement { sign: Sign::Minus, hundredths: (-(value + 1)) as u64 + 1 }
        }
    }
}

/// One measurement of a sensor.
#[derive(Clone, Copy, Debug, PartialEq, Eq, Structural)]
pub struct SensorReading {
    pub sensor_id: i32,
    pub timestamp: Timestamp,
    pub co2: Measurement,
    pub temperature: Measurement,
}

/// Credentials as a caller submits them.
#[derive(Debug)]
pub struct UserForm {
    pub username: String,
    pub password: String,
}

/// Whether a reading may be stored: its CO2 value is not below zero.
pub open spec fn reading_is_valid(reading: SensorReading) -> bool {
    !reading.co2.below_zero()
}

/// Checks a reading before it is stored.
pub fn validate_reading(payload: &SensorReading) -> (r: Result<(), &'static str>)
    ensures
        r is Ok <==> reading_is_valid(*payload),
        r matches Err(reason) ==> reason@ == "Invalid CO2 value"@,
{
    match payload.co2.sign {
        Sign::Minus => {
            return Err("Invalid CO2 value");
        },
        _ => {},
    }
    Ok(())
}

/// A user as the store keeps it: the name and the hash of the password.
#[derive(Debug)]
pub struct UserRecord {
    pub username: String,
    pub password: String,
}

/// Why the store did not do what it was asked.
#[derive(Debug)]
pub enum StoreError {
    /// The database refused the statement; `code` is its SQLSTATE, if it gave one.
    Database { code: Option<String> },
    /// Anything else: no connection, a broken row, a timeout.
    Other,
}

impl StoreError {
    /// Whether the error is the violation of a uniqueness constraint
    /// (SQLSTATE 23505).
    pub open spec fn unique_violation(self) -> bool {
        self matches StoreError::Database { code: Some(code) } && code@ == "23505"@
    }

    /// Tells the violation of a uniqueness constraint from other errors.
    pub fn is_unique_violation(&self) -> (r: bool)
        ensures
            r == self.unique_violation(),
    {
        match self {
            StoreError::Database { code: Some(code) } => *code == String::from_str("23505"),
            _ => false,
        }
    }
}

/// Prepares the row of a new user: the name as given, the password hashed.
pub fn register_user(user_form: UserForm) -> (row: UserRecord)
    requires
        hashable(user_form.password@),
    ensures
        row.username == user_form.username,
        phc_accepts(user_form.password@, row.password@),
        begins_as_phc(row.password@),
{
    let hash = calculate_hash(user_form.password.as_str());
    UserRecord { username: user_form.username, password: hash }
}

/// Whether a login attempt goes through, given the stored hash of the
/// named user: the user must exist and the password must match the hash.
pub open spec fn login_succeeds(password: Seq<char>, stored_hash: Option<String>) -> bool {
    stored_hash matches Some(hash) && phc_accepts(password, hash@)
}

/// Decides a login attempt from the stored hash of the named user.
pub fn user_login(user_form: &UserForm, stored_hash: Option<String>) -> (ok: bool)
    ensures
        ok == login_succeeds(user_form.password@, stored_hash),
        stored_hash matches Some(hash) && !begins_as_phc(hash@) ==> !ok,
{
    match stored_hash {
        Some(hash) => verify_hash(user_form.password.as_str(), hash.as_str()),
        None => false,
    }
}

/// Whoever registered with a password logs in with it: the row that
/// registration prepares holds a hash that the same password matches.
pub proof fn lemma_registered_password_logs_in(password: Seq<char>, row: UserRecord)
    requires
        phc_accepts(password, row.password@),
    ensures
        login_succeeds(password, Some(row.password)),
{
}

} // verus!
