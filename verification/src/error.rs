//! Error taxonomy of the hub and of the origination front door.

use vstd::prelude::*;
use vstd::string::StringExecFns;

verus! {

/// Errors returned by the hub's entry points.
#[derive(Clone, Debug)]
pub enum AppError {
    /// A collaborator query failed (for example the asset or account was
    /// not found); carries the underlying message.
    Std(String),
    /// An ownership or admission check failed.
    Unauthorized,
    /// The calling module's declared trust namespace does not match the
    /// configured one.
    WrongNamespace,
    /// A relocation could not be finalized; carries the transport-reported
    /// reason or a note about a missing callback payload.
    Transfer(String),
}

impl AppError {
    /// The message the host ledger reports for this error.
    pub fn message(&self) -> (r: String)
        ensures
            match self {
                AppError::Std(s) => r@ == s@,
                AppError::Unauthorized => r@ == "Unauthorized"@,
                AppError::WrongNamespace => r@ == "Unauthorized, Wrong Namespace"@,
                AppError::Transfer(s) => r@ == "Ibc Transfer failed "@ + s@,
            },
    {
        match self {
            AppError::Std(s) => s.clone(),
            AppError::Unauthorized => String::from_str("Unauthorized"),
            AppError::WrongNamespace => String::from_str("Unauthorized, Wrong Namespace"),
            AppError::Transfer(s) => {
                let mut m = String::from_str("Ibc Transfer failed ");
                m.append(s.as_str());
                m
            },
        }
    }
}

/// Errors returned by the origination front door.
#[derive(Clone, Debug)]
pub enum MinterError {
    /// A collaborator query failed; carries the underlying message.
    Std(String),
    /// An ownership or admission check failed.
    Unauthorized,
    /// The calling module's declared trust namespace does not match the
    /// configured one.
    WrongNamespace,
    /// A relocation could not be finalized.
    Transfer(String),
    /// The account has used up its origination quota; carries the
    /// configured limit.
    TooMuchMinted(usize),
}

impl MinterError {
    /// The message the host ledger reports for this error.
    pub fn message(&self) -> (r: String)
        ensures
            match self {
                MinterError::Std(s) => r@ == s@,
                MinterError::Unauthorized => r@ == "Unauthorized"@,
                MinterError::WrongNamespace => r@ == "Unauthorized, Wrong Namespace"@,
                MinterError::Transfer(s) => r@ == "Ibc Transfer failed "@ + s@,
                MinterError::TooMuchMinted(l) => r@
                    == "You have minted too much tokens already. Limit: "@
                    + crate::helpers::spec_decimal(*l as nat),
            },
    {
        match self {
            MinterError::Std(s) => s.clone(),
            MinterError::Unauthorized => String::from_str("Unauthorized"),
            MinterError::WrongNamespace => String::from_str("Unauthorized, Wrong Namespace"),
            MinterError::Transfer(s) => {
                let mut m = String::from_str("Ibc Transfer failed ");
                m.append(s.as_str());
                m
            },
            MinterError::TooMuchMinted(l) => {
                let mut m = String::from_str("You have minted too much tokens already. Limit: ");
                let digits = crate::helpers::u64_to_decimal(*l as u64);
                m.append(digits.as_str());
                m
            },
        }
    }
}

} // verus!
