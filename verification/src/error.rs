//! The failures that the store and the sync engine report.

use vstd::prelude::*;
use vstd::string::*;

verus! {

/// Every failure that can reach a caller of this crate.
#[derive(Debug)]
pub enum AppError {
    /// A fault of the storage layer.
    Database(String),
    /// A value could not be turned into, or read from, its wire form.
    Serialization(String),
    /// The request never got an answer.
    Http(String),
    /// The credential store refused.
    Keyring(String),
    /// A fault of the file system.
    Io(String),
    /// The backend does not accept who we are.
    Auth(String),
    /// The backend answered, but not with success.
    Sync(String),
    Encryption(String),
    NotFound(String),
    InvalidOperation(String),
    VaultLocked,
    NetworkUnavailable,
}

pub enum AppErrorView {
    Database(Seq<char>),
    Serialization(Seq<char>),
    Http(Seq<char>),
    Keyring(Seq<char>),
    Io(Seq<char>),
    Auth(Seq<char>),
    Sync(Seq<char>),
    Encryption(Seq<char>),
    NotFound(Seq<char>),
    InvalidOperation(Seq<char>),
    VaultLocked,
    NetworkUnavailable,
}

impl View for AppError {
    type V = AppErrorView;

    open spec fn view(&self) -> AppErrorView {
        match self {
            AppError::Database(m) => AppErrorView::Database(m@),
            AppError::Serialization(m) => AppErrorView::Serialization(m@),
            AppError::Http(m) => AppErrorView::Http(m@),
            AppError::Keyring(m) => AppErrorView::Keyring(m@),
            AppError::Io(m) => AppErrorView::Io(m@),
            AppError::Auth(m) => AppErrorView::Auth(m@),
            AppError::Sync(m) => AppErrorView::Sync(m@),
            AppError::Encryption(m) => AppErrorView::Encryption(m@),
            AppError::NotFound(m) => AppErrorView::NotFound(m@),
            AppError::InvalidOperation(m) => AppErrorView::InvalidOperation(m@),
            AppError::VaultLocked => AppErrorView::VaultLocked,
            AppError::NetworkUnavailable => AppErrorView::NetworkUnavailable,
        }
    }
}

impl AppErrorView {
    /// The line shown to the user for this failure.
    pub open spec fn text(self) -> Seq<char> {
        match self {
            AppErrorView::Database(m) => "Database error: "@ + m,
            AppErrorView::Serialization(m) => "Serialization error: "@ + m,
            AppErrorView::Http(m) => "HTTP error: "@ + m,
            AppErrorView::Keyring(m) => "Keyring error: "@ + m,
            AppErrorView::Io(m) => "IO error: "@ + m,
            AppErrorView::Auth(m) => "Authentication failed: "@ + m,
            AppErrorView::Sync(m) => "Sync error: "@ + m,
            AppErrorView::Encryption(m) => "Encryption error: "@ + m,
            AppErrorView::NotFound(m) => "Not found: "@ + m,
            AppErrorView::InvalidOperation(m) => "Invalid operation: "@ + m,
            AppErrorView::VaultLocked => "Vault is locked"@,
            AppErrorView::NetworkUnavailable => "Network unavailable"@,
        }
    }
}

impl AppError {
    /// The line shown to the user for this failure.
    pub fn message(&self) -> (r: String)
        ensures
            r@ == self@.text(),
    {
        match self {
            AppError::Database(m) => String::from_str("Database error: ").concat(m.as_str()),
            AppError::Serialization(m) => String::from_str("Serialization error: ").concat(
                m.as_str(),
            ),
            AppError::Http(m) => String::from_str("HTTP error: ").concat(m.as_str()),
            AppError::Keyring(m) => String::from_str("Keyring error: ").concat(m.as_str()),
            AppError::Io(m) => String::from_str("IO error: ").concat(m.as_str()),
            AppError::Auth(m) => String::from_str("Authentication failed: ").concat(m.as_str()),
            AppError::Sync(m) => String::from_str("Sync error: ").concat(m.as_str()),
            AppError::Encryption(m) => String::from_str("Encryption error: ").concat(m.as_str()),
            AppError::NotFound(m) => String::from_str("Not found: ").concat(m.as_str()),
            AppError::InvalidOperation(m) => String::from_str("Invalid operation: ").concat(
                m.as_str(),
            ),
            AppError::VaultLocked => String::from_str("Vault is locked"),
            AppError::NetworkUnavailable => String::from_str("Network unavailable"),
        }
    }
}

impl Clone for AppError {
    fn clone(&self) -> (r: Self)
        ensures
            r@ == self@,
    {
        match self {
            AppError::Database(m) => AppError::Database(m.clone()),
            AppError::Serialization(m) => AppError::Serialization(m.clone()),
            AppError::Http(m) => AppError::Http(m.clone()),
            AppError::Keyring(m) => AppError::Keyring(m.clone()),
            AppError::Io(m) => AppError::Io(m.clone()),
            AppError::Auth(m) => AppError::Auth(m.clone()),
            AppError::Sync(m) => AppError::Sync(m.clone()),
            AppError::Encryption(m) => AppError::Encryption(m.clone()),
            AppError::NotFound(m) => AppError::NotFound(m.clone()),
            AppError::InvalidOperation(m) => AppError::InvalidOperation(m.clone()),
            AppError::VaultLocked => AppError::VaultLocked,
            AppError::NetworkUnavailable => AppError::NetworkUnavailable,
        }
    }
}

} // verus!
