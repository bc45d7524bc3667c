//! The failures of a command. Each is final for the command that met it,
//! and leaves the persisted state as it was.

use vstd::prelude::*;

verus! {

/// A failure of the persistence layer.
#[derive(Clone, Debug, PartialEq, Eq)]
pub enum StoreError {
    /// Nothing is stored under the key `kind`.
    NotFound { kind: String },
}

/// Why a command or a query failed.
#[derive(Clone, Debug, PartialEq, Eq)]
pub enum ContractError {
    /// The persisted state could not be read.
    StdError(StoreError),
    /// The machine holds fewer items of the category than were asked for.
    NoSnackLeft { category: String },
    /// The name stands for no category that the machine tracks.
    IncorrectTypeOfItem {},
    /// A refill would take some count past the largest representable one.
    TooBigRefill {},
    /// A refill was asked for by a principal without authority.
    RefillerIsNotTheOwner { sender: String },
    /// A change of the administrator list was asked for by a principal
    /// who is not on it.
    Unauthorized { sender: String },
    /// A principal to be added is on the administrator list already.
    AlreadyExists {},
}

/// The classes of failure.
#[derive(Clone, Copy, Debug, PartialEq, Eq, Structural)]
pub enum ErrorKind {
    UnknownCategory,
    InsufficientStock,
    RefillOverflow,
    Unauthorized,
    AlreadyExists,
    StorageFailure,
}

impl StoreError {
    /// The text that `message` returns.
    pub open spec fn message_text(self) -> Seq<char> {
        match self {
            StoreError::NotFound { kind } => kind@ + " not found"@,
        }
    }

    /// The failure in words.
    pub fn message(&self) -> (text: String)
        ensures
            text@ == self.message_text(),
    {
        match self {
            StoreError::NotFound { kind } => kind.clone().concat(" not found"),
        }
    }
}

impl ContractError {
    /// The class that `kind` returns.
    pub open spec fn kind_of(self) -> ErrorKind {
        match self {
            ContractError::StdError(_) => ErrorKind::StorageFailure,
            ContractError::NoSnackLeft { .. } => ErrorKind::InsufficientStock,
            ContractError::IncorrectTypeOfItem {  } => ErrorKind::UnknownCategory,
            ContractError::TooBigRefill {  } => ErrorKind::RefillOverflow,
            ContractError::RefillerIsNotTheOwner { .. } => ErrorKind::Unauthorized,
            ContractError::Unauthorized { .. } => ErrorKind::Unauthorized,
            ContractError::AlreadyExists {  } => ErrorKind::AlreadyExists,
        }
    }

    /// The class of this failure.
    pub fn kind(&self) -> (kind: ErrorKind)
        ensures
            kind == self.kind_of(),
    {
        match self {
            ContractError::StdError(_) => ErrorKind::StorageFailure,
            ContractError::NoSnackLeft { .. } => ErrorKind::InsufficientStock,
            ContractError::IncorrectTypeOfItem {  } => ErrorKind::UnknownCategory,
            ContractError::TooBigRefill {  } => ErrorKind::RefillOverflow,
            ContractError::RefillerIsNotTheOwner { .. } => ErrorKind::Unauthorized,
            ContractError::Unauthorized { .. } => ErrorKind::Unauthorized,
            ContractError::AlreadyExists {  } => ErrorKind::AlreadyExists,
        }
    }

    /// The text that `message` returns.
    pub open spec fn message_text(self) -> Seq<char> {
        match self {
            ContractError::StdError(inner) => inner.message_text(),
            ContractError::NoSnackLeft { category } => "There are no "@ + category@ + " left"@,
            ContractError::IncorrectTypeOfItem {  } =>
                "Plese use existed type of item: chocolates, water bottles, chips"@,
            ContractError::TooBigRefill {  } => "The number for refill is too big"@,
            ContractError::RefillerIsNotTheOwner { sender } => "The "@ + sender@
                + " is nor the owner!"@,
            ContractError::Unauthorized { sender } => "The "@ + sender@ + " is not an admin"@,
            ContractError::AlreadyExists {  } => "The admin is already on the list"@,
        }
    }

    /// The failure in words.
    pub fn message(&self) -> (text: String)
        ensures
            text@ == self.message_text(),
    {
        match self {
            ContractError::StdError(inner) => inner.message(),
            ContractError::NoSnackLeft { category } => "There are no ".to_owned().concat(
                category.as_str(),
            ).concat(" left"),
            ContractError::IncorrectTypeOfItem {  } =>
                "Plese use existed type of item: chocolates, water bottles, chips".to_owned(),
            ContractError::TooBigRefill {  } => "The number for refill is too big".to_owned(),
            ContractError::RefillerIsNotTheOwner { sender } => "The ".to_owned().concat(
                sender.as_str(),
            ).concat(" is nor the owner!"),
            ContractError::Unauthorized { sender } => "The ".to_owned().concat(
                sender.as_str(),
            ).concat(" is not an admin"),
            ContractError::AlreadyExists {  } => "The admin is already on the list".to_owned(),
        }
    }
}

} // verus!
