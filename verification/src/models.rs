//! The records of the service and the states they pass through.
//!
//! A status is stored as lower-case text. Reading is lenient: text that names
//! no status reads as `Pending`.

use crate::text::str_eq;
use vstd::prelude::*;
use vstd::string::*;

verus! {

/// The wallet of a user.
#[derive(Debug)]
pub struct Wallet {
    pub user_id: String,
    pub address: String,
}

impl Clone for Wallet {
    fn clone(&self) -> (copy: Wallet)
        ensures
            copy == *self,
    {
        Wallet { user_id: self.user_id.clone(), address: self.address.clone() }
    }
}

/// The state of a payment.
#[derive(Debug, Clone, Copy, PartialEq, Eq, Structural)]
pub enum PaymentStatus {
    Pending,
    Processing,
    Completed,
    Failed,
    Refunded,
}

impl PaymentStatus {
    /// The text under which the status is stored.
    pub open spec fn text(self) -> Seq<char> {
        match self {
            PaymentStatus::Pending => "pending"@,
            PaymentStatus::Processing => "processing"@,
            PaymentStatus::Completed => "completed"@,
            PaymentStatus::Failed => "failed"@,
            PaymentStatus::Refunded => "refunded"@,
        }
    }

    /// The status that a stored text stands for: `Pending` where the text
    /// names none.
    pub open spec fn parse(text: Seq<char>) -> Self {
        if text == "completed"@ {
            PaymentStatus::Completed
        } else if text == "processing"@ {
            PaymentStatus::Processing
        } else if text == "failed"@ {
            PaymentStatus::Failed
        } else if text == "refunded"@ {
            PaymentStatus::Refunded
        } else {
            PaymentStatus::Pending
        }
    }

    pub fn from_string(s: &str) -> (status: Self)
        ensures
            status == Self::parse(s@),
    {
        if str_eq(s, "completed") {
            PaymentStatus::Completed
        } else if str_eq(s, "processing") {
            PaymentStatus::Processing
        } else if str_eq(s, "failed") {
            PaymentStatus::Failed
        } else if str_eq(s, "refunded") {
            PaymentStatus::Refunded
        } else {
            PaymentStatus::Pending
        }
    }

    pub fn to_string_lossy(&self) -> (text: String)
        ensures
            text@ == self.text(),
    {
        let text = match self {
            PaymentStatus::Pending => "pending",
            PaymentStatus::Processing => "processing",
            PaymentStatus::Completed => "completed",
            PaymentStatus::Failed => "failed",
            PaymentStatus::Refunded => "refunded",
        };
        String::from_str(text)
    }

    /// Reading the text of a status gives the status back.
    pub proof fn lemma_round_trip(self)
        ensures
            Self::parse(self.text()) == self,
    {
        reveal_strlit("pending");
        reveal_strlit("processing");
        reveal_strlit("completed");
        reveal_strlit("failed");
        reveal_strlit("refunded");
        // The texts differ in length, so each names one status.
        assert(self.text().len() >= 6);
    }
}

/// The state of a transfer.
#[derive(Debug, Clone, Copy, PartialEq, Eq, Structural)]
pub enum TransferStatus {
    Pending,
    Processing,
    Completed,
    Failed,
}

impl TransferStatus {
    /// The text under which the status is stored.
    pub open spec fn text(self) -> Seq<char> {
        match self {
            TransferStatus::Pending => "pending"@,
            TransferStatus::Processing => "processing"@,
            TransferStatus::Completed => "completed"@,
            TransferStatus::Failed => "failed"@,
        }
    }

    /// The status that a stored text stands for: `Pending` where the text
    /// names none.
    pub open spec fn parse(text: Seq<char>) -> Self {
        if text == "processing"@ {
            TransferStatus::Processing
        } else if text == "completed"@ {
            TransferStatus::Completed
        } else if text == "failed"@ {
            TransferStatus::Failed
        } else {
            TransferStatus::Pending
        }
    }

    pub fn from_string(s: &str) -> (status: Self)
        ensures
            status == Self::parse(s@),
    {
        if str_eq(s, "processing") {
            TransferStatus::Processing
        } else if str_eq(s, "completed") {
            TransferStatus::Completed
        } else if str_eq(s, "failed") {
            TransferStatus::Failed
        } else {
            TransferStatus::Pending
        }
    }

    pub fn to_string_lossy(&self) -> (text: String)
        ensures
            text@ == self.text(),
    {
        let text = match self {
            TransferStatus::Pending => "pending",
            TransferStatus::Processing => "processing",
            TransferStatus::Completed => "completed",
            TransferStatus::Failed => "failed",
        };
        String::from_str(text)
    }

    /// Reading the text of a status gives the status back.
    pub proof fn lemma_round_trip(self)
        ensures
            Self::parse(self.text()) == self,
    {
        reveal_strlit("pending");
        reveal_strlit("processing");
        reveal_strlit("completed");
        reveal_strlit("failed");
        // The texts differ in length, so each names one status.
        assert(self.text().len() >= 6);
    }
}

/// The state of a withdrawal.
#[derive(Debug, Clone, Copy, PartialEq, Eq, Structural)]
pub enum WithdrawalStatus {
    Pending,
    Processing,
    Completed,
    Failed,
}

impl WithdrawalStatus {
    /// The text under which the status is stored.
    pub open spec fn text(self) -> Seq<char> {
        match self {
            WithdrawalStatus::Pending => "pending"@,
            WithdrawalStatus::Processing => "processing"@,
            WithdrawalStatus::Completed => "completed"@,
            WithdrawalStatus::Failed => "failed"@,
        }
    }

    /// The status that a stored text stands for: `Pending` where the text
    /// names none.
    pub open spec fn parse(text: Seq<char>) -> Self {
        if text == "processing"@ {
            WithdrawalStatus::Processing
        } else if text == "completed"@ {
            WithdrawalStatus::Completed
        } else if text == "failed"@ {
            WithdrawalStatus::Failed
        } else {
            WithdrawalStatus::Pending
        }
    }

    pub fn from_string(s: &str) -> (status: Self)
        ensures
            status == Self::parse(s@),
    {
        if str_eq(s, "processing") {
            WithdrawalStatus::Processing
        } else if str_eq(s, "completed") {
            WithdrawalStatus::Completed
        } else if str_eq(s, "failed") {
            WithdrawalStatus::Failed
        } else {
            WithdrawalStatus::Pending
        }
    }

    pub fn to_string_lossy(&self) -> (text: String)
        ensures
            text@ == self.text(),
    {
        let text = match self {
            WithdrawalStatus::Pending => "pending",
            WithdrawalStatus::Processing => "processing",
            WithdrawalStatus::Completed => "completed",
            WithdrawalStatus::Failed => "failed",
        };
        String::from_str(text)
    }

    /// Reading the text of a status gives the status back.
    pub proof fn lemma_round_trip(self)
        ensures
            Self::parse(self.text()) == self,
    {
        reveal_strlit("pending");
        reveal_strlit("processing");
        reveal_strlit("completed");
        reveal_strlit("failed");
        // The texts differ in length, so each names one status.
        assert(self.text().len() >= 6);
    }
}

/// The state of a bridge transaction.
#[derive(Debug, Clone, Copy, PartialEq, Eq, Structural)]
pub enum BridgeTransactionStatus {
    Pending,
    Confirming,
    Completed,
    Failed,
}

impl BridgeTransactionStatus {
    /// The text under which the status is stored.
    pub open spec fn text(self) -> Seq<char> {
        match self {
            BridgeTransactionStatus::Pending => "pending"@,
            BridgeTransactionStatus::Confirming => "confirming"@,
            BridgeTransactionStatus::Completed => "completed"@,
            BridgeTransactionStatus::Failed => "failed"@,
        }
    }

    /// The status that a stored text stands for: `Pending` where the text
    /// names none.
    pub open spec fn parse(text: Seq<char>) -> Self {
        if text == "confirming"@ {
            BridgeTransactionStatus::Confirming
        } else if text == "completed"@ {
            BridgeTransactionStatus::Completed
        } else if text == "failed"@ {
            BridgeTransactionStatus::Failed
        } else {
            BridgeTransactionStatus::Pending
        }
    }

    pub fn from_string(s: &str) -> (status: Self)
        ensures
            status == Self::parse(s@),
    {
        if str_eq(s, "confirming") {
            BridgeTransactionStatus::Confirming
        } else if str_eq(s, "completed") {
            BridgeTransactionStatus::Completed
        } else if str_eq(s, "failed") {
            BridgeTransactionStatus::Failed
        } else {
            BridgeTransactionStatus::Pending
        }
    }

    pub fn to_string_lossy(&self) -> (text: String)
        ensures
            text@ == self.text(),
    {
        let text = match self {
            BridgeTransactionStatus::Pending => "pending",
            BridgeTransactionStatus::Confirming => "confirming",
            BridgeTransactionStatus::Completed => "completed",
            BridgeTransactionStatus::Failed => "failed",
        };
        String::from_str(text)
    }

    /// Reading the text of a status gives the status back.
    pub proof fn lemma_round_trip(self)
        ensures
            Self::parse(self.text()) == self,
    {
        reveal_strlit("pending");
        reveal_strlit("confirming");
        reveal_strlit("completed");
        reveal_strlit("failed");
        // The texts differ in length, so each names one status.
        assert(self.text().len() >= 6);
    }
}

} // verus!
