use vstd::prelude::*;

use crate::decoded::{opt_view, DataDecoded, DecodedCall};

verus! {

/// A call that changes the safe's own settings.
pub struct SettingsChange {
    pub data_decoded: DataDecoded,
}

/// A transfer of fungible tokens.
pub struct Erc20Transfer {
    pub token_address: String,
    pub logo_uri: Option<String>,
    pub token_name: Option<String>,
    pub token_symbol: Option<String>,
    pub decimals: Option<u64>,
    pub value: String,
}

/// A transfer of one non-fungible token.
pub struct Erc721Transfer {
    pub token_address: String,
    pub token_name: Option<String>,
    pub token_symbol: Option<String>,
    pub token_id: String,
    pub logo_uri: Option<String>,
}

/// A transfer of ether, the amount in decimal.
pub struct EtherTransfer {
    pub value: String,
}

/// What a transfer moves.
pub enum TransferInfo {
    Erc20(Erc20Transfer),
    Erc721(Erc721Transfer),
    Ether(EtherTransfer),
}

/// A transfer out of the safe.
pub struct Transfer {
    pub sender: String,
    pub recipient: String,
    pub transfer_info: TransferInfo,
}

/// Any other call: its target, the size of its call data and the ether sent.
pub struct Custom {
    pub to: String,
    pub data_size: String,
    pub value: String,
}

/// What a transaction does, as a client shows it.
pub enum TransactionInfo {
    SettingsChange(SettingsChange),
    Transfer(Transfer),
    Custom(Custom),
}

/// Where a transaction stands in its life.
#[derive(Clone, Copy, Debug, PartialEq, Eq, Structural)]
pub enum TransactionStatus {
    Success,
    Failed,
    Cancelled,
    AwaitingConfirmations,
    AwaitingExecution,
}

/// The abstract form of a `TransferInfo`.
pub enum TransferInfoView {
    Erc20 {
        token_address: Seq<char>,
        logo_uri: Option<Seq<char>>,
        token_name: Option<Seq<char>>,
        token_symbol: Option<Seq<char>>,
        decimals: Option<u64>,
        value: Seq<char>,
    },
    Erc721 {
        token_address: Seq<char>,
        token_name: Option<Seq<char>>,
        token_symbol: Option<Seq<char>>,
        token_id: Seq<char>,
        logo_uri: Option<Seq<char>>,
    },
    Ether { value: Seq<char> },
}

/// The abstract form of a `Transfer`.
pub struct TransferView {
    pub sender: Seq<char>,
    pub recipient: Seq<char>,
    pub transfer_info: TransferInfoView,
}

/// The abstract form of a `Custom`.
pub struct CustomView {
    pub to: Seq<char>,
    pub data_size: Seq<char>,
    pub value: Seq<char>,
}

/// The abstract form of a `TransactionInfo`.
pub enum TransactionInfoView {
    SettingsChange { data_decoded: DecodedCall },
    Transfer(TransferView),
    Custom(CustomView),
}

impl View for TransferInfo {
    type V = TransferInfoView;

    open spec fn view(&self) -> TransferInfoView {
        match self {
            TransferInfo::Erc20(t) => TransferInfoView::Erc20 {
                token_address: t.token_address@,
                logo_uri: opt_view(t.logo_uri),
                token_name: opt_view(t.token_name),
                token_symbol: opt_view(t.token_symbol),
                decimals: t.decimals,
                value: t.value@,
            },
            TransferInfo::Erc721(t) => TransferInfoView::Erc721 {
                token_address: t.token_address@,
                token_name: opt_view(t.token_name),
                token_symbol: opt_view(t.token_symbol),
                token_id: t.token_id@,
                logo_uri: opt_view(t.logo_uri),
            },
            TransferInfo::Ether(t) => TransferInfoView::Ether { value: t.value@ },
        }
    }
}

impl View for Transfer {
    type V = TransferView;

    open spec fn view(&self) -> TransferView {
        TransferView {
            sender: self.sender@,
            recipient: self.recipient@,
            transfer_info: self.transfer_info@,
        }
    }
}

impl View for Custom {
    type V = CustomView;

    open spec fn view(&self) -> CustomView {
        CustomView { to: self.to@, data_size: self.data_size@, value: self.value@ }
    }
}

impl View for TransactionInfo {
    type V = TransactionInfoView;

    open spec fn view(&self) -> TransactionInfoView {
        match self {
            TransactionInfo::SettingsChange(s) => TransactionInfoView::SettingsChange {
                data_decoded: s.data_decoded@,
            },
            TransactionInfo::Transfer(t) => TransactionInfoView::Transfer(t@),
            TransactionInfo::Custom(c) => TransactionInfoView::Custom(c@),
        }
    }
}

} // verus!
