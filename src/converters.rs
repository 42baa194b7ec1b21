use vstd::prelude::*;
use vstd::string::StrSliceExecFns;

use crate::backend::{ModuleTransaction, MultisigTransaction, Operation, SafeInfo, TokenInfo, TokenType};
use crate::decoded::{
    is_erc20_transfer_name, is_erc721_transfer_name, is_settings_change_method, opt_view,
    param_value,
};
use crate::service::{
    Custom, CustomView, Erc20Transfer, Erc721Transfer, EtherTransfer, SettingsChange,
    TransactionInfo, TransactionInfoView, TransactionStatus, Transfer, TransferInfo,
    TransferInfoView, TransferView,
};
use crate::text::{decimal, decimal_string, is_positive_amount, is_positive_amount_text};

verus! {

/// The value of the decoded argument `name` of a transaction, if it has one.
pub open spec fn tx_param(tx: MultisigTransaction, name: Seq<char>) -> Option<Seq<char>> {
    match tx.data_decoded {
        Some(d) => param_value(d@.parameters, name),
        None => None,
    }
}

/// The first of two options that is present.
pub open spec fn first_present(a: Option<Seq<char>>, b: Option<Seq<char>>) -> Option<Seq<char>> {
    match a {
        Some(x) => Some(x),
        None => b,
    }
}

/// The content of an option, or `default` when it is absent.
pub open spec fn or_default(a: Option<Seq<char>>, default: Seq<char>) -> Seq<char> {
    match a {
        Some(x) => x,
        None => default,
    }
}

/// The size reported for call data: absent data counts as zero, otherwise the
/// number of characters less the two of the `0x` prefix, never below zero. This
/// counts hex characters, not bytes.
pub open spec fn data_size_text(data: Option<Seq<char>>) -> Seq<char> {
    match data {
        Some(d) => if d.len() >= 2 {
            decimal((d.len() - 2) as nat)
        } else {
            decimal(0)
        },
        None => decimal(0),
    }
}

/// The number of confirmations collected, none when the list is absent.
pub open spec fn confirmation_count_of(tx: MultisigTransaction) -> nat {
    match tx.confirmations {
        Some(c) => c@.len(),
        None => 0,
    }
}

/// The confirmations needed: the transaction's own count, else the threshold.
pub open spec fn confirmation_required_of(tx: MultisigTransaction, threshold: u64) -> u64 {
    match tx.confirmations_required {
        Some(n) => n,
        None => threshold,
    }
}

/// The status of a transaction, given the safe's state now.
pub open spec fn status_of(tx: MultisigTransaction, safe_info: SafeInfo) -> TransactionStatus {
    if tx.is_executed {
        if tx.is_successful == Some(true) {
            TransactionStatus::Success
        } else {
            TransactionStatus::Failed
        }
    } else if safe_info.nonce > tx.nonce {
        TransactionStatus::Cancelled
    } else if confirmation_count_of(tx) < confirmation_required_of(tx, safe_info.threshold) {
        TransactionStatus::AwaitingConfirmations
    } else {
        TransactionStatus::AwaitingExecution
    }
}

/// A call to the safe itself whose decoded method changes its settings.
pub open spec fn settings_change_applies(tx: MultisigTransaction) -> bool {
    &&& tx.to@ == tx.safe@
    &&& tx.operation == Operation::CALL
    &&& tx.data_decoded is Some
    &&& is_settings_change_method(tx.data_decoded->Some_0.method@)
}

/// A call to a fungible token contract with a transfer method.
pub open spec fn erc20_applies(tx: MultisigTransaction, token: Option<TokenInfo>) -> bool {
    &&& tx.operation == Operation::CALL
    &&& token is Some
    &&& token->Some_0.token_type == TokenType::Erc20
    &&& tx.data_decoded is Some
    &&& is_erc20_transfer_name(tx.data_decoded->Some_0.method@)
}

/// A call to a non-fungible token contract with a transfer method.
pub open spec fn erc721_applies(tx: MultisigTransaction, token: Option<TokenInfo>) -> bool {
    &&& tx.operation == Operation::CALL
    &&& token is Some
    &&& token->Some_0.token_type == TokenType::Erc721
    &&& tx.data_decoded is Some
    &&& is_erc721_transfer_name(tx.data_decoded->Some_0.method@)
}

/// A plain call without call data that sends a positive amount of ether.
pub open spec fn ether_applies(tx: MultisigTransaction) -> bool {
    &&& tx.operation == Operation::CALL
    &&& tx.data is None
    &&& tx.value is Some
    &&& is_positive_amount_text(tx.value->Some_0@)
}

/// A fungible token transfer: recipient from the `to` argument, amount from
/// `value`, display fields from the token's metadata.
pub open spec fn erc20_transfer_view(tx: MultisigTransaction, token: TokenInfo) -> TransferView {
    TransferView {
        sender: tx.safe@,
        recipient: or_default(tx_param(tx, "to"@), "0x0"@),
        transfer_info: TransferInfoView::Erc20 {
            token_address: token.address@,
            logo_uri: opt_view(token.logo_uri),
            token_name: Some(token.name@),
            token_symbol: Some(token.symbol@),
            decimals: Some(token.decimals),
            value: or_default(tx_param(tx, "value"@), "0"@),
        },
    }
}

/// A non-fungible token transfer: recipient from `_to` or else `to`, token id
/// from `tokenId` or else `value`, display fields from the token's metadata.
pub open spec fn erc721_transfer_view(tx: MultisigTransaction, token: TokenInfo) -> TransferView {
    TransferView {
        sender: tx.safe@,
        recipient: or_default(first_present(tx_param(tx, "_to"@), tx_param(tx, "to"@)), "0x0"@),
        transfer_info: TransferInfoView::Erc721 {
            token_address: token.address@,
            token_name: Some(token.name@),
            token_symbol: Some(token.symbol@),
            token_id: or_default(
                first_present(tx_param(tx, "tokenId"@), tx_param(tx, "value"@)),
                "0"@,
            ),
            logo_uri: opt_view(token.logo_uri),
        },
    }
}

/// An ether transfer from the safe to the transaction's target.
pub open spec fn ether_transfer_view(tx: MultisigTransaction) -> TransferView {
    TransferView {
        sender: tx.safe@,
        recipient: tx.to@,
        transfer_info: TransferInfoView::Ether { value: tx.value->Some_0@ },
    }
}

/// A call shown as is: its target, the size of its data and its value, `0`
/// when absent.
pub open spec fn custom_view(
    to: Seq<char>,
    data: Option<Seq<char>>,
    value: Option<Seq<char>>,
) -> CustomView {
    CustomView { to, data_size: data_size_text(data), value: or_default(value, "0"@) }
}

/// What a transaction does: the first of settings change, fungible token
/// transfer, non-fungible token transfer and ether transfer that applies, and a
/// custom call otherwise. `token` is the metadata found for the address the
/// transaction calls, if any was.
pub open spec fn classify(tx: MultisigTransaction, token: Option<TokenInfo>) -> TransactionInfoView {
    if settings_change_applies(tx) {
        TransactionInfoView::SettingsChange { data_decoded: tx.data_decoded->Some_0@ }
    } else if erc20_applies(tx, token) {
        TransactionInfoView::Transfer(erc20_transfer_view(tx, token->Some_0))
    } else if erc721_applies(tx, token) {
        TransactionInfoView::Transfer(erc721_transfer_view(tx, token->Some_0))
    } else if ether_applies(tx) {
        TransactionInfoView::Transfer(ether_transfer_view(tx))
    } else {
        TransactionInfoView::Custom(custom_view(tx.to@, opt_view(tx.data), opt_view(tx.value)))
    }
}

fn copy_opt(o: &Option<String>) -> (r: Option<String>)
    ensures
        opt_view(r) == opt_view(*o),
{
    match o {
        Some(s) => Some(s.clone()),
        None => None,
    }
}

fn text_or(o: Option<String>, default: &str) -> (r: String)
    ensures
        r@ == or_default(opt_view(o), default@),
{
    match o {
        Some(s) => s,
        None => default.to_owned(),
    }
}

/// The size reported for call data; see `data_size_text`.
pub fn data_size(data: &Option<String>) -> (r: String)
    ensures
        r@ == data_size_text(opt_view(*data)),
{
    match data {
        Some(actual_data) => {
            let length = actual_data.as_str().unicode_len();
            if length >= 2 {
                decimal_string(length - 2)
            } else {
                decimal_string(0)
            }
        },
        None => decimal_string(0),
    }
}

impl MultisigTransaction {
    /// The number of confirmations collected.
    pub fn confirmation_count(&self) -> (r: u64)
        ensures
            r == confirmation_count_of(*self),
    {
        match &self.confirmations {
            Some(confirmations) => confirmations.len() as u64,
            None => 0,
        }
    }

    /// The confirmations needed, with `threshold` as the safe's default.
    pub fn confirmation_required(&self, threshold: u64) -> (r: u64)
        ensures
            r == confirmation_required_of(*self, threshold),
    {
        match self.confirmations_required {
            Some(n) => n,
            None => threshold,
        }
    }

    /// The transaction's status, given the safe's state now.
    pub fn map_status(&self, safe_info: &SafeInfo) -> (r: TransactionStatus)
        ensures
            r == status_of(*self, *safe_info),
    {
        if self.is_executed {
            if self.is_successful == Some(true) {
                TransactionStatus::Success
            } else {
                TransactionStatus::Failed
            }
        } else if safe_info.nonce > self.nonce {
            TransactionStatus::Cancelled
        } else if self.confirmation_count() < self.confirmation_required(safe_info.threshold) {
            TransactionStatus::AwaitingConfirmations
        } else {
            TransactionStatus::AwaitingExecution
        }
    }

    /// Whether the transaction changes the safe's own settings.
    pub fn is_settings_change(&self) -> (r: bool)
        ensures
            r == settings_change_applies(*self),
    {
        self.to == self.safe && self.operation == Operation::CALL && match &self.data_decoded {
            Some(d) => d.is_settings_change(),
            None => false,
        }
    }

    /// Whether the transaction transfers fungible tokens of `token`.
    pub fn is_erc20_transfer(&self, token: &Option<TokenInfo>) -> (r: bool)
        ensures
            r == erc20_applies(*self, *token),
    {
        self.operation == Operation::CALL && match token {
            Some(t) => t.token_type == TokenType::Erc20,
            None => false,
        } && match &self.data_decoded {
            Some(d) => d.is_erc20_transfer_method(),
            None => false,
        }
    }

    /// Whether the transaction transfers a non-fungible token of `token`.
    pub fn is_erc721_transfer(&self, token: &Option<TokenInfo>) -> (r: bool)
        ensures
            r == erc721_applies(*self, *token),
    {
        self.operation == Operation::CALL && match token {
            Some(t) => t.token_type == TokenType::Erc721,
            None => false,
        } && match &self.data_decoded {
            Some(d) => d.is_erc721_transfer_method(),
            None => false,
        }
    }

    /// Whether the transaction sends a positive amount of ether and nothing else.
    pub fn is_ether_transfer(&self) -> (r: bool)
        ensures
            r == ether_applies(*self),
    {
        self.operation == Operation::CALL && self.data.is_none() && match &self.value {
            Some(v) => is_positive_amount(v.as_str()),
            None => false,
        }
    }

    fn param(&self, name: &str) -> (r: Option<String>)
        ensures
            opt_view(r) == tx_param(*self, name@),
    {
        match &self.data_decoded {
            Some(d) => d.get_parameter_value(name),
            None => None,
        }
    }

    /// The transaction as a transfer of fungible tokens of `token`.
    pub fn to_erc20_transfer(&self, token: &TokenInfo) -> (r: Transfer)
        ensures
            r@ == erc20_transfer_view(*self, *token),
    {
        Transfer {
            sender: self.safe.clone(),
            recipient: text_or(self.param("to"), "0x0"),
            transfer_info: TransferInfo::Erc20(
                Erc20Transfer {
                    token_address: token.address.clone(),
                    logo_uri: copy_opt(&token.logo_uri),
                    token_name: Some(token.name.clone()),
                    token_symbol: Some(token.symbol.clone()),
                    decimals: Some(token.decimals),
                    value: text_or(self.param("value"), "0"),
                },
            ),
        }
    }

    /// The transaction as a transfer of a non-fungible token of `token`.
    pub fn to_erc721_transfer(&self, token: &TokenInfo) -> (r: Transfer)
        ensures
            r@ == erc721_transfer_view(*self, *token),
    {
        let recipient = match self.param("_to") {
            Some(e) => Some(e),
            None => self.param("to"),
        };
        let token_id = match self.param("tokenId") {
            Some(e) => Some(e),
            None => self.param("value"),
        };
        Transfer {
            sender: self.safe.clone(),
            recipient: text_or(recipient, "0x0"),
            transfer_info: TransferInfo::Erc721(
                Erc721Transfer {
                    token_address: token.address.clone(),
                    token_name: Some(token.name.clone()),
                    token_symbol: Some(token.symbol.clone()),
                    token_id: text_or(token_id, "0"),
                    logo_uri: copy_opt(&token.logo_uri),
                },
            ),
        }
    }

    /// The transaction as an ether transfer.
    pub fn to_ether_transfer(&self) -> (r: Transfer)
        requires
            self.value is Some,
        ensures
            r@ == ether_transfer_view(*self),
    {
        Transfer {
            sender: self.safe.clone(),
            recipient: self.to.clone(),
            transfer_info: TransferInfo::Ether(
                EtherTransfer { value: self.value.as_ref().unwrap().clone() },
            ),
        }
    }

    /// The transaction as a settings change, carrying its decoded call.
    pub fn to_settings_change(&self) -> (r: SettingsChange)
        requires
            self.data_decoded is Some,
        ensures
            r.data_decoded@ == self.data_decoded->Some_0@,
    {
        SettingsChange { data_decoded: self.data_decoded.as_ref().unwrap().duplicate() }
    }

    /// The transaction as a custom call.
    pub fn to_custom(&self) -> (r: Custom)
        ensures
            r@ == custom_view(self.to@, opt_view(self.data), opt_view(self.value)),
    {
        Custom {
            to: self.to.clone(),
            data_size: data_size(&self.data),
            value: text_or(copy_opt(&self.value), "0"),
        }
    }

    /// Classifies the transaction. `token` is the metadata of the token at the
    /// address the transaction calls, or `None` where none was found.
    pub fn transaction_info(&self, token: &Option<TokenInfo>) -> (r: TransactionInfo)
        ensures
            r@ == classify(*self, *token),
    {
        if self.is_settings_change() {
            return TransactionInfo::SettingsChange(self.to_settings_change());
        }
        if self.is_erc20_transfer(token) {
            TransactionInfo::Transfer(self.to_erc20_transfer(token.as_ref().unwrap()))
        } else if self.is_erc721_transfer(token) {
            TransactionInfo::Transfer(self.to_erc721_transfer(token.as_ref().unwrap()))
        } else if self.is_ether_transfer() {
            TransactionInfo::Transfer(self.to_ether_transfer())
        } else {
            TransactionInfo::Custom(self.to_custom())
        }
    }
}

impl ModuleTransaction {
    /// A module transaction is always shown as a custom call.
    pub fn to_transaction_info(&self) -> (r: TransactionInfo)
        ensures
            r@ == TransactionInfoView::Custom(
                custom_view(self.to@, opt_view(self.data), opt_view(self.value)),
            ),
    {
        TransactionInfo::Custom(
            Custom {
                to: self.to.clone(),
                data_size: data_size(&self.data),
                value: text_or(copy_opt(&self.value), "0"),
            },
        )
    }
}

} // verus!
