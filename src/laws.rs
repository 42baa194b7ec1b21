use vstd::prelude::*;

use crate::backend::{MultisigTransaction, Operation, TokenInfo, TokenType};
use crate::converters::{
    classify, erc20_applies, erc20_transfer_view, erc721_applies, erc721_transfer_view,
    ether_applies, settings_change_applies, tx_param,
};
use crate::decoded::{is_erc20_transfer_name, is_erc721_transfer_name};
use crate::service::{TransactionInfoView, TransferInfoView};

verus! {

/// Every transaction gets exactly one kind of description: a settings change
/// when that rule applies, a transfer when one of the transfer rules applies
/// and the settings-change rule does not, and a custom call when none applies.
pub proof fn lemma_classify_total(tx: MultisigTransaction, token: Option<TokenInfo>)
    ensures
        classify(tx, token) is SettingsChange <==> settings_change_applies(tx),
        classify(tx, token) is Transfer <==> !settings_change_applies(tx) && (erc20_applies(
            tx,
            token,
        ) || erc721_applies(tx, token) || ether_applies(tx)),
        classify(tx, token) is Custom <==> !settings_change_applies(tx) && !erc20_applies(
            tx,
            token,
        ) && !erc721_applies(tx, token) && !ether_applies(tx),
{
}

/// A settings change wins over every transfer rule, whatever token metadata was
/// found and whatever else the call looks like.
pub proof fn lemma_settings_change_first(tx: MultisigTransaction, token: Option<TokenInfo>)
    requires
        settings_change_applies(tx),
    ensures
        classify(tx, token) == (TransactionInfoView::SettingsChange {
            data_decoded: tx.data_decoded->Some_0@,
        }),
{
}

/// For a call whose method reads as both a fungible and a non-fungible transfer,
/// the kind of the token found decides which transfer it is.
pub proof fn lemma_token_type_decides(tx: MultisigTransaction, token: TokenInfo)
    requires
        !settings_change_applies(tx),
        tx.operation == Operation::CALL,
        tx.data_decoded is Some,
        is_erc20_transfer_name(tx.data_decoded->Some_0.method@),
        is_erc721_transfer_name(tx.data_decoded->Some_0.method@),
    ensures
        token.token_type == TokenType::Erc20 ==> classify(tx, Some(token))
            == TransactionInfoView::Transfer(erc20_transfer_view(tx, token)),
        token.token_type == TokenType::Erc721 ==> classify(tx, Some(token))
            == TransactionInfoView::Transfer(erc721_transfer_view(tx, token)),
        token.token_type == TokenType::Other ==> classify(tx, Some(token)) !is Transfer
            || classify(tx, Some(token))->Transfer_0.transfer_info is Ether,
{
}

/// A non-fungible transfer takes its recipient from `_to`, else from `to`, else
/// `0x0`; and its token id from `tokenId`, else from `value`, else `0`.
pub proof fn lemma_erc721_fallbacks(tx: MultisigTransaction, token: TokenInfo)
    ensures
        tx_param(tx, "_to"@) is None && tx_param(tx, "to"@) is Some ==> erc721_transfer_view(
            tx,
            token,
        ).recipient == tx_param(tx, "to"@)->Some_0,
        tx_param(tx, "_to"@) is None && tx_param(tx, "to"@) is None ==> erc721_transfer_view(
            tx,
            token,
        ).recipient == "0x0"@,
        tx_param(tx, "tokenId"@) is None && tx_param(tx, "value"@) is Some ==> erc721_transfer_view(
            tx,
            token,
        ).transfer_info->Erc721_token_id == tx_param(tx, "value"@)->Some_0,
        tx_param(tx, "tokenId"@) is None && tx_param(tx, "value"@) is None ==> erc721_transfer_view(
            tx,
            token,
        ).transfer_info->Erc721_token_id == "0"@,
{
}

} // verus!
