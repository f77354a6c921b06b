//! Finalization of a relocation: the transport's callback either carries
//! the burn directive for the escrowed asset, or reports a failure that
//! leaves the asset in escrow.

use vstd::prelude::*;
use vstd::string::StringExecFns;

use crate::error::AppError;
use crate::msg::CallbackResult;
use crate::msg::HubAction;
use crate::msg::HubIbcCallbackMsg;

verus! {

/// What finalization returns: burning the escrowed asset is requested
/// exactly when the transport reports successful remote execution and the
/// callback payload carries the burn directive; every other outcome — a
/// remote execution error, a terminal transport failure, or a success
/// callback whose payload is missing — is a `Transfer` error, and the
/// asset stays in escrow.
pub open spec fn spec_transfer_callback_post(
    result: CallbackResult,
    callback_msg: Option<HubIbcCallbackMsg>,
    r: Result<Vec<HubAction>, AppError>,
) -> bool {
    match result {
        CallbackResult::Execute(exec_result) => match exec_result {
            Ok(_) => match callback_msg {
                Some(directive) => (directive matches HubIbcCallbackMsg::BurnToken { token_id }
                    && (r matches Ok(actions) && actions@.len() == 1 && (actions@[0]
                    matches HubAction::BurnNft { token_id: bid } && bid@ == token_id@))),
                None => r matches Err(e) && (e matches AppError::Transfer(m) && m@
                    == "There needs to be a message on callback"@),
            },
            Err(remote_error) => r matches Err(e) && (e matches AppError::Transfer(m) && m@
                == remote_error@),
        },
        CallbackResult::FatalError(transport_error) => r matches Err(e) && (e
            matches AppError::Transfer(m) && m@ == transport_error@),
    }
}

/// Handles the transport's completion callback for one relocation: on a
/// success callback the attached directive names the asset to burn; this
/// is the only path that destroys an asset. On any failure the error is
/// surfaced and the asset remains escrowed — there is no compensating
/// unlock.
pub fn transfer_callback(result: CallbackResult, callback_msg: Option<HubIbcCallbackMsg>) -> (r:
    Result<Vec<HubAction>, AppError>)
    ensures
        spec_transfer_callback_post(result, callback_msg, r),
{
    match result {
        CallbackResult::Execute(exec_result) => {
            match exec_result {
                Err(remote_error) => Err(AppError::Transfer(remote_error)),
                Ok(_) => {
                    match callback_msg {
                        None => Err(
                            AppError::Transfer(
                                String::from_str("There needs to be a message on callback"),
                            ),
                        ),
                        Some(directive) => {
                            match directive {
                                HubIbcCallbackMsg::BurnToken { token_id } => {
                                    let mut actions: Vec<HubAction> = Vec::new();
                                    actions.push(HubAction::BurnNft { token_id });
                                    Ok(actions)
                                },
                            }
                        },
                    }
                },
            }
        },
        CallbackResult::FatalError(transport_error) => Err(AppError::Transfer(transport_error)),
    }
}

} // verus!
