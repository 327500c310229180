//! Laws of the V1/V2 semantic bridge: what survives a trip through the
//! legacy schema and what is, deliberately and deterministically, lost.

use vstd::prelude::*;

use crate::messages::ResponseMessageErrorCode;
use crate::messages::V1ResponseModel;
use crate::messages::V2ResponseModel;
use crate::messages::to_v1;
use crate::messages::to_v2;

verus! {

/// Whether a canonical response is a success.
pub open spec fn is_success(m: V2ResponseModel) -> bool {
    match m {
        V2ResponseModel::SealedHeaders(r) => r is Ok,
        V2ResponseModel::Transactions(r) => r is Ok,
        V2ResponseModel::TxPoolFullTransactions(r) => r is Ok,
    }
}

/// The error code a canonical response failed with, if it failed.
pub open spec fn error_code(m: V2ResponseModel) -> Option<ResponseMessageErrorCode> {
    match m {
        V2ResponseModel::SealedHeaders(r) => match r {
            Ok(_) => None,
            Err(c) => Some(c),
        },
        V2ResponseModel::Transactions(r) => match r {
            Ok(_) => None,
            Err(c) => Some(c),
        },
        V2ResponseModel::TxPoolFullTransactions(r) => match r {
            Ok(_) => None,
            Err(c) => Some(c),
        },
    }
}

/// Whether a legacy response carries no payload.
pub open spec fn is_absent(m: V1ResponseModel) -> bool {
    match m {
        V1ResponseModel::SealedHeaders(o) => o is None,
        V1ResponseModel::Transactions(o) => o is None,
        V1ResponseModel::TxPoolFullTransactions(o) => o is None,
    }
}

/// A canonical response as it survives the legacy schema: success is kept
/// whole, and every error code is replaced by the one designated legacy
/// code.
pub open spec fn legacy_collapsed(m: V2ResponseModel) -> V2ResponseModel {
    match m {
        V2ResponseModel::SealedHeaders(r) => V2ResponseModel::SealedHeaders(
            match r {
                Ok(p) => Ok(p),
                Err(_) => Err(ResponseMessageErrorCode::ProtocolV1EmptyResponse),
            },
        ),
        V2ResponseModel::Transactions(r) => V2ResponseModel::Transactions(
            match r {
                Ok(p) => Ok(p),
                Err(_) => Err(ResponseMessageErrorCode::ProtocolV1EmptyResponse),
            },
        ),
        V2ResponseModel::TxPoolFullTransactions(r) => V2ResponseModel::TxPoolFullTransactions(
            match r {
                Ok(p) => Ok(p),
                Err(_) => Err(ResponseMessageErrorCode::ProtocolV1EmptyResponse),
            },
        ),
    }
}

/// Law: a round trip through the legacy schema — downgrade, then upgrade —
/// keeps a success whole and collapses every failure to the designated
/// legacy error code, in the same variant.
pub proof fn lemma_v1_round_trip(m: V2ResponseModel)
    ensures
        to_v2(to_v1(m)) == legacy_collapsed(m),
{
}

/// Law: a success survives the legacy round trip unchanged, payload
/// included.
pub proof fn lemma_v1_round_trip_preserves_success(m: V2ResponseModel)
    requires
        is_success(m),
    ensures
        to_v2(to_v1(m)) == m,
{
}

/// Law: every failure, whatever its code, comes back from the legacy round
/// trip as the designated legacy code — never as a guessed, finer one.
pub proof fn lemma_v1_round_trip_collapses_failure(m: V2ResponseModel)
    requires
        !is_success(m),
    ensures
        error_code(to_v2(to_v1(m))) == Some(ResponseMessageErrorCode::ProtocolV1EmptyResponse),
{
}

/// Law: the downgrade yields an absent legacy response exactly for the
/// failures; so on the wire a V1 peer sees a failure as plain absence.
pub proof fn lemma_downgrade_absence(m: V2ResponseModel)
    ensures
        is_absent(to_v1(m)) <==> !is_success(m),
{
}

/// Law: upgrading any legacy response and downgrading again gives the
/// legacy response back: the upgrade invents nothing the legacy schema
/// cannot carry.
pub proof fn lemma_upgrade_then_downgrade(m: V1ResponseModel)
    ensures
        to_v1(to_v2(m)) == m,
{
}

/// Law: the upgrade of a present legacy payload is a success carrying that
/// payload, and the upgrade of absence fails with the designated legacy
/// code.
pub proof fn lemma_upgrade_absence(m: V1ResponseModel)
    ensures
        is_absent(m) <==> error_code(to_v2(m)) == Some(
            ResponseMessageErrorCode::ProtocolV1EmptyResponse,
        ),
        !is_absent(m) ==> is_success(to_v2(m)),
{
}

} // verus!
