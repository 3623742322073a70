//! Domain separators that prefix each kind of hashed governance parameters.
use vstd::prelude::*;
use crate::codec::push_bytes;

verus! {

/// The kinds of hashed governance parameters.
#[derive(Clone, Copy, Debug, PartialEq, Eq, Structural)]
pub enum Domain {
    ProtocolActivateDaoControl,
    ProtocolUnpauseSecurity,
    GreenLabelCertificationDecision,
    GreenLabelCertificationFeeParameters,
    GreenLabelRefundParameters,
    GreenLabelForfeitParameters,
}

/// The domain separator bytes (the ASCII text given beside each arm).
pub open spec fn spec_domain(d: Domain) -> Seq<u8> {
    match d {
        // "alpha_protocol_activate_dao_control_v1"
        Domain::ProtocolActivateDaoControl => seq![97u8, 108u8, 112u8, 104u8, 97u8, 95u8, 112u8, 114u8, 111u8, 116u8, 111u8, 99u8, 111u8, 108u8, 95u8, 97u8, 99u8, 116u8, 105u8, 118u8, 97u8, 116u8, 101u8, 95u8, 100u8, 97u8, 111u8, 95u8, 99u8, 111u8, 110u8, 116u8, 114u8, 111u8, 108u8, 95u8, 118u8, 49u8],
        // "alpha_protocol_unpause_security_v1"
        Domain::ProtocolUnpauseSecurity => seq![97u8, 108u8, 112u8, 104u8, 97u8, 95u8, 112u8, 114u8, 111u8, 116u8, 111u8, 99u8, 111u8, 108u8, 95u8, 117u8, 110u8, 112u8, 97u8, 117u8, 115u8, 101u8, 95u8, 115u8, 101u8, 99u8, 117u8, 114u8, 105u8, 116u8, 121u8, 95u8, 118u8, 49u8],
        // "alpha_green_label_certification_decision_v1"
        Domain::GreenLabelCertificationDecision => seq![97u8, 108u8, 112u8, 104u8, 97u8, 95u8, 103u8, 114u8, 101u8, 101u8, 110u8, 95u8, 108u8, 97u8, 98u8, 101u8, 108u8, 95u8, 99u8, 101u8, 114u8, 116u8, 105u8, 102u8, 105u8, 99u8, 97u8, 116u8, 105u8, 111u8, 110u8, 95u8, 100u8, 101u8, 99u8, 105u8, 115u8, 105u8, 111u8, 110u8, 95u8, 118u8, 49u8],
        // "alpha_green_label_certification_fee_parameters_v1"
        Domain::GreenLabelCertificationFeeParameters => seq![97u8, 108u8, 112u8, 104u8, 97u8, 95u8, 103u8, 114u8, 101u8, 101u8, 110u8, 95u8, 108u8, 97u8, 98u8, 101u8, 108u8, 95u8, 99u8, 101u8, 114u8, 116u8, 105u8, 102u8, 105u8, 99u8, 97u8, 116u8, 105u8, 111u8, 110u8, 95u8, 102u8, 101u8, 101u8, 95u8, 112u8, 97u8, 114u8, 97u8, 109u8, 101u8, 116u8, 101u8, 114u8, 115u8, 95u8, 118u8, 49u8],
        // "alpha_green_label_refund_parameters_v1"
        Domain::GreenLabelRefundParameters => seq![97u8, 108u8, 112u8, 104u8, 97u8, 95u8, 103u8, 114u8, 101u8, 101u8, 110u8, 95u8, 108u8, 97u8, 98u8, 101u8, 108u8, 95u8, 114u8, 101u8, 102u8, 117u8, 110u8, 100u8, 95u8, 112u8, 97u8, 114u8, 97u8, 109u8, 101u8, 116u8, 101u8, 114u8, 115u8, 95u8, 118u8, 49u8],
        // "alpha_green_label_forfeit_parameters_v1"
        Domain::GreenLabelForfeitParameters => seq![97u8, 108u8, 112u8, 104u8, 97u8, 95u8, 103u8, 114u8, 101u8, 101u8, 110u8, 95u8, 108u8, 97u8, 98u8, 101u8, 108u8, 95u8, 102u8, 111u8, 114u8, 102u8, 101u8, 105u8, 116u8, 95u8, 112u8, 97u8, 114u8, 97u8, 109u8, 101u8, 116u8, 101u8, 114u8, 115u8, 95u8, 118u8, 49u8],
    }
}

/// Appends the domain separator of `d` to `out`.
pub fn push_domain(out: &mut Vec<u8>, d: Domain)
    ensures
        final(out)@ == old(out)@ + spec_domain(d),
        spec_domain(d).len() <= 64,
{
    match d {
        Domain::ProtocolActivateDaoControl => {
            let b: [u8; 38] = [97, 108, 112, 104, 97, 95, 112, 114, 111, 116, 111, 99, 111, 108, 95, 97, 99, 116, 105, 118, 97, 116, 101, 95, 100, 97, 111, 95, 99, 111, 110, 116, 114, 111, 108, 95, 118, 49];
            push_bytes(out, b.as_slice());
        },
        Domain::ProtocolUnpauseSecurity => {
            let b: [u8; 34] = [97, 108, 112, 104, 97, 95, 112, 114, 111, 116, 111, 99, 111, 108, 95, 117, 110, 112, 97, 117, 115, 101, 95, 115, 101, 99, 117, 114, 105, 116, 121, 95, 118, 49];
            push_bytes(out, b.as_slice());
        },
        Domain::GreenLabelCertificationDecision => {
            let b: [u8; 43] = [97, 108, 112, 104, 97, 95, 103, 114, 101, 101, 110, 95, 108, 97, 98, 101, 108, 95, 99, 101, 114, 116, 105, 102, 105, 99, 97, 116, 105, 111, 110, 95, 100, 101, 99, 105, 115, 105, 111, 110, 95, 118, 49];
            push_bytes(out, b.as_slice());
        },
        Domain::GreenLabelCertificationFeeParameters => {
            let b: [u8; 49] = [97, 108, 112, 104, 97, 95, 103, 114, 101, 101, 110, 95, 108, 97, 98, 101, 108, 95, 99, 101, 114, 116, 105, 102, 105, 99, 97, 116, 105, 111, 110, 95, 102, 101, 101, 95, 112, 97, 114, 97, 109, 101, 116, 101, 114, 115, 95, 118, 49];
            push_bytes(out, b.as_slice());
        },
        Domain::GreenLabelRefundParameters => {
            let b: [u8; 38] = [97, 108, 112, 104, 97, 95, 103, 114, 101, 101, 110, 95, 108, 97, 98, 101, 108, 95, 114, 101, 102, 117, 110, 100, 95, 112, 97, 114, 97, 109, 101, 116, 101, 114, 115, 95, 118, 49];
            push_bytes(out, b.as_slice());
        },
        Domain::GreenLabelForfeitParameters => {
            let b: [u8; 39] = [97, 108, 112, 104, 97, 95, 103, 114, 101, 101, 110, 95, 108, 97, 98, 101, 108, 95, 102, 111, 114, 102, 101, 105, 116, 95, 112, 97, 114, 97, 109, 101, 116, 101, 114, 115, 95, 118, 49];
            push_bytes(out, b.as_slice());
        },
    }
    assert(out@ =~= old(out)@ + spec_domain(d));
}

} // verus!
