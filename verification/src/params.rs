//! Scheme parameters: the immutable configuration a crypto context is built
//! from. Both parties must work under the same parameters; the protocol
//! fixes them as a shared constant rather than negotiating them per call.

use vstd::prelude::*;

verus! {

/// The scheme family a context belongs to. Artifacts are interoperable only
/// within one family. The protocol here uses the approximate fixed-point
/// family; an exact modular family is named so that parameter agreement can
/// be stated over it, but no formula is specified for it.
#[derive(Clone, Copy, PartialEq, Eq, Structural, Debug)]
pub enum SchemeFamily {
    /// Approximate arithmetic over scaled reals (CKKS-style).
    ApproximateFixedPoint,
    /// Exact arithmetic modulo a plaintext modulus (BFV-style).
    ExactModular,
}

/// Immutable configuration chosen once per crypto context: scheme family,
/// multiplicative depth, scaling precision and batch width.
///
/// Ciphertexts and keys generated under one `SchemeParameters` value may only
/// be combined with artifacts generated under an equal value.
#[derive(Clone, Copy, PartialEq, Eq, Structural, Debug)]
pub struct SchemeParameters {
    pub family: SchemeFamily,
    /// How many sequential ciphertext multiplications the parameters support.
    pub mult_depth: u32,
    /// Bits of scaling precision for the approximate family.
    pub scale_mod_size: u32,
    /// Number of plaintext slots packed into one ciphertext.
    pub batch_size: u32,
}

/// Decimal scale exponent at which a producer packs its scalar reading,
/// and at which the server packs its rate constant. Fixed by the protocol
/// so that both parties agree on the fixed-point position without a
/// negotiation step.
pub const READING_SCALE_EXP: u32 = 4;

/// The protocol's fixed parameter choice, shared by producer and server.
pub open spec fn spec_protocol_parameters() -> SchemeParameters {
    SchemeParameters {
        family: SchemeFamily::ApproximateFixedPoint,
        mult_depth: 1,
        scale_mod_size: 50,
        batch_size: 8,
    }
}

impl SchemeParameters {
    /// The parameters both ends of the protocol are built with: one
    /// multiplication of depth, 50 bits of scale, 8 slots.
    pub fn protocol() -> (p: SchemeParameters)
        ensures
            p == spec_protocol_parameters(),
    {
        SchemeParameters {
            family: SchemeFamily::ApproximateFixedPoint,
            mult_depth: 1,
            scale_mod_size: 50,
            batch_size: 8,
        }
    }

    /// Two parameter values are compatible exactly when they are equal:
    /// there is no negotiation step that could bridge a difference.
    pub open spec fn compatible_with(self, other: SchemeParameters) -> bool {
        self == other
    }
}

} // verus!
