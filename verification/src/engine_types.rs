use vstd::prelude::*;
use qrqrpar::EcLevel as EngineEcLevel;
use qrqrpar::QrShape as EngineQrShape;
use qrqrpar::RmqrStrategy as EngineRmqrStrategy;

verus! {

/// qrqrpar's encoded-symbol type. Opaque: verified code carries values of it
/// and speaks of them only through `crate::engine::code_modules`.
#[verifier::external_type_specification]
#[verifier::external_body]
pub struct ExQrCode(qrqrpar::QrCode);

/// qrqrpar's failure type, with its variants visible, so that verified code
/// can translate each into the library's own vocabulary.
#[verifier::external_type_specification]
pub struct ExQrError(qrqrpar::types::QrError);

/// qrqrpar's error-correction levels, with their variants visible.
#[verifier::external_type_specification]
pub struct ExEngineEcLevel(EngineEcLevel);

/// qrqrpar's module shapes, with their variants visible.
#[verifier::external_type_specification]
pub struct ExEngineQrShape(EngineQrShape);

/// qrqrpar's rectangular sizing strategies, with their variants visible.
#[verifier::external_type_specification]
pub struct ExEngineRmqrStrategy(EngineRmqrStrategy);

} // verus!
