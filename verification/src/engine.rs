use vstd::prelude::*;
use crate::caps::EcLevel;
use crate::caps::EncodeError;
use crate::caps::QrShape;
use crate::caps::RmqrStrategy;
use crate::caps::StyleModel;

verus! {

// ---- The closed vocabulary mappings ----

impl EcLevel {
    /// The engine's value for this level.
    pub open spec fn to_engine_spec(self) -> qrqrpar::EcLevel {
        match self {
            EcLevel::L => qrqrpar::EcLevel::L,
            EcLevel::M => qrqrpar::EcLevel::M,
            EcLevel::Q => qrqrpar::EcLevel::Q,
            EcLevel::H => qrqrpar::EcLevel::H,
        }
    }

    pub fn to_engine(self) -> (r: qrqrpar::EcLevel)
        ensures
            r == self.to_engine_spec(),
    {
        match self {
            EcLevel::L => qrqrpar::EcLevel::L,
            EcLevel::M => qrqrpar::EcLevel::M,
            EcLevel::Q => qrqrpar::EcLevel::Q,
            EcLevel::H => qrqrpar::EcLevel::H,
        }
    }
}

/// The library level an engine level stands for; inverse of `to_engine_spec`.
pub open spec fn level_of_engine(ec: qrqrpar::EcLevel) -> EcLevel {
    match ec {
        qrqrpar::EcLevel::L => EcLevel::L,
        qrqrpar::EcLevel::M => EcLevel::M,
        qrqrpar::EcLevel::Q => EcLevel::Q,
        qrqrpar::EcLevel::H => EcLevel::H,
    }
}

impl QrShape {
    /// The engine's value for this shape.
    pub open spec fn to_engine_spec(self) -> qrqrpar::QrShape {
        match self {
            QrShape::Square => qrqrpar::QrShape::Square,
            QrShape::Round => qrqrpar::QrShape::Round,
        }
    }

    pub fn to_engine(self) -> (r: qrqrpar::QrShape)
        ensures
            r == self.to_engine_spec(),
    {
        match self {
            QrShape::Square => qrqrpar::QrShape::Square,
            QrShape::Round => qrqrpar::QrShape::Round,
        }
    }
}

/// The library shape an engine shape stands for; inverse of `to_engine_spec`.
pub open spec fn shape_of_engine(shape: qrqrpar::QrShape) -> QrShape {
    match shape {
        qrqrpar::QrShape::Square => QrShape::Square,
        qrqrpar::QrShape::Round => QrShape::Round,
    }
}

impl RmqrStrategy {
    /// The engine's value for this strategy.
    pub open spec fn to_engine_spec(self) -> qrqrpar::RmqrStrategy {
        match self {
            RmqrStrategy::Width => qrqrpar::RmqrStrategy::Width,
            RmqrStrategy::Height => qrqrpar::RmqrStrategy::Height,
            RmqrStrategy::Area => qrqrpar::RmqrStrategy::Area,
        }
    }

    pub fn to_engine(self) -> (r: qrqrpar::RmqrStrategy)
        ensures
            r == self.to_engine_spec(),
    {
        match self {
            RmqrStrategy::Width => qrqrpar::RmqrStrategy::Width,
            RmqrStrategy::Height => qrqrpar::RmqrStrategy::Height,
            RmqrStrategy::Area => qrqrpar::RmqrStrategy::Area,
        }
    }
}

/// The library strategy an engine strategy stands for.
pub open spec fn strategy_of_engine(strategy: qrqrpar::RmqrStrategy) -> RmqrStrategy {
    match strategy {
        qrqrpar::RmqrStrategy::Width => RmqrStrategy::Width,
        qrqrpar::RmqrStrategy::Height => RmqrStrategy::Height,
        qrqrpar::RmqrStrategy::Area => RmqrStrategy::Area,
    }
}

/// The library's reading of an engine failure.
pub open spec fn engine_error_kind(e: qrqrpar::types::QrError) -> EncodeError {
    match e {
        qrqrpar::types::QrError::DataTooLong => EncodeError::DataTooLong,
        qrqrpar::types::QrError::InvalidVersion => EncodeError::InvalidVersion,
        qrqrpar::types::QrError::UnsupportedCharacterSet => EncodeError::UnsupportedCharacterSet,
        qrqrpar::types::QrError::InvalidEciDesignator => EncodeError::InvalidEciDesignator,
        qrqrpar::types::QrError::InvalidCharacter => EncodeError::InvalidCharacter,
    }
}

impl EncodeError {
    pub fn from_engine(e: &qrqrpar::types::QrError) -> (r: Self)
        ensures
            r == engine_error_kind(*e),
    {
        match e {
            qrqrpar::types::QrError::DataTooLong => EncodeError::DataTooLong,
            qrqrpar::types::QrError::InvalidVersion => EncodeError::InvalidVersion,
            qrqrpar::types::QrError::UnsupportedCharacterSet => EncodeError::UnsupportedCharacterSet,
            qrqrpar::types::QrError::InvalidEciDesignator => EncodeError::InvalidEciDesignator,
            qrqrpar::types::QrError::InvalidCharacter => EncodeError::InvalidCharacter,
        }
    }
}

/// No two library levels collapse to one engine level.
pub proof fn lemma_level_mapping_injective(a: EcLevel, b: EcLevel)
    ensures
        a.to_engine_spec() == b.to_engine_spec() ==> a == b,
{
}

/// No two library shapes collapse to one engine shape.
pub proof fn lemma_shape_mapping_injective(a: QrShape, b: QrShape)
    ensures
        a.to_engine_spec() == b.to_engine_spec() ==> a == b,
{
}

/// No two library strategies collapse to one engine strategy.
pub proof fn lemma_strategy_mapping_injective(a: RmqrStrategy, b: RmqrStrategy)
    ensures
        a.to_engine_spec() == b.to_engine_spec() ==> a == b,
{
}

// ---- Names for what the engine computes ----

/// The grid of modules (true = dark) that an encoded symbol holds, row by row.
pub uninterp spec fn code_modules(code: qrqrpar::QrCode) -> Seq<Seq<bool>>;

/// What encoding at an exact micro capacity class returns: the module grid of
/// the symbol on success, the engine's failure otherwise. The outcome is a
/// function of the text, the class and the level alone.
pub uninterp spec fn micro_encoding(text: Seq<char>, class: int, level: EcLevel) -> Result<
    Seq<Seq<bool>>,
    EncodeError,
>;

/// What encoding a standard symbol at a level returns, the engine choosing the
/// smallest version that holds the text.
pub uninterp spec fn standard_encoding(text: Seq<char>, level: EcLevel) -> Result<
    Seq<Seq<bool>>,
    EncodeError,
>;

/// What encoding a rectangular micro symbol returns, the engine minimizing the
/// strategy's objective among valid dimensions.
pub uninterp spec fn rmqr_encoding(text: Seq<char>, level: EcLevel, strategy: RmqrStrategy) -> Result<
    Seq<Seq<bool>>,
    EncodeError,
>;

/// The vector markup the renderer produces for a module grid under a style.
pub uninterp spec fn svg_of(modules: Seq<Seq<bool>>, style: StyleModel) -> Seq<char>;

/// The raster bytes the renderer produces for a module grid under a style, or
/// the failure's message.
pub uninterp spec fn png_of(modules: Seq<Seq<bool>>, style: StyleModel) -> Result<
    Seq<u8>,
    Seq<char>,
>;

// ---- The engine's entry points, behind trusted wrappers ----

/// Relies on qrqrpar::QrCode::with_version with Version::Micro: a pure
/// function of text, capacity class and level; classes run from 1 to 4.
#[verifier::external_body]
pub(crate) fn encode_micro(text: &str, class: u8, ec: qrqrpar::EcLevel) -> (r: Result<
    qrqrpar::QrCode,
    qrqrpar::types::QrError,
>)
    requires
        1 <= class <= 4,
    ensures
        (r matches Ok(code) ==> micro_encoding(text@, class as int, level_of_engine(ec))
            matches Ok(m) && code_modules(code) == m),
        (r matches Err(e) ==> micro_encoding(text@, class as int, level_of_engine(ec))
            matches Err(k) && k == engine_error_kind(e)),
{
    qrqrpar::QrCode::with_version(text, qrqrpar::Version::Micro(class), ec)
}

/// Relies on qrqrpar::QrCode::with_error_correction_level: a pure function of
/// text and level; the engine picks the smallest standard version itself.
#[verifier::external_body]
pub(crate) fn encode_standard(text: &str, ec: qrqrpar::EcLevel) -> (r: Result<
    qrqrpar::QrCode,
    qrqrpar::types::QrError,
>)
    ensures
        (r matches Ok(code) ==> standard_encoding(text@, level_of_engine(ec))
            matches Ok(m) && code_modules(code) == m),
        (r matches Err(e) ==> standard_encoding(text@, level_of_engine(ec))
            matches Err(k) && k == engine_error_kind(e)),
{
    qrqrpar::QrCode::with_error_correction_level(text, ec)
}

/// Relies on qrqrpar::QrCode::rmqr_with_options: a pure function of text,
/// level and sizing strategy.
#[verifier::external_body]
pub(crate) fn encode_rmqr(
    text: &str,
    ec: qrqrpar::EcLevel,
    strategy: qrqrpar::RmqrStrategy,
) -> (r: Result<qrqrpar::QrCode, qrqrpar::types::QrError>)
    ensures
        (r matches Ok(code) ==> rmqr_encoding(text@, level_of_engine(ec), strategy_of_engine(strategy))
            matches Ok(m) && code_modules(code) == m),
        (r matches Err(e) ==> rmqr_encoding(text@, level_of_engine(ec), strategy_of_engine(strategy))
            matches Err(k) && k == engine_error_kind(e)),
{
    qrqrpar::QrCode::rmqr_with_options(text, ec, strategy)
}

/// Relies on qrqrpar::QrCode::to_svg: infallible, and a pure function of the
/// symbol's modules and the style.
#[verifier::external_body]
pub(crate) fn render_svg(
    code: &qrqrpar::QrCode,
    color: &str,
    background_color: &str,
    shape: qrqrpar::QrShape,
    width: u32,
    quiet_zone: u32,
) -> (r: String)
    ensures
        r@ == svg_of(code_modules(*code), (StyleModel {
            color: color@,
            background_color: background_color@,
            shape: shape_of_engine(shape),
            width,
            quiet_zone,
        })),
{
    let style = qrqrpar::QrStyle {
        color: color.to_owned().into(),
        background_color: background_color.to_owned().into(),
        shape,
        width,
        quiet_zone: quiet_zone.into(),
    };
    code.to_svg(&style)
}

/// Relies on qrqrpar::QrCode::to_png: a pure function of the symbol's modules
/// and the style; its failure is reported as that failure's message.
#[verifier::external_body]
pub(crate) fn render_png(
    code: &qrqrpar::QrCode,
    color: &str,
    background_color: &str,
    shape: qrqrpar::QrShape,
    width: u32,
    quiet_zone: u32,
) -> (r: Result<Vec<u8>, String>)
    ensures
        (r matches Ok(bytes) ==> png_of(code_modules(*code), (StyleModel {
            color: color@,
            background_color: background_color@,
            shape: shape_of_engine(shape),
            width,
            quiet_zone,
        })) matches Ok(b) && bytes@ == b),
        (r matches Err(m) ==> png_of(code_modules(*code), (StyleModel {
            color: color@,
            background_color: background_color@,
            shape: shape_of_engine(shape),
            width,
            quiet_zone,
        })) matches Err(em) && m@ == em),
{
    let style = qrqrpar::QrStyle {
        color: color.to_owned().into(),
        background_color: background_color.to_owned().into(),
        shape,
        width,
        quiet_zone: quiet_zone.into(),
    };
    match code.to_png(&style) {
        Ok(bytes) => Ok(bytes),
        Err(e) => Err(e.to_string()),
    }
}

} // verus!
