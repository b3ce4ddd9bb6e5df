use vstd::prelude::*;

verus! {

/// The symbol family a generation request asks for: a rectangular micro code,
/// an automatically sized micro code, or a standard code.
#[derive(Clone, Copy, Debug, PartialEq, Eq, Structural)]
pub enum QrType {
    Rmqr,
    Micro,
    Qr,
}

/// Error-correction level, ordered by increasing recoverable damage and
/// increasing symbol size.
#[derive(Clone, Copy, Debug, PartialEq, Eq, Structural)]
pub enum EcLevel {
    L,
    M,
    Q,
    H,
}

/// How a single module is drawn.
#[derive(Clone, Copy, Debug, PartialEq, Eq, Structural)]
pub enum QrShape {
    Square,
    Round,
}

/// The objective the engine minimizes when it chooses among valid rectangular
/// symbol dimensions. A hint: it is accepted, and ignored, for the other
/// families.
#[derive(Clone, Copy, Debug, PartialEq, Eq, Structural)]
pub enum RmqrStrategy {
    Width,
    Height,
    Area,
}

/// The encoder's failure vocabulary, held as a value of the library's own.
#[derive(Clone, Copy, Debug, PartialEq, Eq, Structural)]
pub enum EncodeError {
    DataTooLong,
    InvalidVersion,
    UnsupportedCharacterSet,
    InvalidEciDesignator,
    InvalidCharacter,
}

impl EncodeError {
    /// The single textual message under which this failure is reported.
    pub open spec fn message_spec(self) -> Seq<char> {
        match self {
            EncodeError::DataTooLong => "data too long"@,
            EncodeError::InvalidVersion => "invalid version"@,
            EncodeError::UnsupportedCharacterSet => "unsupported character set"@,
            EncodeError::InvalidEciDesignator => "invalid ECI designator"@,
            EncodeError::InvalidCharacter => "invalid character"@,
        }
    }

    pub fn message(&self) -> (r: String)
        ensures
            r@ == self.message_spec(),
    {
        match self {
            EncodeError::DataTooLong => "data too long".to_owned(),
            EncodeError::InvalidVersion => "invalid version".to_owned(),
            EncodeError::UnsupportedCharacterSet => "unsupported character set".to_owned(),
            EncodeError::InvalidEciDesignator => "invalid ECI designator".to_owned(),
            EncodeError::InvalidCharacter => "invalid character".to_owned(),
        }
    }
}

/// Visual rendering parameters, built once and consumed by the renderer.
/// The quiet zone is measured in whole module units.
#[derive(Clone, Debug)]
pub struct QrStyle {
    pub color: String,
    pub background_color: String,
    pub shape: QrShape,
    pub width: u32,
    pub quiet_zone: u32,
}

/// The mathematical value of a style: its colors as character sequences, the
/// remaining fields as they are.
pub struct StyleModel {
    pub color: Seq<char>,
    pub background_color: Seq<char>,
    pub shape: QrShape,
    pub width: u32,
    pub quiet_zone: u32,
}

impl View for QrStyle {
    type V = StyleModel;

    open spec fn view(&self) -> StyleModel {
        StyleModel {
            color: self.color@,
            background_color: self.background_color@,
            shape: self.shape,
            width: self.width,
            quiet_zone: self.quiet_zone,
        }
    }
}

impl QrStyle {
    pub fn new(
        color: String,
        background_color: String,
        shape: QrShape,
        width: u32,
        quiet_zone: u32,
    ) -> (r: Self)
        ensures
            r@ == (StyleModel {
                color: color@,
                background_color: background_color@,
                shape,
                width,
                quiet_zone,
            }),
    {
        QrStyle { color, background_color, shape, width, quiet_zone }
    }
}

} // verus!
