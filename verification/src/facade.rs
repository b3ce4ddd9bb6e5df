use vstd::prelude::*;
use crate::caps::EcLevel;
use crate::caps::EncodeError;
use crate::caps::QrStyle;
use crate::caps::QrType;
use crate::caps::RmqrStrategy;
use crate::caps::StyleModel;
use crate::engine::code_modules;
use crate::engine::encode_micro;
use crate::engine::encode_rmqr;
use crate::engine::encode_standard;
use crate::engine::engine_error_kind;
use crate::engine::micro_encoding;
use crate::engine::png_of;
use crate::engine::render_png;
use crate::engine::render_svg;
use crate::engine::rmqr_encoding;
use crate::engine::standard_encoding;
use crate::engine::svg_of;

verus! {

/// The outcome of the adaptive search over micro capacity classes: the first
/// of classes 1, 2, 3 whose encoding succeeds wins; if none does, the outcome
/// is class 4's, success or failure, with nothing further to fall back to.
pub open spec fn micro_resolution(text: Seq<char>, level: EcLevel) -> Result<
    Seq<Seq<bool>>,
    EncodeError,
> {
    if micro_encoding(text, 1, level) is Ok {
        micro_encoding(text, 1, level)
    } else if micro_encoding(text, 2, level) is Ok {
        micro_encoding(text, 2, level)
    } else if micro_encoding(text, 3, level) is Ok {
        micro_encoding(text, 3, level)
    } else {
        micro_encoding(text, 4, level)
    }
}

/// The symbol a request encodes, before any rendering: the dispatch over the
/// symbol family, with the adaptive search for the automatic micro family.
/// The style plays no part here.
pub open spec fn generation(
    text: Seq<char>,
    qrtype: QrType,
    level: EcLevel,
    strategy: RmqrStrategy,
) -> Result<Seq<Seq<bool>>, EncodeError> {
    match qrtype {
        QrType::Rmqr => rmqr_encoding(text, level, strategy),
        QrType::Micro => micro_resolution(text, level),
        QrType::Qr => standard_encoding(text, level),
    }
}

/// What a vector-markup request returns: the rendered markup of the encoded
/// symbol, or the encoding failure's message.
pub open spec fn svg_outcome(
    text: Seq<char>,
    qrtype: QrType,
    level: EcLevel,
    style: StyleModel,
    strategy: RmqrStrategy,
) -> Result<Seq<char>, Seq<char>> {
    match generation(text, qrtype, level, strategy) {
        Ok(m) => Ok(svg_of(m, style)),
        Err(k) => Err(k.message_spec()),
    }
}

/// What a raster request returns: the rendered bytes of the encoded symbol,
/// the encoding failure's message, or — encoding having succeeded — the
/// renderer's own failure message.
pub open spec fn png_outcome(
    text: Seq<char>,
    qrtype: QrType,
    level: EcLevel,
    style: StyleModel,
    strategy: RmqrStrategy,
) -> Result<Seq<u8>, Seq<char>> {
    match generation(text, qrtype, level, strategy) {
        Ok(m) => png_of(m, style),
        Err(k) => Err(k.message_spec()),
    }
}

/// Finds the smallest micro capacity class that holds the text at the given
/// level: classes 1 to 3 are tried in increasing order and the first success
/// is returned at once; if all three fail, class 4's outcome is returned
/// unconditionally.
pub fn get_min_micro(text: &str, eclevel: EcLevel) -> (r: Result<
    qrqrpar::QrCode,
    qrqrpar::types::QrError,
>)
    ensures
        (r matches Ok(code) ==> micro_resolution(text@, eclevel) matches Ok(m)
            && code_modules(code) == m),
        (r matches Err(e) ==> micro_resolution(text@, eclevel) matches Err(k)
            && k == engine_error_kind(e)),
{
    let ec = eclevel.to_engine();
    for class in 1u8..4u8
        invariant
            ec == eclevel.to_engine_spec(),
            forall|d: int| 1 <= d < class ==> micro_encoding(text@, d, eclevel) is Err,
    {
        let qrcode = encode_micro(text, class, ec);
        if qrcode.is_ok() {
            return qrcode;
        }
    }
    encode_micro(text, 4, ec)
}

/// Generates a symbol and renders it as vector markup. Success is exactly the
/// dispatched encoding's success; every failure is surfaced as its single
/// textual message.
pub fn make_qr(
    text: &str,
    qrtype: QrType,
    eclevel: EcLevel,
    style: QrStyle,
    strategy: RmqrStrategy,
) -> (r: Result<String, String>)
    ensures
        (r matches Ok(s) ==> svg_outcome(text@, qrtype, eclevel, style@, strategy) matches Ok(v)
            && s@ == v),
        (r matches Err(m) ==> svg_outcome(text@, qrtype, eclevel, style@, strategy) matches Err(v)
            && m@ == v),
{
    let qrcode = match qrtype {
        QrType::Rmqr => encode_rmqr(text, eclevel.to_engine(), strategy.to_engine()),
        QrType::Micro => get_min_micro(text, eclevel),
        QrType::Qr => encode_standard(text, eclevel.to_engine()),
    };
    match qrcode {
        Ok(code) => Ok(
            render_svg(
                &code,
                style.color.as_str(),
                style.background_color.as_str(),
                style.shape.to_engine(),
                style.width,
                style.quiet_zone,
            ),
        ),
        Err(e) => Err(EncodeError::from_engine(&e).message()),
    }
}

/// Generates a symbol and renders it as raster bytes. A renderer failure after
/// a successful encoding is propagated as its message, never swallowed.
pub fn make_qr_png(
    text: &str,
    qrtype: QrType,
    eclevel: EcLevel,
    style: QrStyle,
    strategy: RmqrStrategy,
) -> (r: Result<Vec<u8>, String>)
    ensures
        (r matches Ok(b) ==> png_outcome(text@, qrtype, eclevel, style@, strategy) matches Ok(v)
            && b@ == v),
        (r matches Err(m) ==> png_outcome(text@, qrtype, eclevel, style@, strategy) matches Err(v)
            && m@ == v),
{
    let qrcode = match qrtype {
        QrType::Rmqr => encode_rmqr(text, eclevel.to_engine(), strategy.to_engine()),
        QrType::Micro => get_min_micro(text, eclevel),
        QrType::Qr => encode_standard(text, eclevel.to_engine()),
    };
    match qrcode {
        Ok(code) => render_png(
            &code,
            style.color.as_str(),
            style.background_color.as_str(),
            style.shape.to_engine(),
            style.width,
            style.quiet_zone,
        ),
        Err(e) => Err(EncodeError::from_engine(&e).message()),
    }
}

/// The smallest feasible class wins: if some class at most 3 succeeds and
/// every smaller class fails, the resolution is exactly that class's outcome,
/// never a larger class's.
pub proof fn lemma_resolver_prefers_smallest(text: Seq<char>, level: EcLevel, class: int)
    requires
        1 <= class <= 3,
        micro_encoding(text, class, level) is Ok,
        forall|d: int| 1 <= d < class ==> micro_encoding(text, d, level) is Err,
    ensures
        micro_resolution(text, level) == micro_encoding(text, class, level),
{
}

/// When no class from 1 to 3 succeeds, the resolution is exactly class 4's
/// outcome, success or failure, with no further fallback.
pub proof fn lemma_resolver_final_fallback(text: Seq<char>, level: EcLevel)
    requires
        forall|c: int| 1 <= c <= 3 ==> micro_encoding(text, c, level) is Err,
    ensures
        micro_resolution(text, level) == micro_encoding(text, 4, level),
{
}

/// The resolver succeeds exactly when some class from 1 to 4 holds the text.
pub proof fn lemma_resolver_success_iff(text: Seq<char>, level: EcLevel)
    ensures
        micro_resolution(text, level) is Ok <==> exists|c: int|
            1 <= c <= 4 && micro_encoding(text, c, level) is Ok,
{
    if micro_resolution(text, level) is Ok {
        if micro_encoding(text, 1, level) is Ok {
            assert(1 <= 1 <= 4 && micro_encoding(text, 1, level) is Ok);
        } else if micro_encoding(text, 2, level) is Ok {
            assert(1 <= 2 <= 4 && micro_encoding(text, 2, level) is Ok);
        } else if micro_encoding(text, 3, level) is Ok {
            assert(1 <= 3 <= 4 && micro_encoding(text, 3, level) is Ok);
        } else {
            assert(1 <= 4 <= 4 && micro_encoding(text, 4, level) is Ok);
        }
    }
}

/// Generation is deterministic: two outcomes of identical requests, each as
/// the facade's contract pins it, are one and the same value — for the vector
/// and for the raster path alike.
pub proof fn lemma_generation_deterministic(
    text: Seq<char>,
    qrtype: QrType,
    level: EcLevel,
    style: StyleModel,
    strategy: RmqrStrategy,
    r1: Result<Seq<char>, Seq<char>>,
    r2: Result<Seq<char>, Seq<char>>,
    p1: Result<Seq<u8>, Seq<char>>,
    p2: Result<Seq<u8>, Seq<char>>,
)
    requires
        r1 == svg_outcome(text, qrtype, level, style, strategy),
        r2 == svg_outcome(text, qrtype, level, style, strategy),
        p1 == png_outcome(text, qrtype, level, style, strategy),
        p2 == png_outcome(text, qrtype, level, style, strategy),
    ensures
        r1 == r2,
        p1 == p2,
{
}

/// The style never reaches the encoder: under any two styles the outcomes of
/// one request are renderings of one and the same module grid, and failure
/// messages are identical. Changing only color fields changes, at most, the
/// rendering.
pub proof fn lemma_style_independence(
    text: Seq<char>,
    qrtype: QrType,
    level: EcLevel,
    strategy: RmqrStrategy,
    s1: StyleModel,
    s2: StyleModel,
)
    ensures
        (generation(text, qrtype, level, strategy) matches Ok(m) ==> svg_outcome(
            text,
            qrtype,
            level,
            s1,
            strategy,
        ) == Ok::<Seq<char>, Seq<char>>(svg_of(m, s1)) && svg_outcome(
            text,
            qrtype,
            level,
            s2,
            strategy,
        ) == Ok::<Seq<char>, Seq<char>>(svg_of(m, s2))),
        (generation(text, qrtype, level, strategy) matches Err(k) ==> svg_outcome(
            text,
            qrtype,
            level,
            s1,
            strategy,
        ) == Err::<Seq<char>, Seq<char>>(k.message_spec()) && svg_outcome(
            text,
            qrtype,
            level,
            s2,
            strategy,
        ) == Err::<Seq<char>, Seq<char>>(k.message_spec())),
{
}

} // verus!

