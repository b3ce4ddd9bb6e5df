use qrgen::EcLevel;
use qrgen::EncodeError;
use qrgen::QrShape;
use qrgen::QrStyle;
use qrgen::QrType;
use qrgen::RmqrStrategy;
use qrgen::get_min_micro;
use qrgen::make_qr;
use qrgen::make_qr_png;

fn lib_style() -> QrStyle {
    QrStyle::new(
        "#000000".to_string(),
        "#ffffff".to_string(),
        QrShape::Square,
        720,
        2,
    )
}

fn engine_style() -> qrqrpar::QrStyle {
    qrqrpar::QrStyle {
        color: "#000000".to_string().into(),
        background_color: "#ffffff".to_string().into(),
        shape: qrqrpar::QrShape::Square,
        width: 720,
        quiet_zone: 2.0,
    }
}

#[test]
fn test_standard_hello_succeeds() {
    let svg = make_qr("HELLO", QrType::Qr, EcLevel::M, lib_style(), RmqrStrategy::Width).unwrap();
    assert!(!svg.is_empty());
    // A level-M "HELLO" symbol is the 21-module version 1; with the configured
    // quiet zone of 2 modules on each side the viewport is 25 modules wide.
    assert!(svg.contains("viewBox=\"0 0 25 25\""));
    let direct = qrqrpar::QrCode::with_error_correction_level("HELLO", qrqrpar::EcLevel::M)
        .unwrap()
        .to_svg(&engine_style());
    assert_eq!(svg, direct);
}

#[test]
fn test_generation_deterministic() {
    let texts = ["HELLO", "12345678", "mixed Case 99"];
    for text in texts {
        let a = make_qr(text, QrType::Qr, EcLevel::Q, lib_style(), RmqrStrategy::Area);
        let b = make_qr(text, QrType::Qr, EcLevel::Q, lib_style(), RmqrStrategy::Area);
        assert_eq!(a, b);
        let pa = make_qr_png(text, QrType::Rmqr, EcLevel::M, lib_style(), RmqrStrategy::Area);
        let pb = make_qr_png(text, QrType::Rmqr, EcLevel::M, lib_style(), RmqrStrategy::Area);
        assert_eq!(pa, pb);
    }
}

#[test]
fn test_micro_resolver_picks_class_one() {
    // Five digits fit the smallest micro class at level L.
    let resolved = get_min_micro("12345", EcLevel::L).unwrap();
    let direct =
        qrqrpar::QrCode::with_version("12345", qrqrpar::Version::Micro(1), qrqrpar::EcLevel::L)
            .unwrap();
    assert_eq!(
        resolved.to_svg(&engine_style()),
        direct.to_svg(&engine_style())
    );
}

#[test]
fn test_micro_resolver_picks_smallest_feasible() {
    // Eight digits no longer fit class 1 at level L, but fit class 2: the
    // resolver must return class 2's symbol, not a larger one.
    assert!(
        qrqrpar::QrCode::with_version("12345678", qrqrpar::Version::Micro(1), qrqrpar::EcLevel::L)
            .is_err()
    );
    let resolved = get_min_micro("12345678", EcLevel::L).unwrap();
    let direct =
        qrqrpar::QrCode::with_version("12345678", qrqrpar::Version::Micro(2), qrqrpar::EcLevel::L)
            .unwrap();
    assert_eq!(
        resolved.to_svg(&engine_style()),
        direct.to_svg(&engine_style())
    );
}

#[test]
fn test_micro_resolver_final_fallback() {
    // 200 Latin letters exceed every micro class: classes 1 to 3 fail and the
    // result is exactly the class-4 attempt's failure, not an earlier one.
    let text = "ABCDEFGHIJ".repeat(20);
    for class in 1..=4u8 {
        assert!(qrqrpar::QrCode::with_version(
            &text,
            qrqrpar::Version::Micro(class),
            qrqrpar::EcLevel::L
        )
        .is_err());
    }
    let resolved_err = match get_min_micro(&text, EcLevel::L) {
        Ok(_) => panic!("the resolver must not fit 200 letters in a micro symbol"),
        Err(e) => e,
    };
    let class4_err =
        match qrqrpar::QrCode::with_version(&text, qrqrpar::Version::Micro(4), qrqrpar::EcLevel::L)
        {
            Ok(_) => panic!("class 4 must not fit 200 letters"),
            Err(e) => e,
        };
    assert_eq!(resolved_err, class4_err);
    let facade = make_qr(&text, QrType::Micro, EcLevel::L, lib_style(), RmqrStrategy::Width);
    assert_eq!(facade.unwrap_err(), "data too long");
}

#[test]
fn test_micro_facade_renders_resolved_symbol() {
    let svg = make_qr("12345678", QrType::Micro, EcLevel::L, lib_style(), RmqrStrategy::Width)
        .unwrap();
    let direct =
        qrqrpar::QrCode::with_version("12345678", qrqrpar::Version::Micro(2), qrqrpar::EcLevel::L)
            .unwrap()
            .to_svg(&engine_style());
    assert_eq!(svg, direct);
}

#[test]
fn test_rmqr_strategy_passed_through_unmodified() {
    // Two texts of equal length but different character sets: both requests
    // must reach the engine as rectangular calls differing only in the text.
    for text in ["ABCDEFGH", "12345678"] {
        let svg = make_qr(text, QrType::Rmqr, EcLevel::M, lib_style(), RmqrStrategy::Area)
            .unwrap();
        let direct = qrqrpar::QrCode::rmqr_with_options(
            text,
            qrqrpar::EcLevel::M,
            qrqrpar::RmqrStrategy::Area,
        )
        .unwrap()
        .to_svg(&engine_style());
        assert_eq!(svg, direct);
    }
}

#[test]
fn test_ec_level_mapping() {
    // Each library level must reach the engine as its exact counterpart.
    let pairs = [
        (EcLevel::L, qrqrpar::EcLevel::L),
        (EcLevel::M, qrqrpar::EcLevel::M),
        (EcLevel::Q, qrqrpar::EcLevel::Q),
        (EcLevel::H, qrqrpar::EcLevel::H),
    ];
    let mut outputs: Vec<String> = Vec::new();
    for (lib_level, engine_level) in pairs {
        let svg = make_qr("HELLO", QrType::Qr, lib_level, lib_style(), RmqrStrategy::Width)
            .unwrap();
        let direct = qrqrpar::QrCode::with_error_correction_level("HELLO", engine_level)
            .unwrap()
            .to_svg(&engine_style());
        assert_eq!(svg, direct);
        outputs.push(svg);
    }
    // The four levels are distinct choices: no two collapse to one symbol.
    for i in 0..outputs.len() {
        for j in 0..i {
            assert_ne!(outputs[i], outputs[j]);
        }
    }
}

#[test]
fn test_strategy_mapping() {
    let text = "STRATEGY MAPPING SAMPLE TEXT 123456";
    let pairs = [
        (RmqrStrategy::Width, qrqrpar::RmqrStrategy::Width),
        (RmqrStrategy::Height, qrqrpar::RmqrStrategy::Height),
        (RmqrStrategy::Area, qrqrpar::RmqrStrategy::Area),
    ];
    for (lib_strategy, engine_strategy) in pairs {
        let svg = make_qr(text, QrType::Rmqr, EcLevel::M, lib_style(), lib_strategy).unwrap();
        let direct =
            qrqrpar::QrCode::rmqr_with_options(text, qrqrpar::EcLevel::M, engine_strategy)
                .unwrap()
                .to_svg(&engine_style());
        assert_eq!(svg, direct);
    }
}

#[test]
fn test_shape_mapping() {
    let round_style = QrStyle::new(
        "#000000".to_string(),
        "#ffffff".to_string(),
        QrShape::Round,
        720,
        2,
    );
    let svg = make_qr("HELLO", QrType::Qr, EcLevel::M, round_style, RmqrStrategy::Width).unwrap();
    let engine_round = qrqrpar::QrStyle {
        shape: qrqrpar::QrShape::Round,
        ..engine_style()
    };
    let direct = qrqrpar::QrCode::with_error_correction_level("HELLO", qrqrpar::EcLevel::M)
        .unwrap()
        .to_svg(&engine_round);
    assert_eq!(svg, direct);
    let square = make_qr("HELLO", QrType::Qr, EcLevel::M, lib_style(), RmqrStrategy::Width)
        .unwrap();
    assert_ne!(svg, square);
}

fn path_data(svg: &str) -> String {
    let start = svg.find(" d=\"").expect("path data") + 4;
    let rest = &svg[start..];
    let end = rest.find('"').expect("closing quote");
    rest[..end].to_string()
}

#[test]
fn test_style_independence() {
    // Changing only the colors changes color attributes of the rendering,
    // never the encoded module pattern.
    let blue_on_yellow = QrStyle::new(
        "#0000ff".to_string(),
        "#ffff00".to_string(),
        QrShape::Square,
        720,
        2,
    );
    let black = make_qr("HELLO", QrType::Qr, EcLevel::M, lib_style(), RmqrStrategy::Width)
        .unwrap();
    let blue = make_qr("HELLO", QrType::Qr, EcLevel::M, blue_on_yellow, RmqrStrategy::Width)
        .unwrap();
    assert_ne!(black, blue);
    assert_eq!(path_data(&black), path_data(&blue));
    assert!(black.contains("#000000") && black.contains("#ffffff"));
    assert!(blue.contains("#0000ff") && blue.contains("#ffff00"));
}

#[test]
fn test_png_matches_engine() {
    let bytes = make_qr_png("HELLO", QrType::Qr, EcLevel::M, lib_style(), RmqrStrategy::Width)
        .unwrap();
    assert!(!bytes.is_empty());
    let direct = qrqrpar::QrCode::with_error_correction_level("HELLO", qrqrpar::EcLevel::M)
        .unwrap()
        .to_png(&engine_style())
        .unwrap();
    assert_eq!(bytes, direct);
}

#[test]
fn test_png_encode_failure_is_reported() {
    let text = "ABCDEFGHIJ".repeat(20);
    let err = make_qr_png(&text, QrType::Micro, EcLevel::L, lib_style(), RmqrStrategy::Width)
        .unwrap_err();
    assert_eq!(err, "data too long");
}

#[test]
fn test_png_render_failure_is_propagated() {
    // A zero output width makes the raster renderer fail after a successful
    // encode; the facade must surface that failure, not abort.
    let zero_width = QrStyle::new(
        "#000000".to_string(),
        "#ffffff".to_string(),
        QrShape::Square,
        0,
        2,
    );
    let result = make_qr_png("HELLO", QrType::Qr, EcLevel::M, zero_width, RmqrStrategy::Width);
    let engine_zero = qrqrpar::QrStyle {
        width: 0,
        ..engine_style()
    };
    let direct = qrqrpar::QrCode::with_error_correction_level("HELLO", qrqrpar::EcLevel::M)
        .unwrap()
        .to_png(&engine_zero);
    assert_eq!(result.unwrap_err(), direct.unwrap_err().to_string());
}

#[test]
fn test_error_messages_match_engine() {
    let pairs = [
        (EncodeError::DataTooLong, qrqrpar::types::QrError::DataTooLong),
        (EncodeError::InvalidVersion, qrqrpar::types::QrError::InvalidVersion),
        (
            EncodeError::UnsupportedCharacterSet,
            qrqrpar::types::QrError::UnsupportedCharacterSet,
        ),
        (
            EncodeError::InvalidEciDesignator,
            qrqrpar::types::QrError::InvalidEciDesignator,
        ),
        (EncodeError::InvalidCharacter, qrqrpar::types::QrError::InvalidCharacter),
    ];
    for (lib_error, engine_error) in pairs {
        assert_eq!(lib_error.message(), engine_error.to_string());
    }
}

#[test]
fn test_invalid_level_for_family_is_reported() {
    // No micro class supports level H, and no rectangular version supports
    // level L: both requests fail as an invalid version, at any text.
    let err = make_qr("1", QrType::Micro, EcLevel::H, lib_style(), RmqrStrategy::Width)
        .unwrap_err();
    assert_eq!(err, "invalid version");
    let err = make_qr("HELLO", QrType::Rmqr, EcLevel::L, lib_style(), RmqrStrategy::Area)
        .unwrap_err();
    assert_eq!(err, "invalid version");
}

#[test]
fn test_standard_error_surfaced_as_message() {
    let text = "A".repeat(8000);
    let err = make_qr(&text, QrType::Qr, EcLevel::H, lib_style(), RmqrStrategy::Width)
        .unwrap_err();
    assert_eq!(err, "data too long");
}

#[test]
fn test_style_construction() {
    let style = lib_style();
    assert_eq!(style.color, "#000000");
    assert_eq!(style.background_color, "#ffffff");
    assert!(matches!(style.shape, QrShape::Square));
    assert_eq!(style.width, 720);
    assert_eq!(style.quiet_zone, 2);
}
