use raingun::Rgb;

#[test]
fn it_parses_strings() {
    assert_eq!(
        Rgb::from_hex_str("#000000").unwrap(),
        Rgb {
            red: 0,
            green: 0,
            blue: 0,
        }
    );

    assert_eq!(
        Rgb::from_hex_str("#ffffff").unwrap(),
        Rgb {
            red: 255,
            green: 255,
            blue: 255,
        }
    );

    assert_eq!(
        Rgb::from_hex_str("#ff7f11").unwrap(),
        Rgb {
            red: 255,
            green: 127,
            blue: 17,
        }
    );
}

#[test]
fn it_displays_strings() {
    let black = Rgb {
        red: 0,
        green: 0,
        blue: 0,
    };
    assert_eq!(black.hex_string(), "#000000");

    let orange = Rgb {
        red: 255,
        green: 127,
        blue: 0,
    };
    assert_eq!(orange.hex_string(), "#ff7f00");
}

#[test]
fn it_returns_same_color_as_input() {
    let samples = &["#000000", "#123456", "#ffeecc", "#fef0fa", "#010203"];

    for sample in samples {
        let parsed_color = Rgb::from_hex_str(sample).unwrap();
        let back_again = parsed_color.hex_string();
        assert_eq!(&back_again, sample);
    }
}

#[test]
fn it_round_trips_every_byte_boundary() {
    for &b in &[0u8, 1, 15, 16, 127, 128, 254, 255] {
        let color = Rgb {
            red: b,
            green: 255 - b,
            blue: b ^ 0x55,
        };
        assert_eq!(Rgb::from_hex_str(&color.hex_string()).unwrap(), color);
    }
}

#[test]
fn it_accepts_upper_case_digits() {
    let parsed = Rgb::from_hex_str("#ABCDEF").unwrap();
    assert_eq!(
        parsed,
        Rgb {
            red: 0xab,
            green: 0xcd,
            blue: 0xef,
        }
    );
    assert_eq!(parsed.hex_string(), "#abcdef");
}

#[test]
fn it_accepts_a_leading_plus_sign() {
    // A sign takes one of the six digit places, so the value only spans
    // five digits.
    assert_eq!(
        Rgb::from_hex_str("#+12345").unwrap(),
        Rgb {
            red: 0x01,
            green: 0x23,
            blue: 0x45,
        }
    );
}

#[test]
fn it_rejects_malformed_strings() {
    for bad in &[
        "", "123456", "#12345", "#1234567", "ff7f00#", "#12345g", "#-12345", "#++1234", "# 12345",
    ] {
        let err = Rgb::from_hex_str(bad).unwrap_err();
        assert_eq!(err, format!("{} is not a valid color", bad));
    }
}
