use wing::duration::{ColoredDuration, Elapsed};

fn in_colour(seconds: u64, nanos: u32) -> String {
    colored::control::set_override(true);
    ColoredDuration(Elapsed::new(seconds, nanos).unwrap()).to_text()
}

#[test]
fn in_colour_zero_is_a_green_0s() {
    assert_eq!(in_colour(0, 0), "\u{1b}[32m0s\u{1b}[0m");
}

#[test]
fn in_colour_seconds_are_green_with_a_bold_amount() {
    assert_eq!(in_colour(5, 0), "\u{1b}[1;32m5\u{1b}[0m\u{1b}[32ms\u{1b}[0m");
}

#[test]
fn in_colour_parts_are_separated_by_plain_spaces() {
    assert_eq!(
        in_colour(5400, 0),
        "\u{1b}[1;35m1\u{1b}[0m\u{1b}[35mh\u{1b}[0m \u{1b}[1;33m30\u{1b}[0m\u{1b}[33mm\u{1b}[0m"
    );
}

#[test]
fn in_colour_every_unit_has_its_own_colour() {
    let expected = [
        "\u{1b}[1;31m1\u{1b}[0m\u{1b}[31md\u{1b}[0m",
        "\u{1b}[1;35m2\u{1b}[0m\u{1b}[35mh\u{1b}[0m",
        "\u{1b}[1;33m3\u{1b}[0m\u{1b}[33mm\u{1b}[0m",
        "\u{1b}[1;32m4\u{1b}[0m\u{1b}[32ms\u{1b}[0m",
        "\u{1b}[1;36m5\u{1b}[0m\u{1b}[36mms\u{1b}[0m",
        "\u{1b}[1;34m6\u{1b}[0m\u{1b}[34mµs\u{1b}[0m",
        "\u{1b}[1;35m7\u{1b}[0m\u{1b}[35mns\u{1b}[0m",
    ]
    .join(" ");
    assert_eq!(in_colour(93_784, 5_006_007), expected);
}

#[test]
fn in_colour_the_stripped_text_is_the_plain_one() {
    let text = in_colour(93_784, 5_006_007);
    let stripped = strip_ansi_escapes::strip(text.as_bytes());
    assert_eq!(String::from_utf8(stripped).unwrap(), "1d 2h 3m 4s 5ms 6µs 7ns");
}
