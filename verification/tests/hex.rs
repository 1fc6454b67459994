use iridium::hex::{parse_hex_bytes, HexError};
use iridium::repl::REPL;
use std::num::IntErrorKind;

fn parse(text: &str) -> Result<Vec<u8>, HexError> {
    REPL::new().parse_hex(text)
}

fn by_the_standard_library(text: &str) -> Result<Vec<u8>, HexError> {
    let mut bytes = vec![];
    for token in text.split(" ") {
        match u8::from_str_radix(token, 16) {
            Ok(byte) => bytes.push(byte),
            Err(error) => {
                return Err(match error.kind() {
                    IntErrorKind::Empty => HexError::Empty,
                    IntErrorKind::InvalidDigit => HexError::InvalidDigit,
                    IntErrorKind::PosOverflow => HexError::Overflow,
                    _ => unreachable!(),
                })
            }
        }
    }
    Ok(bytes)
}

#[test]
fn four_bytes_are_read_in_order() {
    assert_eq!(parse("01 00 01 F4"), Ok(vec![1, 0, 1, 244]));
}

#[test]
fn digits_are_read_in_either_case() {
    assert_eq!(parse("ff FF fF Ab 9a"), Ok(vec![255, 255, 255, 171, 154]));
}

#[test]
fn one_digit_and_leading_zeros_are_numbers() {
    assert_eq!(parse("0 f 00000a 0ff"), Ok(vec![0, 15, 10, 255]));
}

#[test]
fn a_plus_sign_may_stand_in_front() {
    assert_eq!(parse("+1 +ff +000"), Ok(vec![1, 255, 0]));
}

#[test]
fn an_empty_line_is_one_empty_number() {
    assert_eq!(parse(""), Err(HexError::Empty));
}

#[test]
fn two_spaces_part_an_empty_number() {
    assert_eq!(parse("01  02"), Err(HexError::Empty));
    assert_eq!(parse(" 01"), Err(HexError::Empty));
    assert_eq!(parse("01 "), Err(HexError::Empty));
}

#[test]
fn what_is_no_digit_is_refused() {
    assert_eq!(parse("0g"), Err(HexError::InvalidDigit));
    assert_eq!(parse("-1"), Err(HexError::InvalidDigit));
    assert_eq!(parse("+"), Err(HexError::InvalidDigit));
    assert_eq!(parse("-"), Err(HexError::InvalidDigit));
    assert_eq!(parse("++1"), Err(HexError::InvalidDigit));
    assert_eq!(parse("0x10"), Err(HexError::InvalidDigit));
    assert_eq!(parse("1_0"), Err(HexError::InvalidDigit));
    assert_eq!(parse("01\t02"), Err(HexError::InvalidDigit));
    assert_eq!(parse("é"), Err(HexError::InvalidDigit));
    assert_eq!(parse("/"), Err(HexError::InvalidDigit));
    assert_eq!(parse(":"), Err(HexError::InvalidDigit));
    assert_eq!(parse("@"), Err(HexError::InvalidDigit));
    assert_eq!(parse("G"), Err(HexError::InvalidDigit));
    assert_eq!(parse("`"), Err(HexError::InvalidDigit));
}

#[test]
fn a_number_above_255_is_refused() {
    assert_eq!(parse("100"), Err(HexError::Overflow));
    assert_eq!(parse("fff"), Err(HexError::Overflow));
    assert_eq!(parse("+100"), Err(HexError::Overflow));
    assert_eq!(parse("ff0"), Err(HexError::Overflow));
}

#[test]
fn the_first_error_from_the_left_is_reported() {
    assert_eq!(parse("100 g"), Err(HexError::Overflow));
    assert_eq!(parse("g 100"), Err(HexError::InvalidDigit));
    assert_eq!(parse("01  g"), Err(HexError::Empty));
    assert_eq!(parse("ffz"), Err(HexError::InvalidDigit));
    assert_eq!(parse("fffz"), Err(HexError::Overflow));
    assert_eq!(parse("01 02 zz 100"), Err(HexError::InvalidDigit));
}

#[test]
fn the_bytes_of_the_text_are_read_alike() {
    assert_eq!(parse_hex_bytes("01 00 01 F4".as_bytes()), Ok(vec![1, 0, 1, 244]));
    assert_eq!(parse_hex_bytes(&[]), Err(HexError::Empty));
    assert_eq!(parse_hex_bytes(&[0x31, 0x80]), Err(HexError::InvalidDigit));
}

#[test]
fn parsing_leaves_the_session_alone() {
    let mut repl = REPL::new();
    repl.execute_line("01 00 00 07");
    let lines = repl.command_buffer.clone();
    let registers = repl.vm.registers;
    let program = repl.vm.program.clone();
    assert_eq!(repl.parse_hex("ff ff"), Ok(vec![255, 255]));
    assert_eq!(repl.parse_hex("zz"), Err(HexError::InvalidDigit));
    assert_eq!(repl.command_buffer, lines);
    assert_eq!(repl.vm.registers, registers);
    assert_eq!(repl.vm.program, program);
    assert_eq!(repl.vm.pc, 4);
}

#[test]
fn every_short_line_is_read_as_the_standard_library_reads_it() {
    let alphabet = ['0', '1', '9', 'a', 'f', 'F', 'A', 'g', 'G', '+', '-', ' ', '_', 'z'];
    let mut lines = vec![String::new()];
    let mut from = 0;
    for _ in 0..4 {
        let to = lines.len();
        for index in from..to {
            for c in alphabet.iter() {
                let mut line = lines[index].clone();
                line.push(*c);
                lines.push(line);
            }
        }
        from = to;
    }
    assert_eq!(lines.len(), 1 + 14 + 196 + 2744 + 38416);
    for line in lines.iter() {
        assert_eq!(parse(line), by_the_standard_library(line));
    }
}

#[test]
fn every_number_of_three_digits_is_read_as_the_standard_library_reads_it() {
    let digits = "0123456789abcdefABCDEF";
    for a in digits.chars() {
        for b in digits.chars() {
            for c in digits.chars() {
                let mut line = String::new();
                line.push(a);
                line.push(b);
                line.push(c);
                assert_eq!(parse(&line), by_the_standard_library(&line));
                line.push(' ');
                line.push(b);
                line.push(a);
                assert_eq!(parse(&line), by_the_standard_library(&line));
            }
        }
    }
}
