use potassium::assembler::instruction::Instruction;
use potassium::assembler::lexer::lex;
use potassium::assembler::parser::parse;
use potassium::assembler::token::{ParseError, Token};
use potassium::assembler::{assemble, encode};
use potassium::instruction;
use potassium::opcode::{lookup, InvalidOpcodeError, Opcode};
use potassium::text::IntErrorKind;

const ALL: [Opcode; 17] = [
    Opcode::HLT,
    Opcode::LOAD,
    Opcode::ADD,
    Opcode::SUB,
    Opcode::MUL,
    Opcode::DIV,
    Opcode::JMP,
    Opcode::JMPF,
    Opcode::JMPB,
    Opcode::EQ,
    Opcode::NEQ,
    Opcode::GT,
    Opcode::LT,
    Opcode::GTQ,
    Opcode::LTQ,
    Opcode::JEQ,
    Opcode::JNEQ,
];

fn samples() -> Vec<Instruction> {
    vec![
        Instruction::HLT,
        Instruction::LOAD(0, 0),
        Instruction::LOAD(31, 500),
        Instruction::LOAD(255, 65535),
        Instruction::ADD(1, 2, 3),
        Instruction::SUB(4, 5, 6),
        Instruction::MUL(7, 8, 9),
        Instruction::DIV(10, 11, 12),
        Instruction::JMP(13),
        Instruction::JMPF(14),
        Instruction::JMPB(15),
        Instruction::EQ(16, 17),
        Instruction::NEQ(18, 19),
        Instruction::GT(20, 21),
        Instruction::LT(22, 23),
        Instruction::GTQ(24, 25),
        Instruction::LTQ(26, 27),
        Instruction::JEQ(28),
        Instruction::JNEQ(255),
    ]
}

#[test]
fn bytes_and_opcodes_go_round() {
    for (code, op) in ALL.iter().enumerate() {
        assert_eq!(u8::from(*op), code as u8);
        assert_eq!(Opcode::try_from(code as u8).unwrap(), *op);
    }
    for b in 0..=255u8 {
        match Opcode::try_from(b) {
            Ok(op) => {
                assert!(b <= 16);
                assert_eq!(u8::from(op), b);
                assert_ne!(instruction::Opcode::from(b), instruction::Opcode::IGL);
            }
            Err(e) => {
                assert!(b > 16);
                assert_eq!(e.value, b);
                assert_eq!(instruction::Opcode::from(b), instruction::Opcode::IGL);
            }
        }
    }
}

#[test]
fn the_decoded_opcodes_match_the_legal_ones() {
    assert_eq!(instruction::Opcode::from(0), instruction::Opcode::HLT);
    assert_eq!(instruction::Opcode::from(5), instruction::Opcode::DIV);
    assert_eq!(instruction::Opcode::from(16), instruction::Opcode::JNEQ);
    assert_eq!(instruction::Opcode::from(17), instruction::Opcode::IGL);
    assert_eq!(instruction::Opcode::from("jmpf"), instruction::Opcode::JMPF);
    assert_eq!(instruction::Opcode::from("Load"), instruction::Opcode::LOAD);
    assert_eq!(instruction::Opcode::from("nop"), instruction::Opcode::IGL);
    assert_eq!(instruction::Opcode::from(""), instruction::Opcode::IGL);
}

#[test]
fn names_and_opcodes_go_round() {
    for op in ALL {
        let name = op.name();
        assert_eq!(name, format!("{:?}", op));
        assert_eq!(Opcode::try_from(name).unwrap(), op);
        assert_eq!(Opcode::try_from(name.to_lowercase().as_str()).unwrap(), op);
        let chars: Vec<char> = name.to_lowercase().chars().collect();
        assert_eq!(lookup(&chars), Some(op));
    }
}

#[test]
fn mnemonics_ignore_ascii_case_only() {
    assert_eq!(Opcode::try_from("LoAd").unwrap(), Opcode::LOAD);
    assert_eq!(Opcode::try_from("jNeQ").unwrap(), Opcode::JNEQ);
    assert_eq!(Opcode::try_from("halt").unwrap_err().value, "halt");
    assert_eq!(Opcode::try_from("").unwrap_err().value, "");
    assert_eq!(Opcode::try_from("ADD ").unwrap_err().value, "ADD ");
    assert_eq!(Opcode::try_from("ＡＤＤ").unwrap_err().value, "ＡＤＤ");
    assert_eq!(Opcode::try_from("jmp\u{212A}").unwrap_err().value, "jmp\u{212A}");
    let e: InvalidOpcodeError<u8> = InvalidOpcodeError::new(200);
    assert_eq!(e.value, 200);
}

#[test]
fn an_instruction_has_the_opcode_of_its_word() {
    for i in samples() {
        assert_eq!(u8::from(Opcode::from(i)), i.encode()[0]);
    }
}

#[test]
fn decoding_an_encoded_instruction_gives_it_back() {
    for i in samples() {
        assert_eq!(Instruction::decode(i.encode()), Some(i));
    }
}

#[test]
fn a_load_keeps_sixteen_bits_of_its_number() {
    assert_eq!(Instruction::LOAD(0, 70000).encode(), [1, 0, 17, 112]);
    assert_eq!(Instruction::decode([1, 0, 17, 112]), Some(Instruction::LOAD(0, 4464)));
    assert_eq!(Instruction::LOAD(9, -1).encode(), [1, 9, 255, 255]);
    assert_eq!(Instruction::LOAD(9, i32::MIN).encode(), [1, 9, 0, 0]);
    assert_eq!(Instruction::LOAD(9, i32::MAX).encode(), [1, 9, 255, 255]);
    assert_eq!(Instruction::LOAD(9, -256).encode(), [1, 9, 255, 0]);
    assert_eq!(Instruction::LOAD(9, 500).encode(), [1, 9, 1, 244]);
    for n in [-70000, -32769, -32768, -257, -1, 0, 1, 255, 256, 65535, 65536, 1 << 24] {
        assert_eq!(Instruction::LOAD(0, n).encode(), [1, 0, (n >> 8) as u8, n as u8]);
    }
}

#[test]
fn decoding_ignores_unused_bytes_and_refuses_unknown_opcodes() {
    assert_eq!(Instruction::decode([0, 9, 9, 9]), Some(Instruction::HLT));
    assert_eq!(Instruction::decode([6, 4, 9, 9]), Some(Instruction::JMP(4)));
    assert_eq!(Instruction::decode([12, 4, 5, 9]), Some(Instruction::LT(4, 5)));
    assert_eq!(Instruction::decode([17, 0, 0, 0]), None);
    assert_eq!(Instruction::decode([255, 0, 0, 0]), None);
}

#[test]
fn encode_gives_one_word_for_each_instruction() {
    let words = encode(&samples());
    assert_eq!(words.len(), samples().len());
    assert_eq!(words[0], [0, 0, 0, 0]);
    assert_eq!(words[3], [1, 255, 255, 255]);
    assert_eq!(words[4], [2, 1, 2, 3]);
    assert_eq!(words[11], [9, 16, 17, 0]);
    assert_eq!(words[18], [16, 255, 0, 0]);
    assert_eq!(encode(&vec![]), Vec::<[u8; 4]>::new());
}

#[test]
fn every_line_of_one_instruction_is_one_word() {
    let lines = [
        "HLT", "LOAD $1 #2", "ADD $1 $2 $3", "SUB $1 $2 $3", "MUL $1 $2 $3", "DIV $1 $2 $3",
        "JMP $1", "JMPF $1", "JMPB $1", "EQ $1 $2", "NEQ $1 $2", "GT $1 $2", "LT $1 $2",
        "GTQ $1 $2", "LTQ $1 $2", "JEQ $1", "JNEQ $1",
    ];
    for (code, line) in lines.iter().enumerate() {
        let tokens = lex(line).unwrap();
        let instructions = parse(tokens).unwrap();
        assert_eq!(instructions.len(), 1);
        let words = assemble(line).unwrap();
        assert_eq!(words, vec![instructions[0].encode()]);
        assert_eq!(words[0][0], code as u8);
    }
}

#[test]
fn words_are_parted_by_any_of_six_blanks() {
    let expected = vec![Token::Op(Opcode::LOAD), Token::Register(1), Token::IntegerOperand(-2)];
    assert_eq!(lex("LOAD $1 #-2"), Ok(expected.clone()));
    assert_eq!(lex("  LOAD\t$1\n#-2\r\n"), Ok(expected.clone()));
    assert_eq!(lex("LOAD\u{0B}$1\u{0C}#-2"), Ok(expected.clone()));
    assert_eq!(lex("\u{0B}\u{0C}load  $1   #-2 \t"), Ok(expected));
    assert_eq!(lex(""), Ok(vec![]));
    assert_eq!(lex(" \t\n\r\u{0B}\u{0C}"), Ok(vec![]));
    assert_eq!(
        lex("LOAD\u{A0}$1"),
        Err(ParseError::InvalidOpcodeError("LOAD\u{A0}$1".to_owned()))
    );
}

#[test]
fn tokens_come_in_source_order() {
    assert_eq!(
        lex("#3 $2 jeq $1 HLT #+4"),
        Ok(vec![
            Token::IntegerOperand(3),
            Token::Register(2),
            Token::Op(Opcode::JEQ),
            Token::Register(1),
            Token::Op(Opcode::HLT),
            Token::IntegerOperand(4),
        ])
    );
}

#[test]
fn a_word_is_classified_by_its_first_character() {
    assert_eq!(Token::try_from("$0"), Ok(Token::Register(0)));
    assert_eq!(Token::try_from("$255"), Ok(Token::Register(255)));
    assert_eq!(Token::try_from("$+7"), Ok(Token::Register(7)));
    assert_eq!(Token::try_from("$007"), Ok(Token::Register(7)));
    assert_eq!(Token::try_from("#2147483647"), Ok(Token::IntegerOperand(i32::MAX)));
    assert_eq!(Token::try_from("#-2147483648"), Ok(Token::IntegerOperand(i32::MIN)));
    assert_eq!(Token::try_from("#-0"), Ok(Token::IntegerOperand(0)));
    assert_eq!(Token::try_from("gtq"), Ok(Token::Op(Opcode::GTQ)));
    assert_eq!(Token::try_from(""), Err(ParseError::InvalidOpcodeError("".to_owned())));
    assert_eq!(Token::try_from("5"), Err(ParseError::InvalidOpcodeError("5".to_owned())));
    assert_eq!(Token::try_from("r1"), Err(ParseError::InvalidOpcodeError("r1".to_owned())));
}

#[test]
fn numbers_that_do_not_parse_say_why() {
    let cases = [
        ("$", IntErrorKind::Empty),
        ("#", IntErrorKind::Empty),
        ("$x", IntErrorKind::InvalidDigit),
        ("$-1", IntErrorKind::InvalidDigit),
        ("$+", IntErrorKind::InvalidDigit),
        ("#-", IntErrorKind::InvalidDigit),
        ("#+-1", IntErrorKind::InvalidDigit),
        ("#1_000", IntErrorKind::InvalidDigit),
        ("#12a", IntErrorKind::InvalidDigit),
        ("$1.5", IntErrorKind::InvalidDigit),
        ("$٣", IntErrorKind::InvalidDigit),
        ("$256", IntErrorKind::PosOverflow),
        ("$999x", IntErrorKind::PosOverflow),
        ("$99x", IntErrorKind::InvalidDigit),
        ("#2147483648", IntErrorKind::PosOverflow),
        ("#-2147483649", IntErrorKind::NegOverflow),
        ("#-99999999999999999999", IntErrorKind::NegOverflow),
    ];
    for (word, kind) in cases {
        assert_eq!(Token::try_from(word), Err(ParseError::ParseIntError(kind)));
        assert_eq!(lex(word), Err(ParseError::ParseIntError(kind)));
    }
}

#[test]
fn numbers_agree_with_the_standard_library() {
    let texts = [
        "", "0", "00", "7", "+7", "-7", "+", "-", "++1", "--1", "255", "256", "0255", "300x",
        "30x", "x", " 1", "1 ", "2147483647", "2147483648", "-2147483648", "-2147483649",
        "99999999999", "-99999999999", "1e3", "0x1", "１２",
    ];
    for text in texts {
        let found = Token::try_from(format!("${}", text).as_str());
        match text.parse::<u8>() {
            Ok(n) => assert_eq!(found, Ok(Token::Register(n))),
            Err(e) => match found {
                Err(ParseError::ParseIntError(kind)) => {
                    assert_eq!(format!("{:?}", kind), format!("{:?}", e.kind()))
                }
                other => panic!("{:?}: {:?}", text, other),
            },
        }
        let found = Token::try_from(format!("#{}", text).as_str());
        match text.parse::<i32>() {
            Ok(n) => assert_eq!(found, Ok(Token::IntegerOperand(n))),
            Err(e) => match found {
                Err(ParseError::ParseIntError(kind)) => {
                    assert_eq!(format!("{:?}", kind), format!("{:?}", e.kind()))
                }
                other => panic!("{:?}: {:?}", text, other),
            },
        }
    }
}

#[test]
fn the_first_bad_word_ends_the_lexing() {
    assert_eq!(
        lex("LOAD $1 nope $x"),
        Err(ParseError::InvalidOpcodeError("nope".to_owned()))
    );
    assert_eq!(
        lex("LOAD $x nope"),
        Err(ParseError::ParseIntError(IntErrorKind::InvalidDigit))
    );
    assert_eq!(
        assemble("ADD $1 $2 $300 HLT"),
        Err(ParseError::ParseIntError(IntErrorKind::PosOverflow))
    );
}

#[test]
fn tokens_group_into_instructions_in_order() {
    let tokens = lex("hlt load $1 #-9 add $1 $2 $3 jmp $4 eq $5 $6 jneq $7 hlt").unwrap();
    assert_eq!(
        parse(tokens),
        Ok(vec![
            Instruction::HLT,
            Instruction::LOAD(1, -9),
            Instruction::ADD(1, 2, 3),
            Instruction::JMP(4),
            Instruction::EQ(5, 6),
            Instruction::JNEQ(7),
            Instruction::HLT,
        ])
    );
    assert_eq!(parse(vec![]), Ok(vec![]));
}

fn no_opcode() -> ParseError {
    ParseError::InvalidOpcodeError("instruction must start with an opcode".to_owned())
}

fn no_instruction() -> ParseError {
    ParseError::InvalidOpcodeError(
        "sequence of opcodes could not be parsed to instruction".to_owned(),
    )
}

#[test]
fn operands_of_the_wrong_sort_or_number_are_refused() {
    for source in [
        "LOAD", "LOAD $1", "LOAD #1 $1", "LOAD $1 $2", "LOAD $1 HLT", "ADD $1 $2", "ADD $1 $2 #3",
        "SUB", "MUL $1 #2 $3", "DIV $1 $2 HLT", "JMP", "JMP #1", "JMPF HLT", "JMPB #0", "EQ $1",
        "NEQ $1 #2", "GT #1 $2", "LT", "GTQ $1 HLT", "LTQ $1", "JEQ", "JNEQ #5",
        "HLT HLT LOAD $1",
    ] {
        assert_eq!(parse(lex(source).unwrap()), Err(no_instruction()));
        assert_eq!(assemble(source), Err(no_instruction()));
    }
}

#[test]
fn an_operand_where_an_opcode_belongs_is_refused() {
    for source in ["$1", "#1", "HLT $1", "JMP $1 $2", "ADD $1 $2 $3 $4", "EQ $1 $2 #3", "LOAD $1 #2 #3"] {
        assert_eq!(parse(lex(source).unwrap()), Err(no_opcode()));
        assert_eq!(assemble(source), Err(no_opcode()));
    }
}

#[test]
fn a_program_assembles_to_its_words_in_order() {
    assert_eq!(
        assemble("LOAD $0 #8\nLOAD $1 #6\nDIV $0 $1 $2\nHLT\n"),
        Ok(vec![[1, 0, 0, 8], [1, 1, 0, 6], [5, 0, 1, 2], [0, 0, 0, 0]])
    );
    assert_eq!(assemble(""), Ok(vec![]));
    assert_eq!(assemble("load $255 #65536"), Ok(vec![[1, 255, 0, 0]]));
}

#[test]
fn errors_have_messages() {
    assert_eq!(
        ParseError::InvalidOpcodeError("FOO".to_owned()).message(),
        "The opcode 'FOO' does not exist"
    );
    assert_eq!(ParseError::MissingRegisterSignError.message(), "Registers must start with '$'");
    assert_eq!(ParseError::MissingIntegerSignError.message(), "Integers must start with '#'");
    for text in ["", "x", "256", "99999999999"] {
        let e = text.parse::<u8>().unwrap_err();
        let found = Token::try_from(format!("${}", text).as_str()).unwrap_err();
        assert_eq!(found.message(), format!("There was an error parsing the input: {e}"));
    }
    let e = "-99999999999".parse::<i32>().unwrap_err();
    assert_eq!(
        ParseError::ParseIntError(IntErrorKind::NegOverflow).message(),
        format!("There was an error parsing the input: {e}")
    );
}
