use zasm::assembler::classify;
use zasm::text::chars_of;
use zasm::source::split_lines;
use zasm::{
    assemble, assemble_lines, AsmError, Assembler, Assembly, Instruction, LabelTable, LineError,
    LineKind,
};

fn program(source: &str) -> Assembly {
    assemble(source)
}

fn failure(number: usize, line: &str, kind: AsmError) -> Option<LineError> {
    Some(LineError { number, line: line.to_string(), kind })
}

#[test]
fn a_label_stands_for_the_instruction_after_it() {
    let out = program("loop:\ngoto loop");
    assert_eq!(out.failure, None);
    assert_eq!(out.bytes, [0x1C, 0x00, 0x00, 0x00]);
}

#[test]
fn a_label_is_not_known_before_its_line() {
    let out = program("goto fwd\nfwd:");
    assert_eq!(out.failure, failure(1, "goto fwd", AsmError::UnresolvedLabel));
    assert_eq!(out.bytes, Vec::<u8>::new());
}

#[test]
fn labels_count_instructions_not_lines_or_bytes() {
    let source = "; entry\n\
                  start:\n\
                  copy8 @rg0, 1\n\
                  \n\
                  copy8 @rg1, 2\n\
                  again:\n\
                  ; twice\n\
                  add @rg0, @rg1\n\
                  goto again\n\
                  goto start\n\
                  end:\n\
                  goto end";
    let out = program(source);
    assert_eq!(out.failure, None);
    assert_eq!(
        out.bytes,
        [
            0x08, 0x70, 0x00, 0x01, //
            0x08, 0x80, 0x00, 0x02, //
            0x27, 0x78, 0x00, 0x00, //
            0x1C, 0x00, 0x00, 0x02, //
            0x1C, 0x00, 0x00, 0x00, //
            0x1C, 0x00, 0x00, 0x05,
        ]
    );
}

#[test]
fn the_first_failure_ends_the_scan() {
    let out = program("push8 1\npush8 2\n\npush8 @nope\npush8 3\nbogus");
    assert_eq!(out.bytes, [0x14, 0, 0, 1, 0x14, 0, 0, 2]);
    assert_eq!(out.failure, failure(4, "push8 @nope", AsmError::UnknownRegister));
}

#[test]
fn every_kind_of_failure_is_reported_with_its_line() {
    let cases = [
        ("pop8 @r0", AsmError::UnknownRegister),
        ("cmp @rg0, 0x10000", AsmError::MalformedImmediate),
        ("copy8 [@rg0], 1", AsmError::UnsupportedOperandCombination),
        ("halt 1", AsmError::UnknownMnemonic),
        ("goto nowhere", AsmError::UnresolvedLabel),
        ("nop", AsmError::NoGrammarMatch),
    ];
    for (line, kind) in cases {
        let out = program(&format!("sys 1\n{}\nsys 2", line));
        assert_eq!(out.bytes, [0x1E, 0, 0, 1]);
        assert_eq!(out.failure, failure(2, line, kind));
    }
}

#[test]
fn an_empty_program_gives_no_bytes() {
    assert_eq!(assemble_lines(&Vec::new()).bytes, Vec::<u8>::new());
    assert_eq!(assemble_lines(&Vec::new()).failure, None);
    let out = program("");
    assert_eq!(out.bytes, Vec::<u8>::new());
    assert_eq!(out.failure, None);
    let out = program("\n\n; nothing here\n\n");
    assert_eq!(out.bytes, Vec::<u8>::new());
    assert_eq!(out.failure, None);
}

#[test]
fn lines_are_told_apart_by_their_ends() {
    assert_eq!(classify(&chars_of("")), LineKind::Blank);
    assert_eq!(classify(&chars_of(";")), LineKind::Comment);
    assert_eq!(classify(&chars_of("; note:")), LineKind::Comment);
    assert_eq!(classify(&chars_of(":")), LineKind::Label);
    assert_eq!(classify(&chars_of("loop:")), LineKind::Label);
    assert_eq!(classify(&chars_of("goto 1 ; no comment:")), LineKind::Label);
    assert_eq!(classify(&chars_of("loop: ")), LineKind::Instruction);
    assert_eq!(classify(&chars_of(" ")), LineKind::Instruction);
    assert_eq!(classify(&chars_of(" ; indented")), LineKind::Instruction);
    assert_eq!(classify(&chars_of("goto 1")), LineKind::Instruction);
}

#[test]
fn a_line_of_white_space_is_no_blank_line() {
    let out = program("sys 1\n   \nsys 2");
    assert_eq!(out.bytes, [0x1E, 0, 0, 1]);
    assert_eq!(out.failure, failure(2, "   ", AsmError::NoGrammarMatch));
    let out = program("sys 1\r\nsys 2");
    assert_eq!(out.bytes, Vec::<u8>::new());
    assert_eq!(out.failure, failure(1, "sys 1\r", AsmError::NoGrammarMatch));
}

#[test]
fn a_label_is_its_line_without_indent_and_colon() {
    let mut scan = Assembler::new();
    assert_eq!(scan.feed("  deep:"), Ok(None));
    assert_eq!(scan.feed("wide :"), Ok(None));
    assert_eq!(scan.feed("two words:"), Ok(None));
    assert_eq!(scan.feed(":"), Ok(None));
    assert_eq!(scan.feed("caf\u{e9}:"), Ok(None));
    assert_eq!(scan.labels().get("deep"), Some(0));
    assert_eq!(scan.labels().get("  deep"), None);
    assert_eq!(scan.labels().get("wide "), Some(0));
    assert_eq!(scan.labels().get("wide"), None);
    assert_eq!(scan.labels().get("two words"), Some(0));
    assert_eq!(scan.labels().get(""), Some(0));
    assert_eq!(scan.labels().get("caf\u{e9}"), Some(0));
    assert_eq!(scan.feed("goto two words"), Ok(Some(Instruction::from(0x1C, 0, 0, 0))));
    assert_eq!(scan.feed("goto wide "), Ok(Some(Instruction::from(0x1C, 0, 0, 0))));
    assert_eq!(scan.count(), 2);
}

#[test]
fn a_long_program() {
    let mut lines: Vec<String> = Vec::new();
    let mut expected: Vec<u8> = Vec::new();
    for block in 0..500u16 {
        lines.push(format!("block{}:", block));
        lines.push(format!("copy16 @rg0, {}", block));
        lines.push("; back to the start of this block".to_string());
        lines.push(format!("jne block{}", block));
        expected.extend_from_slice(&[0x09, 0x70, (block >> 8) as u8, (block & 0xFF) as u8]);
        let index = 2 * block;
        expected.extend_from_slice(&[0x26, 0x00, (index >> 8) as u8, (index & 0xFF) as u8]);
    }
    let out = assemble_lines(&lines);
    assert_eq!(out.failure, None);
    assert_eq!(out.bytes, expected);
    let text = lines.join("\n");
    assert_eq!(assemble(&text).bytes, expected);
}

#[test]
fn a_text_is_cut_at_its_line_feeds() {
    let samples = [
        "",
        "\n",
        "\n\n",
        "a",
        "a\n",
        "\na",
        "a\nb",
        "a\n\nb\n",
        "goto 1\r\ngoto 2",
        "caf\u{e9}:\n\u{1f600}\n\u{a}\u{85}\u{2028}x",
        "; \u{10a}\u{a0a}\u{100a}\n\u{a00}",
    ];
    for text in samples {
        let expected: Vec<String> = text.split("\n").map(|line| line.to_string()).collect();
        assert_eq!(split_lines(text), expected);
        assert_eq!(split_lines(text).join("\n"), text);
    }
    assert_eq!(split_lines("one\ntwo\n"), ["one", "two", ""]);
}

#[test]
fn a_long_text_is_cut_in_good_time() {
    let mut text = String::new();
    for line in 0..200_000 {
        text.push_str("; line ");
        text.push_str(&line.to_string());
        text.push('\n');
    }
    let lines = split_lines(&text);
    assert_eq!(lines.len(), 200_001);
    assert_eq!(lines[199_999], "; line 199999");
    assert_eq!(lines[200_000], "");
    let out = assemble(&text);
    assert_eq!(out.failure, None);
    assert_eq!(out.bytes, Vec::<u8>::new());
}

#[test]
fn a_label_defined_again_moves() {
    let out = program("here:\ngoto here\nhere:\ngoto here\ngoto here");
    assert_eq!(out.failure, None);
    assert_eq!(out.bytes, [0x1C, 0, 0, 0, 0x1C, 0, 0, 1, 0x1C, 0, 0, 1]);
}

#[test]
fn feeding_line_by_line() {
    let mut scan = Assembler::new();
    assert_eq!(scan.count(), 0);
    assert_eq!(scan.feed(""), Ok(None));
    assert_eq!(scan.feed("; comment"), Ok(None));
    assert_eq!(scan.feed("cmp @rg0, 0x21"), Ok(Some(Instruction::from(0x20, 7, 0, 0x21))));
    assert_eq!(scan.count(), 1);
    assert_eq!(scan.feed("top:"), Ok(None));
    assert_eq!(scan.count(), 1);
    assert_eq!(scan.labels().get("top"), Some(1));
    // A line that fails changes nothing.
    assert_eq!(scan.feed("goto bottom"), Err(AsmError::UnresolvedLabel));
    assert_eq!(scan.count(), 1);
    assert_eq!(scan.feed("jge top"), Ok(Some(Instruction::from(0x21, 0, 0, 1))));
    assert_eq!(scan.count(), 2);
}

#[test]
fn a_scan_can_start_from_given_labels() {
    let mut table = LabelTable::new();
    table.insert("handler".to_string(), 0x0102);
    let mut scan = Assembler::with_labels(table, 0x0200);
    assert_eq!(scan.count(), 0x0200);
    assert_eq!(scan.feed("call handler"), Ok(Some(Instruction::from(0x1D, 0, 0, 0x0102))));
    assert_eq!(scan.feed("next:"), Ok(None));
    assert_eq!(scan.labels().get("next"), Some(0x0201));
}

#[test]
fn the_count_of_instructions_has_sixteen_bits() {
    let mut scan = Assembler::with_labels(LabelTable::new(), 65534);
    assert_eq!(scan.feed("sys 1"), Ok(Some(Instruction::from(0x1E, 0, 0, 1))));
    assert_eq!(scan.count(), 65535);
    assert_eq!(scan.feed("last:"), Ok(None));
    assert_eq!(scan.labels().get("last"), Some(65535));
    assert_eq!(scan.feed("; still fine"), Ok(None));
    assert_eq!(scan.feed("sys 2"), Err(AsmError::TooManyInstructions));
    assert_eq!(scan.count(), 65535);
    // What is wrong with the line itself is told first.
    assert_eq!(scan.feed("sys @nope"), Err(AsmError::UnknownRegister));
}
